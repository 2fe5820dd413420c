//! Character-level text helpers shared by the rest of the library.

use vstd::prelude::*;

verus! {

/// Code points that carry the Unicode `White_Space` property.
pub open spec fn is_space(c: char) -> bool {
    let n = c as u32;
    ||| 0x09 <= n <= 0x0D
    ||| n == 0x20
    ||| n == 0x85
    ||| n == 0xA0
    ||| n == 0x1680
    ||| 0x2000 <= n <= 0x200A
    ||| n == 0x2028
    ||| n == 0x2029
    ||| n == 0x202F
    ||| n == 0x205F
    ||| n == 0x3000
}

/// ASCII lower-casing of one character; everything outside `A..=Z` is kept.
pub open spec fn lower(c: char) -> char {
    if 'A' <= c <= 'Z' {
        ((c as u8) + 32) as char
    } else {
        c
    }
}

/// ASCII lower-casing of a whole text.
pub open spec fn lowered(s: Seq<char>) -> Seq<char> {
    Seq::new(s.len(), |i: int| lower(s[i]))
}

/// The text without its leading white space.
pub open spec fn trim_start(s: Seq<char>) -> Seq<char>
    decreases s.len(),
{
    if s.len() > 0 && is_space(s[0]) {
        trim_start(s.skip(1))
    } else {
        s
    }
}

/// The text without its trailing white space.
pub open spec fn trim_end(s: Seq<char>) -> Seq<char>
    decreases s.len(),
{
    if s.len() > 0 && is_space(s.last()) {
        trim_end(s.drop_last())
    } else {
        s
    }
}

/// The text without leading and trailing white space.
pub open spec fn trimmed(s: Seq<char>) -> Seq<char> {
    trim_end(trim_start(s))
}

/// The words of the text (maximal runs free of white space) joined by
/// single spaces, defined by the last character of the text.
pub open spec fn collapsed(s: Seq<char>) -> Seq<char>
    decreases s.len(),
{
    if s.len() == 0 {
        s
    } else if is_space(s.last()) {
        collapsed(s.drop_last())
    } else if s.len() > 1 && is_space(s[s.len() - 2]) && collapsed(s.drop_last()).len() > 0 {
        collapsed(s.drop_last()).push(' ').push(s.last())
    } else {
        collapsed(s.drop_last()).push(s.last())
    }
}

/// The view of an optional text.
pub open spec fn text_view(o: Option<String>) -> Option<Seq<char>> {
    match o {
        Some(s) => Some(s@),
        None => None,
    }
}

/// The views of a list of optional texts.
pub open spec fn text_views(values: Seq<Option<String>>) -> Seq<Option<Seq<char>>> {
    Seq::new(values.len(), |i: int| text_view(values[i]))
}

/// The first present, non-empty text of the list.
pub open spec fn first_filled(values: Seq<Option<Seq<char>>>) -> Option<Seq<char>>
    decreases values.len(),
{
    if values.len() == 0 {
        None
    } else if values[0] is Some && values[0]->0.len() > 0 {
        values[0]
    } else {
        first_filled(values.skip(1))
    }
}

/// The collapsed text, absent where nothing but white space was there.
pub open spec fn normalized(s: Seq<char>) -> Option<Seq<char>> {
    if collapsed(s).len() == 0 {
        None
    } else {
        Some(collapsed(s))
    }
}

/// The decimal digit for a value below ten.
pub open spec fn digit(d: nat) -> char {
    (('0' as u8) + (d as u8)) as char
}

/// The decimal notation of a number, without sign or leading zeros.
pub open spec fn decimal(n: nat) -> Seq<char>
    decreases n,
{
    if n < 10 {
        seq![digit(n)]
    } else {
        decimal(n / 10).push(digit(n % 10))
    }
}

/// The number that a run of ASCII digits denotes; `None` for an empty run or
/// one that holds anything else.
pub open spec fn digits_value(s: Seq<char>) -> Option<nat>
    decreases s.len(),
{
    if s.len() == 0 || !('0' <= s.last() <= '9') {
        None
    } else if s.len() == 1 {
        Some(((s.last() as u8) - ('0' as u8)) as nat)
    } else {
        match digits_value(s.drop_last()) {
            Some(v) => Some(v * 10 + ((s.last() as u8) - ('0' as u8)) as nat),
            None => None,
        }
    }
}

/// The number that an unsigned decimal text denotes: an optional `+`, then
/// one or more ASCII digits.
pub open spec fn decimal_value(s: Seq<char>) -> Option<nat> {
    if s.len() > 0 && s[0] == '+' {
        digits_value(s.skip(1))
    } else {
        digits_value(s)
    }
}

/// The `u64` that an unsigned decimal text denotes, if it fits.
pub open spec fn u64_of(s: Seq<char>) -> Option<u64> {
    match decimal_value(s) {
        Some(v) => if v <= u64::MAX {
            Some(v as u64)
        } else {
            None
        },
        None => None,
    }
}

/// The `usize` that an unsigned decimal text denotes, if it fits.
pub open spec fn usize_of(s: Seq<char>) -> Option<usize> {
    match decimal_value(s) {
        Some(v) => if v <= usize::MAX {
            Some(v as usize)
        } else {
            None
        },
        None => None,
    }
}

/// The characters of the text, in order.
pub fn chars_of(s: &str) -> (chars: Vec<char>)
    ensures
        chars@ == s@,
{
    let mut chars: Vec<char> = Vec::new();
    for c in it: s.chars()
        invariant
            it.seq() == s@,
            chars@ == s@.take(it.index() as int),
    {
        chars.push(c);
        assert(chars@ =~= s@.take(it.index() + 1));
    }
    assert(s@.take(s@.len() as int) =~= s@);
    chars
}

/// Calls `String::from_iter` on the characters: the text that they spell.
#[verifier::external_body]
pub(crate) fn text_of(chars: &Vec<char>) -> (s: String)
    ensures
        s@ == chars@,
{
    String::from_iter(chars.iter())
}

/// Whether two texts hold the same characters.
pub fn same_text(a: &str, b: &str) -> (same: bool)
    ensures
        same == (a@ == b@),
{
    let x = a.to_owned();
    let y = b.to_owned();
    x == y
}

fn push_decimal(n: u128, out: &mut Vec<char>)
    ensures
        final(out)@ == old(out)@ + decimal(n as nat),
    decreases n,
{
    if n >= 10 {
        push_decimal(n / 10, out);
    }
    let d: u8 = (n % 10) as u8;
    let ghost before = out@;
    out.push((48u8 + d) as char);
    proof {
        assert((48u8 + d) as char == digit((n % 10) as nat));
        if n >= 10 {
            assert(out@ =~= old(out)@ + decimal((n / 10) as nat).push(digit((n % 10) as nat)));
        } else {
            assert(out@ =~= old(out)@ + seq![digit(n as nat)]);
        }
    }
}

/// The number in decimal, without sign, separators or leading zeros.
pub fn decimal_text(n: u128) -> (s: String)
    ensures
        s@ == decimal(n as nat),
{
    let mut out: Vec<char> = Vec::new();
    push_decimal(n, &mut out);
    assert(out@ =~= decimal(n as nat));
    text_of(&out)
}

/// Reads an unsigned decimal number: an optional `+`, then one or more
/// ASCII digits. Any other text, and a number above `u64::MAX`, gives
/// `None`.
pub fn parse_u64(s: &str) -> (parsed: Option<u64>)
    ensures
        parsed == u64_of(s@),
{
    let chars = chars_of(s);
    let start: usize = if chars.len() > 0 && chars[0] == '+' {
        1
    } else {
        0
    };
    let ghost digits = chars@.skip(start as int);
    assert(decimal_value(s@) == digits_value(digits)) by {
        assert(chars@.skip(0) =~= chars@);
    }
    let mut value: u64 = 0;
    let mut valid: bool = true;
    let mut fits: bool = true;
    let ghost mut total: nat = 0;
    let mut i: usize = start;
    while i < chars.len()
        invariant
            start <= i <= chars.len(),
            digits == chars@.skip(start as int),
            i == start ==> valid && fits && value == 0 && total == 0,
            i > start ==> digits_value(digits.take(i - start)) == (if valid {
                Some(total)
            } else {
                None
            }),
            valid && fits ==> total == value,
            valid && !fits ==> total > u64::MAX,
        decreases chars.len() - i,
    {
        let c = chars[i];
        proof {
            let next = digits.take(i + 1 - start);
            assert(next.drop_last() =~= digits.take(i - start));
            assert(next.last() == c);
        }
        if !('0' <= c && c <= '9') {
            valid = false;
        } else if valid {
            let d: u64 = ((c as u8) - 48u8) as u64;
            proof {
                total = total * 10 + d as nat;
            }
            if fits {
                match value.checked_mul(10) {
                    Some(tens) => match tens.checked_add(d) {
                        Some(sum) => {
                            value = sum;
                        },
                        None => {
                            fits = false;
                        },
                    },
                    None => {
                        fits = false;
                    },
                }
            }
        }
        i += 1;
    }
    assert(digits.take(i - start) =~= digits);
    if i > start && valid && fits {
        Some(value)
    } else {
        None
    }
}

/// Reads an unsigned decimal number as `parse_u64` does, with `usize::MAX`
/// as the limit.
pub fn parse_usize(s: &str) -> (parsed: Option<usize>)
    ensures
        parsed == usize_of(s@),
{
    match parse_u64(s) {
        Some(v) => if v <= usize::MAX as u64 {
            Some(v as usize)
        } else {
            None
        },
        None => None,
    }
}

/// Whether the character is white space.
pub fn is_whitespace(c: char) -> (b: bool)
    ensures
        b == is_space(c),
{
    let n: u32 = c as u32;
    (0x09 <= n && n <= 0x0D) || n == 0x20 || n == 0x85 || n == 0xA0 || n == 0x1680 || (0x2000 <= n
        && n <= 0x200A) || n == 0x2028 || n == 0x2029 || n == 0x202F || n == 0x205F || n == 0x3000
}

/// A copy of an optional text.
pub fn copy_text(text: &Option<String>) -> (copy: Option<String>)
    ensures
        text_view(copy) == text_view(*text),
{
    match text {
        Some(s) => Some(s.clone()),
        None => None,
    }
}

/// ASCII lower-casing of one character.
pub fn to_lower(c: char) -> (l: char)
    ensures
        l == lower(c),
{
    if 'A' <= c && c <= 'Z' {
        ((c as u8) + 32) as char
    } else {
        c
    }
}

/// ASCII lower-casing of a text.
pub fn to_ascii_lowercase(s: &str) -> (l: String)
    ensures
        l@ == lowered(s@),
{
    let chars = chars_of(s);
    let mut out: Vec<char> = Vec::new();
    let mut i: usize = 0;
    while i < chars.len()
        invariant
            i <= chars.len(),
            out@ == lowered(chars@.take(i as int)),
        decreases chars.len() - i,
    {
        out.push(to_lower(chars[i]));
        i += 1;
        assert(out@ =~= lowered(chars@.take(i as int)));
    }
    assert(chars@.take(i as int) =~= chars@);
    text_of(&out)
}

/// Whether two texts are equal once both are lower-cased in ASCII.
pub fn eq_ignore_ascii_case(a: &str, b: &str) -> (same: bool)
    ensures
        same == (lowered(a@) == lowered(b@)),
{
    let x = chars_of(a);
    let y = chars_of(b);
    if x.len() != y.len() {
        assert(lowered(a@).len() != lowered(b@).len());
        return false;
    }
    let mut i: usize = 0;
    while i < x.len()
        invariant
            i <= x.len(),
            x.len() == y.len(),
            x@ == a@,
            y@ == b@,
            forall|j: int| 0 <= j < i ==> lower(x@[j]) == lower(y@[j]),
        decreases x.len() - i,
    {
        if to_lower(x[i]) != to_lower(y[i]) {
            assert(lowered(a@)[i as int] != lowered(b@)[i as int]);
            return false;
        }
        i += 1;
    }
    assert(lowered(a@) =~= lowered(b@));
    true
}

/// Whether the text starts with the given prefix.
pub fn starts_with(s: &Vec<char>, prefix: &Vec<char>) -> (yes: bool)
    ensures
        yes == prefix@.is_prefix_of(s@),
{
    if prefix.len() > s.len() {
        return false;
    }
    let mut i: usize = 0;
    while i < prefix.len()
        invariant
            i <= prefix.len() <= s.len(),
            forall|j: int| 0 <= j < i ==> s@[j] == prefix@[j],
        decreases prefix.len() - i,
    {
        if s[i] != prefix[i] {
            assert(s@.subrange(0, prefix@.len() as int)[i as int] != prefix@[i as int]);
            return false;
        }
        i += 1;
    }
    assert(s@.subrange(0, prefix@.len() as int) =~= prefix@);
    true
}

/// Whether the text ends with the given suffix.
pub fn ends_with(s: &Vec<char>, suffix: &Vec<char>) -> (yes: bool)
    ensures
        yes == suffix@.is_suffix_of(s@),
{
    if suffix.len() > s.len() {
        return false;
    }
    let shift: usize = s.len() - suffix.len();
    let mut i: usize = 0;
    while i < suffix.len()
        invariant
            i <= suffix.len() <= s.len(),
            shift == s.len() - suffix.len(),
            forall|j: int| 0 <= j < i ==> s@[shift + j] == suffix@[j],
        decreases suffix.len() - i,
    {
        if s[shift + i] != suffix[i] {
            assert(s@.subrange(shift as int, s@.len() as int)[i as int] != suffix@[i as int]);
            return false;
        }
        i += 1;
    }
    assert(s@.subrange(shift as int, s@.len() as int) =~= suffix@);
    true
}

/// The characters of `chars` from `from` up to `to`.
pub fn slice_of(chars: &Vec<char>, from: usize, to: usize) -> (part: Vec<char>)
    requires
        from <= to <= chars.len(),
    ensures
        part@ == chars@.subrange(from as int, to as int),
{
    let mut part: Vec<char> = Vec::new();
    let mut i: usize = from;
    while i < to
        invariant
            from <= i <= to <= chars.len(),
            part@ == chars@.subrange(from as int, i as int),
        decreases to - i,
    {
        part.push(chars[i]);
        i += 1;
        assert(part@ =~= chars@.subrange(from as int, i as int));
    }
    part
}

proof fn lemma_trim_start_skip(s: Seq<char>, k: int)
    requires
        0 <= k <= s.len(),
        forall|j: int| 0 <= j < k ==> is_space(s[j]),
    ensures
        trim_start(s) == trim_start(s.skip(k)),
    decreases k,
{
    if k > 0 {
        lemma_trim_start_skip(s.skip(1), k - 1);
        assert(s.skip(1).skip(k - 1) =~= s.skip(k));
    } else {
        assert(s.skip(0) =~= s);
    }
}

proof fn lemma_trim_end_take(s: Seq<char>, k: int)
    requires
        0 <= k <= s.len(),
        forall|j: int| k <= j < s.len() ==> is_space(s[j]),
    ensures
        trim_end(s) == trim_end(s.take(k)),
    decreases s.len() - k,
{
    if k < s.len() {
        lemma_trim_end_take(s.drop_last(), k);
        assert(s.drop_last().take(k) =~= s.take(k));
    } else {
        assert(s.take(k) =~= s);
    }
}

/// The text without leading and trailing white space.
pub fn trim(s: &str) -> (t: String)
    ensures
        t@ == trimmed(s@),
{
    let chars = chars_of(s);
    let mut start: usize = 0;
    while start < chars.len() && is_whitespace(chars[start])
        invariant
            start <= chars.len(),
            forall|j: int| 0 <= j < start ==> is_space(chars@[j]),
        decreases chars.len() - start,
    {
        start += 1;
    }
    let mut end: usize = chars.len();
    while end > start && is_whitespace(chars[end - 1])
        invariant
            start <= end <= chars.len(),
            forall|j: int| end <= j < chars.len() ==> is_space(chars@[j]),
        decreases end,
    {
        end -= 1;
    }
    let part = slice_of(&chars, start, end);
    proof {
        let rest = chars@.skip(start as int);
        lemma_trim_start_skip(chars@, start as int);
        assert(trim_start(chars@) == rest);
        lemma_trim_end_take(rest, end - start);
        assert(rest.take(end - start) =~= part@);
        assert(trim_end(part@) == part@);
    }
    text_of(&part)
}

/// A collapsed text is tidy: it neither starts nor ends with white space,
/// its only white space is the plain space, never two in a row, and it is
/// empty exactly when the text held nothing but white space.
pub proof fn lemma_collapsed_is_tidy(s: Seq<char>)
    ensures
        collapsed(s).len() > 0 ==> !is_space(collapsed(s)[0]) && !is_space(collapsed(s).last()),
        forall|i: int|
            0 <= i < collapsed(s).len() && is_space(#[trigger] collapsed(s)[i]) ==> collapsed(s)[i]
                == ' ' && 0 < i < collapsed(s).len() - 1 && !is_space(collapsed(s)[i + 1]),
        collapsed(s).len() == 0 <==> (forall|i: int| 0 <= i < s.len() ==> is_space(#[trigger] s[i])),
    decreases s.len(),
{
    if s.len() > 0 {
        let init = s.drop_last();
        lemma_collapsed_is_tidy(init);
        let c0 = collapsed(init);
        let c = collapsed(s);
        assert(is_space(' '));
        assert forall|i: int| 0 <= i < init.len() implies init[i] == s[i] by {}
        if is_space(s.last()) {
            assert((forall|i: int| 0 <= i < s.len() ==> is_space(#[trigger] s[i])) <==> (forall|
                i: int,
            | 0 <= i < init.len() ==> is_space(#[trigger] init[i]))) by {
                if forall|i: int| 0 <= i < init.len() ==> is_space(#[trigger] init[i]) {
                    assert forall|i: int| 0 <= i < s.len() implies is_space(#[trigger] s[i]) by {
                        if i < init.len() {
                            assert(is_space(init[i]));
                        }
                    }
                }
                if forall|i: int| 0 <= i < s.len() ==> is_space(#[trigger] s[i]) {
                    assert forall|i: int| 0 <= i < init.len() implies is_space(
                        #[trigger] init[i],
                    ) by {
                        assert(is_space(s[i]));
                    }
                }
            }
        } else {
            assert(!is_space(s[s.len() - 1]));
            assert forall|i: int| 0 <= i < c.len() && is_space(#[trigger] c[i]) implies c[i] == ' '
                && 0 < i < c.len() - 1 && !is_space(c[i + 1]) by {
                if i < c0.len() {
                    assert(c[i] == c0[i]);
                    assert(is_space(c0[i]));
                    assert(c[i + 1] == c0[i + 1]);
                }
            }
        }
    }
}

/// Trims the text and collapses every run of white space inside it to one
/// space; a text that holds nothing else is absent.
pub fn normalize_text(value: String) -> (cleaned: Option<String>)
    ensures
        text_view(cleaned) == normalized(value@),
{
    let chars = chars_of(value.as_str());
    let mut out: Vec<char> = Vec::new();
    let mut after_space: bool = false;
    let mut i: usize = 0;
    while i < chars.len()
        invariant
            i <= chars.len(),
            out@ == collapsed(chars@.take(i as int)),
            after_space == (i > 0 && is_space(chars@[i - 1])),
        decreases chars.len() - i,
    {
        let c = chars[i];
        proof {
            let next = chars@.take(i + 1);
            assert(next.drop_last() =~= chars@.take(i as int));
            assert(next.last() == c);
        }
        if is_whitespace(c) {
            after_space = true;
        } else {
            if after_space && out.len() > 0 {
                out.push(' ');
            }
            out.push(c);
            after_space = false;
        }
        i += 1;
    }
    assert(chars@.take(i as int) =~= chars@);
    if out.len() == 0 {
        None
    } else {
        Some(text_of(&out))
    }
}

/// The first value of the list that is present and not empty.
pub fn first_non_empty(values: Vec<Option<String>>) -> (found: Option<String>)
    ensures
        text_view(found) == first_filled(text_views(values@)),
{
    let ghost all = text_views(values@);
    let mut i: usize = 0;
    assert(all.skip(0) =~= all);
    while i < values.len()
        invariant
            i <= values.len(),
            all == text_views(values@),
            first_filled(all) == first_filled(all.skip(i as int)),
        decreases values.len() - i,
    {
        proof {
            assert(all.skip(i as int).skip(1) =~= all.skip(i + 1));
            assert(all.skip(i as int)[0] == text_view(values@[i as int]));
        }
        match &values[i] {
            Some(text) => {
                if !text.as_str().is_empty() {
                    return Some(text.clone());
                }
            },
            None => {},
        }
        i += 1;
    }
    None
}

} // verus!
