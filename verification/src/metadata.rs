//! Social-preview metadata of an HTML page: title, description and image,
//! each taken from the first source that has one.

use vstd::prelude::*;
use crate::target::{resolve_maybe_relative_url, resolved_reference, TargetUrl};
use crate::text::{
    eq_ignore_ascii_case,
    first_filled,
    first_non_empty,
    lowered,
    normalize_text,
    normalized,
    text_view,
    text_views,
};

verus! {

/// One `<meta>` element: the value of the attribute that names it, and the
/// value of its `content` attribute.
#[derive(Clone, Debug)]
pub struct MetaTag {
    pub key: Option<String>,
    pub content: Option<String>,
}

/// What a page says of itself.
#[derive(Clone, Debug)]
pub struct ExtractedMetadata {
    pub title: Option<String>,
    pub description: Option<String>,
    pub image: Option<String>,
}

/// A `<meta>` element as a pair of optional texts: key, then content.
pub type TagPair = (Option<Seq<char>>, Option<Seq<char>>);

/// The views of a list of `<meta>` elements.
pub open spec fn tag_views(tags: Seq<MetaTag>) -> Seq<TagPair> {
    Seq::new(tags.len(), |i: int| (text_view(tags[i].key), text_view(tags[i].content)))
}

/// The `<meta>` elements of the document that the `scraper` crate parses
/// from a text, in document order, each read by the named attribute and by
/// `content`.
pub uninterp spec fn document_meta_tags(document_html: Seq<char>, attribute: Seq<char>) -> Seq<
    TagPair,
>;

/// The text inside the first `<title>` element of the document that the
/// `scraper` crate parses from a text.
pub uninterp spec fn document_title_text(document_html: Seq<char>) -> Option<Seq<char>>;

/// Calls `scraper::Html::parse_document`, selects `meta` with
/// `scraper::Selector::parse` and `Html::select`, and reads two attributes
/// of each element with `Element::attr`. The contract claims only that the
/// list is a function of the two texts.
#[verifier::external_body]
pub(crate) fn meta_tags(document_html: &str, attribute: &str) -> (tags: Vec<MetaTag>)
    ensures
        tag_views(tags@) == document_meta_tags(document_html@, attribute@),
{
    let document = scraper::Html::parse_document(document_html);
    let Ok(selector) = scraper::Selector::parse("meta") else {
        return Vec::new();
    };
    document.select(&selector).map(|element| MetaTag {
        key: element.value().attr(attribute).map(String::from),
        content: element.value().attr("content").map(String::from),
    }).collect()
}

/// Calls `scraper::Html::parse_document`, selects `title`, and joins the
/// text nodes under the first match with `ElementRef::text`. The contract
/// claims only that the result is a function of the text.
#[verifier::external_body]
pub(crate) fn title_text(document_html: &str) -> (title: Option<String>)
    ensures
        text_view(title) == document_title_text(document_html@),
{
    let document = scraper::Html::parse_document(document_html);
    let selector = scraper::Selector::parse("title").ok()?;
    let element = document.select(&selector).next()?;
    Some(element.text().collect::<String>())
}

/// Whether the element is named `wanted`, ASCII case ignored, and has
/// content that is more than white space.
pub open spec fn tag_matches(tag: TagPair, wanted: Seq<char>) -> bool {
    &&& tag.0 is Some
    &&& lowered(tag.0->0) == lowered(wanted)
    &&& tag.1 is Some
    &&& normalized(tag.1->0) is Some
}

/// The normalised content of the first element that matches.
pub open spec fn meta_lookup(tags: Seq<TagPair>, wanted: Seq<char>) -> Option<Seq<char>>
    decreases tags.len(),
{
    if tags.len() == 0 {
        None
    } else if tag_matches(tags[0], wanted) {
        normalized(tags[0].1->0)
    } else {
        meta_lookup(tags.skip(1), wanted)
    }
}

/// The normalised title text, where there is one.
pub open spec fn title_from(title_text: Option<Seq<char>>) -> Option<Seq<char>> {
    match title_text {
        Some(t) => normalized(t),
        None => None,
    }
}

/// The title: `og:title`, else `twitter:title`, else the `<title>` element.
pub open spec fn title_of(
    property_tags: Seq<TagPair>,
    name_tags: Seq<TagPair>,
    title_text: Option<Seq<char>>,
) -> Option<Seq<char>> {
    first_filled(
        seq![
            meta_lookup(property_tags, "og:title"@),
            meta_lookup(name_tags, "twitter:title"@),
            title_from(title_text),
        ],
    )
}

/// The description: `og:description`, else `twitter:description`, else the
/// plain `description`.
pub open spec fn description_of(property_tags: Seq<TagPair>, name_tags: Seq<TagPair>) -> Option<
    Seq<char>,
> {
    first_filled(
        seq![
            meta_lookup(property_tags, "og:description"@),
            meta_lookup(name_tags, "twitter:description"@),
            meta_lookup(name_tags, "description"@),
        ],
    )
}

/// The image: `og:image`, else `twitter:image`, made absolute against the
/// base.
pub open spec fn image_of(property_tags: Seq<TagPair>, name_tags: Seq<TagPair>, base: Seq<char>)
    -> Option<Seq<char>> {
    match first_filled(
        seq![meta_lookup(property_tags, "og:image"@), meta_lookup(name_tags, "twitter:image"@)],
    ) {
        Some(value) => resolved_reference(base, value),
        None => None,
    }
}

/// The normalised content of the first element of `tags` whose key equals
/// `attribute_value`, ASCII case ignored, and whose content is more than
/// white space.
pub fn meta_content_in(tags: &Vec<MetaTag>, attribute_value: &str) -> (content: Option<String>)
    ensures
        text_view(content) == meta_lookup(tag_views(tags@), attribute_value@),
{
    let ghost all = tag_views(tags@);
    let mut i: usize = 0;
    assert(all.skip(0) =~= all);
    while i < tags.len()
        invariant
            i <= tags.len(),
            all == tag_views(tags@),
            meta_lookup(all, attribute_value@) == meta_lookup(all.skip(i as int), attribute_value@),
        decreases tags.len() - i,
    {
        proof {
            assert(all.skip(i as int).skip(1) =~= all.skip(i + 1));
            assert(all.skip(i as int)[0] == all[i as int]);
        }
        let tag = &tags[i];
        let named = match &tag.key {
            Some(key) => eq_ignore_ascii_case(key.as_str(), attribute_value),
            None => false,
        };
        if named {
            match &tag.content {
                Some(content) => {
                    let cleaned = normalize_text(content.clone());
                    if cleaned.is_some() {
                        return cleaned;
                    }
                },
                None => {},
            }
        }
        i += 1;
    }
    None
}

/// The content of the first `<meta>` element of the page whose `attribute`
/// is `attribute_value`.
pub fn meta_content(document_html: &str, attribute: &str, attribute_value: &str) -> (content:
    Option<String>)
    ensures
        text_view(content) == meta_lookup(
            document_meta_tags(document_html@, attribute@),
            attribute_value@,
        ),
{
    let tags = meta_tags(document_html, attribute);
    meta_content_in(&tags, attribute_value)
}

/// The normalised text of a `<title>` element.
pub fn title_from_text(title_text: Option<String>) -> (title: Option<String>)
    ensures
        text_view(title) == title_from(text_view(title_text)),
{
    match title_text {
        Some(text) => normalize_text(text),
        None => None,
    }
}

/// The normalised text of the page's first `<title>` element.
pub fn document_title(document_html: &str) -> (title: Option<String>)
    ensures
        text_view(title) == title_from(document_title_text(document_html@)),
{
    title_from_text(title_text(document_html))
}

/// Picks title, description and image from the elements of a page.
/// `property_tags` holds the `<meta>` elements read by `property`,
/// `name_tags` the same elements read by `name`.
pub fn metadata_from_parts(
    property_tags: &Vec<MetaTag>,
    name_tags: &Vec<MetaTag>,
    title_text: Option<String>,
    base_url: &TargetUrl,
) -> (metadata: ExtractedMetadata)
    ensures
        text_view(metadata.title) == title_of(
            tag_views(property_tags@),
            tag_views(name_tags@),
            text_view(title_text),
        ),
        text_view(metadata.description) == description_of(
            tag_views(property_tags@),
            tag_views(name_tags@),
        ),
        text_view(metadata.image) == image_of(
            tag_views(property_tags@),
            tag_views(name_tags@),
            base_url@.href,
        ),
{
    let titles = vec![
        meta_content_in(property_tags, "og:title"),
        meta_content_in(name_tags, "twitter:title"),
        title_from_text(title_text),
    ];
    assert(text_views(titles@) =~= seq![
        meta_lookup(tag_views(property_tags@), "og:title"@),
        meta_lookup(tag_views(name_tags@), "twitter:title"@),
        title_from(text_view(title_text)),
    ]);
    let title = first_non_empty(titles);
    let descriptions = vec![
        meta_content_in(property_tags, "og:description"),
        meta_content_in(name_tags, "twitter:description"),
        meta_content_in(name_tags, "description"),
    ];
    assert(text_views(descriptions@) =~= seq![
        meta_lookup(tag_views(property_tags@), "og:description"@),
        meta_lookup(tag_views(name_tags@), "twitter:description"@),
        meta_lookup(tag_views(name_tags@), "description"@),
    ]);
    let description = first_non_empty(descriptions);
    let images = vec![
        meta_content_in(property_tags, "og:image"),
        meta_content_in(name_tags, "twitter:image"),
    ];
    assert(text_views(images@) =~= seq![
        meta_lookup(tag_views(property_tags@), "og:image"@),
        meta_lookup(tag_views(name_tags@), "twitter:image"@),
    ]);
    let image = match first_non_empty(images) {
        Some(value) => resolve_maybe_relative_url(base_url, value.as_str()),
        None => None,
    };
    ExtractedMetadata { title, description, image }
}

/// Extracts title, description and image from the text of an HTML page.
pub fn extract_metadata(document_html: &str, base_url: &TargetUrl) -> (metadata:
    ExtractedMetadata)
    ensures
        text_view(metadata.title) == title_of(
            document_meta_tags(document_html@, "property"@),
            document_meta_tags(document_html@, "name"@),
            document_title_text(document_html@),
        ),
        text_view(metadata.description) == description_of(
            document_meta_tags(document_html@, "property"@),
            document_meta_tags(document_html@, "name"@),
        ),
        text_view(metadata.image) == image_of(
            document_meta_tags(document_html@, "property"@),
            document_meta_tags(document_html@, "name"@),
            base_url@.href,
        ),
{
    let property_tags = meta_tags(document_html, "property");
    let name_tags = meta_tags(document_html, "name");
    let title = title_text(document_html);
    metadata_from_parts(&property_tags, &name_tags, title, base_url)
}

} // verus!
