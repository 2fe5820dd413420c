//! The preview payload handed back to callers.

use vstd::prelude::*;
use crate::text::{copy_text, text_view};

verus! {

/// The result of one preview request.
#[derive(Clone, Debug)]
pub struct PreviewPayload {
    pub ok: bool,
    pub url: Option<String>,
    pub title: Option<String>,
    pub description: Option<String>,
    pub image: Option<String>,
    pub error: Option<String>,
}

/// The mathematical value of a payload.
pub struct PayloadView {
    pub ok: bool,
    pub url: Option<Seq<char>>,
    pub title: Option<Seq<char>>,
    pub description: Option<Seq<char>>,
    pub image: Option<Seq<char>>,
    pub error: Option<Seq<char>>,
}

impl View for PreviewPayload {
    type V = PayloadView;

    open spec fn view(&self) -> PayloadView {
        PayloadView {
            ok: self.ok,
            url: text_view(self.url),
            title: text_view(self.title),
            description: text_view(self.description),
            image: text_view(self.image),
            error: text_view(self.error),
        }
    }
}

impl PreviewPayload {
    /// The payload of a failed request: not ok, with the message and
    /// nothing else.
    pub fn error(message: &str) -> (payload: PreviewPayload)
        ensures
            payload@ == (PayloadView {
                ok: false,
                url: None,
                title: None,
                description: None,
                image: None,
                error: Some(message@),
            }),
    {
        PreviewPayload {
            ok: false,
            url: None,
            title: None,
            description: None,
            image: None,
            error: Some(message.to_owned()),
        }
    }

    /// A copy with the same value.
    pub fn duplicate(&self) -> (copy: PreviewPayload)
        ensures
            copy@ == self@,
    {
        PreviewPayload {
            ok: self.ok,
            url: copy_text(&self.url),
            title: copy_text(&self.title),
            description: copy_text(&self.description),
            image: copy_text(&self.image),
            error: copy_text(&self.error),
        }
    }
}

} // verus!
