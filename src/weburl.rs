//! Web addresses, kept in the serialized form that the URL parser gives them.

use vstd::prelude::*;

verus! {

/// What `url::Url::parse` makes of a text: its serialization when the text is
/// an absolute URL, `None` when it refuses it.
pub uninterp spec fn url_serialization(s: Seq<char>) -> Option<Seq<char>>;

/// Relies on `url::Url::parse`, and on `From<Url> for String`, which hands
/// back the serialization of the parsed URL.
#[verifier::external_body]
fn parse_url(s: &str) -> (r: Option<String>)
    ensures
        match r {
            Some(t) => url_serialization(s@) == Some(t@),
            None => url_serialization(s@) is None,
        },
{
    match url::Url::parse(s) {
        Ok(u) => Some(String::from(u)),
        Err(_) => None,
    }
}

/// An absolute URL, in its serialized form.
#[derive(Debug, Clone, PartialEq, Eq, Hash)]
pub struct WebUrl {
    serialization: String,
}

impl View for WebUrl {
    type V = Seq<char>;

    closed spec fn view(&self) -> Seq<char> {
        self.serialization@
    }
}

impl WebUrl {
    /// The serialized text of the URL.
    pub closed spec fn text(self) -> String {
        self.serialization
    }

    /// Parses an absolute URL; `None` when the URL parser refuses the text.
    pub fn parse(s: &str) -> (r: Option<WebUrl>)
        ensures
            match r {
                Some(u) => url_serialization(s@) == Some(u@) && u.text()@ == u@,
                None => url_serialization(s@) is None,
            },
    {
        match parse_url(s) {
            Some(t) => Some(WebUrl { serialization: t }),
            None => None,
        }
    }

    /// The serialized text of the URL.
    pub fn as_str(&self) -> (r: &str)
        ensures
            r@ == self@,
    {
        self.serialization.as_str()
    }

    /// A copy of the serialized text.
    pub fn to_text(&self) -> (r: String)
        ensures
            r == self.text(),
            r@ == self@,
    {
        self.serialization.clone()
    }
}

} // verus!
