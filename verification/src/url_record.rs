use vstd::prelude::*;
use vstd::string::StrSliceExecFns;

use crate::error::LinkError;

verus! {

/// Whether `url::Url::parse` accepts a string as an absolute URL; a
/// function of the string alone.
pub uninterp spec fn url_accepts(s: Seq<char>) -> bool;

/// The serialization of the URL that `url::Url::parse` reads out of an
/// accepted string; a function of the string alone.
pub uninterp spec fn url_serialization(s: Seq<char>) -> Seq<char>;

/// The host component, if any, of the URL that `url::Url::parse` reads out
/// of an accepted string; a function of the string alone.
pub uninterp spec fn url_host(s: Seq<char>) -> Option<Seq<char>>;

/// An absolute URL as the library reads it: its serialization and its host
/// component, both fixed when the text was parsed.
#[derive(Debug)]
pub struct ParsedUrl {
    pub text: String,
    pub host: Option<String>,
}

/// The mathematical content of a `ParsedUrl`.
pub ghost struct UrlView {
    pub text: Seq<char>,
    pub host: Option<Seq<char>>,
}

impl View for ParsedUrl {
    type V = UrlView;

    open spec fn view(&self) -> UrlView {
        UrlView {
            text: self.text@,
            host: match self.host {
                Some(h) => Some(h@),
                None => None,
            },
        }
    }
}

/// Relies on `url::Url::parse`, `url::Url::as_str` and `url::Url::host_str`:
/// whether a string parses as an absolute URL, the parsed URL's
/// serialization, and its host component each depend on the string alone.
#[verifier::external_body]
fn parse_url(s: &str) -> (r: Option<ParsedUrl>)
    ensures
        r is Some <==> url_accepts(s@),
        r is Some ==> (r->0)@ == (UrlView { text: url_serialization(s@), host: url_host(s@) }),
{
    match url::Url::parse(s) {
        Ok(u) => {
            let host = match u.host_str() {
                Some(h) => Some(h.to_owned()),
                None => None,
            };
            Some(ParsedUrl { text: u.as_str().to_owned(), host })
        }
        Err(_) => None,
    }
}

impl ParsedUrl {
    /// Parse an absolute URL out of a string; rejected strings give nothing.
    pub fn parse(s: &str) -> (r: Option<ParsedUrl>)
        ensures
            r is Some <==> url_accepts(s@),
            r is Some ==> (r->0)@ == (UrlView { text: url_serialization(s@), host: url_host(s@) }),
    {
        parse_url(s)
    }
}

impl Clone for ParsedUrl {
    fn clone(&self) -> (r: Self)
        ensures
            r == *self,
    {
        ParsedUrl {
            text: self.text.clone(),
            host: match &self.host {
                Some(h) => Some(h.clone()),
                None => None,
            },
        }
    }
}

impl PartialEq for ParsedUrl {
    fn eq(&self, other: &Self) -> (r: bool) {
        self.text == other.text && match (&self.host, &other.host) {
            (Some(a), Some(b)) => *a == *b,
            (None, None) => true,
            _ => false,
        }
    }
}

impl vstd::std_specs::cmp::PartialEqSpecImpl for ParsedUrl {
    open spec fn obeys_eq_spec() -> bool {
        true
    }

    open spec fn eq_spec(&self, other: &Self) -> bool {
        self@ == other@
    }
}

/// A URL paired with its derived shortcut. The shortcut is empty until
/// `shorten` has succeeded; it is then the host component of `origin`.
/// Identity is the origin alone: the shortcut takes no part in equality.
#[derive(Debug)]
pub struct Url {
    pub origin: ParsedUrl,
    pub shortcut: String,
}

impl Url {
    /// A record over `origin` whose shortcut is not yet derived.
    pub fn new(origin: ParsedUrl) -> (r: Self)
        ensures
            r.origin == origin,
            r.shortcut@.len() == 0,
    {
        Url { origin, shortcut: String::new() }
    }

    /// Whether `origin` has a non-empty host component to shorten to.
    pub open spec fn has_host(self) -> bool {
        self.origin@.host is Some && (self.origin@.host->0).len() > 0
    }

    /// The host component of `origin`.
    pub open spec fn spec_host(self) -> Seq<char>
        recommends
            self.has_host(),
    {
        self.origin@.host->0
    }

    /// Derive the shortcut from the host of `origin`.
    ///
    /// Succeeds, answering `true`, exactly when `origin` has a non-empty
    /// host, which becomes the shortcut; a hostless origin leaves the record
    /// unchanged and reports `HostlessUrl`.
    pub fn shorten(&mut self) -> (r: Result<bool, LinkError>)
        ensures
            old(self).has_host() ==> {
                &&& r == Ok::<bool, LinkError>(true)
                &&& final(self).shortcut@ == old(self).spec_host()
                &&& final(self).origin == old(self).origin
            },
            !old(self).has_host() ==> {
                &&& r == Err::<bool, LinkError>(LinkError::HostlessUrl)
                &&& *final(self) == *old(self)
            },
    {
        let host: Option<String> = match &self.origin.host {
            Some(h) => Some(h.clone()),
            None => None,
        };
        match host {
            Some(h) => {
                if h.as_str().unicode_len() > 0 {
                    self.shortcut = h;
                    Ok(true)
                } else {
                    Err(LinkError::HostlessUrl)
                }
            },
            None => Err(LinkError::HostlessUrl),
        }
    }

    /// The serialization of `origin`, for presentation beside the shortcut.
    /// A record must have been shortened before it is rendered.
    pub fn render(&self) -> (r: String)
        requires
            self.shortcut@.len() > 0,
        ensures
            r == self.origin.text,
    {
        self.origin.text.clone()
    }

    /// Whether a raw string equals this record's origin serialization;
    /// the shortcut takes no part in the comparison.
    pub fn origin_is(&self, s: &str) -> (r: bool)
        ensures
            r == (self.origin.text@ == s@),
    {
        self.origin.text == s.to_owned()
    }
}

impl PartialEq for Url {
    fn eq(&self, other: &Self) -> (r: bool) {
        self.origin == other.origin
    }
}

impl vstd::std_specs::cmp::PartialEqSpecImpl for Url {
    open spec fn obeys_eq_spec() -> bool {
        true
    }

    open spec fn eq_spec(&self, other: &Self) -> bool {
        self.origin@ == other.origin@
    }
}

impl PartialEq<Url> for ParsedUrl {
    fn eq(&self, other: &Url) -> (r: bool) {
        *self == other.origin
    }
}

impl vstd::std_specs::cmp::PartialEqSpecImpl<Url> for ParsedUrl {
    open spec fn obeys_eq_spec() -> bool {
        true
    }

    open spec fn eq_spec(&self, other: &Url) -> bool {
        self@ == other.origin@
    }
}

impl From<Url> for String {
    fn from(value: Url) -> (r: String) {
        value.origin.text
    }
}

impl vstd::std_specs::convert::FromSpecImpl<Url> for String {
    open spec fn obeys_from_spec() -> bool {
        true
    }

    open spec fn from_spec(value: Url) -> String {
        value.origin.text
    }
}

} // verus!
