//! Where the router reads the current URL from.
use crate::strs::empty_or_slash;
use vstd::prelude::*;
use vstd::string::*;

verus! {

/// The parts of a URL that routing reads.
#[derive(Debug, Clone, PartialEq, Eq)]
pub struct Url {
    pub origin: String,
    pub pathname: String,
    pub search: String,
    pub hash: String,
}

/// The mathematical content of a URL.
pub struct UrlView {
    pub origin: Seq<char>,
    pub pathname: Seq<char>,
    pub search: Seq<char>,
    pub hash: Seq<char>,
}

impl View for Url {
    type V = UrlView;

    open spec fn view(&self) -> UrlView {
        UrlView {
            origin: self.origin@,
            pathname: self.pathname@,
            search: self.search@,
            hash: self.hash@,
        }
    }
}

impl Default for Url {
    fn default() -> (r: Self)
        ensures
            r@.origin.len() == 0,
            r@.pathname.len() == 0,
            r@.search.len() == 0,
            r@.hash.len() == 0,
    {
        Url { origin: String::new(), pathname: String::new(), search: String::new(), hash: String::new() }
    }
}

/// Why a location could not be read as a URL.
#[derive(Debug, Clone, Copy, PartialEq, Eq)]
pub enum LocationError {
    /// The text is not a valid absolute URL.
    InvalidUrl,
}

/// A source of the current URL.
pub trait Location {
    /// The URL this location denotes, if it denotes one.
    spec fn spec_url(&self) -> Option<UrlView>;

    /// Reads the URL. The path of a URL read is empty or starts with `/`.
    fn try_to_url(&self) -> (r: Result<Url, LocationError>)
        ensures
            match r {
                Ok(u) => self.spec_url() == Some(u@) && empty_or_slash(u@.pathname),
                Err(_) => self.spec_url() is None,
            },
    ;

    fn try_into_url(self) -> (r: Result<Url, LocationError>)
        where Self: Sized
        ensures
            match r {
                Ok(u) => self.spec_url() == Some(u@) && empty_or_slash(u@.pathname),
                Err(_) => self.spec_url() is None,
            },
    {
        self.try_to_url()
    }
}

#[verifier::external_type_specification]
#[verifier::external_body]
pub struct ExUrlParseError(url::ParseError);

/// The serialized origin, the path and the query (if any) of the URL that
/// `url::Url::parse` reads from the given text, or `None` when it rejects the
/// text.
pub uninterp spec fn url_parts(input: Seq<char>) -> Option<(Seq<char>, Seq<char>, Option<Seq<char>>)>;

/// `http://`, the start of every request URL.
pub open spec fn http_prefix() -> Seq<char> {
    seq!['h', 't', 't', 'p', ':', '/', '/']
}

/// The parts `url::Url::parse` gives: the origin, the path and the query.
pub struct UrlParts {
    pub origin: String,
    pub path: String,
    pub query: Option<String>,
}

/// The view of an optional string.
pub open spec fn opt_text(o: Option<String>) -> Option<Seq<char>> {
    match o {
        Some(s) => Some(s@),
        None => None,
    }
}

/// Calls `url::Url::parse` and reads the parsed URL's `origin()` (as its
/// Unicode serialization), `path()` and `query()`.
///
/// Claimed: the parts read are those named by `url_parts` for the input, and
/// the call fails exactly when `url_parts` is `None`. For input that starts
/// with `http://` the path starts with `/`: the crate documents that `path()`
/// starts with `/` for every URL that is not cannot-be-a-base, and that a URL
/// is cannot-be-a-base only when its scheme and `:` are not followed by `/`.
#[verifier::external_body]
fn parse_url(input: &str) -> (r: Result<UrlParts, url::ParseError>)
    ensures
        match r {
            Ok(p) => {
                &&& url_parts(input@) == Some((p.origin@, p.path@, opt_text(p.query)))
                &&& input@.len() >= 7 && input@.take(7) == http_prefix() ==> empty_or_slash(
                    p.path@,
                )
            },
            Err(_) => url_parts(input@) is None,
        },
{
    match url::Url::parse(input) {
        Ok(u) => Ok(UrlParts {
            origin: u.origin().unicode_serialization(),
            path: u.path().to_string(),
            query: u.query().map(String::from),
        }),
        Err(e) => Err(e),
    }
}

/// The base every request path is resolved against.
pub open spec fn base_url() -> Seq<char> {
    seq!['h', 't', 't', 'p', ':', '/', '/', 'l', 'e', 'p', 't', 'o', 's', '.', 'd', 'e', 'v', '/']
}

/// The URL a request path denotes when resolved against the base.
/// The query is empty when the URL has none, and the hash is always empty.
pub open spec fn request_url(text: Seq<char>) -> Option<UrlView> {
    match url_parts(text) {
        Some((origin, pathname, query)) => Some(
            UrlView {
                origin,
                pathname,
                search: match query {
                    Some(q) => q,
                    None => Seq::empty(),
                },
                hash: Seq::empty(),
            },
        ),
        None => None,
    }
}

/// The URL of a request on the server, made from its path.
#[derive(Debug, PartialEq, Eq)]
pub struct RequestUrl(String);

impl RequestUrl {
    #[verifier::type_invariant]
    spec fn based(self) -> bool {
        self.0@.len() >= base_url().len() && self.0@.take(base_url().len() as int) == base_url()
    }

    /// The full text of the URL.
    pub closed spec fn text(&self) -> Seq<char> {
        self.0@
    }

    /// The URL of the given path resolved against the base.
    pub fn from_path(path: &str) -> (r: Self)
        ensures
            r.text() == base_url() + path@,
    {
        let mut string = String::new();
        string.append("http://leptos.dev/");
        string.append(path);
        proof {
            reveal_strlit("http://leptos.dev/");
            assert(string@ =~= base_url() + path@);
            assert(string@.take(base_url().len() as int) =~= base_url());
        }
        RequestUrl(string)
    }
}

impl Default for RequestUrl {
    /// The base URL itself.
    fn default() -> (r: Self)
        ensures
            r.text() == base_url(),
    {
        let s = String::from_str("http://leptos.dev/");
        proof {
            reveal_strlit("http://leptos.dev/");
            assert(s@ =~= base_url());
            assert(s@.take(base_url().len() as int) =~= base_url());
        }
        RequestUrl(s)
    }
}

impl Location for RequestUrl {
    open spec fn spec_url(&self) -> Option<UrlView> {
        request_url(self.text())
    }

    fn try_to_url(&self) -> (r: Result<Url, LocationError>) {
        proof {
            use_type_invariant(self);
            assert(self.0@.take(7) =~= http_prefix()) by {
                assert(self.0@.take(7) =~= self.0@.take(base_url().len() as int).take(7));
            }
        }
        let text = self.0.as_str();
        match parse_url(text) {
            Ok(UrlParts { origin, path, query }) => {
                assert(text@.len() >= 7 && text@.take(7) == http_prefix());
                let search = match query {
                    Some(q) => q,
                    None => String::new(),
                };
                let u = Url { origin, pathname: path, search, hash: String::new() };
                assert(u@.hash =~= Seq::<char>::empty());
                assert(self.spec_url() == Some(u@));
                Ok(u)
            },
            Err(_) => Err(LocationError::InvalidUrl),
        }
    }
}

/// The URL shown in the browser's address bar.
#[derive(Copy, Clone, Debug, PartialEq, Eq)]
pub struct BrowserUrl;

/// The query of a search text: what follows its leading `?`, or nothing when
/// it does not start with one.
pub open spec fn query_of(search: Seq<char>) -> Seq<char> {
    if search.len() > 0 && search[0] == '?' {
        search.drop_first()
    } else {
        Seq::empty()
    }
}

impl BrowserUrl {
    /// The URL made from the parts of the browser's location: its origin,
    /// path name, search text (as `?query`) and hash.
    pub fn url_from_parts(origin: String, pathname: String, search: String, hash: String) -> (r: Url)
        ensures
            r@ == (UrlView { origin: origin@, pathname: pathname@, search: query_of(search@), hash: hash@ }),
    {
        let n = search.as_str().unicode_len();
        let query = if n > 0 && search.as_str().get_char(0) == '?' {
            search.as_str().substring_char(1, n).to_owned()
        } else {
            String::new()
        };
        Url { origin, pathname, search: query, hash }
    }
}

/// A location fixed at a URL read once, such as the browser's location read
/// by the host (`BrowserUrl::url_from_parts`): routing follows that URL when
/// its path is empty or starts with `/`, and finds no URL otherwise.
pub struct UrlSnapshot(pub Url);

impl Location for UrlSnapshot {
    open spec fn spec_url(&self) -> Option<UrlView> {
        if empty_or_slash(self.0@.pathname) {
            Some(self.0@)
        } else {
            None
        }
    }

    fn try_to_url(&self) -> (r: Result<Url, LocationError>) {
        let path = self.0.pathname.as_str();
        if path.unicode_len() == 0 || path.get_char(0) == '/' {
            Ok(
                Url {
                    origin: self.0.origin.clone(),
                    pathname: self.0.pathname.clone(),
                    search: self.0.search.clone(),
                    hash: self.0.hash.clone(),
                },
            )
        } else {
            Err(LocationError::InvalidUrl)
        }
    }
}

/// A search text `?q` gives the query `q`; one that does not start with `?`
/// gives none.
pub proof fn lemma_query_of_law(q: Seq<char>, other: Seq<char>)
    ensures
        query_of(seq!['?'] + q) == q,
        (other.len() == 0 || other[0] != '?') ==> query_of(other) == Seq::<char>::empty(),
{
    assert((seq!['?'] + q).drop_first() =~= q);
}

/// A request URL is found exactly when its text parses; its origin, path and
/// query are then the parsed ones (no query giving an empty one) and its hash
/// is empty.
pub proof fn lemma_request_url_law(text: Seq<char>)
    ensures
        request_url(text) is Some <==> url_parts(text) is Some,
        url_parts(text) matches Some((origin, pathname, query)) ==> {
            let u = request_url(text)->0;
            &&& u.origin == origin
            &&& u.pathname == pathname
            &&& (query matches Some(q) ==> u.search == q)
            &&& (query is None ==> u.search.len() == 0)
            &&& u.hash.len() == 0
        },
{
}

/// A snapshot denotes the URL it holds when that URL's path is empty or
/// starts with `/`, and no URL otherwise.
pub proof fn lemma_url_snapshot_law(s: UrlSnapshot)
    ensures
        (s.0@.pathname.len() == 0 || s.0@.pathname[0] == '/') ==> s.spec_url() == Some(s.0@),
        (s.0@.pathname.len() > 0 && s.0@.pathname[0] != '/') ==> s.spec_url() is None,
{
}

} // verus!
