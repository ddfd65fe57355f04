use vstd::prelude::*;
use crate::error::MetaError;

verus! {

/// What the library reads of a URL: its host, its path, and its query pairs
/// after standard query decoding, in the order they appear.
pub type UrlView = (Option<Seq<char>>, Seq<char>, Seq<(Seq<char>, Seq<char>)>);

/// What `url::Url::parse` makes of a text, read through `host_str`, `path`
/// and `query_pairs`; `None` where the text is not a well-formed URL.
pub uninterp spec fn url_parts(s: Seq<char>) -> Option<(Option<Seq<char>>, Seq<char>, Seq<(Seq<char>, Seq<char>)>)>;

/// The identifier of one media item: an immutable text used as cache key and
/// as file name stem.
#[derive(Debug, Clone, PartialEq, Eq, PartialOrd, Ord, Hash)]
pub struct Id {
    text: String,
}

impl View for Id {
    type V = Seq<char>;

    closed spec fn view(&self) -> Seq<char> {
        self.text@
    }
}

impl From<String> for Id {
    fn from(text: String) -> (r: Id)
        ensures
            r@ == text@,
    {
        Id { text }
    }
}

impl vstd::std_specs::convert::FromSpecImpl<String> for Id {
    open spec fn obeys_from_spec() -> bool {
        true
    }

    closed spec fn from_spec(v: String) -> Id {
        Id { text: v }
    }
}

impl From<&str> for Id {
    fn from(text: &str) -> (r: Id)
        ensures
            r@ == text@,
    {
        Id::from_text(text)
    }
}

impl vstd::std_specs::convert::FromSpecImpl<&str> for Id {
    /// No spec value of `Id` is built from a `&str`; `from` states its own
    /// result instead.
    open spec fn obeys_from_spec() -> bool {
        false
    }

    open spec fn from_spec(v: &str) -> Id {
        arbitrary()
    }
}

impl std::str::FromStr for Id {
    type Err = std::convert::Infallible;

    fn from_str(s: &str) -> (r: Result<Id, std::convert::Infallible>)
        ensures
            r is Ok && r->Ok_0@ == s@,
    {
        Ok(Id::from_text(s))
    }
}

impl Id {
    pub fn new(text: String) -> (r: Id)
        ensures
            r@ == text@,
    {
        Id { text }
    }

    pub fn from_text(text: &str) -> (r: Id)
        ensures
            r@ == text@,
    {
        Id { text: text.to_owned() }
    }

    pub fn as_str(&self) -> (r: &str)
        ensures
            r@ == self@,
    {
        self.text.as_str()
    }
}

/// The text of an optional string.
pub open spec fn opt_text(o: Option<String>) -> Option<Seq<char>> {
    match o {
        Some(s) => Some(s@),
        None => None,
    }
}

pub open spec fn pair_text(p: (String, String)) -> (Seq<char>, Seq<char>) {
    (p.0@, p.1@)
}

/// A URL taken apart into what the resolution strategies read.
pub struct ParsedUrl {
    pub host: Option<String>,
    pub path: String,
    pub query: Vec<(String, String)>,
}

impl View for ParsedUrl {
    type V = UrlView;

    open spec fn view(&self) -> UrlView {
        (opt_text(self.host), self.path@, self.query@.map_values(|p: (String, String)| pair_text(p)))
    }
}

/// Relies on `url::Url::parse` and, on the parsed URL, `host_str`, `path` and
/// `query_pairs`: together they are what `url_parts` names.
#[verifier::external_body]
fn parse_url(s: &str) -> (r: Result<ParsedUrl, url::ParseError>)
    ensures
        match url_parts(s@) {
            Some(u) => r is Ok && r->Ok_0@ == u,
            None => r is Err,
        },
{
    match url::Url::parse(s) {
        Ok(u) => Ok(ParsedUrl {
            host: u.host_str().map(String::from),
            path: u.path().to_string(),
            query: u.query_pairs().map(|(k, v)| (k.into_owned(), v.into_owned())).collect(),
        }),
        Err(e) => Err(e),
    }
}

impl ParsedUrl {
    /// Parses `s` as a URL; a malformed text gives `UrlParseErr`.
    pub fn parse(s: &str) -> (r: Result<ParsedUrl, MetaError>)
        ensures
            match url_parts(s@) {
                Some(u) => r is Ok && r->Ok_0@ == u,
                None => r is Err && r->Err_0 is UrlParseErr,
            },
    {
        match parse_url(s) {
            Ok(u) => Ok(u),
            Err(e) => Err(MetaError::UrlParseErr(e)),
        }
    }
}

/// `r` is the outcome of a resolution that should give `expect`: the
/// identifier where there is one, `NoIdFount` where there is none.
pub open spec fn resolved_as(r: Result<Id, MetaError>, expect: Option<Seq<char>>) -> bool {
    match expect {
        Some(t) => r is Ok && r->Ok_0@ == t,
        None => r is Err && r->Err_0 is NoIdFount,
    }
}

/// The outcome of resolving the text `s`: a malformed URL gives
/// `UrlParseErr`, otherwise as `resolved_as` says.
pub open spec fn resolved_text_as(r: Result<Id, MetaError>, s: Seq<char>, expect: Option<Seq<char>>) -> bool {
    match url_parts(s) {
        None => r is Err && r->Err_0 is UrlParseErr,
        Some(_) => resolved_as(r, expect),
    }
}

/// A strategy that recognises the URLs of one family of hosts and finds the
/// identifier in them.
pub trait Url2IdMapper {
    /// The identifier this strategy finds in `url`, if any.
    spec fn id_of(&self, url: UrlView) -> Option<Seq<char>>;

    fn get_id(&self, url: &ParsedUrl) -> (r: Result<Id, MetaError>)
        ensures
            resolved_as(r, self.id_of(url@)),
    ;
}

/// Resolution from the text of a URL.
pub trait Url2Id {
    /// The identifier the text `url` resolves to, where it parses and one is
    /// found.
    spec fn id_of_text(&self, url: Seq<char>) -> Option<Seq<char>>;

    fn try_get_id(&self, url: &str) -> (r: Result<Id, MetaError>)
        ensures
            resolved_text_as(r, url@, self.id_of_text(url@)),
    ;
}

impl<T: Url2IdMapper> Url2Id for T {
    open spec fn id_of_text(&self, url: Seq<char>) -> Option<Seq<char>> {
        match url_parts(url) {
            Some(u) => self.id_of(u),
            None => None,
        }
    }

    /// Parses `url`, then resolves it with this strategy.
    fn try_get_id(&self, url: &str) -> (r: Result<Id, MetaError>) {
        match ParsedUrl::parse(url) {
            Ok(parsed) => self.get_id(&parsed),
            Err(e) => Err(e),
        }
    }
}

/// Two strategies tried in order: the second is asked only where the first
/// finds nothing. Nesting builds a registry of any length.
pub struct FirstOf<A, B> {
    pub first: A,
    pub second: B,
}

impl<A: Url2IdMapper, B: Url2IdMapper> Url2IdMapper for FirstOf<A, B> {
    open spec fn id_of(&self, url: UrlView) -> Option<Seq<char>> {
        match self.first.id_of(url) {
            Some(t) => Some(t),
            None => self.second.id_of(url),
        }
    }

    fn get_id(&self, url: &ParsedUrl) -> (r: Result<Id, MetaError>) {
        match self.first.get_id(url) {
            Ok(id) => Ok(id),
            Err(_) => self.second.get_id(url),
        }
    }
}

/// The value of the first query pair whose key is `key`.
pub open spec fn first_value(q: Seq<(Seq<char>, Seq<char>)>, key: Seq<char>) -> Option<Seq<char>>
    decreases q.len(),
{
    if q.len() == 0 {
        None
    } else if q[0].0 == key {
        Some(q[0].1)
    } else {
        first_value(q.drop_first(), key)
    }
}

/// `p` without its leading path separators.
pub open spec fn strip_slashes(p: Seq<char>) -> Seq<char>
    decreases p.len(),
{
    if p.len() > 0 && p[0] == '/' {
        strip_slashes(p.drop_first())
    } else {
        p
    }
}

/// The identifier of a YouTube video URL: the `v` query value of a watch
/// page, or the path of a short link; none for any other shape, nor where
/// that value or path is empty.
pub open spec fn youtube_id(u: UrlView) -> Option<Seq<char>> {
    let (host, path, query) = u;
    if (host == Some("www.youtube.com"@) || host == Some("youtube.com"@)) && path == "/watch"@ {
        match first_value(query, "v"@) {
            Some(v) => if v.len() > 0 {
                Some(v)
            } else {
                None
            },
            None => None,
        }
    } else if host == Some("youtu.be"@) {
        if strip_slashes(path).len() > 0 {
            Some(strip_slashes(path))
        } else {
            None
        }
    } else {
        None
    }
}

fn same_text(a: &String, b: &str) -> (r: bool)
    ensures
        r == (a@ == b@),
{
    let b_owned = b.to_owned();
    a.eq(&b_owned)
}

fn host_is(host: &Option<String>, name: &str) -> (r: bool)
    ensures
        r == (opt_text(*host) == Some(name@)),
{
    match host {
        Some(h) => same_text(h, name),
        None => false,
    }
}

fn find_value(q: &Vec<(String, String)>, key: &str) -> (r: Option<String>)
    ensures
        opt_text(r) == first_value(q@.map_values(|p: (String, String)| pair_text(p)), key@),
{
    let ghost qs = q@.map_values(|p: (String, String)| pair_text(p));
    let mut i: usize = 0;
    assert(qs.subrange(0, qs.len() as int) =~= qs);
    while i < q.len()
        invariant
            i <= q@.len(),
            qs == q@.map_values(|p: (String, String)| pair_text(p)),
            first_value(qs, key@) == first_value(qs.subrange(i as int, qs.len() as int), key@),
        decreases q.len() - i,
    {
        let ghost rest = qs.subrange(i as int, qs.len() as int);
        assert(rest.drop_first() =~= qs.subrange(i + 1, qs.len() as int));
        if same_text(&q[i].0, key) {
            return Some(q[i].1.clone());
        }
        i = i + 1;
    }
    assert(qs.subrange(i as int, qs.len() as int).len() == 0);
    None
}

fn strip_leading_slashes(p: &str) -> (r: String)
    ensures
        r@ == strip_slashes(p@),
{
    let n = p.unicode_len();
    let mut i: usize = 0;
    assert(p@.subrange(0, n as int) =~= p@);
    while i < n && p.get_char(i) == '/'
        invariant
            i <= n,
            n == p@.len(),
            strip_slashes(p@) == strip_slashes(p@.subrange(i as int, n as int)),
        decreases n - i,
    {
        assert(p@.subrange(i as int, n as int).drop_first() =~= p@.subrange(i + 1, n as int));
        i = i + 1;
    }
    p.substring_char(i, n).to_owned()
}

/// The strategy for YouTube videos: `www.youtube.com/watch?v=<id>`,
/// `youtube.com/watch?v=<id>` and `youtu.be/<id>`.
pub struct YoutubeVideoIdMapper;

impl Url2IdMapper for YoutubeVideoIdMapper {
    open spec fn id_of(&self, url: UrlView) -> Option<Seq<char>> {
        youtube_id(url)
    }

    fn get_id(&self, url: &ParsedUrl) -> (r: Result<Id, MetaError>) {
        let long_host = host_is(&url.host, "www.youtube.com") || host_is(&url.host, "youtube.com");
        if long_host && same_text(&url.path, "/watch") {
            match find_value(&url.query, "v") {
                Some(v) => if v.as_str().unicode_len() > 0 {
                    Ok(Id::new(v))
                } else {
                    Err(MetaError::NoIdFount)
                },
                None => Err(MetaError::NoIdFount),
            }
        } else if host_is(&url.host, "youtu.be") {
            let id = strip_leading_slashes(url.path.as_str());
            if id.as_str().unicode_len() > 0 {
                Ok(Id::new(id))
            } else {
                Err(MetaError::NoIdFount)
            }
        } else {
            Err(MetaError::NoIdFount)
        }
    }
}

} // verus!
