//! The loopback destination of a browser sign-in callback: which completion
//! destinations are acceptable, the local address that stands in for one,
//! and how a request reaching that address is judged and answered.
use vstd::prelude::*;
use reqwest::Url;
use crate::num::decimal;
use crate::commands::package::first_index_of;
use crate::text::{chars_of, concat, has_prefix, is_whitespace, is_ws, starts_with, str_eq, string_of_range};

verus! {

/// What the callback logic reads of a parsed URL.
#[derive(Clone, Debug)]
pub struct ParsedUrl {
    /// The whole URL as the parser writes it back.
    pub serialization: String,
    pub scheme: String,
    pub host: Option<String>,
    /// The explicit port, or the scheme's default one.
    pub port: Option<u16>,
    pub path: String,
    pub query: Option<String>,
    pub fragment: Option<String>,
    pub username: String,
    pub password: Option<String>,
    /// The ASCII serialization of the URL's origin.
    pub origin: String,
}

/// The values of a parsed URL.
pub struct UrlView {
    pub serialization: Seq<char>,
    pub scheme: Seq<char>,
    pub host: Option<Seq<char>>,
    pub port: Option<u16>,
    pub path: Seq<char>,
    pub query: Option<Seq<char>>,
    pub fragment: Option<Seq<char>>,
    pub username: Seq<char>,
    pub password: Option<Seq<char>>,
    pub origin: Seq<char>,
}

/// The view of an optional string.
pub open spec fn opt_seq(o: Option<String>) -> Option<Seq<char>> {
    match o {
        Some(s) => Some(s@),
        None => None,
    }
}

impl View for ParsedUrl {
    type V = UrlView;

    open spec fn view(&self) -> UrlView {
        UrlView {
            serialization: self.serialization@,
            scheme: self.scheme@,
            host: opt_seq(self.host),
            port: self.port,
            path: self.path@,
            query: opt_seq(self.query),
            fragment: opt_seq(self.fragment),
            username: self.username@,
            password: opt_seq(self.password),
            origin: self.origin@,
        }
    }
}

/// What `reqwest::Url::parse` makes of a text: the parsed URL, or the
/// parser's error message.
pub uninterp spec fn url_parse(input: Seq<char>) -> Result<UrlView, Seq<char>>;

/// `reqwest::Url::parse` (the `url` crate's parser), read into plain parts:
/// the contract names the outcome; what the parser accepts is not restated.
#[verifier::external_body]
fn parse_url(input: &str) -> (r: Result<ParsedUrl, String>)
    ensures
        match r {
            Ok(u) => url_parse(input@) == Ok::<UrlView, Seq<char>>(u@),
            Err(e) => url_parse(input@) == Err::<UrlView, Seq<char>>(e@),
        },
{
    let u = Url::parse(input).map_err(|error| error.to_string())?;
    Ok(ParsedUrl {
        serialization: u.as_str().to_string(),
        scheme: u.scheme().to_string(),
        host: u.host_str().map(str::to_string),
        port: u.port_or_known_default(),
        path: u.path().to_string(),
        query: u.query().map(str::to_string),
        fragment: u.fragment().map(str::to_string),
        username: u.username().to_string(),
        password: u.password().map(str::to_string),
        origin: u.origin().ascii_serialization(),
    })
}

/// What `Url::set_port(Some(port))` makes of the URL written as `url`: the
/// new serialization, or nothing when the text does not parse or the URL
/// cannot carry a port.
pub uninterp spec fn url_with_port(url: Seq<char>, port: u16) -> Result<Seq<char>, ()>;

/// `reqwest::Url::set_port` on the URL written as `url` (which the `url`
/// crate parses back to the same URL): the contract names the outcome.
#[verifier::external_body]
fn set_url_port(url: &str, port: u16) -> (r: Result<String, ()>)
    ensures
        match r {
            Ok(s) => url_with_port(url@, port) == Ok::<Seq<char>, ()>(s@),
            Err(_) => url_with_port(url@, port) is Err,
        },
{
    let mut u = Url::parse(url).map_err(|_| ())?;
    u.set_port(Some(port))?;
    Ok(u.as_str().to_string())
}

/// What `Url::set_path(path)` makes of the URL written as `url`: the new
/// serialization, or nothing when the text does not parse.
pub uninterp spec fn url_with_path(url: Seq<char>, path: Seq<char>) -> Result<Seq<char>, ()>;

/// `reqwest::Url::set_path` on the URL written as `url` (which the `url`
/// crate parses back to the same URL): the contract names the outcome.
#[verifier::external_body]
fn set_url_path(url: &str, path: &str) -> (r: Result<String, ()>)
    ensures
        match r {
            Ok(s) => url_with_path(url@, path@) == Ok::<Seq<char>, ()>(s@),
            Err(_) => url_with_path(url@, path@) is Err,
        },
{
    let mut u = Url::parse(url).map_err(|_| ())?;
    u.set_path(path);
    Ok(u.as_str().to_string())
}

/// Whether a parsed completion destination is one the callback can stand in
/// for: an `https` URL with a host and a path, and no query, fragment or
/// credentials.
pub open spec fn acceptable_destination(u: UrlView) -> bool {
    &&& u.scheme == "https"@
    &&& u.host is Some
    &&& u.path.len() > 0
    &&& u.query is None
    &&& u.fragment is None
    &&& u.username.len() == 0
    &&& u.password is None
}

/// What reading the requested completion destination gives.
pub open spec fn requested_destination(raw: Seq<char>) -> Result<UrlView, Seq<char>> {
    match url_parse(raw) {
        Err(e) => Err("browser callback completion destination is invalid: "@ + e),
        Ok(u) => if acceptable_destination(u) {
            Ok(u)
        } else {
            Err("browser callback completion destination is invalid"@)
        },
    }
}

/// Parses the callback destination that an upstream transaction will
/// redirect to.
pub fn parseRequestedCompletionRedirect(raw: &str) -> (r: Result<ParsedUrl, String>)
    ensures
        match r {
            Ok(u) => requested_destination(raw@) == Ok::<UrlView, Seq<char>>(u@),
            Err(e) => requested_destination(raw@) == Err::<UrlView, Seq<char>>(e@),
        },
{
    let url = match parse_url(raw) {
        Ok(u) => u,
        Err(e) => return Err(concat("browser callback completion destination is invalid: ", e.as_str())),
    };
    let refused = !str_eq(url.scheme.as_str(), "https")
        || url.host.is_none()
        || url.path.as_str().unicode_len() == 0
        || url.query.is_some()
        || url.fragment.is_some()
        || url.username.as_str().unicode_len() != 0
        || url.password.is_some();
    if refused {
        return Err(String::from_str("browser callback completion destination is invalid"));
    }
    Ok(url)
}

/// The address every loopback destination is built on.
pub open spec fn loopback_base() -> Seq<char> {
    "http://127.0.0.1"@
}

/// What building the loopback destination for a requested path and a local
/// port gives: the base address, with the port set, then the path set.
pub open spec fn loopback_destination(path: Seq<char>, port: u16) -> Result<UrlView, Seq<char>> {
    match url_parse(loopback_base()) {
        Err(e) => Err("browser callback loopback URL could not initialize: "@ + e),
        Ok(base) => match url_with_port(base.serialization, port) {
            Err(_) => Err("browser callback loopback port is invalid"@),
            Ok(with_port) => match url_with_path(with_port, path) {
                Err(_) => Err("browser callback loopback path could not be set"@),
                Ok(done) => match url_parse(done) {
                    Err(e) => Err("browser callback loopback URL could not initialize: "@ + e),
                    Ok(u) => Ok(u),
                },
            },
        },
    }
}

/// Creates the loopback destination that preserves the requested callback
/// path, on the given local port.
pub fn loopbackCompletionRedirect(requestedRedirect: &ParsedUrl, port: u16) -> (r: Result<ParsedUrl, String>)
    ensures
        match r {
            Ok(u) => loopback_destination(requestedRedirect.path@, port) == Ok::<UrlView, Seq<char>>(u@),
            Err(e) => loopback_destination(requestedRedirect.path@, port) == Err::<UrlView, Seq<char>>(e@),
        },
{
    let base = match parse_url("http://127.0.0.1") {
        Ok(u) => u,
        Err(e) => return Err(concat("browser callback loopback URL could not initialize: ", e.as_str())),
    };
    let with_port = match set_url_port(base.serialization.as_str(), port) {
        Ok(s) => s,
        Err(_) => return Err(String::from_str("browser callback loopback port is invalid")),
    };
    let done = match set_url_path(with_port.as_str(), requestedRedirect.path.as_str()) {
        Ok(s) => s,
        Err(_) => return Err(String::from_str("browser callback loopback path could not be set")),
    };
    match parse_url(done.as_str()) {
        Ok(u) => Ok(u),
        Err(e) => Err(concat("browser callback loopback URL could not initialize: ", e.as_str())),
    }
}

/// What resolving a request target against the registered destination's
/// origin gives.
pub open spec fn request_url(registered: UrlView, target: Seq<char>) -> Result<UrlView, Seq<char>> {
    if !has_prefix(target, "/"@) {
        Err("browser callback loopback request target is invalid"@)
    } else {
        match url_parse(registered.origin + target) {
            Err(e) => Err("browser callback loopback URL is invalid: "@ + e),
            Ok(u) => Ok(u),
        }
    }
}

/// Resolves an HTTP request target against the prepared loopback origin.
pub fn loopbackRequestUrl(completionRedirectUri: &ParsedUrl, requestTarget: &str) -> (r: Result<ParsedUrl, String>)
    ensures
        match r {
            Ok(u) => request_url(completionRedirectUri@, requestTarget@) == Ok::<UrlView, Seq<char>>(u@),
            Err(e) => request_url(completionRedirectUri@, requestTarget@) == Err::<UrlView, Seq<char>>(e@),
        },
{
    if !starts_with(requestTarget, "/") {
        return Err(String::from_str("browser callback loopback request target is invalid"));
    }
    let full = concat(completionRedirectUri.origin.as_str(), requestTarget);
    match parse_url(full.as_str()) {
        Ok(u) => Ok(u),
        Err(e) => Err(concat("browser callback loopback URL is invalid: ", e.as_str())),
    }
}

/// Whether a received URL reaches the registered destination: same scheme,
/// host, port (explicit or default) and path.
pub open spec fn same_destination(received: UrlView, registered: UrlView) -> bool {
    &&& received.scheme == registered.scheme
    &&& received.host == registered.host
    &&& received.port == registered.port
    &&& received.path == registered.path
}

/// Whether two optional strings are equal.
fn opt_str_eq(a: &Option<String>, b: &Option<String>) -> (r: bool)
    ensures
        r == (opt_seq(*a) == opt_seq(*b)),
{
    match (a, b) {
        (Some(x), Some(y)) => str_eq(x.as_str(), y.as_str()),
        (None, None) => true,
        _ => false,
    }
}

/// Checks that a received URL matches the registered scheme, host, port, and path.
pub fn sameCallbackDestination(received: &ParsedUrl, registered: &ParsedUrl) -> (r: bool)
    ensures
        r == same_destination(received@, registered@),
{
    str_eq(received.scheme.as_str(), registered.scheme.as_str())
        && opt_str_eq(&received.host, &registered.host)
        && received.port == registered.port
        && str_eq(received.path.as_str(), registered.path.as_str())
}

/// The first line of a text, as `str::lines` yields it: up to the first
/// `\n`, without a `\r` just before it; none for an empty text.
pub open spec fn first_line(s: Seq<char>) -> Option<Seq<char>> {
    if s.len() == 0 {
        None
    } else {
        match first_index_of(s, '\n') {
            Some(k) => {
                let l = s.subrange(0, k);
                Some(if l.len() > 0 && l.last() == '\r' { l.drop_last() } else { l })
            },
            None => Some(s),
        }
    }
}

/// The first position at or after `i` that is not whitespace (or the end).
pub open spec fn skip_ws(s: Seq<char>, i: int) -> int
    decreases s.len() - i,
{
    if 0 <= i < s.len() && is_ws(s[i]) { skip_ws(s, i + 1) } else { i }
}

/// The first position at or after `i` that is whitespace (or the end).
pub open spec fn skip_word(s: Seq<char>, i: int) -> int
    decreases s.len() - i,
{
    if 0 <= i < s.len() && !is_ws(s[i]) { skip_word(s, i + 1) } else { i }
}

/// The second whitespace-separated word of a text
/// (`split_whitespace().nth(1)`).
pub open spec fn second_word(s: Seq<char>) -> Option<Seq<char>> {
    let a0 = skip_ws(s, 0);
    let a1 = skip_ws(s, skip_word(s, a0));
    if a0 >= s.len() || a1 >= s.len() {
        None
    } else {
        Some(s.subrange(a1, skip_word(s, a1)))
    }
}

/// The target of an HTTP request: the second word of its request line.
pub open spec fn request_target(request: Seq<char>) -> Option<Seq<char>> {
    match first_line(request) {
        Some(l) => second_word(l),
        None => None,
    }
}

/// Positions stay ordered and inside the text while skipping.
proof fn lemma_skips(s: Seq<char>, i: int)
    requires
        0 <= i <= s.len(),
    ensures
        i <= skip_ws(s, i) <= s.len(),
        i <= skip_word(s, i) <= s.len(),
    decreases s.len() - i,
{
    if i < s.len() {
        lemma_skips(s, i + 1);
    }
}

/// The position after whitespace starting at `i`.
fn skip_spaces(v: &Vec<char>, i: usize) -> (r: usize)
    requires
        i <= v.len(),
    ensures
        r == skip_ws(v@, i as int),
        i <= r <= v.len(),
{
    let mut j = i;
    while j < v.len() && is_whitespace(v[j])
        invariant
            i <= j <= v.len(),
            skip_ws(v@, i as int) == skip_ws(v@, j as int),
        decreases v.len() - j,
    {
        j = j + 1;
    }
    j
}

/// The position after the word starting at `i`.
fn skip_nonspaces(v: &Vec<char>, i: usize) -> (r: usize)
    requires
        i <= v.len(),
    ensures
        r == skip_word(v@, i as int),
        i <= r <= v.len(),
{
    let mut j = i;
    while j < v.len() && !is_whitespace(v[j])
        invariant
            i <= j <= v.len(),
            skip_word(v@, i as int) == skip_word(v@, j as int),
        decreases v.len() - j,
    {
        j = j + 1;
    }
    j
}

/// The characters of the first line of a text, if it has one.
fn first_line_chars(request: &str) -> (r: Option<Vec<char>>)
    ensures
        match r {
            Some(v) => first_line(request@) == Some(v@),
            None => first_line(request@) is None,
        },
{
    let v = chars_of(request);
    if v.len() == 0 {
        return None;
    }
    let mut k: usize = 0;
    assert(v@.subrange(0, v.len() as int) =~= v@);
    while k < v.len() && v[k] != '\n'
        invariant
            k <= v.len(),
            v@ == request@,
            first_index_of(v@, '\n') == match first_index_of(v@.subrange(k as int, v.len() as int), '\n') {
                Some(j) => Some(j + k),
                None => None::<int>,
            },
        decreases v.len() - k,
    {
        let ghost rest = v@.subrange(k as int, v.len() as int);
        assert(rest.drop_first() =~= v@.subrange(k + 1, v.len() as int));
        k = k + 1;
    }
    proof {
        assert(v@.subrange(0, v.len() as int) =~= v@);
        if k < v.len() {
            let rest = v@.subrange(k as int, v.len() as int);
            assert(rest[0] == '\n');
        } else {
            assert(v@.subrange(k as int, v.len() as int).len() == 0);
        }
    }
    if k == v.len() {
        return Some(v);
    }
    let end = if k > 0 && v[k - 1] == '\r' { k - 1 } else { k };
    let mut l: Vec<char> = Vec::new();
    let mut i: usize = 0;
    while i < end
        invariant
            i <= end <= k < v.len(),
            l@ =~= v@.subrange(0, i as int),
        decreases end - i,
    {
        l.push(v[i]);
        i = i + 1;
    }
    proof {
        let whole = v@.subrange(0, k as int);
        if k > 0 && whole.last() == '\r' {
            assert(whole.drop_last() =~= l@);
        } else {
            assert(whole =~= l@);
        }
    }
    Some(l)
}

/// Reads the target of an HTTP request: the second word of its first line.
pub fn loopbackRequestTarget(request: &str) -> (r: Option<String>)
    ensures
        match r {
            Some(t) => request_target(request@) == Some(t@),
            None => request_target(request@) is None,
        },
{
    let line = match first_line_chars(request) {
        Some(l) => l,
        None => return None,
    };
    proof {
        lemma_skips(line@, 0);
    }
    let a0 = skip_spaces(&line, 0);
    if a0 >= line.len() {
        return None;
    }
    let b0 = skip_nonspaces(&line, a0);
    let a1 = skip_spaces(&line, b0);
    if a1 >= line.len() {
        return None;
    }
    let b1 = skip_nonspaces(&line, a1);
    Some(string_of_range(&line, a1, b1))
}

/// How the loopback endpoint answers one request: with the completion URL
/// when the request reaches the registered destination, with nothing when
/// it targets another path, or with an error.
pub open spec fn loopback_judgement(request: Seq<char>, registered: UrlView) -> Result<Option<Seq<char>>, Seq<char>> {
    match request_target(request) {
        None => Err("browser callback loopback request has no target"@),
        Some(t) => match request_url(registered, t) {
            Err(e) => Err(e),
            Ok(u) => if same_destination(u, registered) { Ok(Some(u.serialization)) } else { Ok(None) },
        },
    }
}

/// Judges one request read by the loopback endpoint: the completion URL when
/// it targets the prepared callback destination, nothing when it targets
/// another one.
pub fn judgeLoopbackRequest(request: &str, completionRedirectUri: &ParsedUrl) -> (r: Result<Option<String>, String>)
    ensures
        match r {
            Ok(Some(u)) => loopback_judgement(request@, completionRedirectUri@) == Ok::<_, Seq<char>>(Some(u@)),
            Ok(None) => loopback_judgement(request@, completionRedirectUri@) == Ok::<_, Seq<char>>(None::<Seq<char>>),
            Err(e) => loopback_judgement(request@, completionRedirectUri@) == Err::<Option<Seq<char>>, _>(e@),
        },
{
    let target = match loopbackRequestTarget(request) {
        Some(t) => t,
        None => return Err(String::from_str("browser callback loopback request has no target")),
    };
    let completion = match loopbackRequestUrl(completionRedirectUri, target.as_str()) {
        Ok(u) => u,
        Err(e) => return Err(e),
    };
    if sameCallbackDestination(&completion, completionRedirectUri) {
        Ok(Some(completion.serialization))
    } else {
        Ok(None)
    }
}

/// The small page a loopback endpoint answers with.
pub open spec fn loopback_response(status: Seq<char>, message: Seq<char>) -> Seq<char> {
    "HTTP/1.1 "@ + status
        + "\r\nContent-Type: text/html; charset=utf-8\r\nConnection: close\r\nCache-Control: no-store\r\n\r\n<!doctype html><html><body>"@
        + message + "</body></html>"@
}

/// The answer to a judged request: a confirmation when the callback
/// completed, a not-found page otherwise.
pub open spec fn loopback_answer(completed: bool) -> Seq<char> {
    if completed {
        loopback_response("200 OK"@, "Browser callback complete. You can return to Operit."@)
    } else {
        loopback_response("404 Not Found"@, "Browser callback destination is not registered."@)
    }
}

/// Writes the browser-visible response of the loopback endpoint.
pub fn loopbackResponse(completed: bool) -> (r: String)
    ensures
        r@ == loopback_answer(completed),
{
    let (status, message) = if completed {
        ("200 OK", "Browser callback complete. You can return to Operit.")
    } else {
        ("404 Not Found", "Browser callback destination is not registered.")
    };
    let mut r = String::from_str("HTTP/1.1 ");
    r.append(status);
    r.append("\r\nContent-Type: text/html; charset=utf-8\r\nConnection: close\r\nCache-Control: no-store\r\n\r\n<!doctype html><html><body>");
    r.append(message);
    r.append("</body></html>");
    r
}

} // verus!
