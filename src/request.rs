use vstd::prelude::*;

verus! {

/// The URL `url` with the raw query string `query` appended after a single `?`.
pub open spec fn with_query(url: Seq<char>, query: Seq<char>) -> Seq<char> {
    url + seq!['?'] + query
}

/// Builds `url?query` without encoding or checking either part.
pub fn query_url(url: &str, query: &str) -> (r: String)
    ensures
        r@ == with_query(url@, query@),
{
    let mut s = String::from_str(url);
    let sep = "?";
    proof {
        reveal_strlit("?");
    }
    s.append(sep);
    s.append(query);
    s
}

/// The HTTP method of a request.
#[derive(Clone, Copy, Debug, PartialEq, Eq, Structural)]
pub enum Method {
    Get,
    Post,
}

/// A username and password for HTTP Basic authentication.
///
/// It has no `Debug`, so that the password never ends up in a log line.
#[derive(Clone)]
pub struct Credentials {
    pub username: String,
    pub password: String,
}

/// One logical request: what the transport is asked to do in a single round trip.
#[derive(Clone)]
pub struct Request {
    pub method: Method,
    pub url: String,
    /// A raw, already encoded `key=value&key=value` string.
    pub query: Option<String>,
    /// The payload, sent as it stands.
    pub body: Option<String>,
    pub auth: Option<Credentials>,
}

impl Request {
    /// The URL that the transport is asked for.
    pub open spec fn target(&self) -> Seq<char> {
        match self.query {
            Some(q) => with_query(self.url@, q@),
            None => self.url@,
        }
    }

    /// A GET of `url`, with no query, body or credentials.
    pub fn get(url: &str) -> (r: Request)
        ensures
            r.method == Method::Get,
            r.url@ == url@,
            r.query is None,
            r.body is None,
            r.auth is None,
            r.target() == url@,
    {
        Request { method: Method::Get, url: String::from_str(url), query: None, body: None, auth: None }
    }

    /// A GET of `url?query`; the query string is neither encoded nor checked.
    pub fn get_with_query(url: &str, query: &str) -> (r: Request)
        ensures
            r.method == Method::Get,
            r.url@ == url@,
            r.query matches Some(q) && q@ == query@,
            r.body is None,
            r.auth is None,
            r.target() == with_query(url@, query@),
    {
        Request {
            method: Method::Get,
            url: String::from_str(url),
            query: Some(String::from_str(query)),
            body: None,
            auth: None,
        }
    }

    /// A POST of `data` to `url`, as the raw payload.
    pub fn post(url: &str, data: &str) -> (r: Request)
        ensures
            r.method == Method::Post,
            r.url@ == url@,
            r.query is None,
            r.body matches Some(b) && b@ == data@,
            r.auth is None,
            r.target() == url@,
    {
        Request {
            method: Method::Post,
            url: String::from_str(url),
            query: None,
            body: Some(String::from_str(data)),
            auth: None,
        }
    }

    /// A GET of `url` that carries HTTP Basic credentials.
    pub fn get_with_basic_auth(url: &str, username: &str, password: &str) -> (r: Request)
        ensures
            r.method == Method::Get,
            r.url@ == url@,
            r.query is None,
            r.body is None,
            r.auth matches Some(c) && c.username@ == username@ && c.password@ == password@,
            r.target() == url@,
    {
        let auth = Credentials { username: String::from_str(username), password: String::from_str(password) };
        Request { method: Method::Get, url: String::from_str(url), query: None, body: None, auth: Some(auth) }
    }

    /// The URL to hand to the transport: `url`, or `url?query` where a query is set.
    pub fn target_url(&self) -> (r: String)
        ensures
            r@ == self.target(),
    {
        match &self.query {
            Some(q) => query_url(self.url.as_str(), q.as_str()),
            None => self.url.clone(),
        }
    }
}

/// Building a request for `url` and `query` and asking it for its target gives
/// exactly `url?query`, unencoded, and the same URL every time.
pub proof fn query_target_is_exact(r1: Request, r2: Request, url: Seq<char>, query: Seq<char>)
    requires
        r1.url@ == url,
        r1.query matches Some(q) && q@ == query,
        r2.url@ == url,
        r2.query matches Some(q) && q@ == query,
    ensures
        r1.target() == url + seq!['?'] + query,
        r1.target().len() == url.len() + 1 + query.len(),
        r1.target()[url.len() as int] == '?',
        r1.target().subrange(0, url.len() as int) == url,
        r1.target().subrange(url.len() as int + 1, r1.target().len() as int) == query,
        r1.target() == r2.target(),
{
    let t = r1.target();
    assert(t.subrange(0, url.len() as int) =~= url);
    assert(t.subrange(url.len() as int + 1, t.len() as int) =~= query);
}

} // verus!
