//! The description of one HTTP call, and the settings of the requester that will send it.

use std::time::Duration;
use vstd::prelude::*;

verus! {

/// The HTTP method of a request.
#[allow(clippy::upper_case_acronyms)]
#[derive(Clone, Copy, Debug, PartialEq, Eq, Structural)]
pub enum Method {
    GET,
    POST,
    PUT,
    DELETE,
    HEAD,
    OPTIONS,
    PATCH,
    TRACE,
    CONNECT,
}

/// One header line of a request.
#[derive(Debug, PartialEq, Eq)]
pub struct Header {
    pub name: String,
    pub value: String,
}

impl View for Header {
    type V = (Seq<char>, Seq<char>);

    open spec fn view(&self) -> (Seq<char>, Seq<char>) {
        (self.name@, self.value@)
    }
}

impl Clone for Header {
    fn clone(&self) -> (copy: Self)
        ensures
            copy@ == self@,
    {
        Header { name: self.name.clone(), value: self.value.clone() }
    }
}

impl Header {
    pub fn new(name: String, value: String) -> (header: Self)
        ensures
            header@ == (name@, value@),
    {
        Header { name, value }
    }
}

/// The header lines of `headers`, each as a pair of name and value.
pub open spec fn header_lines(headers: Seq<Header>) -> Seq<(Seq<char>, Seq<char>)> {
    Seq::new(headers.len(), |i: int| headers[i]@)
}

/// A copy of `headers` that holds the same lines in the same order.
pub fn clone_headers(headers: &Vec<Header>) -> (copy: Vec<Header>)
    ensures
        header_lines(copy@) == header_lines(headers@),
{
    let mut copy: Vec<Header> = Vec::new();
    let mut i: usize = 0;
    while i < headers.len()
        invariant
            i <= headers.len(),
            copy.len() == i,
            forall|k: int| 0 <= k < i ==> copy[k]@ == headers[k]@,
        decreases headers.len() - i,
    {
        copy.push(headers[i].clone());
        i += 1;
    }
    assert(header_lines(copy@) =~= header_lines(headers@));
    copy
}

/// A copy of an optional list of status codes.
pub fn clone_codes(codes: &Option<Vec<u16>>) -> (copy: Option<Vec<u16>>)
    ensures
        codes_view(copy) == codes_view(*codes),
{
    match codes {
        Some(list) => Some(list.clone()),
        None => None,
    }
}

/// A copy of an optional text.
pub fn clone_text(text: &Option<String>) -> (copy: Option<String>)
    ensures
        text_view(copy) == text_view(*text),
{
    match text {
        Some(s) => Some(s.clone()),
        None => None,
    }
}

/// The model of an optional list of status codes.
pub open spec fn codes_view(codes: Option<Vec<u16>>) -> Option<Seq<u16>> {
    match codes {
        Some(list) => Some(list@),
        None => None,
    }
}

/// The model of an optional text.
pub open spec fn text_view(text: Option<String>) -> Option<Seq<char>> {
    match text {
        Some(s) => Some(s@),
        None => None,
    }
}

/// Mathematical model of a [`Request`].
pub struct RequestView {
    pub method: Method,
    pub url: Seq<char>,
    pub headers: Seq<(Seq<char>, Seq<char>)>,
    pub timeout: Option<Duration>,
    pub proxy: Option<Seq<char>>,
    pub status_codes: Option<Seq<u16>>,
    pub compressed: bool,
    pub user_agent: Seq<char>,
}

/// The description of one HTTP call. A step builds it; nothing changes it once it is part
/// of an execution context.
#[derive(Debug, PartialEq, Eq)]
pub struct Request {
    method: Method,
    url: String,
    headers: Vec<Header>,
    timeout: Option<Duration>,
    proxy: Option<String>,
    status_codes: Option<Vec<u16>>,
    compressed: bool,
    user_agent: String,
}

impl View for Request {
    type V = RequestView;

    closed spec fn view(&self) -> RequestView {
        RequestView {
            method: self.method,
            url: self.url@,
            headers: header_lines(self.headers@),
            timeout: self.timeout,
            proxy: text_view(self.proxy),
            status_codes: codes_view(self.status_codes),
            compressed: self.compressed,
            user_agent: self.user_agent@,
        }
    }
}

/// The model of a request for `url` by `method` with nothing else set.
pub open spec fn plain_request(method: Method, url: Seq<char>) -> RequestView {
    RequestView {
        method,
        url,
        headers: Seq::empty(),
        timeout: None,
        proxy: None,
        status_codes: None,
        compressed: false,
        user_agent: Seq::empty(),
    }
}

impl Clone for Request {
    fn clone(&self) -> (copy: Self)
        ensures
            copy@ == self@,
    {
        Request {
            method: self.method,
            url: self.url.clone(),
            headers: clone_headers(&self.headers),
            timeout: self.timeout,
            proxy: clone_text(&self.proxy),
            status_codes: clone_codes(&self.status_codes),
            compressed: self.compressed,
            user_agent: self.user_agent.clone(),
        }
    }
}

impl Default for Request {
    /// A `GET` request for the empty URL with nothing else set.
    fn default() -> (request: Self)
        ensures
            request@ == plain_request(Method::GET, Seq::empty()),
    {
        Request::new(Method::GET, String::new())
    }
}

impl Request {
    /// A request for `url` by `method`: no headers, no deadline, no proxy, no explicit list
    /// of accepted status codes, no compression, and an empty user agent.
    pub fn new(method: Method, url: String) -> (request: Self)
        ensures
            request@ == plain_request(method, url@),
    {
        let request = Request {
            method,
            url,
            headers: Vec::new(),
            timeout: None,
            proxy: None,
            status_codes: None,
            compressed: false,
            user_agent: String::new(),
        };
        assert(header_lines(request.headers@) =~= Seq::empty());
        request
    }

    /// The same request with `headers` as its header lines.
    pub fn with_headers(self, headers: Vec<Header>) -> (request: Self)
        ensures
            request@ == (RequestView { headers: header_lines(headers@), ..self@ }),
    {
        Request { headers, ..self }
    }

    /// The same request with `timeout` as its transport deadline.
    pub fn with_timeout(self, timeout: Duration) -> (request: Self)
        ensures
            request@ == (RequestView { timeout: Some(timeout), ..self@ }),
    {
        Request { timeout: Some(timeout), ..self }
    }

    /// The same request, to be sent through the proxy at `proxy`.
    pub fn with_proxy(self, proxy: String) -> (request: Self)
        ensures
            request@ == (RequestView { proxy: Some(proxy@), ..self@ }),
    {
        Request { proxy: Some(proxy), ..self }
    }

    /// The same request with `status_codes` as the explicit list of accepted status codes.
    pub fn with_status_codes(self, status_codes: Vec<u16>) -> (request: Self)
        ensures
            request@ == (RequestView { status_codes: Some(status_codes@), ..self@ }),
    {
        Request { status_codes: Some(status_codes), ..self }
    }

    /// The same request with response compression switched on or off.
    pub fn with_compression(self, compressed: bool) -> (request: Self)
        ensures
            request@ == (RequestView { compressed, ..self@ }),
    {
        Request { compressed, ..self }
    }

    /// The same request with `user_agent` as its user agent.
    pub fn with_user_agent(self, user_agent: String) -> (request: Self)
        ensures
            request@ == (RequestView { user_agent: user_agent@, ..self@ }),
    {
        Request { user_agent, ..self }
    }

    pub fn method(&self) -> (method: Method)
        ensures
            method == self@.method,
    {
        self.method
    }

    pub fn url(&self) -> (url: String)
        ensures
            url@ == self@.url,
    {
        self.url.clone()
    }

    pub fn headers(&self) -> (headers: Vec<Header>)
        ensures
            header_lines(headers@) == self@.headers,
    {
        clone_headers(&self.headers)
    }

    pub fn timeout(&self) -> (timeout: Option<Duration>)
        ensures
            timeout == self@.timeout,
    {
        self.timeout
    }

    pub fn proxy(&self) -> (proxy: Option<String>)
        ensures
            text_view(proxy) == self@.proxy,
    {
        clone_text(&self.proxy)
    }

    /// The explicit list of accepted status codes, if the request has one.
    pub fn status_codes(&self) -> (status_codes: Option<Vec<u16>>)
        ensures
            codes_view(status_codes) == self@.status_codes,
    {
        clone_codes(&self.status_codes)
    }

    pub fn is_compressed(&self) -> (compressed: bool)
        ensures
            compressed == self@.compressed,
    {
        self.compressed
    }

    pub fn user_agent(&self) -> (user_agent: String)
        ensures
            user_agent@ == self@.user_agent,
    {
        self.user_agent.clone()
    }
}

} // verus!
