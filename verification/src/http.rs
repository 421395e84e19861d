//! A request as plain data: what to send, described without sending it.

use vstd::prelude::*;
use vstd::string::*;

verus! {

/// The HTTP methods that the provider interfaces use.
#[derive(Debug, Clone, Copy, PartialEq, Eq, Structural)]
pub enum Method {
    Get,
    Post,
    Put,
    Patch,
    Delete,
}

/// A name with a value: a header line, or one parameter of a query string.
#[derive(Debug, PartialEq, Eq)]
pub struct Pair {
    pub name: String,
    pub value: String,
}

impl View for Pair {
    type V = (Seq<char>, Seq<char>);

    open spec fn view(&self) -> (Seq<char>, Seq<char>) {
        (self.name@, self.value@)
    }
}

impl Pair {
    /// The pair of `name` and `value`.
    pub fn new(name: &str, value: &str) -> (p: Self)
        ensures
            p@ == (name@, value@),
    {
        Pair { name: String::from_str(name), value: String::from_str(value) }
    }
}

/// The pairs of `pairs` as plain values, in the same order.
pub open spec fn pair_views(pairs: Seq<Pair>) -> Seq<(Seq<char>, Seq<char>)> {
    pairs.map_values(|p: Pair| p@)
}

/// A request that is ready to be sent. `B` is the type of the body, which the
/// sender serialises.
#[derive(Debug, PartialEq, Eq)]
pub struct Request<B> {
    pub method: Method,
    pub url: String,
    pub headers: Vec<Pair>,
    pub query: Vec<Pair>,
    pub body: Option<B>,
}

/// A [`Request`] as plain values.
pub struct RequestView<V> {
    pub method: Method,
    pub url: Seq<char>,
    pub headers: Seq<(Seq<char>, Seq<char>)>,
    pub query: Seq<(Seq<char>, Seq<char>)>,
    pub body: Option<V>,
}

impl<B: View> View for Request<B> {
    type V = RequestView<B::V>;

    open spec fn view(&self) -> RequestView<B::V> {
        RequestView {
            method: self.method,
            url: self.url@,
            headers: pair_views(self.headers@),
            query: pair_views(self.query@),
            body: match self.body {
                Some(b) => Some(b@),
                None => None,
            },
        }
    }
}

/// The requests of `requests` as plain values, in the same order.
pub open spec fn request_views<B: View>(requests: Seq<Request<B>>) -> Seq<RequestView<B::V>> {
    requests.map_values(|r: Request<B>| r@)
}

impl<B: View> Request<B> {
    /// A request without headers, query or body.
    pub fn new(method: Method, url: String) -> (r: Self)
        ensures
            r@ == (RequestView::<B::V> {
                method,
                url: url@,
                headers: Seq::empty(),
                query: Seq::empty(),
                body: None,
            }),
    {
        let r = Request { method, url, headers: Vec::new(), query: Vec::new(), body: None };
        assert(pair_views(r.headers@) =~= Seq::empty());
        r
    }

    /// The same request with one more header line at the end.
    pub fn header(self, name: &str, value: &str) -> (r: Self)
        ensures
            r@ == (RequestView::<B::V> {
                headers: self@.headers.push((name@, value@)),
                ..self@
            }),
    {
        let mut r = self;
        r.headers.push(Pair::new(name, value));
        assert(pair_views(r.headers@) =~= pair_views(self.headers@).push((name@, value@)));
        r
    }

    /// The same request with one more query parameter at the end.
    pub fn query(self, name: &str, value: &str) -> (r: Self)
        ensures
            r@ == (RequestView::<B::V> { query: self@.query.push((name@, value@)), ..self@ }),
    {
        let mut r = self;
        r.query.push(Pair::new(name, value));
        assert(pair_views(r.query@) =~= pair_views(self.query@).push((name@, value@)));
        r
    }

    /// The same request with `body` as its body.
    pub fn json(self, body: B) -> (r: Self)
        ensures
            r@ == (RequestView::<B::V> { body: Some(body@), ..self@ }),
    {
        let mut r = self;
        r.body = Some(body);
        r
    }
}

/// Whether `status` reports success, that is, lies in 200..=299.
pub fn status_is_success(status: u16) -> (b: bool)
    ensures
        b == (200 <= status < 300),
{
    200 <= status && status < 300
}

} // verus!
