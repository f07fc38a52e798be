//! The exchanges that the client asks its transport to perform.

use vstd::prelude::*;

verus! {

/// The two HTTP methods that the portal is spoken to with.
#[derive(Clone, Copy, Debug, PartialEq, Eq, Structural)]
pub enum Method {
    Get,
    Post,
}

/// One exchange: the transport sends it with the session's headers and
/// cookies and hands the response body back as text.
#[derive(Debug)]
pub struct Request {
    pub method: Method,
    pub url: String,
    /// The form fields of the body, in the order in which they are sent;
    /// empty for a `Get`.
    pub form: Vec<(String, String)>,
    /// Whether the response body will be looked at. Where it will not, the
    /// transport need not read it and may hand in any text.
    pub wants_body: bool,
}

/// A request as plain values.
pub struct RequestView {
    pub method: Method,
    pub url: Seq<char>,
    pub form: Seq<(Seq<char>, Seq<char>)>,
    pub wants_body: bool,
}

impl View for Request {
    type V = RequestView;

    open spec fn view(&self) -> RequestView {
        RequestView {
            method: self.method,
            url: self.url@,
            form: self.form.deep_view(),
            wants_body: self.wants_body,
        }
    }
}

/// A `Get` of `url`, without a form.
pub open spec fn get_of(url: Seq<char>, wants_body: bool) -> RequestView {
    RequestView { method: Method::Get, url, form: Seq::empty(), wants_body }
}

/// A `Post` of `form` to `url`.
pub open spec fn post_of(
    url: Seq<char>,
    form: Seq<(Seq<char>, Seq<char>)>,
    wants_body: bool,
) -> RequestView {
    RequestView { method: Method::Post, url, form, wants_body }
}

impl Request {
    /// Asks for the page at `url`.
    pub fn get(url: &str, wants_body: bool) -> (request: Request)
        ensures
            request@ == get_of(url@, wants_body),
    {
        let request = Request {
            method: Method::Get,
            url: url.to_owned(),
            form: Vec::new(),
            wants_body,
        };
        assert(request.form.deep_view() =~= Seq::empty());
        request
    }

    /// Submits `form` to `url`.
    pub fn post(url: &str, form: Vec<(String, String)>, wants_body: bool) -> (request: Request)
        ensures
            request@ == post_of(url@, form.deep_view(), wants_body),
    {
        Request { method: Method::Post, url: url.to_owned(), form, wants_body }
    }
}

} // verus!
