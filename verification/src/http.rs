use vstd::prelude::*;
use crate::json::{Json, JsonModel};
use crate::text::{owned, str_eq};

verus! {

/// The request methods that the executor sends.
#[derive(Clone, Copy, PartialEq, Eq, Structural, Debug)]
pub enum Method {
    Get,
    Post,
    Put,
    Delete,
}

/// The method that a name denotes, if it is one of the four.
pub open spec fn method_named(name: Seq<char>) -> Option<Method> {
    if name == "GET"@ {
        Some(Method::Get)
    } else if name == "POST"@ {
        Some(Method::Post)
    } else if name == "PUT"@ {
        Some(Method::Put)
    } else if name == "DELETE"@ {
        Some(Method::Delete)
    } else {
        None
    }
}

/// The name of a method.
pub open spec fn method_name(method: Method) -> Seq<char> {
    match method {
        Method::Get => "GET"@,
        Method::Post => "POST"@,
        Method::Put => "PUT"@,
        Method::Delete => "DELETE"@,
    }
}

impl Method {
    /// Reads a method from its name, in capitals.
    pub fn parse(name: &str) -> (method: Option<Method>)
        ensures
            method == method_named(name@),
    {
        if str_eq(name, "GET") {
            Some(Method::Get)
        } else if str_eq(name, "POST") {
            Some(Method::Post)
        } else if str_eq(name, "PUT") {
            Some(Method::Put)
        } else if str_eq(name, "DELETE") {
            Some(Method::Delete)
        } else {
            None
        }
    }

    /// The method's name, in capitals.
    pub fn name(&self) -> (name: String)
        ensures
            name@ == method_name(*self),
    {
        match self {
            Method::Get => owned("GET"),
            Method::Post => owned("POST"),
            Method::Put => owned("PUT"),
            Method::Delete => owned("DELETE"),
        }
    }
}

/// Every method is read back from its name.
pub proof fn law_method_names(method: Method)
    ensures
        method_named(method_name(method)) == Some(method),
{
    reveal_strlit("GET");
    reveal_strlit("POST");
    reveal_strlit("PUT");
    reveal_strlit("DELETE");
    assert("PUT"@.len() != "GET"@.len() || "PUT"@[0] != "GET"@[0]);
    assert("DELETE"@.len() != "PUT"@.len());
}

/// One header of a request.
#[derive(Debug, Clone, PartialEq, Eq)]
pub struct Header {
    pub name: String,
    pub value: String,
}

impl DeepView for Header {
    type V = (Seq<char>, Seq<char>);

    open spec fn deep_view(&self) -> (Seq<char>, Seq<char>) {
        (self.name@, self.value@)
    }
}

/// Makes a header.
pub fn header(name: &str, value: &str) -> (made: Header)
    ensures
        made.deep_view() == (name@, value@),
{
    Header { name: owned(name), value: owned(value) }
}

/// A request, ready to be sent to `url`. `endpoint` is the path that was
/// asked for and `query` the query as it was handed over; `url` holds both,
/// behind the origin.
#[derive(Debug, Clone, PartialEq, Eq)]
pub struct HttpRequest {
    pub method: Method,
    pub url: String,
    pub endpoint: String,
    pub query: Option<String>,
    pub headers: Vec<Header>,
    pub body: Option<Json>,
}

/// An `HttpRequest` as mathematical data.
pub ghost struct HttpRequestModel {
    pub method: Method,
    pub url: Seq<char>,
    pub endpoint: Seq<char>,
    pub query: Option<Seq<char>>,
    pub headers: Seq<(Seq<char>, Seq<char>)>,
    pub body: Option<JsonModel>,
}

/// The model of an optional document.
pub open spec fn body_model(body: Option<Json>) -> Option<JsonModel> {
    match body {
        Some(json) => Some(json@),
        None => None,
    }
}

impl View for HttpRequest {
    type V = HttpRequestModel;

    open spec fn view(&self) -> HttpRequestModel {
        HttpRequestModel {
            method: self.method,
            url: self.url@,
            endpoint: self.endpoint@,
            query: self.query.deep_view(),
            headers: self.headers.deep_view(),
            body: body_model(self.body),
        }
    }
}

impl DeepView for HttpRequest {
    type V = HttpRequestModel;

    open spec fn deep_view(&self) -> HttpRequestModel {
        self@
    }
}

/// A response as it was received: the status code, the values of all its
/// `Set-Cookie` headers in order, and the body as text. A header value that
/// cannot be read as text is `None`.
#[derive(Debug, Clone, PartialEq, Eq)]
pub struct HttpResponse {
    pub status: u16,
    pub set_cookies: Vec<Option<String>>,
    pub body: String,
}

/// An `HttpResponse` as mathematical data.
pub ghost struct HttpResponseModel {
    pub status: u16,
    pub set_cookies: Seq<Option<Seq<char>>>,
    pub body: Seq<char>,
}

impl View for HttpResponse {
    type V = HttpResponseModel;

    open spec fn view(&self) -> HttpResponseModel {
        HttpResponseModel {
            status: self.status,
            set_cookies: self.set_cookies.deep_view(),
            body: self.body@,
        }
    }
}

/// Whether an HTTP status code lies in the success class, 200 to 299.
pub open spec fn status_is_success(status: u16) -> bool {
    200 <= status < 300
}

/// Tells whether a response status is in the success class.
pub fn is_success(status: u16) -> (ok: bool)
    ensures
        ok == status_is_success(status),
{
    200 <= status && status < 300
}

} // verus!
