//! Errors of request handling and the plain HTTP replies they turn into.
use vstd::prelude::*;
use crate::text::push_dec;

verus! {

/// The body of a reply.
pub enum Body {
    /// No body.
    Empty,
    /// A text body.
    Text(String),
    /// The contents of the file that is being served.
    File,
}

/// An HTTP reply: status, headers in order, body.
pub struct Reply {
    pub status: u16,
    pub headers: Vec<(String, String)>,
    pub body: Body,
}

/// A body as a mathematical value.
pub enum BodyView {
    Empty,
    Text(Seq<char>),
    File,
}

/// A reply as a mathematical value.
pub struct ReplyView {
    pub status: u16,
    pub headers: Seq<(Seq<char>, Seq<char>)>,
    pub body: BodyView,
}

impl View for Body {
    type V = BodyView;

    open spec fn view(&self) -> BodyView {
        match self {
            Body::Empty => BodyView::Empty,
            Body::Text(s) => BodyView::Text(s@),
            Body::File => BodyView::File,
        }
    }
}

/// The headers as pairs of character sequences.
pub open spec fn headers_view(h: Seq<(String, String)>) -> Seq<(Seq<char>, Seq<char>)> {
    Seq::new(h.len(), |i: int| (h[i].0@, h[i].1@))
}

impl View for Reply {
    type V = ReplyView;

    open spec fn view(&self) -> ReplyView {
        ReplyView { status: self.status, headers: headers_view(self.headers@), body: self.body@ }
    }
}

/// Why a request could not be served.
pub enum ServeError {
    NotFound,
    Forbidden,
    BadRequest(String),
    MethodNotAllowed,
    InternalError(String),
}

/// An error as a mathematical value.
pub enum ErrorView {
    NotFound,
    Forbidden,
    BadRequest(Seq<char>),
    MethodNotAllowed,
    InternalError(Seq<char>),
}

impl View for ServeError {
    type V = ErrorView;

    open spec fn view(&self) -> ErrorView {
        match self {
            ServeError::NotFound => ErrorView::NotFound,
            ServeError::Forbidden => ErrorView::Forbidden,
            ServeError::BadRequest(m) => ErrorView::BadRequest(m@),
            ServeError::MethodNotAllowed => ErrorView::MethodNotAllowed,
            ServeError::InternalError(m) => ErrorView::InternalError(m@),
        }
    }
}

/// The status code of an error.
pub open spec fn error_status(e: ServeError) -> u16 {
    match e {
        ServeError::NotFound => 404,
        ServeError::Forbidden => 403,
        ServeError::BadRequest(_) => 400,
        ServeError::MethodNotAllowed => 405,
        ServeError::InternalError(_) => 500,
    }
}

/// The text after the status code in an error's body. The message of an internal error is
/// for the log, never for the client.
pub open spec fn error_message(e: ServeError) -> Seq<char> {
    match e {
        ServeError::NotFound => "Not Found"@,
        ServeError::Forbidden => "Forbidden"@,
        ServeError::BadRequest(m) => m@,
        ServeError::MethodNotAllowed => "Method Not Allowed"@,
        ServeError::InternalError(_) => "Internal Server Error"@,
    }
}

/// The plain-text headers of an error reply; a refused method also says which ones are allowed.
pub open spec fn error_headers(e: ServeError) -> Seq<(Seq<char>, Seq<char>)> {
    let plain = seq![
        ("content-type"@, "text/plain; charset=utf-8"@),
        ("cache-control"@, "no-store"@),
    ];
    if e is MethodNotAllowed {
        seq![("allow"@, "GET, HEAD"@)] + plain
    } else {
        plain
    }
}

/// The reply for an error: its status, `<status> <message>` as the body.
pub open spec fn error_reply(e: ServeError) -> ReplyView {
    ReplyView {
        status: error_status(e),
        headers: error_headers(e),
        body: BodyView::Text(crate::text::dec(error_status(e) as nat) + " "@ + error_message(e)),
    }
}

/// A header of a reply.
pub fn header(name: &str, value: &str) -> (h: (String, String))
    ensures
        h.0@ == name@,
        h.1@ == value@,
{
    (String::from_str(name), String::from_str(value))
}

impl ServeError {
    /// The reply that answers this error.
    pub fn reply(&self) -> (r: Reply)
        ensures
            r@ == error_reply(*self),
    {
        let status: u16 = match self {
            ServeError::NotFound => 404,
            ServeError::Forbidden => 403,
            ServeError::BadRequest(_) => 400,
            ServeError::MethodNotAllowed => 405,
            ServeError::InternalError(_) => 500,
        };
        let mut body = String::new();
        push_dec(&mut body, status as u64);
        body.append(" ");
        match self {
            ServeError::NotFound => body.append("Not Found"),
            ServeError::Forbidden => body.append("Forbidden"),
            ServeError::BadRequest(m) => body.append(m.as_str()),
            ServeError::MethodNotAllowed => body.append("Method Not Allowed"),
            ServeError::InternalError(_) => body.append("Internal Server Error"),
        }
        let mut headers: Vec<(String, String)> = Vec::new();
        if let ServeError::MethodNotAllowed = self {
            headers.push(header("allow", "GET, HEAD"));
        }
        headers.push(header("content-type", "text/plain; charset=utf-8"));
        headers.push(header("cache-control", "no-store"));
        let r = Reply { status, headers, body: Body::Text(body) };
        proof {
            assert(r@.headers =~= error_headers(*self));
        }
        r
    }
}

} // verus!
