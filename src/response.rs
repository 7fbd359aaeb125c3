use vstd::prelude::*;

verus! {

/// The image formats that the host serves, each with its content type.
#[derive(Clone, Copy, Debug, PartialEq, Eq, Structural)]
pub enum ImageKind {
    Jpeg,
    Png,
}

/// The statuses that the host answers with.
#[derive(Clone, Copy, Debug, PartialEq, Eq, Structural)]
pub enum Status {
    Success,
    BadRequest,
    NotFound,
    InternalServerError,
}

impl Status {
    /// The HTTP status code.
    pub open spec fn spec_code(self) -> u16 {
        match self {
            Status::Success => 200,
            Status::BadRequest => 400,
            Status::NotFound => 404,
            Status::InternalServerError => 500,
        }
    }

    /// The HTTP status code.
    pub fn code(&self) -> (r: u16)
        ensures
            r == self.spec_code(),
    {
        match self {
            Status::Success => 200,
            Status::BadRequest => 400,
            Status::NotFound => 404,
            Status::InternalServerError => 500,
        }
    }
}

/// The body of a response.
#[derive(Debug)]
pub enum Body {
    Empty,
    Text(String),
    Bytes(Vec<u8>),
}

/// A response, as plain values: the server turns it into HTTP.
#[derive(Debug)]
pub struct Response {
    pub status: Status,
    /// The content type header, set only on images.
    pub content_type: Option<ImageKind>,
    pub body: Body,
}

/// What a response stands for in contracts: texts and bytes by their views.
pub enum BodyView {
    Empty,
    Text(Seq<char>),
    Bytes(Seq<u8>),
}

/// The view of a response.
pub struct ResponseView {
    pub status: Status,
    pub content_type: Option<ImageKind>,
    pub body: BodyView,
}

impl View for Body {
    type V = BodyView;

    open spec fn view(&self) -> BodyView {
        match self {
            Body::Empty => BodyView::Empty,
            Body::Text(s) => BodyView::Text(s@),
            Body::Bytes(b) => BodyView::Bytes(b@),
        }
    }
}

impl View for Response {
    type V = ResponseView;

    open spec fn view(&self) -> ResponseView {
        ResponseView { status: self.status, content_type: self.content_type, body: self.body@ }
    }
}

/// A response with a status and nothing else.
pub open spec fn bare(status: Status) -> ResponseView {
    ResponseView { status, content_type: None, body: BodyView::Empty }
}

/// A plain-text response.
pub open spec fn text(status: Status, t: Seq<char>) -> ResponseView {
    ResponseView { status, content_type: None, body: BodyView::Text(t) }
}

/// A successful response that carries an image.
pub open spec fn image(kind: ImageKind, data: Seq<u8>) -> ResponseView {
    ResponseView { status: Status::Success, content_type: Some(kind), body: BodyView::Bytes(data) }
}

/// A response with a status and an empty body.
pub fn bare_response(status: Status) -> (r: Response)
    ensures
        r@ == bare(status),
{
    Response { status, content_type: None, body: Body::Empty }
}

/// A plain-text response.
pub fn text_response(status: Status, t: String) -> (r: Response)
    ensures
        r@ == text(status, t@),
{
    Response { status, content_type: None, body: Body::Text(t) }
}

} // verus!
