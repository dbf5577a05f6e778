//! Replies: the status and the body that a route answers with.

use vstd::prelude::*;

verus! {

/// Status of a reply that carries what was asked for.
pub const OK: u16 = 200;

/// Status of the reply to a request that no route matches.
pub const NOT_FOUND: u16 = 404;

/// A JSON object with the single text field `message`.
#[derive(Debug)]
pub struct Message {
    pub message: String,
}

impl View for Message {
    type V = Seq<char>;

    /// The text of the `message` field.
    open spec fn view(&self) -> Seq<char> {
        self.message@
    }
}

impl Clone for Message {
    fn clone(&self) -> (r: Self)
        ensures
            r == *self,
    {
        Message { message: self.message.clone() }
    }
}

impl Message {
    /// A message with the given text.
    pub fn new(text: &str) -> (r: Message)
        ensures
            r@ == text@,
    {
        Message { message: text.to_owned() }
    }
}

/// A JSON object with the single text field `status`. A well-formed value
/// always reports `healthy`.
#[derive(Debug)]
pub struct Health {
    pub status: String,
}

impl View for Health {
    type V = Seq<char>;

    /// The text of the `status` field.
    open spec fn view(&self) -> Seq<char> {
        self.status@
    }
}

impl Clone for Health {
    fn clone(&self) -> (r: Self)
        ensures
            r == *self,
    {
        Health { status: self.status.clone() }
    }
}

/// The one value that the `status` field ever takes.
pub open spec fn healthy_text() -> Seq<char> {
    "healthy"@
}

impl Health {
    /// Whether the status is the constant `healthy`.
    pub open spec fn wf(&self) -> bool {
        self@ == healthy_text()
    }

    /// The well-formed health report.
    pub fn healthy() -> (r: Health)
        ensures
            r.wf(),
    {
        Health { status: "healthy".to_owned() }
    }
}

/// How a body is labelled on the wire.
#[derive(Clone, Copy, Debug, PartialEq, Eq, Structural)]
pub enum MediaType {
    /// `application/json`
    Json,
    /// `text/plain`
    PlainText,
    /// No body, so no label.
    Absent,
}

/// The body of a reply.
#[derive(Debug)]
pub enum Body {
    /// A message object, sent as JSON.
    Message(Message),
    /// A health object, sent as JSON.
    Health(Health),
    /// Plain text, sent as it is.
    Text(String),
    /// Nothing.
    Empty,
}

/// The mathematical value of a [`Body`].
pub enum BodyView {
    Message(Seq<char>),
    Health(Seq<char>),
    Text(Seq<char>),
    Empty,
}

impl BodyView {
    /// JSON for the two objects, plain text for text, nothing for nothing.
    pub open spec fn media_type(self) -> MediaType {
        match self {
            BodyView::Message(_) => MediaType::Json,
            BodyView::Health(_) => MediaType::Json,
            BodyView::Text(_) => MediaType::PlainText,
            BodyView::Empty => MediaType::Absent,
        }
    }
}

impl View for Body {
    type V = BodyView;

    open spec fn view(&self) -> BodyView {
        match self {
            Body::Message(m) => BodyView::Message(m@),
            Body::Health(h) => BodyView::Health(h@),
            Body::Text(t) => BodyView::Text(t@),
            Body::Empty => BodyView::Empty,
        }
    }
}

impl Clone for Body {
    fn clone(&self) -> (r: Self)
        ensures
            r == *self,
    {
        match self {
            Body::Message(m) => Body::Message(m.clone()),
            Body::Health(h) => Body::Health(h.clone()),
            Body::Text(t) => Body::Text(t.clone()),
            Body::Empty => Body::Empty,
        }
    }
}

impl Body {
    /// A plain-text body with the given text.
    pub fn text(text: &str) -> (r: Body)
        ensures
            r@ == BodyView::Text(text@),
    {
        Body::Text(text.to_owned())
    }

    /// The label under which this body is sent.
    pub fn media_type(&self) -> (r: MediaType)
        ensures
            r == self@.media_type(),
    {
        match self {
            Body::Message(_) => MediaType::Json,
            Body::Health(_) => MediaType::Json,
            Body::Text(_) => MediaType::PlainText,
            Body::Empty => MediaType::Absent,
        }
    }
}

/// What a service answers: a status code and a body.
#[derive(Debug)]
pub struct Reply {
    pub status: u16,
    pub body: Body,
}

/// The mathematical value of a [`Reply`].
pub struct ReplyView {
    pub status: u16,
    pub body: BodyView,
}

impl ReplyView {
    /// Status 200 with the given body.
    pub open spec fn ok(body: BodyView) -> ReplyView {
        ReplyView { status: OK, body }
    }

    /// Status 404 with no body.
    pub open spec fn not_found() -> ReplyView {
        ReplyView { status: NOT_FOUND, body: BodyView::Empty }
    }

    /// Whether the status lies in the 2xx range.
    pub open spec fn is_success(self) -> bool {
        200 <= self.status < 300
    }
}

impl View for Reply {
    type V = ReplyView;

    open spec fn view(&self) -> ReplyView {
        ReplyView { status: self.status, body: self.body@ }
    }
}

impl Clone for Reply {
    fn clone(&self) -> (r: Self)
        ensures
            r == *self,
    {
        Reply { status: self.status, body: self.body.clone() }
    }
}

impl Reply {
    /// Status 200 with the given body.
    pub fn ok(body: Body) -> (r: Reply)
        ensures
            r@ == ReplyView::ok(body@),
    {
        Reply { status: OK, body }
    }

    /// Status 404 with no body.
    pub fn not_found() -> (r: Reply)
        ensures
            r@ == ReplyView::not_found(),
    {
        Reply { status: NOT_FOUND, body: Body::Empty }
    }

    /// Whether the status lies in the 2xx range.
    pub fn is_success(&self) -> (r: bool)
        ensures
            r == self@.is_success(),
    {
        200 <= self.status && self.status < 300
    }
}

} // verus!
