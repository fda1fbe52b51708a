use vstd::prelude::*;

verus! {

pub const STATUS_OK: u16 = 200;

pub const STATUS_CREATED: u16 = 201;

pub const STATUS_NO_CONTENT: u16 = 204;

pub const STATUS_BAD_REQUEST: u16 = 400;

pub const STATUS_UNAUTHORIZED: u16 = 401;

pub const STATUS_NOT_FOUND: u16 = 404;

pub const STATUS_INTERNAL_SERVER_ERROR: u16 = 500;

/// What a handler answers with.
#[derive(Clone, Debug, PartialEq, Eq)]
pub enum Reply<T> {
    /// The payload as JSON.
    Json { status: u16, payload: T },
    /// No body.
    Empty { status: u16 },
    /// The message as plain text.
    Text { status: u16, message: String },
    /// The message as the `error` field of a JSON object.
    Error { status: u16, message: String },
}

/// `Reply` as contracts speak of it. The payload is left as it is.
pub enum ReplyView<T> {
    Json { status: int, payload: T },
    Empty { status: int },
    Text { status: int, message: Seq<char> },
    Error { status: int, message: Seq<char> },
}

impl<T> View for Reply<T> {
    type V = ReplyView<T>;

    open spec fn view(&self) -> ReplyView<T> {
        match self {
            Reply::Json { status, payload } => ReplyView::Json {
                status: *status as int,
                payload: *payload,
            },
            Reply::Empty { status } => ReplyView::Empty { status: *status as int },
            Reply::Text { status, message } => ReplyView::Text {
                status: *status as int,
                message: message@,
            },
            Reply::Error { status, message } => ReplyView::Error {
                status: *status as int,
                message: message@,
            },
        }
    }
}

impl<T> ReplyView<T> {
    pub open spec fn status(self) -> int {
        match self {
            ReplyView::Json { status, .. } => status,
            ReplyView::Empty { status } => status,
            ReplyView::Text { status, .. } => status,
            ReplyView::Error { status, .. } => status,
        }
    }
}

/// A reply as contracts speak of it where the payload has a view of its
/// own.
pub open spec fn reply_view<T: View>(reply: Reply<T>) -> ReplyView<T::V> {
    match reply {
        Reply::Json { status, payload } => ReplyView::Json {
            status: status as int,
            payload: payload@,
        },
        Reply::Empty { status } => ReplyView::Empty { status: status as int },
        Reply::Text { status, message } => ReplyView::Text {
            status: status as int,
            message: message@,
        },
        Reply::Error { status, message } => ReplyView::Error {
            status: status as int,
            message: message@,
        },
    }
}

impl<T> Reply<T> {
    /// The HTTP status of the reply.
    pub fn status(&self) -> (code: u16)
        ensures
            code == self@.status(),
    {
        match self {
            Reply::Json { status, .. } => *status,
            Reply::Empty { status } => *status,
            Reply::Text { status, .. } => *status,
            Reply::Error { status, .. } => *status,
        }
    }

    /// A plain-text reply.
    pub fn text(status: u16, message: &str) -> (reply: Reply<T>)
        ensures
            reply@ == (ReplyView::<T>::Text { status: status as int, message: message@ }),
    {
        Reply::Text { status, message: message.to_owned() }
    }

    /// A reply whose body is a JSON object with the message as its `error`.
    pub fn error(status: u16, message: &str) -> (reply: Reply<T>)
        ensures
            reply@ == (ReplyView::<T>::Error { status: status as int, message: message@ }),
    {
        Reply::Error { status, message: message.to_owned() }
    }
}

} // verus!
