//! What the gateway answers: a status code and a body.

use vstd::prelude::*;
use crate::record::{UserData, UserRecord, records_view};

verus! {

/// Status of an answer that reports success.
pub const STATUS_OK: u16 = 200;

/// Status of an answer that reports a failure of the pool or the store.
pub const STATUS_SERVER_ERROR: u16 = 500;

/// The body of an answer.
#[derive(Debug, PartialEq, Eq)]
pub enum Body {
    /// Plain text, sent as it stands.
    Text(String),
    /// User records, sent as a JSON array with one object per record, in this
    /// order.
    Json(Vec<UserData>),
}

/// An answer to one request.
#[derive(Debug, PartialEq, Eq)]
pub struct Response {
    pub status: u16,
    pub body: Body,
}

/// Mathematical value of a [`Body`].
pub enum BodyView {
    Text(Seq<char>),
    Json(Seq<UserRecord>),
}

/// Mathematical value of a [`Response`].
pub struct ResponseView {
    pub status: u16,
    pub body: BodyView,
}

impl View for Body {
    type V = BodyView;

    open spec fn view(&self) -> BodyView {
        match self {
            Body::Text(s) => BodyView::Text(s@),
            Body::Json(records) => BodyView::Json(records_view(records@)),
        }
    }
}

impl View for Response {
    type V = ResponseView;

    open spec fn view(&self) -> ResponseView {
        ResponseView { status: self.status, body: self.body@ }
    }
}

/// Success with a line of text.
pub open spec fn ok_text(text: Seq<char>) -> ResponseView {
    ResponseView { status: STATUS_OK, body: BodyView::Text(text) }
}

/// Success with the records found, which may be none.
pub open spec fn ok_json(records: Seq<UserRecord>) -> ResponseView {
    ResponseView { status: STATUS_OK, body: BodyView::Json(records) }
}

/// Failure, with the message of whatever failed as the body.
pub open spec fn server_error(message: Seq<char>) -> ResponseView {
    ResponseView { status: STATUS_SERVER_ERROR, body: BodyView::Text(message) }
}

impl Response {
    /// Success with a line of text.
    pub fn ok_text(text: String) -> (response: Response)
        ensures
            response@ == ok_text(text@),
    {
        Response { status: STATUS_OK, body: Body::Text(text) }
    }

    /// Success with the records found, which may be none.
    pub fn ok_json(records: Vec<UserData>) -> (response: Response)
        ensures
            response@ == ok_json(records_view(records@)),
    {
        Response { status: STATUS_OK, body: Body::Json(records) }
    }

    /// Failure, with the message of whatever failed as the body.
    pub fn server_error(message: String) -> (response: Response)
        ensures
            response@ == server_error(message@),
    {
        Response { status: STATUS_SERVER_ERROR, body: Body::Text(message) }
    }
}

} // verus!
