//! The conversation between a resolution and the caller that serves it.
//!
//! A resolution never touches a file, a socket or a floating-point unit. It
//! asks for one thing at a time with a [`Request`]; the caller carries it out
//! and answers with a [`Reply`]; the resolution takes its next [`Turn`].

use vstd::prelude::*;
use crate::error::{Fault, PriceError, PriceErrorView};
use crate::json::Json;

verus! {

/// One thing a resolution needs done on its behalf.
#[derive(Debug, PartialEq, Eq)]
pub enum Request {
    /// Read the whole file at `path`.
    ReadFile { path: String },
    /// Send a GET to `url` and read the answer as JSON.
    Get { url: String },
    /// Send a POST with this body and content type, and read the answer as JSON.
    Post { url: String, content_type: String, body: String },
    /// Read `text` as a decimal number and print it back.
    Parse { text: String },
    /// Compute one divided by `price`.
    Reciprocal { price: String },
    /// Compute `price` divided by `by`.
    Divide { price: String, by: String },
}

/// The mathematical value of a [`Request`].
pub enum RequestView {
    ReadFile { path: Seq<char> },
    Get { url: Seq<char> },
    Post { url: Seq<char>, content_type: Seq<char>, body: Seq<char> },
    Parse { text: Seq<char> },
    Reciprocal { price: Seq<char> },
    Divide { price: Seq<char>, by: Seq<char> },
}

impl View for Request {
    type V = RequestView;

    open spec fn view(&self) -> RequestView {
        match *self {
            Request::ReadFile { path } => RequestView::ReadFile { path: path@ },
            Request::Get { url } => RequestView::Get { url: url@ },
            Request::Post { url, content_type, body } => RequestView::Post {
                url: url@,
                content_type: content_type@,
                body: body@,
            },
            Request::Parse { text } => RequestView::Parse { text: text@ },
            Request::Reciprocal { price } => RequestView::Reciprocal { price: price@ },
            Request::Divide { price, by } => RequestView::Divide { price: price@, by: by@ },
        }
    }
}

/// What the caller hands back for a [`Request`].
#[derive(Debug, PartialEq, Eq)]
pub enum Reply {
    /// The bytes of the file that was read.
    File(Vec<u8>),
    /// The answer to a GET or POST: its HTTP status and, where its body is
    /// JSON, the document.
    Answer { status: u16, document: Option<Json> },
    /// The decimal text of the number that was parsed or computed.
    Number(String),
    /// The request could not be carried out.
    Failed,
}

/// The mathematical value of a [`Reply`].
pub enum ReplyView {
    File(Seq<u8>),
    Answer { status: u16, document: Option<Json> },
    Number(Seq<char>),
    Failed,
}

impl View for Reply {
    type V = ReplyView;

    open spec fn view(&self) -> ReplyView {
        match *self {
            Reply::File(bytes) => ReplyView::File(bytes@),
            Reply::Answer { status, document } => ReplyView::Answer { status, document },
            Reply::Number(text) => ReplyView::Number(text@),
            Reply::Failed => ReplyView::Failed,
        }
    }
}

/// Whether an HTTP status reports success.
pub open spec fn is_success(status: u16) -> bool {
    200 <= status < 300
}

/// The document that a reply to a GET or POST brought, or what is wrong with
/// the reply: a status other than success is a refusal, whatever the body;
/// a body that is no JSON is malformed; a reply of another kind is no answer.
pub open spec fn answered(reply: ReplyView) -> Result<Json, Fault> {
    match reply {
        ReplyView::Answer { status, document } => if is_success(status) {
            match document {
                Some(json) => Ok(json),
                None => Err(Fault::Malformed),
            }
        } else {
            Err(Fault::Refused { status })
        },
        _ => Err(Fault::Unanswered),
    }
}

/// The reply that brings `document` with `status`.
pub open spec fn answer_with(status: u16, document: Json) -> ReplyView {
    ReplyView::Answer { status, document: Some(document) }
}

impl Reply {
    /// The document that a reply to a GET or POST brought.
    pub fn into_document(self) -> (r: Result<Json, Fault>)
        ensures
            r == answered(self@),
    {
        match self {
            Reply::Answer { status, document } => if 200 <= status && status < 300 {
                match document {
                    Some(json) => Ok(json),
                    None => Err(Fault::Malformed),
                }
            } else {
                Err(Fault::Refused { status })
            },
            _ => Err(Fault::Unanswered),
        }
    }
}

/// Where a resolution stands after a step: it asks for something and waits in
/// state `S`, or it has ended with a value or with an error.
#[derive(Debug, PartialEq, Eq)]
pub enum Turn<S, T> {
    Ask(S, Request),
    Done(T),
    Failed(PriceError),
}

/// The mathematical value of a [`Turn`].
pub enum TurnView<S, T> {
    Ask(S, RequestView),
    Done(T),
    Failed(PriceErrorView),
}

impl<S: View, T: View> View for Turn<S, T> {
    type V = TurnView<S::V, T::V>;

    open spec fn view(&self) -> TurnView<S::V, T::V> {
        match *self {
            Turn::Ask(state, request) => TurnView::Ask(state@, request@),
            Turn::Done(value) => TurnView::Done(value@),
            Turn::Failed(error) => TurnView::Failed(error@),
        }
    }
}

/// The first turn of a resolution that begins as `start` says: it asks its
/// first request, or it has failed before asking anything.
pub open spec fn begun<S, T>(start: Result<(S, RequestView), PriceErrorView>) -> TurnView<S, T> {
    match start {
        Ok((state, request)) => TurnView::Ask(state, request),
        Err(error) => TurnView::Failed(error),
    }
}

/// What a resolution comes to when `replies` are handed to it in order,
/// each to the state that the turn before it left; `step` is the
/// resolution's own step. Replies that come after the end are not looked at.
pub open spec fn run<S, T>(
    step: spec_fn(S, ReplyView) -> TurnView<S, T>,
    turn: TurnView<S, T>,
    replies: Seq<ReplyView>,
) -> TurnView<S, T>
    decreases replies.len(),
{
    if replies.len() == 0 {
        turn
    } else {
        match turn {
            TurnView::Ask(state, _) => run(step, step(state, replies[0]), replies.drop_first()),
            _ => turn,
        }
    }
}

} // verus!
