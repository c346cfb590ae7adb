//! What becomes of a request once it has been handed to the transport.
//!
//! The transport reports twice at most: first whether the request was
//! answered, then, if the body is wanted, whether it could be read. Each
//! report is met by one function here, which says what to do next or what the
//! caller gets.

use vstd::prelude::*;
use crate::header::{collapse, collapsed, names_distinct, pairs, Header, Pair};
use crate::error::{Failure, RequestError};
use crate::request::Request;

verus! {

/// The status line and header lines of a response, as they arrived. A name
/// may occur in more than one line.
#[derive(Clone, Debug, PartialEq, Eq)]
pub struct ResponseHead {
    pub status_code: u16,
    pub headers: Vec<Header>,
}

/// What the transport reports of sending a request.
#[derive(Clone, Debug, PartialEq, Eq)]
pub enum SendOutcome {
    /// No response came; holds the transport's message.
    Failed(String),
    /// The server answered.
    Answered(ResponseHead),
}

/// What the transport reports of reading the response body.
#[derive(Clone, Debug, PartialEq, Eq)]
pub enum BodyOutcome {
    /// The body could not be read in full; holds the cause.
    Failed(String),
    /// The whole body.
    Read(Vec<u8>),
}

/// The result of a call that succeeded.
#[derive(Clone, Debug, PartialEq, Eq)]
pub struct Response {
    pub status_code: u16,
    /// One entry for each header name.
    pub headers: Vec<Header>,
    /// The body; `None` where it was not asked for.
    pub body: Option<Vec<u8>>,
}

/// The mathematical value of a [`Response`].
pub struct ResponseModel {
    pub status_code: u16,
    pub headers: Seq<Pair>,
    pub body: Option<Seq<u8>>,
}

impl View for Response {
    type V = ResponseModel;

    open spec fn view(&self) -> ResponseModel {
        ResponseModel {
            status_code: self.status_code,
            headers: pairs(self.headers@),
            body: match self.body {
                Some(b) => Some(b@),
                None => None,
            },
        }
    }
}

impl Response {
    /// The headers form a mapping: no name occurs twice.
    pub open spec fn wf(&self) -> bool {
        names_distinct(self@.headers)
    }
}

/// The view of the outcome of a call.
pub open spec fn outcome_view(r: Result<Response, RequestError>) -> Result<ResponseModel, Failure> {
    match r {
        Ok(response) => Ok(response@),
        Err(e) => Err(e@),
    }
}

/// What to do once the transport has reported on the sending.
#[derive(Debug, PartialEq, Eq)]
pub enum Step {
    /// Read the body of the response, then call [`after_body`] with the
    /// response as it stands here.
    ReadBody(Response),
    /// The call is over, with this outcome.
    Done(Result<Response, RequestError>),
}

/// The mathematical value of a [`Step`].
pub enum StepModel {
    ReadBody(ResponseModel),
    Done(Result<ResponseModel, Failure>),
}

impl View for Step {
    type V = StepModel;

    open spec fn view(&self) -> StepModel {
        match self {
            Step::ReadBody(partial) => StepModel::ReadBody(partial@),
            Step::Done(r) => StepModel::Done(outcome_view(*r)),
        }
    }
}

/// The response made of a head alone: its status code, its header lines as a
/// mapping, and no body.
pub open spec fn bodiless(head: ResponseHead) -> ResponseModel {
    ResponseModel {
        status_code: head.status_code,
        headers: collapsed(pairs(head.headers@)),
        body: None,
    }
}

/// The step that follows the sending. A transport failure ends the call with
/// that failure. An answer ends it with the bodiless response where the body
/// is not wanted, and asks for the body where it is.
pub open spec fn answered(read_body: bool, outcome: SendOutcome) -> StepModel {
    match outcome {
        SendOutcome::Failed(message) => StepModel::Done(Err(Failure::RequestFailed(message@))),
        SendOutcome::Answered(head) => if read_body {
            StepModel::ReadBody(bodiless(head))
        } else {
            StepModel::Done(Ok(bodiless(head)))
        },
    }
}

/// The outcome of a call whose body was asked for: the response so far with
/// the body that was read, or the failure to read it.
pub open spec fn completed(partial: ResponseModel, outcome: BodyOutcome) -> Result<
    ResponseModel,
    Failure,
> {
    match outcome {
        BodyOutcome::Failed(message) => Err(Failure::BodyReadFailed(message@)),
        BodyOutcome::Read(bytes) => Ok(
            ResponseModel {
                status_code: partial.status_code,
                headers: partial.headers,
                body: Some(bytes@),
            },
        ),
    }
}

/// Decides what follows the sending of `request`.
pub fn after_send(request: &Request, outcome: SendOutcome) -> (step: Step)
    ensures
        step@ == answered(request.read_body, outcome),
        step matches Step::ReadBody(partial) ==> partial.wf(),
        step matches Step::Done(Ok(response)) ==> response.wf(),
{
    match outcome {
        SendOutcome::Failed(message) => Step::Done(Err(RequestError::RequestFailed(message))),
        SendOutcome::Answered(head) => {
            let response = Response {
                status_code: head.status_code,
                headers: collapse(&head.headers),
                body: None,
            };
            if request.read_body {
                Step::ReadBody(response)
            } else {
                Step::Done(Ok(response))
            }
        },
    }
}

/// Ends a call whose body was asked for.
pub fn after_body(partial: Response, outcome: BodyOutcome) -> (r: Result<Response, RequestError>)
    ensures
        outcome_view(r) == completed(partial@, outcome),
        r matches Ok(response) ==> (partial.wf() ==> response.wf()),
{
    match outcome {
        BodyOutcome::Failed(message) => Err(RequestError::BodyReadFailed(message)),
        BodyOutcome::Read(bytes) => Ok(
            Response { status_code: partial.status_code, headers: partial.headers, body: Some(bytes) },
        ),
    }
}

} // verus!
