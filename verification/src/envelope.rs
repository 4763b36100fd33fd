//! The request and the response of one remote call.

use vstd::prelude::*;
use crate::params::{Payload, PayloadView};

verus! {

/// A request: the name of the method to call, the parameters of the call if it
/// carries any, and the id that the response will be matched by.
#[derive(Clone, Debug, PartialEq, Eq)]
pub struct Request {
    pub method: String,
    pub params: Option<Payload>,
    pub id: String,
}

/// The mathematical value of a [`Request`].
pub struct RequestView {
    pub method: Seq<char>,
    pub params: Option<PayloadView>,
    pub id: Seq<char>,
}

impl View for Request {
    type V = RequestView;

    open spec fn view(&self) -> RequestView {
        RequestView {
            method: self.method@,
            params: match self.params {
                Some(payload) => Some(payload@),
                None => None,
            },
            id: self.id@,
        }
    }
}

/// Why a request was answered without calling a method.
#[derive(Clone, Copy, Debug, PartialEq, Eq, Structural)]
pub enum DispatchError {
    /// No method of the service has the name that the request gives.
    MethodNotFound,
    /// The parameters of the request do not decode into the method's arguments.
    InvalidParams,
}

/// A response: the id of the request it answers, and either the encoded result of
/// the call or the error that stood in its way, never both.
#[derive(Debug, PartialEq, Eq)]
pub struct Response {
    pub id: String,
    pub outcome: Result<String, DispatchError>,
}

/// The mathematical value of a [`Response`].
pub struct ResponseView {
    pub id: Seq<char>,
    pub outcome: Result<Seq<char>, DispatchError>,
}

impl View for Response {
    type V = ResponseView;

    open spec fn view(&self) -> ResponseView {
        ResponseView {
            id: self.id@,
            outcome: match self.outcome {
                Ok(result) => Ok(result@),
                Err(e) => Err(e),
            },
        }
    }
}

/// The response that carries `result` as the result of the request with this id.
pub open spec fn success(id: Seq<char>, result: Seq<char>) -> ResponseView {
    ResponseView { id, outcome: Ok(result) }
}

/// The response that reports `error` for the request with this id.
pub open spec fn failure(id: Seq<char>, error: DispatchError) -> ResponseView {
    ResponseView { id, outcome: Err(error) }
}

impl Response {
    /// Answers the request with this id with a result.
    pub fn new_success(id: String, result: String) -> (r: Response)
        ensures
            r@ == success(id@, result@),
    {
        Response { id, outcome: Ok(result) }
    }

    /// Answers the request with this id with an error.
    pub fn new_error(id: String, error: DispatchError) -> (r: Response)
        ensures
            r@ == failure(id@, error),
    {
        Response { id, outcome: Err(error) }
    }
}

} // verus!
