//! Conversations with the camera.
//!
//! An operation that needs answers of the camera is a function of the answers that have
//! come so far: it says which request to send next, or what the operation comes to. The
//! caller sends the request, adds the answer to the list and asks again.
use crate::command::{CommandRequest, CommandResponse, RequestModel, ResponseModel};
use crate::error::{result_model, AppResult, ErrorModel};
use vstd::prelude::*;

verus! {

/// The next step of an operation.
pub enum Step<T> {
    Send(CommandRequest),
    Done(AppResult<T>),
}

pub ghost enum StepModel<V> {
    Send(RequestModel),
    Done(Result<V, ErrorModel>),
}

/// What came of a request.
pub type CgiReply = AppResult<CommandResponse>;

pub open spec fn step_model<T: View>(step: Step<T>) -> StepModel<T::V> {
    match step {
        Step::Send(request) => StepModel::Send(request@),
        Step::Done(result) => StepModel::Done(result_model(result)),
    }
}

/// The answers, taken by their views.
pub open spec fn reply_models(replies: Seq<CgiReply>) -> Seq<Result<ResponseModel, ErrorModel>> {
    Seq::new(replies.len(), |i: int| result_model(replies[i]))
}

/// What an answer comes to: its error, or what its text comes to.
pub open spec fn answered<V>(
    reply: Result<ResponseModel, ErrorModel>,
    outcome: spec_fn(Seq<char>) -> Result<V, ErrorModel>,
) -> Result<V, ErrorModel> {
    match reply {
        Ok(response) => outcome(response.raw_json),
        Err(error) => Err(error),
    }
}

/// An operation of one request, whose answer decides it.
pub open spec fn single_step<V>(
    request: RequestModel,
    replies: Seq<Result<ResponseModel, ErrorModel>>,
    outcome: spec_fn(Seq<char>) -> Result<V, ErrorModel>,
) -> StepModel<V> {
    if replies.len() == 0 {
        StepModel::Send(request)
    } else {
        StepModel::Done(answered(replies[0], outcome))
    }
}

/// The text of an answer, or a copy of its error.
pub fn reply_text<'a>(reply: &'a CgiReply) -> (r: AppResult<&'a str>)
    ensures
        match r {
            Ok(text) => result_model(*reply) matches Ok(response) && response.raw_json == text@,
            Err(error) => result_model(*reply) == Err::<ResponseModel, ErrorModel>(error@),
        },
{
    match reply {
        Ok(response) => Ok(response.raw_json.as_str()),
        Err(error) => Err(error.duplicate()),
    }
}

} // verus!
