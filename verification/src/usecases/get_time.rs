//! The time on the camera's clock.
use crate::command::{no_params, request_model, CgiCommand};
use crate::exchange::{reply_models, single_step, step_model, CgiReply, Step};
use crate::model::SystemTime;
use crate::reolink::system;
use crate::reolink::system::time_of;
use vstd::prelude::*;

verus! {

pub fn execute(replies: &[CgiReply]) -> (r: Step<SystemTime>)
    ensures
        step_model(r) == single_step(
            request_model(CgiCommand::GetTime, no_params()),
            reply_models(replies@),
            |raw_json: Seq<char>| time_of(raw_json),
        ),
{
    system::get_time(replies)
}

} // verus!
