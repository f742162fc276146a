//! Setting the camera's clock.
use crate::exchange::{reply_models, step_model, CgiReply, Step};
use crate::model::SystemTime;
use crate::reolink::system;
use crate::reolink::system::set_time_step;
use vstd::prelude::*;

verus! {

pub fn execute(iso8601: &str, replies: &[CgiReply]) -> (r: Step<SystemTime>)
    ensures
        step_model(r) == set_time_step(iso8601@, reply_models(replies@)),
{
    system::set_time(iso8601, replies)
}

} // verus!
