//! What kind of camera it is.
use crate::command::{no_params, request_model, CgiCommand};
use crate::exchange::{reply_models, single_step, step_model, CgiReply, Step};
use crate::model::DeviceInfo;
use crate::reolink::device;
use crate::reolink::device::device_of;
use vstd::prelude::*;

verus! {

pub fn execute(replies: &[CgiReply]) -> (r: Step<DeviceInfo>)
    ensures
        step_model(r) == single_step(
            request_model(CgiCommand::GetDevInfo, no_params()),
            reply_models(replies@),
            |raw_json: Seq<char>| device_of(raw_json),
        ),
{
    device::get_dev_info(replies)
}

} // verus!
