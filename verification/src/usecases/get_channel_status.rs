//! Whether a channel is online.
use crate::command::{channel_params, request_model, CgiCommand};
use crate::exchange::{reply_models, single_step, step_model, CgiReply, Step};
use crate::model::ChannelStatus;
use crate::reolink::device;
use crate::reolink::device::channel_of;
use vstd::prelude::*;

verus! {

pub fn execute(channel: u8, replies: &[CgiReply]) -> (r: Step<ChannelStatus>)
    ensures
        step_model(r) == single_step(
            request_model(CgiCommand::GetChannelStatus, channel_params(channel)),
            reply_models(replies@),
            |raw_json: Seq<char>| channel_of(channel, raw_json),
        ),
{
    device::get_channel_status(channel, replies)
}

} // verus!
