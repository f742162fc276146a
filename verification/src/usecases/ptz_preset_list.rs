//! The stored positions of a channel.
use crate::exchange::{reply_models, step_model, CgiReply, Step};
use crate::reolink::ptz;
use crate::reolink::ptz::{presets_step, PresetList};
use vstd::prelude::*;

verus! {

pub fn execute(channel: u8, replies: &[CgiReply]) -> (r: Step<PresetList>)
    ensures
        step_model(r) == presets_step(channel, reply_models(replies@)),
{
    ptz::list_presets(channel, replies)
}

} // verus!
