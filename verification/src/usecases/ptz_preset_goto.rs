//! Moving the camera to a stored position.
use crate::exchange::{reply_models, CgiReply};
use crate::reolink::ptz;
use crate::reolink::ptz::{goto_step, MoveStep};
use vstd::prelude::*;

verus! {

pub fn execute(channel: u8, preset_id: u8, replies: &[CgiReply]) -> (r: MoveStep)
    ensures
        r@ == goto_step(channel, preset_id, reply_models(replies@)),
{
    ptz::goto_preset(channel, preset_id, replies)
}

} // verus!
