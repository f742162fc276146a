//! Taking a snapshot.
use crate::exchange::CgiReply;
use crate::reolink::media;
use crate::reolink::media::{
    optional_reply, optional_save, optional_str, snap_step, SaveReply, SnapStep,
};
use vstd::prelude::*;

verus! {

pub fn execute(channel: u8, reply: Option<&CgiReply>, saved: Option<&SaveReply>) -> (r: SnapStep)
    ensures
        r@ == snap_step(channel, None, optional_reply(reply), optional_save(saved)),
{
    execute_with_out_path(channel, None, reply, saved)
}

pub fn execute_with_out_path(
    channel: u8,
    out_path: Option<&str>,
    reply: Option<&CgiReply>,
    saved: Option<&SaveReply>,
) -> (r: SnapStep)
    ensures
        r@ == snap_step(
            channel,
            optional_str(out_path),
            optional_reply(reply),
            optional_save(saved),
        ),
{
    media::snap_with_out_path(channel, out_path, reply, saved)
}

} // verus!
