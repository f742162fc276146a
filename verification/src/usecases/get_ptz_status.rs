//! The status of a channel that can be moved.
use crate::exchange::{reply_models, step_model, CgiReply, Step};
use crate::model::{PtzStatus, StatusModel};
use crate::reolink::ptz;
use crate::reolink::ptz::status_step;
use vstd::prelude::*;

verus! {

#[derive(Debug, Clone, PartialEq, Eq)]
pub struct PtzStatusView {
    pub status: PtzStatus,
}

impl View for PtzStatusView {
    type V = StatusModel;

    open spec fn view(&self) -> StatusModel {
        self.status@
    }
}

pub fn execute(channel: u8, replies: &[CgiReply]) -> (r: Step<PtzStatusView>)
    ensures
        step_model(r) == status_step(channel, reply_models(replies@)),
{
    match ptz::get_ptz_status(channel, replies) {
        Step::Send(request) => Step::Send(request),
        Step::Done(Ok(status)) => Step::Done(Ok(PtzStatusView { status })),
        Step::Done(Err(error)) => Step::Done(Err(error)),
    }
}

} // verus!
