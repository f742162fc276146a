//! Where the camera stands, in counts.
use crate::error::{error_model, result_model, AppError, AppResult, ErrorKind, ErrorModel};
use crate::exchange::{reply_models, step_model, CgiReply, Step, StepModel};
use crate::command::ResponseModel;
use crate::model::{PtzStatus, StatusModel};
use crate::reolink::ptz;
use crate::reolink::ptz::position_step;
use crate::text::{dec, dec_u64, join2};
use vstd::prelude::*;

verus! {

/// A position in counts.
#[derive(Debug, Clone, Copy, PartialEq, Eq, Structural)]
pub struct PtzRawPosition {
    pub channel: u8,
    pub pan_count: i64,
    pub tilt_count: i64,
    pub zoom_count: Option<i64>,
    pub focus_count: Option<i64>,
}

impl View for PtzRawPosition {
    type V = PtzRawPosition;

    open spec fn view(&self) -> PtzRawPosition {
        *self
    }
}

/// The position that a status holds: both axes must be there.
pub open spec fn raw_position_of(status: StatusModel) -> Result<PtzRawPosition, ErrorModel> {
    match (status.pan_position, status.tilt_position) {
        (None, _) => Err(
            error_model(
                ErrorKind::UnexpectedResponse,
                "PTZ status missing pan count for channel "@ + dec(status.channel as nat),
            ),
        ),
        (Some(_), None) => Err(
            error_model(
                ErrorKind::UnexpectedResponse,
                "PTZ status missing tilt count for channel "@ + dec(status.channel as nat),
            ),
        ),
        (Some(pan_count), Some(tilt_count)) => Ok(
            PtzRawPosition {
                channel: status.channel,
                pan_count,
                tilt_count,
                zoom_count: status.zoom_position,
                focus_count: status.focus_position,
            },
        ),
    }
}

pub fn map_status_to_raw_position(status: &PtzStatus) -> (r: AppResult<PtzRawPosition>)
    ensures
        result_model(r) == raw_position_of(status@),
{
    let pan_count: i64 = match status.pan_position {
        Some(n) => n,
        None => {
            return Err(
                AppError::with_message(
                    ErrorKind::UnexpectedResponse,
                    join2(
                        "PTZ status missing pan count for channel ",
                        dec_u64(status.channel as u64).as_str(),
                    ),
                ),
            );
        },
    };
    let tilt_count: i64 = match status.tilt_position {
        Some(n) => n,
        None => {
            return Err(
                AppError::with_message(
                    ErrorKind::UnexpectedResponse,
                    join2(
                        "PTZ status missing tilt count for channel ",
                        dec_u64(status.channel as u64).as_str(),
                    ),
                ),
            );
        },
    };
    Ok(
        PtzRawPosition {
            channel: status.channel,
            pan_count,
            tilt_count,
            zoom_count: status.zoom_position,
            focus_count: status.focus_position,
        },
    )
}

/// Reading the position: the camera is asked for it, and both axes must be there.
pub open spec fn raw_position_step(
    channel: u8,
    replies: Seq<Result<ResponseModel, ErrorModel>>,
) -> StepModel<PtzRawPosition> {
    match position_step(channel, replies) {
        StepModel::Send(request) => StepModel::Send(request),
        StepModel::Done(Err(error)) => StepModel::Done(Err(error)),
        StepModel::Done(Ok(status)) => StepModel::Done(raw_position_of(status)),
    }
}

/// Where the camera stands.
pub fn execute(channel: u8, replies: &[CgiReply]) -> (r: Step<PtzRawPosition>)
    ensures
        step_model(r) == raw_position_step(channel, reply_models(replies@)),
{
    match ptz::get_ptz_cur_pos(channel, replies) {
        Step::Send(request) => Step::Send(request),
        Step::Done(Err(error)) => Step::Done(Err(error)),
        Step::Done(Ok(status)) => Step::Done(map_status_to_raw_position(&status)),
    }
}

} // verus!
