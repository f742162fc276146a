//! What there is to know of a camera before it is used.
use crate::command::{no_params, request_model, user_params, CgiCommand, ResponseModel};
use crate::error::ErrorModel;
use crate::exchange::{reply_models, single_step, step_model, CgiReply, Step, StepModel};
use crate::model::{DeviceInfo, DeviceModel};
use crate::reolink::device::{ability_of, device_of, get_ability, get_dev_info};
use vstd::prelude::*;

verus! {

#[derive(Debug, Clone, PartialEq, Eq)]
pub struct PreflightReport {
    pub device_info: DeviceInfo,
    pub supported_commands: Vec<CgiCommand>,
}

pub ghost struct PreflightModel {
    pub device_info: DeviceModel,
    pub supported_commands: Seq<CgiCommand>,
}

impl View for PreflightReport {
    type V = PreflightModel;

    open spec fn view(&self) -> PreflightModel {
        PreflightModel {
            device_info: self.device_info@,
            supported_commands: self.supported_commands@,
        }
    }
}

/// The abilities of the user are asked for, then the kind of camera.
pub open spec fn preflight_step(
    user_name: Seq<char>,
    replies: Seq<Result<ResponseModel, ErrorModel>>,
) -> StepModel<PreflightModel> {
    match single_step(
        request_model(CgiCommand::GetAbility, user_params(user_name)),
        replies,
        |raw_json: Seq<char>| ability_of(user_name, raw_json),
    ) {
        StepModel::Send(request) => StepModel::Send(request),
        StepModel::Done(Err(error)) => StepModel::Done(Err(error)),
        StepModel::Done(Ok(ability)) => match single_step(
            request_model(CgiCommand::GetDevInfo, no_params()),
            replies.skip(1),
            |raw_json: Seq<char>| device_of(raw_json),
        ) {
            StepModel::Send(request) => StepModel::Send(request),
            StepModel::Done(Err(error)) => StepModel::Done(Err(error)),
            StepModel::Done(Ok(device_info)) => StepModel::Done(
                Ok(
                    PreflightModel {
                        device_info,
                        supported_commands: ability.supported_commands,
                    },
                ),
            ),
        },
    }
}

pub fn run_preflight(user_name: &str, replies: &[CgiReply]) -> (r: Step<PreflightReport>)
    ensures
        step_model(r) == preflight_step(user_name@, reply_models(replies@)),
{
    let ability = match get_ability(user_name, replies) {
        Step::Send(request) => {
            return Step::Send(request);
        },
        Step::Done(Err(error)) => {
            return Step::Done(Err(error));
        },
        Step::Done(Ok(ability)) => ability,
    };
    let from: usize = if replies.len() == 0 {
        0
    } else {
        1
    };
    let rest = vstd::slice::slice_subrange(replies, from, replies.len());
    proof {
        assert(reply_models(replies@).len() > 0);
        assert(reply_models(rest@) =~= reply_models(replies@).skip(1));
    }
    match get_dev_info(rest) {
        Step::Send(request) => Step::Send(request),
        Step::Done(Err(error)) => Step::Done(Err(error)),
        Step::Done(Ok(device_info)) => Step::Done(
            Ok(PreflightReport { device_info, supported_commands: ability.supported_commands }),
        ),
    }
}

} // verus!
