//! Which commands a user may run.
use crate::command::{request_model, user_params, CgiCommand};
use crate::exchange::{reply_models, single_step, step_model, CgiReply, Step};
use crate::model::Ability;
use crate::reolink::device;
use crate::reolink::device::ability_of;
use vstd::prelude::*;

verus! {

pub fn execute(user_name: &str, replies: &[CgiReply]) -> (r: Step<Ability>)
    ensures
        step_model(r) == single_step(
            request_model(CgiCommand::GetAbility, user_params(user_name@)),
            reply_models(replies@),
            |raw_json: Seq<char>| ability_of(user_name@, raw_json),
        ),
{
    device::get_ability(user_name, replies)
}

} // verus!
