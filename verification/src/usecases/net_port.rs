//! The ports and services of the camera.
use crate::exchange::{reply_models, single_step, step_model, CgiReply, Step};
use crate::model::NetPortSettings;
use crate::reolink::network;
use crate::reolink::network::{net_port_of, net_port_request, set_onvif_step};
use vstd::prelude::*;

verus! {

pub fn get(replies: &[CgiReply]) -> (r: Step<NetPortSettings>)
    ensures
        step_model(r) == single_step(
            net_port_request(),
            reply_models(replies@),
            |raw_json: Seq<char>| net_port_of(raw_json),
        ),
{
    network::get_net_port(replies)
}

pub fn set_onvif_enabled(enabled: bool, onvif_port: Option<u16>, replies: &[CgiReply]) -> (r: Step<
    NetPortSettings,
>)
    ensures
        step_model(r) == set_onvif_step(enabled, onvif_port, reply_models(replies@)),
{
    network::set_onvif_enabled(enabled, onvif_port, replies)
}

} // verus!
