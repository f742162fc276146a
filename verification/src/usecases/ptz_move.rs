//! Moving the camera.
use crate::error::AppResult;
use crate::exchange::{reply_models, CgiReply};
use crate::interfaces::runtime::PtzBackend;
use crate::model::PtzDirection;
use crate::reolink::onvif::{optional_services, soap_reply_models, OnvifConfig, ResolvedServices};
use crate::usecases::ptz_transport;
use crate::usecases::ptz_transport::{
    move_transport_step, optional_config, transport_model, TransportStep,
};
use vstd::prelude::*;

verus! {

pub fn execute(
    backend: PtzBackend,
    config: Option<&OnvifConfig>,
    channel: u8,
    direction: PtzDirection,
    speed: u8,
    duration_ms: Option<u64>,
    cgi: &[CgiReply],
    services: Option<&ResolvedServices>,
    soap: &[AppResult<String>],
) -> (r: TransportStep<()>)
    ensures
        transport_model(r) == move_transport_step(
            backend,
            optional_config(config),
            channel,
            direction,
            speed,
            duration_ms,
            reply_models(cgi@),
            optional_services(services),
            soap_reply_models(soap@),
        ),
{
    ptz_transport::move_ptz(
        backend,
        config,
        channel,
        direction,
        speed,
        duration_ms,
        cgi,
        services,
        soap,
    )
}

} // verus!
