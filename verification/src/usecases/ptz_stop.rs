//! Stopping the camera.
use crate::error::AppResult;
use crate::exchange::{reply_models, CgiReply};
use crate::interfaces::runtime::PtzBackend;
use crate::reolink::onvif::{optional_services, soap_reply_models, OnvifConfig, ResolvedServices};
use crate::usecases::ptz_transport;
use crate::usecases::ptz_transport::{
    optional_config, stop_transport_step, transport_model, TransportStep,
};
use vstd::prelude::*;

verus! {

pub fn execute(
    backend: PtzBackend,
    config: Option<&OnvifConfig>,
    channel: u8,
    cgi: &[CgiReply],
    services: Option<&ResolvedServices>,
    soap: &[AppResult<String>],
) -> (r: TransportStep<()>)
    ensures
        transport_model(r) == stop_transport_step(
            backend,
            optional_config(config),
            channel,
            reply_models(cgi@),
            optional_services(services),
            soap_reply_models(soap@),
        ),
{
    ptz_transport::stop_ptz(backend, config, channel, cgi, services, soap)
}

} // verus!
