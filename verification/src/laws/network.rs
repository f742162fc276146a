//! Ports and services of the camera, and switching ONVIF.
use crate::command::{CgiCommand, ResponseModel};
use crate::error::ErrorModel;
use crate::exchange::StepModel;
use crate::json::{
    display_of_json, empty_tree, tree_get, tree_get2, tree_with, unsigned_tree, JsonTree,
};
use crate::laws::answers::{is_answer, is_count, is_integer, law_members_are_found, lemma_answer};
use crate::reolink::network::{
    net_port_of, set_error_of, set_onvif_step, settings_at, target_port,
};
use crate::model::NetPortSettings;
use vstd::prelude::*;

verus! {

proof fn lemma_keys_differ()
    ensures
        "onvifEnable"@ != "onvifPort"@,
{
    reveal_strlit("onvifEnable");
    reveal_strlit("onvifPort");
    assert("onvifEnable"@.len() != "onvifPort"@.len());
}

/// A member is a flag, as it is or as the number one or zero.
pub open spec fn is_flag(part: JsonTree, name: Seq<char>, on: bool) -> bool {
    tree_get(part, name) matches Some(raw) && (raw == JsonTree::Bool(on) || is_integer(
        raw,
        if on {
            1
        } else {
            0
        },
    ))
}

pub open spec fn is_port(part: JsonTree, name: Seq<char>, port: u16) -> bool {
    tree_get(part, name) matches Some(raw) && is_integer(raw, port as int)
}

/// Each service and each port of the settings is read from the member that is named for it.
pub proof fn law_settings_are_read(part: JsonTree, on: bool, port: u16)
    ensures
        is_flag(part, "httpEnable"@, on) ==> settings_at(part).http_enable == Some(on),
        is_flag(part, "httpsEnable"@, on) ==> settings_at(part).https_enable == Some(on),
        is_flag(part, "onvifEnable"@, on) ==> settings_at(part).onvif_enable == Some(on),
        is_flag(part, "rtspEnable"@, on) ==> settings_at(part).rtsp_enable == Some(on),
        is_flag(part, "rtmpEnable"@, on) ==> settings_at(part).rtmp_enable == Some(on),
        is_port(part, "httpPort"@, port) ==> settings_at(part).http_port == Some(port),
        is_port(part, "httpsPort"@, port) ==> settings_at(part).https_port == Some(port),
        is_port(part, "mediaPort"@, port) ==> settings_at(part).media_port == Some(port),
        is_port(part, "onvifPort"@, port) ==> settings_at(part).onvif_port == Some(port),
        is_port(part, "rtspPort"@, port) ==> settings_at(part).rtsp_port == Some(port),
        is_port(part, "rtmpPort"@, port) ==> settings_at(part).rtmp_port == Some(port),
        tree_get(part, "httpEnable"@) is None ==> settings_at(part).http_enable is None,
        tree_get(part, "onvifEnable"@) is None ==> settings_at(part).onvif_enable is None,
        tree_get(part, "onvifPort"@) is None ==> settings_at(part).onvif_port is None,
        tree_get(part, "rtspPort"@) is None ==> settings_at(part).rtsp_port is None,
        tree_get(part, "httpPort"@) is None ==> settings_at(part).http_port is None,
{
}

/// The settings are those that the camera answers with, and an answer with another code than
/// zero is an error.
pub proof fn law_settings_are_what_the_camera_says(
    raw_json: Seq<char>,
    entry: JsonTree,
    part: JsonTree,
    code: i64,
)
    requires
        is_answer(raw_json, "GetNetPort"@, entry),
        tree_get(entry, "code"@) matches Some(raw) && is_integer(raw, code as int),
        tree_get2(entry, "value"@, "NetPort"@) == Some(part),
    ensures
        code == 0 ==> net_port_of(raw_json) == Ok::<NetPortSettings, ErrorModel>(settings_at(part)),
        code != 0 ==> net_port_of(raw_json) is Err,
{
    lemma_answer(entry, CgiCommand::GetNetPort);
}

/// The port that ONVIF is switched on: the one that was asked for, else the one in use, else
/// the usual one.
pub proof fn law_port_of_onvif(port: u16, current: NetPortSettings)
    ensures
        target_port(Some(port), current) == port,
        (current.onvif_port matches Some(known) ==> target_port(None, current) == known),
        current.onvif_port is None ==> target_port(None, current) == 8000,
{
}

/// ONVIF is switched the way that was asked for: the request says one for on and zero for
/// off, and names the port.
pub proof fn law_onvif_is_switched_as_asked(
    enabled: bool,
    onvif_port: Option<u16>,
    raw_json: Seq<char>,
    current: NetPortSettings,
)
    requires
        net_port_of(raw_json) == Ok::<NetPortSettings, ErrorModel>(current),
    ensures
        set_onvif_step(
            enabled,
            onvif_port,
            seq![Ok(ResponseModel { command: CgiCommand::GetNetPort, raw_json })],
        ) matches StepModel::Send(request) && request.command == CgiCommand::SetNetPort && exists|
            payload: JsonTree,
        |
            request.params.payload == Some(#[trigger] display_of_json(payload)) && (tree_get2(
                payload,
                "NetPort"@,
                "onvifEnable"@,
            ) matches Some(raw) && is_count(
                raw,
                if enabled {
                    1
                } else {
                    0
                },
            )) && (tree_get2(payload, "NetPort"@, "onvifPort"@) matches Some(raw) && is_count(
                raw,
                target_port(onvif_port, current) as int,
            )),
{
    lemma_keys_differ();
    let reply = Ok::<ResponseModel, ErrorModel>(
        ResponseModel { command: CgiCommand::GetNetPort, raw_json },
    );
    assert(seq![reply][0] == reply);
    let flag = unsigned_tree(
        if enabled {
            1
        } else {
            0
        },
    );
    let port = unsigned_tree(target_port(onvif_port, current) as u64);
    let first = tree_with(empty_tree(), "onvifEnable"@, flag);
    let part = tree_with(first, "onvifPort"@, port);
    let payload = tree_with(empty_tree(), "NetPort"@, part);
    law_members_are_found(empty_tree(), "onvifEnable"@, flag, "onvifPort"@);
    law_members_are_found(first, "onvifPort"@, port, "onvifEnable"@);
    law_members_are_found(empty_tree(), "NetPort"@, part, "onvifPort"@);
    let request = set_onvif_step(enabled, onvif_port, seq![reply])->Send_0;
    assert(request.params.payload == Some(display_of_json(payload)));
}

/// A change is a success where its code is zero and the code inside, if there is one, is two
/// hundred.
pub proof fn law_change_succeeds_by_its_codes(
    raw_json: Seq<char>,
    entry: JsonTree,
    code: i64,
    inner: i64,
)
    requires
        is_answer(raw_json, "SetNetPort"@, entry),
        tree_get(entry, "code"@) matches Some(raw) && is_integer(raw, code as int),
        tree_get2(entry, "value"@, "rspCode"@) matches Some(raw) && is_integer(raw, inner as int),
    ensures
        set_error_of(Ok(ResponseModel { command: CgiCommand::SetNetPort, raw_json })) is None
            <==> code == 0 && inner == 200,
{
    lemma_answer(entry, CgiCommand::SetNetPort);
}

/// Switching ends with the settings as they are read after the change.
pub proof fn law_settings_are_read_after_the_change(
    enabled: bool,
    onvif_port: Option<u16>,
    before: ResponseModel,
    change: ResponseModel,
    after: ResponseModel,
)
    requires
        net_port_of(before.raw_json) is Ok,
        set_error_of(Ok(change)) is None,
    ensures
        set_onvif_step(enabled, onvif_port, seq![Ok(before), Ok(change)]) matches StepModel::Send(
            request,
        ) && request.command == CgiCommand::GetNetPort,
        set_onvif_step(enabled, onvif_port, seq![Ok(before), Ok(change), Ok(after)])
            == StepModel::Done(net_port_of(after.raw_json)),
{
    let a = Ok::<ResponseModel, ErrorModel>(before);
    let b = Ok::<ResponseModel, ErrorModel>(change);
    let c = Ok::<ResponseModel, ErrorModel>(after);
    assert(seq![a, b][0] == a && seq![a, b][1] == b);
    assert(seq![a, b, c][0] == a && seq![a, b, c][1] == b && seq![a, b, c][2] == c);
}

} // verus!
