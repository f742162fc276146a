use reocli::command::{CgiCommand, CommandRequest, CommandResponse};
use reocli::error::{AppError, AppResult, ErrorKind};
use reocli::exchange::{CgiReply, Step};
use reocli::interfaces::runtime::PtzBackend;
use reocli::json::{normalize_text, parse_json};
use reocli::model::{NumericRange, PresetId, PtzDirection, PtzSpeed, PtzStatus};
use reocli::reolink::client::{
    build_request_body, classify_reply, truncate_text, Auth, Client, HttpReply, Next,
    SessionChange, Sessions,
};
use reocli::reolink::device::detects_command;
use reocli::reolink::media::{decode_base64, decode_byte_string, parse_snap_response, SaveReply, SnapStep};
use reocli::reolink::network::ensure_code_ok;
use reocli::reolink::ptz::{
    apply_check_state_payload, apply_cur_pos_payload, apply_preset_payload,
    apply_zoom_focus_payload, MoveStep,
};
use reocli::reolink::system::is_rfc3339_like_timestamp;
use reocli::usecases::{
    get_ability, get_channel_status, get_dev_info, get_ptz_status, get_time, get_user_auth,
    net_port, preflight, ptz_get_absolute_raw, ptz_move, ptz_preset_goto, ptz_preset_list,
    ptz_stop, set_time, snap,
};
use reocli::usecases::ptz_transport::TransportStep;

fn reply(command: CgiCommand, raw_json: &str) -> CgiReply {
    Ok(CommandResponse::new(command, raw_json.to_string()))
}

fn sent<T>(step: Step<T>) -> CommandRequest {
    match step {
        Step::Send(request) => request,
        Step::Done(_) => panic!("a request should be sent"),
    }
}

fn done<T>(step: Step<T>) -> AppResult<T> {
    match step {
        Step::Done(result) => result,
        Step::Send(request) => panic!("{:?} should not be sent", request.command),
    }
}

fn failed<T>(step: Step<T>) -> (ErrorKind, String) {
    match done(step) {
        Ok(_) => panic!("the operation should fail"),
        Err(error) => (error.kind, error.message),
    }
}

fn unexpected(message: &str) -> (ErrorKind, String) {
    (ErrorKind::UnexpectedResponse, message.to_string())
}

// ---------------------------------------------------------------- abilities

#[test]
fn abilities_are_detected_wherever_they_stand() {
    let request = sent(get_ability::execute("admin", &[]));
    assert_eq!(
        build_request_body(&request),
        "[{\"cmd\":\"GetAbility\",\"action\":0,\"param\":{\"User\":{\"userName\":\"admin\"}}}]"
    );
    let raw = r#"[{"cmd":"GetAbility","code":0,"value":{"Ability":{
        "GetDevInfo":{"permit":1},"Snap":{"permit":0},"GetChannelstatus":true,
        "list":["GetTime",{"cmd":"SetTime","enabled":"yes"}],"PtzCtrl":{"permit":6}}}}]"#;
    let ability = done(get_ability::execute("admin", &[reply(CgiCommand::GetAbility, raw)]))
        .expect("ability");
    assert_eq!(ability.user_name, "admin");
    assert_eq!(
        ability.supported_commands,
        vec![
            CgiCommand::GetAbility,
            CgiCommand::GetDevInfo,
            CgiCommand::GetChannelStatus,
            CgiCommand::GetTime,
            CgiCommand::SetTime,
            CgiCommand::PtzCtrl,
        ]
    );
    assert!(ability.supports(CgiCommand::PtzCtrl));
    assert!(!ability.supports(CgiCommand::Snap));
}

#[test]
fn abilities_without_a_known_command_are_an_error() {
    assert_eq!(
        failed(get_ability::execute(
            "admin",
            &[reply(CgiCommand::GetAbility, "{\"value\":{}}")]
        )),
        unexpected("GetAbility response did not include any known commands")
    );
    let (kind, message) = failed(get_ability::execute(
        "admin",
        &[reply(CgiCommand::GetAbility, "not json")],
    ));
    assert_eq!(kind, ErrorKind::UnexpectedResponse);
    assert!(message.starts_with("failed to parse GetAbility response JSON: "));
    let network: CgiReply = Err(AppError::new(ErrorKind::Network, "gone"));
    assert_eq!(
        failed(get_ability::execute("admin", &[network])),
        (ErrorKind::Network, "gone".to_string())
    );
}

#[test]
fn commands_are_found_in_values() {
    let value = parse_json("{\"a\":[{\"Snap\":\"off\"},{\"GetTime\":2}]}").expect("json");
    assert!(detects_command(&value, CgiCommand::GetTime));
    assert!(!detects_command(&value, CgiCommand::Snap));
}

// ---------------------------------------------------------------- device

#[test]
fn a_device_is_described() {
    let raw = r#"[{"cmd":"GetDevInfo","code":0,"value":{"DevInfo":{
        "model":" RLC-823A ","firmVer":"v3.1","detail":{"serial":12345}}}}]"#;
    let info =
        done(get_dev_info::execute(&[reply(CgiCommand::GetDevInfo, raw)])).expect("device");
    assert_eq!(info.model, "RLC-823A");
    assert_eq!(info.firmware, "v3.1");
    assert_eq!(info.serial_number, "12345");
    assert_eq!(
        failed(get_dev_info::execute(&[reply(CgiCommand::GetDevInfo, "[]")])),
        unexpected("GetDevInfo response did not include model/firmware/serial fields")
    );
}

#[test]
fn a_channel_is_online_or_not() {
    let request = sent(get_channel_status::execute(3, &[]));
    assert_eq!(
        build_request_body(&request),
        "[{\"cmd\":\"GetChannelStatus\",\"action\":0,\"param\":{\"channel\":3}}]"
    );
    let raw = r#"[{"cmd":"GetChannelStatus","value":{"status":[
        {"channel":0,"online":1},{"channel":"3","state":"offline"}]}}]"#;
    let status = done(get_channel_status::execute(
        3,
        &[reply(CgiCommand::GetChannelStatus, raw)],
    ))
    .expect("status");
    assert_eq!((status.channel, status.online), (3, false));
    assert_eq!(
        failed(get_channel_status::execute(
            7,
            &[reply(CgiCommand::GetChannelStatus, raw)]
        )),
        unexpected("GetChannelStatus response missing online state for channel 7")
    );
}

#[test]
fn a_preflight_asks_for_abilities_and_device() {
    let ability = reply(CgiCommand::GetAbility, "[{\"Snap\":1}]");
    assert_eq!(
        sent(preflight::run_preflight("admin", &[])).command,
        CgiCommand::GetAbility
    );
    assert_eq!(
        sent(preflight::run_preflight("admin", &[ability.clone()])).command,
        CgiCommand::GetDevInfo
    );
    let device = reply(CgiCommand::GetDevInfo, "{\"model\":\"M\"}");
    let report = done(preflight::run_preflight("admin", &[ability, device])).expect("report");
    assert_eq!(report.device_info.model, "M");
    assert_eq!(report.supported_commands, vec![CgiCommand::Snap]);
}

// ---------------------------------------------------------------- time

#[test]
fn the_time_is_read() {
    let raw = r#"{"cmd":"GetTime","value":{"Time":{"iso8601":"2026-02-25T10:00:00Z"}}}"#;
    let time = done(get_time::execute(&[reply(CgiCommand::GetTime, raw)])).expect("time");
    assert_eq!(time.iso8601, "2026-02-25T10:00:00Z");
    assert_eq!(
        failed(get_time::execute(&[reply(CgiCommand::GetTime, "{}")])),
        unexpected("GetTime response did not include a time string")
    );
}

#[test]
fn the_time_is_set_to_a_timestamp() {
    let request = sent(set_time::execute(" 2026-02-25T10:00:00Z ", &[]));
    assert_eq!(
        build_request_body(&request),
        "[{\"cmd\":\"SetTime\",\"action\":0,\"param\":{\"payload\":\"2026-02-25T10:00:00Z\"}}]"
    );
    let ok = reply(CgiCommand::SetTime, "[{\"cmd\":\"SetTime\",\"code\":0}]");
    assert_eq!(
        done(set_time::execute(" 2026-02-25T10:00:00Z ", &[ok]))
            .expect("time")
            .iso8601,
        "2026-02-25T10:00:00Z"
    );
    let refused = reply(CgiCommand::SetTime, "[{\"cmd\":\"SetTime\",\"code\":5}]");
    assert_eq!(
        failed(set_time::execute("2026-02-25T10:00:00Z", &[refused])),
        unexpected("SetTime failed with code=5")
    );
    assert_eq!(
        failed(set_time::execute("2026-02-25T10:00:00Z", &[reply(CgiCommand::SetTime, "{}")])),
        unexpected("SetTime response did not include result code")
    );
    assert_eq!(
        failed(set_time::execute("  ", &[])),
        (
            ErrorKind::InvalidInput,
            "iso8601 must not be empty".to_string()
        )
    );
    assert_eq!(
        failed(set_time::execute("yesterday", &[])),
        (
            ErrorKind::InvalidInput,
            "iso8601 must be an RFC3339-like timestamp (e.g. 2026-02-25T10:00:00Z)".to_string()
        )
    );
}

#[test]
fn timestamps_are_recognised() {
    for good in [
        "2026-02-25T10:00:00Z",
        "2024-02-29T23:59:59.123Z",
        "2026-12-31T00:00:00+09:00",
        "2026-12-31T00:00:00-03:30",
    ] {
        assert!(is_rfc3339_like_timestamp(good), "{good}");
    }
    for bad in [
        "2026-02-25",
        "2026-02-29T10:00:00Z",
        "2026-13-01T10:00:00Z",
        "2026-02-25T24:00:00Z",
        "2026-02-25T10:00:00",
        "2026-02-25T10:00:00+9:00",
        "2026-02-25TT10:00:00Z",
        "2026-2-25T10:00:00Z",
    ] {
        assert!(!is_rfc3339_like_timestamp(bad), "{bad}");
    }
}

// ---------------------------------------------------------------- network

const NET_PORT: &str = r#"[{"cmd":"GetNetPort","code":0,"value":{"NetPort":{
    "httpEnable":0,"httpPort":80,"httpsEnable":true,"httpsPort":"443",
    "onvifEnable":"on","onvifPort":8899,"rtspPort":70000}}}]"#;

#[test]
fn network_settings_are_read() {
    assert_eq!(
        build_request_body(&sent(net_port::get(&[]))),
        "[{\"cmd\":\"GetNetPort\",\"action\":0,\"param\":{\"NetPort\":{}}}]"
    );
    let settings = done(net_port::get(&[reply(CgiCommand::GetNetPort, NET_PORT)])).expect("ports");
    assert_eq!(settings.http_enable, Some(false));
    assert_eq!(settings.http_port, Some(80));
    assert_eq!(settings.https_enable, Some(true));
    assert_eq!(settings.https_port, Some(443));
    assert_eq!(settings.onvif_enable, Some(true));
    assert_eq!(settings.onvif_port, Some(8899));
    assert_eq!(settings.rtsp_port, None);
    assert_eq!(settings.media_port, None);
    assert_eq!(
        failed(net_port::get(&[reply(CgiCommand::GetNetPort, "[]")])),
        unexpected("GetNetPort response did not include code")
    );
    let value = parse_json("{\"code\":\"3\"}").expect("json");
    let error = ensure_code_ok(&value, CgiCommand::GetNetPort).expect("error");
    assert_eq!(error.message, "GetNetPort failed with code=3");
}

#[test]
fn onvif_keeps_its_port_unless_another_is_asked_for() {
    let current = reply(CgiCommand::GetNetPort, NET_PORT);
    assert_eq!(
        sent(net_port::set_onvif_enabled(true, None, &[])).command,
        CgiCommand::GetNetPort
    );
    assert_eq!(
        build_request_body(&sent(net_port::set_onvif_enabled(true, None, &[current.clone()]))),
        "[{\"cmd\":\"SetNetPort\",\"action\":1,\"param\":{\"NetPort\":{\"onvifEnable\":1,\"onvifPort\":8899}}}]"
    );
    assert_eq!(
        build_request_body(&sent(net_port::set_onvif_enabled(
            false,
            Some(9000),
            &[current.clone()]
        ))),
        "[{\"cmd\":\"SetNetPort\",\"action\":1,\"param\":{\"NetPort\":{\"onvifEnable\":0,\"onvifPort\":9000}}}]"
    );
    let bare = reply(CgiCommand::GetNetPort, "{\"code\":0}");
    assert!(
        build_request_body(&sent(net_port::set_onvif_enabled(true, None, &[bare])))
            .contains("\"onvifPort\":8000")
    );
    let ok = reply(
        CgiCommand::SetNetPort,
        "[{\"cmd\":\"SetNetPort\",\"code\":0,\"value\":{\"rspCode\":200}}]",
    );
    assert_eq!(
        sent(net_port::set_onvif_enabled(true, None, &[current.clone(), ok.clone()])).command,
        CgiCommand::GetNetPort
    );
    assert_eq!(
        done(net_port::set_onvif_enabled(
            true,
            None,
            &[current.clone(), ok, current.clone()]
        ))
        .expect("settings")
        .onvif_port,
        Some(8899)
    );
    let refused = reply(
        CgiCommand::SetNetPort,
        "[{\"cmd\":\"SetNetPort\",\"code\":0,\"value\":{\"rspCode\":-9}}]",
    );
    assert_eq!(
        failed(net_port::set_onvif_enabled(true, None, &[current, refused])),
        unexpected("SetNetPort returned rspCode=-9")
    );
}

// ---------------------------------------------------------------- snapshots

#[test]
fn a_snapshot_is_decoded_and_saved() {
    assert!(matches!(
        snap::execute(2, None, None),
        SnapStep::Send(request) if request.command == CgiCommand::Snap
    ));
    let raw = r#"[{"cmd":"Snap","code":0,"value":{"imageBase64":"/9j/4AAQ"}}]"#;
    let answer = reply(CgiCommand::Snap, raw);
    match snap::execute(2, Some(&answer), None) {
        SnapStep::Save { path, bytes } => {
            assert_eq!(path, "snapshots/channel-2.jpg");
            assert_eq!(bytes, vec![0xff, 0xd8, 0xff, 0xe0, 0x00, 0x10]);
        }
        _ => panic!("the image should be saved"),
    }
    match snap::execute_with_out_path(2, Some(" a/b.jpg "), Some(&answer), Some(&SaveReply::Saved))
    {
        SnapStep::Done(Ok(snapshot)) => {
            assert_eq!(snapshot.image_path, "a/b.jpg");
            assert_eq!(snapshot.bytes_written, 6);
            assert_eq!(snapshot.channel, 2);
        }
        _ => panic!("the snapshot should be done"),
    }
    match snap::execute_with_out_path(2, Some(" "), Some(&answer), None) {
        SnapStep::Done(Err(error)) => assert_eq!(error.message, "output path must not be empty"),
        _ => panic!("the path should be refused"),
    }
    let no_directory = SaveReply::DirectoryFailed {
        directory: "a".to_string(),
        error: "denied".to_string(),
    };
    match snap::execute(2, Some(&answer), Some(&no_directory)) {
        SnapStep::Done(Err(error)) => assert_eq!(
            error.message,
            "failed to create snapshot output directory a: denied"
        ),
        _ => panic!("the snapshot should fail"),
    }
    let no_file = SaveReply::WriteFailed {
        error: "full".to_string(),
    };
    match snap::execute(2, Some(&answer), Some(&no_file)) {
        SnapStep::Done(Err(error)) => assert_eq!(
            error.message,
            "failed to write snapshot file snapshots/channel-2.jpg: full"
        ),
        _ => panic!("the snapshot should fail"),
    }
}

#[test]
fn images_come_in_several_forms() {
    assert_eq!(
        parse_snap_response("{\"bytes\":[1,\"2\",255]}").expect("bytes"),
        vec![1, 2, 255]
    );
    assert_eq!(
        parse_snap_response("{\"value\":{\"data\":{\"b64\":\"AQIDBAUG\"}}}").is_err(),
        false
    );
    assert_eq!(
        decode_byte_string("data:image/jpeg;base64,AQID").expect("url"),
        vec![1, 2, 3]
    );
    assert_eq!(decode_byte_string("plain").expect("text"), b"plain".to_vec());
    assert_eq!(decode_byte_string("a/b.jpg"), None);
    assert_eq!(decode_byte_string("  "), None);
    assert_eq!(decode_base64("AQI").expect("padded"), vec![1, 2]);
    assert_eq!(decode_base64("A Q_-").expect("spaces"), vec![1, 15, 254]);
    for text in ["+/8BAg==", "-_8BAg==", "-/8BAg", " +_8B\nAg =\t= "] {
        assert_eq!(decode_base64(text).expect("base64"), vec![251, 255, 1, 2]);
    }
    assert_eq!(decode_base64(" \n"), None);
    assert_eq!(decode_base64("====" ), None);
    assert_eq!(decode_base64("A!"), None);
    let error = parse_snap_response("[{\"code\":1}]").expect_err("code");
    assert_eq!(error.message, "Snap command failed with code=1");
    let error = parse_snap_response("{\"path\":\" x.jpg \"}").expect_err("no bytes");
    assert_eq!(
        error.message,
        "Snap response did not include image bytes in supported payload fields; parsed path=x.jpg"
    );
    assert!(parse_snap_response("nope")
        .expect_err("no json")
        .message
        .starts_with("invalid Snap response JSON: "));
}

// ---------------------------------------------------------------- movement

#[test]
fn a_status_is_put_together_from_four_answers() {
    let position = reply(
        CgiCommand::GetPtzCurPos,
        r#"[{"cmd":"GetPtzCurPos","code":0,"value":{"PtzCurPos":{"channel":1,"Ppos":1500,"Tpos":-180}},"range":{"PtzCurPos":{"Ppos":{"min":0,"max":7360},"Tpos":{"min":0,"max":1240}}}}]"#,
    );
    let zoom = reply(
        CgiCommand::GetZoomFocus,
        r#"[{"cmd":"GetZoomFocus","code":0,"value":{"ZoomFocus":{"channel":1,"zoom":{"pos":7},"focus":{"pos":9}}}}]"#,
    );
    let presets = reply(
        CgiCommand::GetPtzPreset,
        r#"[{"cmd":"GetPtzPreset","code":0,"value":{"PtzPreset":[{"channel":1,"id":4,"enable":1,"name":"door"},{"channel":1,"id":2,"enable":1},{"channel":1,"id":3,"enable":0}]}}]"#,
    );
    let check = reply(
        CgiCommand::GetPtzCheckState,
        r#"[{"cmd":"GetPtzCheckState","code":0,"value":{"PtzCheckState":2}}]"#,
    );
    let all = [position.clone(), zoom, presets.clone(), check];
    for (n, command) in [
        CgiCommand::GetPtzCurPos,
        CgiCommand::GetZoomFocus,
        CgiCommand::GetPtzPreset,
        CgiCommand::GetPtzCheckState,
    ]
    .into_iter()
    .enumerate()
    {
        assert_eq!(sent(get_ptz_status::execute(1, &all[..n])).command, command);
    }
    let status = done(get_ptz_status::execute(1, &all)).expect("status").status;
    assert_eq!(status.pan_position, Some(1500));
    assert_eq!(status.tilt_position, Some(-180));
    assert_eq!(status.pan_range, Some(NumericRange { min: 0, max: 7360 }));
    assert_eq!(status.tilt_range, Some(NumericRange { min: 0, max: 1240 }));
    assert_eq!(status.zoom_position, Some(7));
    assert_eq!(status.focus_position, Some(9));
    assert_eq!(status.enabled_presets, vec![2, 4]);
    assert_eq!(status.calibrated(), Some(true));

    let position_request = sent(ptz_get_absolute_raw::execute(1, &[]));
    assert_eq!(
        build_request_body(&position_request),
        "[{\"cmd\":\"GetPtzCurPos\",\"action\":0,\"param\":{\"PtzCurPos\":{\"channel\":1}}}]"
    );
    let pose = done(ptz_get_absolute_raw::execute(1, &[position])).expect("position");
    assert_eq!((pose.pan_count, pose.tilt_count), (1500, -180));

    let list = done(ptz_preset_list::execute(1, &[presets])).expect("presets");
    assert_eq!(
        list.presets
            .iter()
            .map(|preset| (preset.id.value(), preset.name.clone()))
            .collect::<Vec<_>>(),
        vec![(2, None), (4, Some("door".to_string()))]
    );
}

#[test]
fn a_status_without_data_is_an_error() {
    let empty: Vec<CgiReply> = [
        CgiCommand::GetPtzCurPos,
        CgiCommand::GetZoomFocus,
        CgiCommand::GetPtzPreset,
        CgiCommand::GetPtzCheckState,
    ]
    .into_iter()
    .map(|command| reply(command, "[]"))
    .collect();
    assert_eq!(
        failed(get_ptz_status::execute(5, &empty)),
        unexpected("PTZ status unavailable for channel 5")
    );
    assert_eq!(PtzStatus::blank(5).calibrated(), None);
    assert!(!PtzStatus::blank(5).has_data());
}

fn control_ok() -> CgiReply {
    reply(CgiCommand::PtzCtrl, "[{\"cmd\":\"PtzCtrl\",\"code\":0}]")
}

#[test]
fn a_timed_movement_is_stopped_after_its_time() {
    let step = |replies: &[CgiReply]| {
        ptz_move::execute(
            PtzBackend::Cgi,
            None,
            0,
            PtzDirection::Left,
            6,
            Some(300),
            replies,
            None,
            &[],
        )
    };
    match step(&[]) {
        TransportStep::SendCgi { delay_ms, request } => {
            assert_eq!(delay_ms, 0);
            assert_eq!(
                build_request_body(&request),
                "[{\"cmd\":\"PtzCtrl\",\"action\":0,\"param\":{\"channel\":0,\"op\":\"Left\",\"speed\":6}}]"
            );
        }
        _ => panic!("the movement should be started"),
    }
    match step(&[control_ok()]) {
        TransportStep::SendCgi { delay_ms, request } => {
            assert_eq!(delay_ms, 300);
            assert_eq!(
                build_request_body(&request),
                "[{\"cmd\":\"PtzCtrl\",\"action\":0,\"param\":{\"channel\":0,\"op\":\"Stop\"}}]"
            );
        }
        _ => panic!("the movement should be stopped"),
    }
    assert!(matches!(
        step(&[control_ok(), control_ok()]),
        TransportStep::Done(Ok(()))
    ));
    match ptz_move::execute(
        PtzBackend::Cgi,
        None,
        0,
        PtzDirection::Left,
        65,
        None,
        &[],
        None,
        &[],
    ) {
        TransportStep::Done(Err(error)) => {
            assert_eq!(error.message, "speed must be in range 1..=64, got 65")
        }
        _ => panic!("the speed should be refused"),
    }
}

#[test]
fn stopping_and_stored_positions() {
    assert!(matches!(
        ptz_stop::execute(PtzBackend::Cgi, None, 0, &[], None, &[]),
        TransportStep::SendCgi { delay_ms: 0, .. }
    ));
    match ptz_stop::execute(PtzBackend::OnvifContinuous, None, 0, &[], None, &[]) {
        TransportStep::Done(Err(error)) => assert_eq!(
            error.message,
            "ONVIF backend requires REOCLI_PASSWORD and a valid ONVIF device service URL"
        ),
        _ => panic!("the configuration should be missed"),
    }
    match ptz_preset_goto::execute(1, 7, &[]) {
        MoveStep::Send { request, .. } => assert_eq!(
            build_request_body(&request),
            "[{\"cmd\":\"PtzCtrl\",\"action\":0,\"param\":{\"channel\":1,\"id\":7,\"op\":\"ToPos\"}}]"
        ),
        MoveStep::Done(_) => panic!("the movement should be started"),
    }
    assert!(matches!(
        ptz_preset_goto::execute(1, 7, &[control_ok()]),
        MoveStep::Done(Ok(()))
    ));
    match ptz_preset_goto::execute(1, 0, &[]) {
        MoveStep::Done(Err(error)) => {
            assert_eq!(error.message, "preset_id must be in range 1..=255, got 0")
        }
        _ => panic!("the position should be refused"),
    }
    assert!(PtzSpeed::new(0).is_err());
    assert_eq!(PtzSpeed::new(64).expect("speed").value(), 64);
    assert!(PresetId::new(0).is_err());
    assert_eq!(PtzDirection::parse("LEFT"), Some(PtzDirection::Left));
}

// ---------------------------------------------------------------- client

fn answered(status: u16, body: &str) -> HttpReply {
    HttpReply::Answered {
        status,
        status_text: format!("{status}"),
        body: body.to_string(),
    }
}

fn login() -> Auth {
    Auth::UserPassword {
        user: "admin".to_string(),
        password: "secret".to_string(),
    }
}

const LOGIN_OK: &str = r#"[{"cmd":"Login","code":0,"value":{"Token":{"name":"fresh"}}}]"#;
const REFUSED: &str = r#"[{"cmd":"GetTime","code":1,"error":{"rspCode":-6,"detail":"please login first"}}]"#;

#[test]
fn a_password_is_exchanged_for_a_token_that_is_kept() {
    let mut sessions = Sessions::new();
    let client = Client::new(&mut sessions, " https://camera.local/ ", login());
    let request = CommandRequest::new(CgiCommand::GetTime);
    let turn = client.execute(&sessions, &request, &[]);
    assert_eq!(turn.session, SessionChange::Keep);
    match turn.next {
        Next::Post(post) => {
            assert_eq!(post.url, "https://camera.local/cgi-bin/api.cgi");
            assert_eq!(post.query, vec![("cmd".to_string(), "Login".to_string())]);
            assert_eq!(
                post.body,
                "[{\"cmd\":\"Login\",\"action\":0,\"param\":{\"User\":{\"Version\":\"0\",\"password\":\"secret\",\"userName\":\"admin\"}}}]"
            );
        }
        Next::Done(_) => panic!("a login should be made"),
    }
    let turn = client.execute(&sessions, &request, &[answered(200, LOGIN_OK)]);
    assert_eq!(turn.session, SessionChange::Remember("fresh".to_string()));
    match turn.next {
        Next::Post(post) => {
            assert_eq!(
                post.query,
                vec![
                    ("cmd".to_string(), "GetTime".to_string()),
                    ("token".to_string(), "fresh".to_string())
                ]
            );
            assert_eq!(post.body, "[{\"cmd\":\"GetTime\",\"action\":0}]");
        }
        Next::Done(_) => panic!("the request should be made"),
    }
    client.change_session(&mut sessions, &turn.session);
    assert_eq!(client.cached_session_token(&sessions), Some("fresh".to_string()));
    match client.execute(&sessions, &request, &[]).next {
        Next::Post(post) => assert_eq!(post.query[1].1, "fresh"),
        Next::Done(_) => panic!("the token should be used"),
    }
    let turn = client.execute(&sessions, &request, &[answered(200, REFUSED)]);
    assert_eq!(turn.session, SessionChange::Forget);
    assert!(matches!(turn.next, Next::Post(post) if post.query[0].1 == "Login"));
}

#[test]
fn a_refused_token_is_replaced_by_a_login() {
    let mut sessions = Sessions::new();
    let client =
        Client::new(&mut sessions, "https://camera.local", Auth::Token("stale".to_string()))
            .with_fallback_auth(login());
    let request = CommandRequest::new(CgiCommand::GetTime);
    match client.execute(&sessions, &request, &[]).next {
        Next::Post(post) => assert_eq!(post.query[1].1, "stale"),
        Next::Done(_) => panic!("the token should be used"),
    }
    let turn = client.execute(&sessions, &request, &[answered(401, "denied")]);
    assert_eq!(turn.session, SessionChange::Forget);
    assert!(matches!(turn.next, Next::Post(post) if post.query[0].1 == "Login"));
    let turn = client.execute(&sessions, &request, &[answered(401, "denied"), answered(200, LOGIN_OK)]);
    assert_eq!(turn.session, SessionChange::Remember("fresh".to_string()));
    let turn = client.execute(
        &sessions,
        &request,
        &[
            answered(401, "denied"),
            answered(200, LOGIN_OK),
            answered(200, " [ {\"cmd\": \"GetTime\"} ] "),
        ],
    );
    match turn.next {
        Next::Done(Ok(response)) => {
            assert_eq!(response.command, CgiCommand::GetTime);
            assert_eq!(response.raw_json, "[{\"cmd\":\"GetTime\"}]");
        }
        _ => panic!("the request should be answered"),
    }
    match client.execute(&sessions, &request, &[answered(500, "boom")]).next {
        Next::Done(Err(error)) => assert_eq!(
            error.message,
            "request failed for GetTime: status=500 body=boom"
        ),
        _ => panic!("the request should fail"),
    }
}

#[test]
fn a_kept_token_is_tried_before_a_login() {
    let mut sessions = Sessions::new();
    let client =
        Client::new(&mut sessions, "https://camera.local", Auth::Token("stale".to_string()))
            .with_fallback_auth(login());
    client.change_session(&mut sessions, &SessionChange::Remember("kept".to_string()));
    let request = CommandRequest::new(CgiCommand::GetTime);
    let turn = client.execute(&sessions, &request, &[answered(401, "denied")]);
    assert_eq!(turn.session, SessionChange::Keep);
    assert!(matches!(turn.next, Next::Post(post) if post.query[1].1 == "kept"));
}

#[test]
fn answers_are_classified() {
    let classify = |reply: HttpReply| classify_reply(CgiCommand::GetTime, &reply);
    assert_eq!(
        classify(HttpReply::ClientFailed("tls".to_string()))
            .expect_err("client")
            .message,
        "failed to create HTTP client: tls"
    );
    let error = classify(HttpReply::SendFailed("refused".to_string())).expect_err("send");
    assert_eq!(error.kind, ErrorKind::Network);
    assert_eq!(error.message, "failed to send request for GetTime: refused");
    assert_eq!(
        classify(HttpReply::BodyFailed("cut".to_string()))
            .expect_err("body")
            .message,
        "failed to read response body for GetTime: cut"
    );
    let error = classify(answered(200, "Please LOGIN first")).expect_err("login");
    assert_eq!(error.kind, ErrorKind::Authentication);
    assert_eq!(
        error.message,
        "authentication failed for GetTime: body=Please LOGIN first"
    );
    assert_eq!(
        classify(answered(200, "{\"x\":{\"rspCode\":\"-7\"}}"))
            .expect_err("code")
            .kind,
        ErrorKind::Authentication
    );
    assert_eq!(
        classify(answered(204, "not json")).expect("text").raw_json,
        "not json"
    );
    assert_eq!(truncate_text("abcdef", 3), "abc...");
    assert_eq!(truncate_text("abc", 3), "abc");
    assert_eq!(normalize_text("{ \"b\" : 1, \"a\":[ ] }".to_string()), "{\"a\":[],\"b\":1}");
}

#[test]
fn credentials_must_be_fit_for_use() {
    let request = CommandRequest::new(CgiCommand::GetTime);
    let fail = |endpoint: &str, auth: Auth| {
        let mut sessions = Sessions::new();
        let client = Client::new(&mut sessions, endpoint, auth);
        match client.execute(&sessions, &request, &[]).next {
            Next::Done(Err(error)) => (error.kind, error.message),
            _ => panic!("the request should fail"),
        }
    };
    assert_eq!(
        fail("https://c", Auth::Token(" ".to_string())),
        (
            ErrorKind::InvalidInput,
            "token auth requires non-empty token".to_string()
        )
    );
    assert_eq!(
        fail("  ", Auth::Anonymous),
        (
            ErrorKind::InvalidInput,
            "endpoint must not be empty".to_string()
        )
    );
    assert_eq!(
        fail(
            "https://c",
            Auth::UserPassword {
                user: " ".to_string(),
                password: "x".to_string()
            }
        ),
        (
            ErrorKind::InvalidInput,
            "login requires non-empty user/password".to_string()
        )
    );
    let secure = Client::new(&mut Sessions::new(), "https://c", Auth::Anonymous).with_insecure_tls(false);
    assert!(!secure.allows_insecure_tls());
}

#[test]
fn a_user_gets_a_token() {
    let client = Client::new(&mut Sessions::new(), "https://camera.local", Auth::Anonymous);
    let token = r#"[{"cmd":"GetUserAuth","code":0,"value":{"token":"user-token"}}]"#;
    let turn = get_user_auth::execute(
        &client,
        "admin",
        "secret",
        &[answered(200, LOGIN_OK), answered(200, token)],
    );
    match turn.next {
        Next::Done(Ok(text)) => assert_eq!(text, "user-token"),
        _ => panic!("there should be a token"),
    }
    let fail = |user: &str, password: &str, replies: &[HttpReply]| {
        match get_user_auth::execute(&client, user, password, replies).next {
            Next::Done(Err(error)) => error.message,
            _ => panic!("there should be no token"),
        }
    };
    assert_eq!(fail(" ", "x", &[]), "user_name must not be empty");
    assert_eq!(fail("x", "", &[]), "password must not be empty");
    assert_eq!(
        fail(
            "admin",
            "secret",
            &[answered(200, LOGIN_OK), answered(200, "[{\"code\":4}]")]
        ),
        "GetUserAuth returned non-zero code: 4"
    );
    assert_eq!(
        fail("admin", "secret", &[answered(200, LOGIN_OK), answered(200, "[]")]),
        "GetUserAuth response array was empty"
    );
    assert_eq!(
        fail("admin", "secret", &[answered(200, "[{\"code\":0}]")]),
        "Login succeeded but token was not found in response"
    );
}

#[test]
fn a_payload_that_is_no_object_is_a_member() {
    let body = |payload: &str| {
        build_request_body(&CommandRequest::with_payload(
            CgiCommand::SetTime,
            payload.to_string(),
        ))
    };
    assert_eq!(
        body("[1]"),
        "[{\"cmd\":\"SetTime\",\"action\":0,\"param\":{\"payload\":[1]}}]"
    );
    assert_eq!(body("{}"), "[{\"cmd\":\"SetTime\",\"action\":0}]");
    assert_eq!(
        body("{\"b\":1,\"a\":\"x\"}"),
        "[{\"cmd\":\"SetTime\",\"action\":0,\"param\":{\"a\":\"x\",\"b\":1}}]"
    );
}

#[test]
fn errors_are_described() {
    let error = AppError::new(ErrorKind::Network, "gone");
    assert_eq!(error.describe(), "Network: gone");
}

#[test]
fn clients_are_equal_whatever_tokens_they_keep() {
    let user = |password: &str| Auth::UserPassword {
        user: "admin".to_string(),
        password: password.to_string(),
    };
    let mut sessions = Sessions::new();
    let mut reach = |endpoint: &str, password: &str| {
        Client::new(&mut sessions, endpoint, user(password))
    };
    let client = reach("https://camera.local", "one");
    let other = reach("https://camera.local", "one")
        .with_token_cache_path("/tmp/camera.token".to_string());
    let cautious = reach("https://camera.local", "one").with_insecure_tls(false);
    assert!(client != reach("https://camera.local", "two"));
    assert!(client != reach("https://other.local", "one"));
    other.change_session(&mut sessions, &SessionChange::Remember("kept".to_string()));
    assert!(client == other);
    assert!(client != client.with_fallback_auth(Auth::Anonymous));
    assert!(client != cautious);
    assert!(client != client.with_auth(&mut sessions, Auth::Token("one".to_string())));
}

#[test]
fn a_session_is_shared_with_the_client_that_has_a_fallback() {
    let mut sessions = Sessions::new();
    let client = Client::new(&mut sessions, "https://camera.local", login());
    let other = client.with_fallback_auth(Auth::Token("spare".to_string()));
    assert_eq!(other.endpoint(), client.endpoint());
    assert_eq!(other.auth(), client.auth());
    assert_eq!(other.allows_insecure_tls(), client.allows_insecure_tls());
    let remember = |token: &str| SessionChange::Remember(token.to_string());
    other.change_session(&mut sessions, &remember("one"));
    assert_eq!(client.cached_session_token(&sessions), Some("one".to_string()));
    client.change_session(&mut sessions, &remember("two"));
    assert_eq!(other.cached_session_token(&sessions), Some("two".to_string()));
    let request = CommandRequest::new(CgiCommand::GetTime);
    match other.execute(&sessions, &request, &[]).next {
        Next::Post(post) => assert_eq!(post.query[1].1, "two"),
        Next::Done(_) => panic!("the shared token should be used"),
    }
    client.change_session(&mut sessions, &SessionChange::Keep);
    assert_eq!(other.cached_session_token(&sessions), Some("two".to_string()));
    let apart = client.with_auth(&mut sessions, login());
    assert_eq!(apart.cached_session_token(&sessions), None);
    apart.change_session(&mut sessions, &remember("three"));
    assert_eq!(client.cached_session_token(&sessions), Some("two".to_string()));
    client.change_session(&mut sessions, &SessionChange::Forget);
    assert_eq!(other.cached_session_token(&sessions), None);
    assert_eq!(apart.cached_session_token(&sessions), Some("three".to_string()));
}

#[test]
fn known_parts_of_a_status_stay() {
    let payload = |text: &str| parse_json(text).expect("json");
    let mut status = PtzStatus {
        pan_position: Some(5),
        zoom_range: Some(NumericRange { min: 1, max: 2 }),
        enabled_presets: vec![4],
        calibration_state: Some(2),
        ..PtzStatus::blank(0)
    };
    apply_cur_pos_payload(&payload("{\"value\":{}}"), 0, &mut status);
    assert_eq!(status.pan_position, Some(5));
    apply_cur_pos_payload(
        &payload("{\"value\":{\"PtzCurPos\":{\"Ppos\":7,\"Tpos\":8}},\"range\":{\"Ppos\":[0,9]}}"),
        0,
        &mut status,
    );
    assert_eq!((status.pan_position, status.tilt_position), (Some(5), Some(8)));
    assert_eq!(status.pan_range, Some(NumericRange { min: 0, max: 9 }));
    apply_zoom_focus_payload(
        &payload("{\"value\":{\"zoom\":{\"pos\":3}},\"range\":{\"zoom\":[0,9],\"focus\":[0,8]}}"),
        0,
        &mut status,
    );
    assert_eq!(status.zoom_position, Some(3));
    assert_eq!(status.zoom_range, Some(NumericRange { min: 1, max: 2 }));
    assert_eq!(status.focus_range, Some(NumericRange { min: 0, max: 8 }));
    apply_preset_payload(&payload("{\"value\":{}}"), 0, &mut status);
    assert_eq!(status.enabled_presets, vec![4]);
    apply_preset_payload(
        &payload("{\"value\":[{\"id\":6,\"enable\":1},{\"id\":2,\"enable\":1}]}"),
        0,
        &mut status,
    );
    assert_eq!(status.enabled_presets, vec![2, 6]);
    apply_check_state_payload(&payload("{\"value\":{\"PtzCheckState\":1}}"), &mut status);
    assert_eq!(status.calibration_state, Some(2));
}
