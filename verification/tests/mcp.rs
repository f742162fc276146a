use reocli::command::CgiCommand;
use reocli::error::{AppResult, ErrorKind};
use reocli::interfaces::cli_args::CliCommand;
use reocli::interfaces::mcp_handlers::{
    handle_request, json_response, needed_command_of_tool, parse_tool, McpRequest,
};
use reocli::interfaces::mcp_tools::supported_tools;
use reocli::interfaces::report::{ProgramStep, Report};
use reocli::model::{
    Ability, AxisModelParams, CalibrationParams, CalibrationReport, ChannelStatus, DeviceInfo, NetPortSettings, NumericRange,
    PresetId, PtzDirection, PtzPreset, PtzStatus, Snapshot, SystemTime,
};
use reocli::reolink::ptz::PresetList;
use reocli::usecases::ptz_calibration::{PtzCalibrationReport, StoredCalibration};
use reocli::usecases::ptz_get_absolute_raw::PtzRawPosition;

fn request(tool: &str, arguments: &[&str]) -> McpRequest {
    McpRequest {
        tool: tool.to_string(),
        arguments: arguments.iter().map(|value| value.to_string()).collect(),
    }
}

fn parse(tool: &str, arguments: &[&str]) -> AppResult<CliCommand> {
    let words: Vec<String> = arguments.iter().map(|value| value.to_string()).collect();
    parse_tool(tool, &words).expect("tool should exist")
}

fn refused(tool: &str, arguments: &[&str]) -> String {
    let error = parse(tool, arguments).expect_err("arguments should be refused");
    assert_eq!(error.kind, ErrorKind::InvalidInput);
    error.message
}

fn everything() -> AppResult<Ability> {
    Ok(Ability {
        user_name: "admin".to_string(),
        supported_commands: vec![
            CgiCommand::GetDevInfo,
            CgiCommand::GetChannelStatus,
            CgiCommand::GetTime,
            CgiCommand::SetTime,
            CgiCommand::Snap,
            CgiCommand::PtzCtrl,
            CgiCommand::GetPtzPreset,
        ],
    })
}

fn answer(tool: &str, arguments: &[&str], report: Report) -> String {
    let ability = everything();
    let outcome = Ok(report);
    match handle_request(
        &request(tool, arguments),
        "admin",
        Some(&ability),
        Some(&outcome),
    ) {
        ProgramStep::Done(result) => result.expect("answer"),
        _ => panic!("the request should be answered"),
    }
}

#[test]
fn the_documented_tools_are_listed() {
    let names: Vec<&str> = supported_tools().iter().map(|tool| tool.name).collect();
    for name in [
        "mcp.list_tools",
        "reolink.get_user_auth",
        "reolink.get_ability",
        "reolink.get_dev_info",
        "reolink.get_channel_status",
        "reolink.get_ptz_status",
        "reolink.get_time",
        "reolink.set_time",
        "reolink.get_net_port",
        "reolink.set_onvif_enabled",
        "reolink.snap",
        "reolink.ptz_move",
        "reolink.ptz_stop",
        "reolink.ptz_preset_list",
        "reolink.ptz_preset_goto",
        "reolink.ptz_calibrate_auto",
        "reolink.ptz_set_absolute",
        "reolink.ptz_get_absolute",
    ] {
        assert!(names.contains(&name), "{name} is missing");
    }
    assert_eq!(names.len(), 18);
    match handle_request(&request("mcp.list_tools", &[]), "admin", None, None) {
        ProgramStep::Done(Ok(text)) => {
            assert!(text.starts_with("{\"tools\":[\"mcp.list_tools\",\"reolink.get_ability\","));
            assert!(text.ends_with("\"reolink.ptz_get_absolute\"]}"));
        }
        _ => panic!("the tools should be listed"),
    }
}

#[test]
fn an_unknown_tool_is_refused() {
    match handle_request(&request("reolink.fly", &[]), "admin", None, None) {
        ProgramStep::Done(Err(error)) => {
            assert_eq!(error.kind, ErrorKind::UnsupportedCommand);
            assert_eq!(error.message, "unknown tool: reolink.fly");
        }
        _ => panic!("the tool should be refused"),
    }
}

#[test]
fn abilities_are_looked_at_before_arguments() {
    let bad = request("reolink.ptz_move", &["sideways"]);
    assert!(matches!(
        handle_request(&bad, "viewer", None, None),
        ProgramStep::CheckAbility { user_name } if user_name == "viewer"
    ));
    let none: AppResult<Ability> = Ok(Ability {
        user_name: "viewer".to_string(),
        supported_commands: vec![],
    });
    match handle_request(&bad, "viewer", Some(&none), None) {
        ProgramStep::Done(Err(error)) => assert_eq!(
            error.message,
            "command PtzCtrl is not supported by this camera (user=viewer)"
        ),
        _ => panic!("the request should be refused"),
    }
    match handle_request(&bad, "viewer", Some(&everything()), None) {
        ProgramStep::Done(Err(error)) => {
            assert_eq!(error.message, "unknown PTZ direction: sideways")
        }
        _ => panic!("the request should be refused"),
    }
}

#[test]
fn documented_requests_mean_their_operations() {
    assert!(matches!(
        handle_request(
            &request("reolink.ptz_set_absolute", &["0", "1500", "-180", "12", "25000"]),
            "admin",
            Some(&everything()),
            None
        ),
        ProgramStep::Perform(CliCommand::PtzSetAbsolute {
            channel: 0,
            pan_count: 1500,
            tilt_count: -180,
            tol_count: 12,
            timeout_ms: 25000
        })
    ));
    assert_eq!(
        parse("reolink.set_onvif_enabled", &["on", "8000"]).expect("onvif"),
        CliCommand::SetOnvif {
            enabled: true,
            onvif_port: Some(8000)
        }
    );
    assert_eq!(
        parse("reolink.ptz_calibrate_auto", &["0"]).expect("calibrate"),
        CliCommand::PtzCalibrateAuto { channel: 0 }
    );
    assert_eq!(
        parse("reolink.ptz_get_absolute", &["0"]).expect("get"),
        CliCommand::PtzGetAbsolute { channel: 0 }
    );
    assert_eq!(
        parse("reolink.get_net_port", &[]).expect("port"),
        CliCommand::GetNetPort
    );
}

#[test]
fn a_channel_may_stand_before_other_arguments() {
    assert_eq!(
        parse("reolink.ptz_move", &["3", "left", "7", "250"]).expect("with"),
        CliCommand::PtzMove {
            channel: 3,
            direction: PtzDirection::Left,
            speed: 7,
            duration_ms: Some(250)
        }
    );
    assert_eq!(
        parse("reolink.ptz_move", &["left"]).expect("without"),
        CliCommand::PtzMove {
            channel: 0,
            direction: PtzDirection::Left,
            speed: 32,
            duration_ms: None
        }
    );
    assert_eq!(
        parse("reolink.ptz_preset_goto", &["1", "9"]).expect("goto"),
        CliCommand::PtzPresetGoto {
            channel: 1,
            preset_id: 9
        }
    );
    assert_eq!(
        parse("reolink.ptz_set_absolute", &["-5", "700"]).expect("absolute"),
        CliCommand::PtzSetAbsolute {
            channel: 0,
            pan_count: -5,
            tilt_count: 700,
            tol_count: 10,
            timeout_ms: 25000
        }
    );
    assert_eq!(
        parse("reolink.snap", &["out.jpg"]).expect("path alone"),
        CliCommand::Snap {
            channel: 0,
            out: Some("out.jpg".to_string())
        }
    );
    assert_eq!(
        parse("reolink.snap", &["2", "out.jpg"]).expect("both"),
        CliCommand::Snap {
            channel: 2,
            out: Some("out.jpg".to_string())
        }
    );
    assert_eq!(
        parse("reolink.get_ability", &[]).expect("ability"),
        CliCommand::GetAbility {
            user_name: "admin".to_string()
        }
    );
}

#[test]
fn tool_arguments_are_refused_with_their_reason() {
    assert_eq!(
        refused("reolink.get_user_auth", &["admin"]),
        "reolink.get_user_auth requires [user, password]"
    );
    assert_eq!(
        refused("reolink.set_time", &[]),
        "reolink.set_time requires [iso8601]"
    );
    assert_eq!(
        refused("reolink.snap", &["1", "2", "3"]),
        "reolink.snap accepts [channel] [out_path]"
    );
    assert_eq!(
        refused("reolink.ptz_move", &["1"]),
        "reolink.ptz_move requires [channel?] <direction> [speed] [duration_ms]"
    );
    assert_eq!(
        refused("reolink.ptz_move", &["1", "left", "2", "3", "4"]),
        "reolink.ptz_move accepts [channel?] <direction> [speed] [duration_ms]"
    );
    assert_eq!(
        refused("reolink.ptz_preset_goto", &["7"]),
        "reolink.ptz_preset_goto requires [channel?] <preset_id>"
    );
    assert_eq!(
        refused("reolink.ptz_preset_goto", &["7", "8", "9"]),
        "reolink.ptz_preset_goto accepts [channel?] <preset_id>"
    );
    assert_eq!(
        refused("reolink.ptz_set_absolute", &["0", "1"]),
        "reolink.ptz_set_absolute requires [channel?] <pan_count> <tilt_count> [tol_count] [timeout_ms]"
    );
    assert_eq!(
        refused("reolink.ptz_set_absolute", &["0", "1", "2", "3", "4", "5"]),
        "reolink.ptz_set_absolute accepts [channel?] <pan_count> <tilt_count> [tol_count] [timeout_ms]"
    );
    assert_eq!(
        refused("reolink.set_onvif_enabled", &["perhaps"]),
        "enabled must be one of on/off"
    );
    assert_eq!(
        refused("reolink.set_onvif_enabled", &["on", "0"]),
        "onvif_port must be in range 1..=65535, got 0"
    );
    assert_eq!(
        refused("reolink.set_onvif_enabled", &["on", "1", "2"]),
        "reolink.set_onvif_enabled accepts <on|off> [onvif_port]"
    );
    assert_eq!(
        refused("reolink.ptz_stop", &["x"]),
        "channel must be an integer between 0 and 255"
    );
}

#[test]
fn answers_are_json_with_members_in_order_of_name() {
    assert_eq!(
        answer("reolink.get_user_auth", &["a", "b"], Report::Token("t\"1".to_string())),
        "{\"token\":\"t\\\"1\"}"
    );
    assert_eq!(
        answer(
            "reolink.get_ability",
            &[],
            Report::Ability(Ability {
                user_name: "admin".to_string(),
                supported_commands: vec![CgiCommand::Snap, CgiCommand::GetTime],
            })
        ),
        "{\"commands\":\"Snap,GetTime\",\"user\":\"admin\"}"
    );
    assert_eq!(
        answer(
            "reolink.get_dev_info",
            &[],
            Report::Device(DeviceInfo {
                model: "M".to_string(),
                firmware: "F".to_string(),
                serial_number: "S".to_string(),
            })
        ),
        "{\"firmware\":\"F\",\"model\":\"M\",\"serial\":\"S\"}"
    );
    assert_eq!(
        answer(
            "reolink.get_channel_status",
            &["4"],
            Report::Channel(ChannelStatus {
                channel: 4,
                online: false
            })
        ),
        "{\"channel\":4,\"online\":false}"
    );
    assert_eq!(
        answer(
            "reolink.get_time",
            &[],
            Report::Time(SystemTime {
                iso8601: "2026-02-25T10:00:00Z".to_string()
            })
        ),
        "{\"time\":\"2026-02-25T10:00:00Z\"}"
    );
    assert_eq!(
        answer(
            "reolink.snap",
            &[],
            Report::Snapshot(Snapshot {
                channel: 0,
                image_path: "a.jpg".to_string(),
                bytes_written: 42
            })
        ),
        "{\"bytes_written\":42,\"channel\":0,\"image_path\":\"a.jpg\"}"
    );
    assert_eq!(
        answer("reolink.ptz_move", &["left"], Report::Moved),
        "{\"channel\":0,\"direction\":\"Left\",\"duration_ms\":null,\"ok\":true,\"speed\":32}"
    );
    assert_eq!(
        answer("reolink.ptz_stop", &["2"], Report::Moved),
        "{\"channel\":2,\"ok\":true}"
    );
    assert_eq!(
        answer("reolink.ptz_preset_goto", &["1", "9"], Report::Moved),
        "{\"channel\":1,\"ok\":true,\"preset_id\":9}"
    );
    assert_eq!(
        answer(
            "reolink.ptz_preset_list",
            &[],
            Report::Presets(PresetList {
                presets: vec![
                    PtzPreset {
                        id: PresetId::new(1).expect("id"),
                        name: Some("door".to_string()),
                    },
                    PtzPreset {
                        id: PresetId::new(4).expect("id"),
                        name: None,
                    },
                ],
            })
        ),
        "{\"channel\":0,\"presets\":[{\"id\":1,\"name\":\"door\"},{\"id\":4,\"name\":null}]}"
    );
    let pose = PtzRawPosition {
        channel: 0,
        pan_count: 1500,
        tilt_count: -180,
        zoom_count: Some(7),
        focus_count: None,
    };
    assert_eq!(
        answer("reolink.ptz_get_absolute", &[], Report::Position(pose)),
        "{\"channel\":0,\"focus_count\":null,\"pan_count\":1500,\"tilt_count\":-180,\"zoom_count\":7}"
    );
    assert_eq!(
        answer(
            "reolink.ptz_set_absolute",
            &["0", "1500", "-180"],
            Report::Position(pose)
        ),
        "{\"channel\":0,\"focus_count\":null,\"pan_count\":1500,\"tilt_count\":-180,\"timeout_ms\":25000,\"tol_count\":10,\"zoom_count\":7}"
    );
}

#[test]
fn a_status_is_answered_with_nulls_for_what_is_unknown() {
    let status = PtzStatus {
        channel: 1,
        pan_position: Some(-20),
        tilt_position: None,
        zoom_position: None,
        focus_position: None,
        pan_range: Some(NumericRange { min: -10, max: 20 }),
        tilt_range: None,
        zoom_range: None,
        focus_range: None,
        preset_range: None,
        enabled_presets: vec![2, 5],
        calibration_state: Some(1),
    };
    assert_eq!(
        answer("reolink.get_ptz_status", &["1"], Report::Status(status)),
        "{\"calibrated\":false,\"calibration_state\":1,\"channel\":1,\"enabled_presets\":[2,5],\"focus\":null,\"focus_range\":null,\"pan\":-20,\"pan_range\":{\"max\":20,\"min\":-10},\"preset_range\":null,\"tilt\":null,\"tilt_range\":null,\"zoom\":null,\"zoom_range\":null}"
    );
}

#[test]
fn settings_of_the_network_are_answered() {
    let settings = NetPortSettings {
        onvif_enable: Some(true),
        onvif_port: Some(8000),
        ..NetPortSettings::default()
    };
    assert_eq!(
        answer("reolink.set_onvif_enabled", &["on"], Report::NetPort(settings)),
        "{\"http_enable\":null,\"http_port\":null,\"https_enable\":null,\"https_port\":null,\"media_port\":null,\"onvif_enable\":true,\"onvif_port\":8000,\"requested_enabled\":true,\"requested_port\":null,\"rtmp_enable\":null,\"rtmp_port\":null,\"rtsp_enable\":null,\"rtsp_port\":null}"
    );
    assert_eq!(
        answer("reolink.get_net_port", &[], Report::NetPort(settings)),
        "{\"http_enable\":null,\"http_port\":null,\"https_enable\":null,\"https_port\":null,\"media_port\":null,\"onvif_enable\":true,\"onvif_port\":8000,\"rtmp_enable\":null,\"rtmp_port\":null,\"rtsp_enable\":null,\"rtsp_port\":null}"
    );
}

#[test]
fn a_calibration_is_answered() {
    let calibration = || CalibrationParams {
        serial_number: "S".to_string(),
        model: "M".to_string(),
        firmware: "F".to_string(),
        pan_min_count: -10,
        pan_max_count: 7360,
        pan_deadband_count: 6,
        pan_deadband_increase_count: Some(4),
        pan_deadband_decrease_count: Some(6),
        tilt_min_count: 0,
        tilt_max_count: 1240,
        tilt_deadband_count: 5,
        tilt_deadband_increase_count: None,
        tilt_deadband_decrease_count: None,
        pan_model: AxisModelParams {
            alpha: serde_json::Value::from(0.9),
            beta: serde_json::Value::from(120.0),
        },
        tilt_model: AxisModelParams {
            alpha: serde_json::Value::from(0.8),
            beta: serde_json::Value::from(60.5),
        },
        created_at: "1".to_string(),
    };
    let summary = PtzCalibrationReport {
        channel: 2,
        camera_key: "key".to_string(),
        calibration_path: "/c/key.json".to_string(),
        reused_existing: true,
        calibrated_state: Some(true),
        pan_count: 1,
        tilt_count: -2,
        params: StoredCalibration {
            schema_version: 2,
            source: "auto_measured".to_string(),
            camera_key: "key".to_string(),
            channel: 2,
            calibration: calibration(),
        },
        calibration: calibration(),
        report: CalibrationReport {
            samples: 1,
            pan_error_p95_count: 3,
            tilt_error_p95_count: 4,
            notes: "reused_saved_params".to_string(),
        },
    };
    assert_eq!(
        answer("reolink.ptz_calibrate_auto", &["2"], Report::Calibration(summary)),
        "{\"calibrated_state\":true,\"calibration\":{\"created_at\":\"1\",\"firmware\":\"F\",\"model\":\"M\",\"pan_deadband_count\":6,\"pan_max_count\":7360,\"pan_min_count\":-10,\"pan_model\":{\"alpha\":0.9,\"beta\":120.0},\"serial_number\":\"S\",\"tilt_deadband_count\":5,\"tilt_max_count\":1240,\"tilt_min_count\":0,\"tilt_model\":{\"alpha\":0.8,\"beta\":60.5}},\"calibration_path\":\"/c/key.json\",\"camera_key\":\"key\",\"channel\":2,\"pan_count\":1,\"report\":{\"notes\":\"reused_saved_params\",\"pan_error_p95_count\":3,\"samples\":1,\"tilt_error_p95_count\":4},\"reused_existing\":true,\"tilt_count\":-2}"
    );
}

#[test]
fn a_rendering_error_is_reported() {
    let error = json_response(Err("broken".to_string())).expect_err("error");
    assert_eq!(error.kind, ErrorKind::UnexpectedResponse);
    assert_eq!(
        error.message,
        "failed to serialize MCP response JSON: broken"
    );
    assert_eq!(json_response(Ok("{}".to_string())).expect("text"), "{}");
}

#[test]
fn tools_need_their_commands() {
    assert_eq!(
        needed_command_of_tool("reolink.ptz_set_absolute"),
        Some(CgiCommand::PtzCtrl)
    );
    assert_eq!(
        needed_command_of_tool("reolink.ptz_preset_list"),
        Some(CgiCommand::GetPtzPreset)
    );
    assert_eq!(needed_command_of_tool("reolink.get_net_port"), None);
}
