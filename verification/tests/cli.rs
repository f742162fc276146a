use reocli::command::CgiCommand;
use reocli::error::{AppError, AppResult, ErrorKind};
use reocli::interfaces::cli_args::{help_text, parse_args, usage_lines, CliCommand};
use reocli::interfaces::cli_handlers::{print_report, run};
use reocli::interfaces::report::{ProgramStep, Report};
use reocli::model::{
    Ability, AxisModelParams, CalibrationParams, CalibrationReport, ChannelStatus, DeviceInfo, NetPortSettings, NumericRange,
    PresetId, PtzDirection, PtzPreset, PtzStatus, Snapshot, SystemTime,
};
use reocli::reolink::onvif::{OnvifMoveStatus, OnvifPtzConfigurationOptions, OnvifStatusFields};
use reocli::reolink::ptz::PresetList;
use reocli::usecases::preflight::PreflightReport;
use reocli::usecases::ptz_calibration::{PtzCalibrationReport, StoredCalibration};
use reocli::usecases::ptz_get_absolute_raw::PtzRawPosition;

fn words(raw: &[&str]) -> Vec<String> {
    raw.iter().map(|value| value.to_string()).collect::<Vec<_>>()
}

fn parse(raw: &[&str]) -> AppResult<CliCommand> {
    parse_args(&words(raw))
}

fn refused(raw: &[&str]) -> (ErrorKind, String) {
    let error = parse(raw).expect_err("arguments should be refused");
    (error.kind, error.message)
}

#[test]
fn parse_ptz_onvif_status_with_default_channel() {
    let command = parse(&["ptz", "onvif", "status"]).expect("status command should parse");
    assert_eq!(command, CliCommand::PtzOnvifStatus { channel: 0 });
}

#[test]
fn parse_ptz_onvif_options_with_channel_flag() {
    let command = parse(&["ptz", "onvif", "options", "--channel", "7"])
        .expect("options command should parse");
    assert_eq!(command, CliCommand::PtzOnvifOptions { channel: 7 });
}

#[test]
fn parse_ptz_onvif_relative_move_with_channel_flag() {
    let command = parse(&[
        "ptz",
        "onvif",
        "relative-move",
        "55",
        "-12",
        "--channel",
        "3",
    ])
    .expect("relative-move command should parse");
    assert_eq!(
        command,
        CliCommand::PtzOnvifRelativeMove {
            channel: 3,
            pan_delta_count: 55,
            tilt_delta_count: -12,
        }
    );
}

#[test]
fn parse_ptz_onvif_relative_move_requires_two_deltas() {
    let error = parse(&["ptz", "onvif", "relative-move", "55"])
        .expect_err("relative-move should fail without tilt delta");
    assert_eq!(error.kind, ErrorKind::InvalidInput);
    assert!(error
        .message
        .contains("requires <pan_delta_count> <tilt_delta_count>"));
}

#[test]
fn no_arguments_and_help_words_mean_help() {
    for raw in [&[][..], &["help"][..], &["--help"][..], &["-h"][..]] {
        assert_eq!(parse(raw).expect("help"), CliCommand::Help);
    }
    assert_eq!(
        help_text(),
        "Usage:\n  reocli help\n  reocli get-user-auth <user> <password>\n  reocli get-ability [user]\n  reocli get-dev-info\n  reocli get-channel-status [channel]\n  reocli get-ptz-status [channel]\n  reocli get-time\n  reocli get-net-port\n  reocli set-time <iso8601>\n  reocli set-onvif <on|off> [--port <1-65535>]\n  reocli snap [channel] [--out path]\n  reocli ptz move <direction> [--speed <1-64>] [--duration <ms>] [--channel <0-255>]\n  reocli ptz stop [--channel <0-255>]\n  reocli ptz preset list [--channel <0-255>]\n  reocli ptz preset goto <preset_id> [--channel <0-255>]\n  reocli ptz calibrate auto [--channel <0-255>]\n  reocli ptz set-absolute <pan_count> <tilt_count> [--tol-count <i64>] [--timeout-ms <u64>] [--channel <0-255>]\n  reocli ptz get-absolute [--channel <0-255>]\n  reocli preflight [user]"
    );
}

#[test]
fn listed_commands_are_accepted() {
    let uses: [(&str, &[&str], &[&str]); 19] = [
        ("help", &["help"], &["help"]),
        ("get-user-auth <user> <password>", &["get-user-auth", "a", "b"], &["get-user-auth", "", ""]),
        ("get-ability [user]", &["get-ability"], &["get-ability", "viewer"]),
        ("get-dev-info", &["get-dev-info"], &["get-dev-info"]),
        ("get-channel-status [channel]", &["get-channel-status"], &["get-channel-status", "255"]),
        ("get-ptz-status [channel]", &["get-ptz-status"], &["get-ptz-status", "3"]),
        ("get-time", &["get-time"], &["get-time"]),
        ("get-net-port", &["get-net-port"], &["get-net-port"]),
        ("set-time <iso8601>", &["set-time", "2026-02-25T10:00:00Z"], &["set-time", ""]),
        (
            "set-onvif <on|off> [--port <1-65535>]",
            &["set-onvif", "off"],
            &["set-onvif", "on", "--port", "1"],
        ),
        ("snap [channel] [--out path]", &["snap"], &["snap", "0", "--out", "a.jpg"]),
        (
            "ptz move <direction> [--speed <1-64>] [--duration <ms>] [--channel <0-255>]",
            &["ptz", "move", "left"],
            &["ptz", "move", "up", "--speed", "64", "--duration", "9", "--channel", "1"],
        ),
        ("ptz stop [--channel <0-255>]", &["ptz", "stop"], &["ptz", "stop", "--channel", "1"]),
        (
            "ptz preset list [--channel <0-255>]",
            &["ptz", "preset", "list"],
            &["ptz", "preset", "list", "--channel", "1"],
        ),
        (
            "ptz preset goto <preset_id> [--channel <0-255>]",
            &["ptz", "preset", "goto", "7"],
            &["ptz", "preset", "goto", "7", "--channel", "1"],
        ),
        (
            "ptz calibrate auto [--channel <0-255>]",
            &["ptz", "calibrate", "auto"],
            &["ptz", "calibrate", "auto", "--channel", "1"],
        ),
        (
            "ptz set-absolute <pan_count> <tilt_count> [--tol-count <i64>] [--timeout-ms <u64>] [--channel <0-255>]",
            &["ptz", "set-absolute", "1500", "-180"],
            &[
                "ptz", "set-absolute", "1500", "-180", "--tol-count", "12", "--timeout-ms",
                "25000", "--channel", "0",
            ],
        ),
        (
            "ptz get-absolute [--channel <0-255>]",
            &["ptz", "get-absolute"],
            &["ptz", "get-absolute", "--channel", "1"],
        ),
        ("preflight [user]", &["preflight"], &["preflight", "viewer"]),
    ];
    let lines = usage_lines();
    assert_eq!(lines.len(), uses.len());
    for (line, (text, shortest, longest)) in lines.iter().zip(uses) {
        assert_eq!(*line, format!("reocli {text}"));
        assert!(help_text().contains(&format!("\n  reocli {text}")));
        assert!(parse(shortest).is_ok(), "{text}");
        assert!(parse(longest).is_ok(), "{text}");
    }
}

#[test]
fn documented_commands_parse() {
    assert_eq!(
        parse(&["get-user-auth", "admin", "secret"]).expect("auth"),
        CliCommand::GetUserAuth {
            user_name: "admin".to_string(),
            password: "secret".to_string()
        }
    );
    assert_eq!(parse(&["get-dev-info"]).expect("info"), CliCommand::GetDevInfo);
    assert_eq!(parse(&["get-time"]).expect("time"), CliCommand::GetTime);
    assert_eq!(
        parse(&["get-net-port"]).expect("port"),
        CliCommand::GetNetPort
    );
    assert_eq!(
        parse(&["set-time", "2026-02-25T10:00:00Z"]).expect("set"),
        CliCommand::SetTime {
            iso8601: "2026-02-25T10:00:00Z".to_string()
        }
    );
    assert_eq!(
        parse(&["set-onvif", "on", "--port", "8000"]).expect("onvif"),
        CliCommand::SetOnvif {
            enabled: true,
            onvif_port: Some(8000)
        }
    );
    assert_eq!(
        parse(&["snap", "0", "--out", "snapshots/front-door.jpg"]).expect("snap"),
        CliCommand::Snap {
            channel: 0,
            out: Some("snapshots/front-door.jpg".to_string())
        }
    );
    assert_eq!(
        parse(&["ptz", "move", "left", "--speed", "6", "--duration", "300", "--channel", "0"])
            .expect("move"),
        CliCommand::PtzMove {
            channel: 0,
            direction: PtzDirection::Left,
            speed: 6,
            duration_ms: Some(300)
        }
    );
    assert_eq!(
        parse(&["ptz", "stop", "--channel", "0"]).expect("stop"),
        CliCommand::PtzStop { channel: 0 }
    );
    assert_eq!(
        parse(&["ptz", "preset", "list", "--channel", "0"]).expect("list"),
        CliCommand::PtzPresetList { channel: 0 }
    );
    assert_eq!(
        parse(&["ptz", "preset", "goto", "7", "--channel", "0"]).expect("goto"),
        CliCommand::PtzPresetGoto {
            channel: 0,
            preset_id: 7
        }
    );
    assert_eq!(
        parse(&["ptz", "calibrate", "auto", "--channel", "0"]).expect("calibrate"),
        CliCommand::PtzCalibrateAuto { channel: 0 }
    );
    assert_eq!(
        parse(&[
            "ptz",
            "set-absolute",
            "1500",
            "-180",
            "--tol-count",
            "12",
            "--timeout-ms",
            "25000",
            "--channel",
            "0"
        ])
        .expect("absolute"),
        CliCommand::PtzSetAbsolute {
            channel: 0,
            pan_count: 1500,
            tilt_count: -180,
            tol_count: 12,
            timeout_ms: 25000
        }
    );
    assert_eq!(
        parse(&["ptz", "get-absolute", "--channel", "0"]).expect("get"),
        CliCommand::PtzGetAbsolute { channel: 0 }
    );
    assert_eq!(
        parse(&["preflight"]).expect("preflight"),
        CliCommand::Preflight {
            user_name: "admin".to_string()
        }
    );
}

#[test]
fn defaults_stand_in_for_what_is_left_out() {
    assert_eq!(
        parse(&["get-ability"]).expect("ability"),
        CliCommand::GetAbility {
            user_name: "admin".to_string()
        }
    );
    assert_eq!(
        parse(&["get-channel-status"]).expect("channel"),
        CliCommand::GetChannelStatus { channel: 0 }
    );
    assert_eq!(
        parse(&["ptz", "move", "up"]).expect("move"),
        CliCommand::PtzMove {
            channel: 0,
            direction: PtzDirection::Up,
            speed: 32,
            duration_ms: None
        }
    );
    assert_eq!(
        parse(&["ptz", "set-absolute", "1", "2"]).expect("absolute"),
        CliCommand::PtzSetAbsolute {
            channel: 0,
            pan_count: 1,
            tilt_count: 2,
            tol_count: 10,
            timeout_ms: 25000
        }
    );
    assert_eq!(
        parse(&["snap"]).expect("snap"),
        CliCommand::Snap {
            channel: 0,
            out: None
        }
    );
}

#[test]
fn options_of_a_movement_may_come_in_any_order() {
    assert_eq!(
        parse(&["ptz", "move", "down", "--channel", "2", "--speed", "5"]).expect("one order"),
        parse(&["ptz", "move", "down", "--speed", "5", "--channel", "2"]).expect("the other")
    );
}

#[test]
fn arguments_are_refused_with_their_reason() {
    let cases: [(&[&str], &str); 18] = [
        (&["get-user-auth", "admin"], "get-user-auth requires <user> <password>"),
        (
            &["get-channel-status", "256"],
            "channel must be an integer between 0 and 255",
        ),
        (&["set-time"], "set-time requires <iso8601>"),
        (&["set-onvif"], "set-onvif requires <on|off> [--port <1-65535>]"),
        (&["set-onvif", "maybe"], "set-onvif requires <on|off>"),
        (
            &["set-onvif", "on", "--port", "65536"],
            "onvif_port must be an integer between 0 and 65535",
        ),
        (
            &["set-onvif", "on", "--port", "0"],
            "onvif_port must be in range 1..=65535, got 0",
        ),
        (&["snap", "--out"], "snap --out requires <path>"),
        (&["snap", "--out", "  "], "snap --out path must not be empty"),
        (&["snap", "--fast"], "unknown snap option: --fast"),
        (&["snap", "1", "2"], "unexpected snap argument: 2"),
        (
            &["ptz"],
            "ptz requires one of: move, stop, preset, calibrate, set-absolute, get-absolute",
        ),
        (&["ptz", "spin"], "unknown ptz action: spin"),
        (&["ptz", "move", "sideways"], "unknown PTZ direction: sideways"),
        (
            &["ptz", "move", "left", "--duration", "-1"],
            "duration must be a non-negative integer",
        ),
        (
            &["ptz", "stop", "--channel"],
            "ptz stop only supports optional --channel <u8>",
        ),
        (
            &["ptz", "preset", "goto"],
            "ptz preset goto requires <preset_id>",
        ),
        (
            &["ptz", "set-absolute", "1", "x"],
            "tilt_count must be an integer",
        ),
    ];
    for (raw, message) in cases {
        assert_eq!(refused(raw), (ErrorKind::InvalidInput, message.to_string()));
    }
    assert_eq!(
        refused(&["fly"]),
        (
            ErrorKind::UnsupportedCommand,
            "unknown subcommand: fly".to_string()
        )
    );
}

fn ability(commands: Vec<CgiCommand>) -> AppResult<Ability> {
    Ok(Ability {
        user_name: "operator".to_string(),
        supported_commands: commands,
    })
}

fn done(step: ProgramStep) -> AppResult<String> {
    match step {
        ProgramStep::Done(result) => result,
        ProgramStep::CheckAbility { user_name } => panic!("asked for the abilities of {user_name}"),
        ProgramStep::Perform(command) => panic!("asked for {command:?}"),
    }
}

#[test]
fn a_command_that_needs_support_is_checked_first() {
    let args = words(&["get-time"]);
    match run(&args, "operator", None, None) {
        ProgramStep::CheckAbility { user_name } => assert_eq!(user_name, "operator"),
        _ => panic!("abilities should be asked for"),
    }

    let without = ability(vec![CgiCommand::GetDevInfo]);
    let error = done(run(&args, "operator", Some(&without), None)).expect_err("unsupported");
    assert_eq!(error.kind, ErrorKind::UnsupportedCommand);
    assert_eq!(
        error.message,
        "command GetTime is not supported by this camera (user=operator)"
    );

    let with = ability(vec![CgiCommand::GetTime]);
    match run(&args, "operator", Some(&with), None) {
        ProgramStep::Perform(command) => assert_eq!(command, CliCommand::GetTime),
        _ => panic!("the operation should be asked for"),
    }

    let time: AppResult<Report> = Ok(Report::Time(SystemTime {
        iso8601: "2026-02-25T10:00:00Z".to_string(),
    }));
    assert_eq!(
        done(run(&args, "operator", Some(&with), Some(&time))).expect("printed"),
        "time=2026-02-25T10:00:00Z"
    );

    let failed: AppResult<Report> = Err(AppError::new(ErrorKind::Network, "unreachable"));
    let error = done(run(&args, "operator", Some(&with), Some(&failed))).expect_err("failed");
    assert_eq!(error.kind, ErrorKind::Network);
}

#[test]
fn abilities_that_cannot_be_read_end_the_program() {
    let unread: AppResult<Ability> = Err(AppError::new(ErrorKind::Authentication, "no"));
    let error = done(run(&words(&["snap"]), "admin", Some(&unread), None)).expect_err("unread");
    assert_eq!(error.kind, ErrorKind::Authentication);
}

#[test]
fn commands_without_a_check_are_carried_out_at_once() {
    for raw in [
        &["get-ability"][..],
        &["get-user-auth", "a", "b"][..],
        &["get-ptz-status"][..],
        &["get-net-port"][..],
        &["set-onvif", "off"][..],
        &["ptz", "get-absolute"][..],
        &["ptz", "onvif", "status"][..],
        &["preflight"][..],
    ] {
        assert!(matches!(
            run(&words(raw), "admin", None, None),
            ProgramStep::Perform(_)
        ));
    }
    assert_eq!(
        done(run(&words(&["help"]), "admin", None, None)).expect("help"),
        help_text()
    );
}

#[test]
fn bad_arguments_are_refused_before_the_camera_is_asked() {
    let error = done(run(&words(&["ptz", "move"]), "admin", None, None)).expect_err("refused");
    assert_eq!(error.message, "ptz move requires <direction>");
}

#[test]
fn a_report_of_another_operation_does_not_count() {
    let token: AppResult<Report> = Ok(Report::Token("t".to_string()));
    assert!(matches!(
        run(&words(&["get-net-port"]), "admin", None, Some(&token)),
        ProgramStep::Perform(CliCommand::GetNetPort)
    ));
    assert_eq!(
        print_report(&CliCommand::GetNetPort, &Report::Token("t".to_string())),
        None
    );
}

fn printed(raw: &[&str], report: Report) -> String {
    let command = parse(raw).expect("arguments should parse");
    print_report(&command, &report).expect("report should be printed")
}

fn status() -> PtzStatus {
    PtzStatus {
        channel: 1,
        pan_position: Some(-20),
        tilt_position: None,
        zoom_position: Some(3),
        focus_position: None,
        pan_range: Some(NumericRange { min: -10, max: 20 }),
        tilt_range: None,
        zoom_range: None,
        focus_range: None,
        preset_range: None,
        enabled_presets: vec![2, 5],
        calibration_state: Some(2),
    }
}

#[test]
fn reports_are_printed() {
    assert_eq!(
        printed(&["get-user-auth", "a", "b"], Report::Token("abc".to_string())),
        "token=abc"
    );
    assert_eq!(
        printed(
            &["get-ability"],
            Report::Ability(Ability {
                user_name: "admin".to_string(),
                supported_commands: vec![CgiCommand::GetDevInfo, CgiCommand::Snap],
            })
        ),
        "user=admin; supported=[GetDevInfo,Snap]"
    );
    assert_eq!(
        printed(
            &["get-dev-info"],
            Report::Device(DeviceInfo {
                model: "M".to_string(),
                firmware: "F".to_string(),
                serial_number: "S".to_string(),
            })
        ),
        "model=M; firmware=F; serial=S"
    );
    assert_eq!(
        printed(
            &["get-channel-status"],
            Report::Channel(ChannelStatus {
                channel: 4,
                online: true
            })
        ),
        "channel=4; online=true"
    );
    assert_eq!(
        printed(&["get-ptz-status"], Report::Status(status())),
        "channel=1; pan=-20; tilt=unknown; zoom=3; focus=unknown; pan_range=-10..20; tilt_range=unknown; zoom_range=unknown; focus_range=unknown; preset_range=unknown; enabled_presets=[2,5]; calibration_state=2; calibrated=true"
    );
    assert_eq!(
        printed(
            &["snap"],
            Report::Snapshot(Snapshot {
                channel: 0,
                image_path: "a.jpg".to_string(),
                bytes_written: 42
            })
        ),
        "channel=0; image_path=a.jpg; bytes_written=42"
    );
    assert_eq!(
        printed(&["ptz", "move", "left", "--speed", "6"], Report::Moved),
        "channel=0; operation=move; direction=Left; speed=6; duration_ms=none"
    );
    assert_eq!(
        printed(&["ptz", "move", "left", "--duration", "300"], Report::Moved),
        "channel=0; operation=move; direction=Left; speed=32; duration_ms=300"
    );
    assert_eq!(
        printed(&["ptz", "stop", "--channel", "9"], Report::Moved),
        "channel=9; operation=stop"
    );
    assert_eq!(
        printed(&["ptz", "preset", "goto", "7"], Report::Moved),
        "channel=0; operation=preset_goto; preset_id=7"
    );
    let presets = PresetList {
        presets: vec![
            PtzPreset {
                id: PresetId::new(1).expect("id"),
                name: Some("door".to_string()),
            },
            PtzPreset {
                id: PresetId::new(4).expect("id"),
                name: None,
            },
        ],
    };
    assert_eq!(
        printed(&["ptz", "preset", "list"], Report::Presets(presets)),
        "channel=0; presets=[1:door,4]"
    );
    assert_eq!(
        printed(
            &["ptz", "preset", "list"],
            Report::Presets(PresetList { presets: vec![] })
        ),
        "channel=0; presets=[]"
    );
    let pose = PtzRawPosition {
        channel: 0,
        pan_count: 1500,
        tilt_count: -180,
        zoom_count: None,
        focus_count: None,
    };
    assert_eq!(
        printed(
            &["ptz", "set-absolute", "1500", "-180"],
            Report::Position(pose)
        ),
        "channel=0; operation=set_absolute; pan_count=1500; tilt_count=-180; tol_count=10; timeout_ms=25000"
    );
    assert_eq!(
        printed(&["ptz", "get-absolute"], Report::Position(pose)),
        "channel=0; operation=get_absolute; pan_count=1500; tilt_count=-180"
    );
    assert_eq!(
        printed(
            &["preflight"],
            Report::Preflight(PreflightReport {
                device_info: DeviceInfo {
                    model: "M".to_string(),
                    firmware: "F".to_string(),
                    serial_number: "S".to_string(),
                },
                supported_commands: vec![CgiCommand::Snap, CgiCommand::PtzCtrl],
            })
        ),
        "model=M; supported_commands=2"
    );
}

#[test]
fn settings_of_the_network_are_printed() {
    let settings = NetPortSettings {
        http_enable: Some(false),
        http_port: Some(80),
        https_enable: Some(true),
        https_port: Some(443),
        media_port: None,
        onvif_enable: Some(true),
        onvif_port: Some(8000),
        rtsp_enable: None,
        rtsp_port: None,
        rtmp_enable: None,
        rtmp_port: None,
    };
    let text = "http_enable=false; http_port=80; https_enable=true; https_port=443; media_port=unknown; onvif_enable=true; onvif_port=8000; rtsp_enable=unknown; rtsp_port=unknown; rtmp_enable=unknown; rtmp_port=unknown";
    assert_eq!(printed(&["get-net-port"], Report::NetPort(settings)), text);
    assert_eq!(
        printed(&["set-onvif", "on"], Report::NetPort(settings)),
        format!("requested_enabled=true; requested_port=none; {text}")
    );
    assert_eq!(
        printed(&["set-onvif", "off", "--port", "99"], Report::NetPort(settings)),
        format!("requested_enabled=false; requested_port=99; {text}")
    );
}

#[test]
fn onvif_reports_are_printed() {
    let fields = OnvifStatusFields {
        pan: Some("0.250".to_string()),
        tilt: None,
        zoom: None,
        pan_tilt_move_status: Some(OnvifMoveStatus::Moving),
        zoom_move_status: Some(OnvifMoveStatus::Idle),
        utc_time: None,
    };
    assert_eq!(
        printed(&["ptz", "onvif", "status"], Report::OnvifStatus(Some(fields))),
        "channel=0; operation=onvif_status; pan=0.250; tilt=unknown; zoom=unknown; pan_tilt_move_status=moving; zoom_move_status=idle; utc_time=unknown"
    );
    assert_eq!(
        printed(&["ptz", "onvif", "status"], Report::OnvifStatus(None)),
        "channel=0; operation=onvif_status; status=unavailable"
    );
    let options = OnvifPtzConfigurationOptions {
        supports_continuous_pan_tilt_velocity: true,
        supports_relative_pan_tilt_translation: false,
        supports_relative_pan_tilt_speed: true,
        has_timeout_range: true,
        timeout_min: Some("PT1S".to_string()),
        timeout_max: None,
    };
    assert_eq!(
        printed(&["ptz", "onvif", "options"], Report::OnvifOptions(Some(options))),
        "channel=0; operation=onvif_options; supports_continuous_pan_tilt_velocity=true; supports_relative_pan_tilt_translation=false; supports_relative_pan_tilt_speed=true; has_timeout_range=true; timeout_min=PT1S; timeout_max=unknown"
    );
    assert_eq!(
        printed(
            &["ptz", "onvif", "relative-move", "5", "-6"],
            Report::RelativeMove(true)
        ),
        "channel=0; operation=onvif_relative_move; pan_delta_count=5; tilt_delta_count=-6; applied=true"
    );
}

#[test]
fn a_calibration_is_printed() {
    let calibration = || CalibrationParams {
        serial_number: "S".to_string(),
        model: "M".to_string(),
        firmware: "F".to_string(),
        pan_min_count: 0,
        pan_max_count: 7360,
        pan_deadband_count: 6,
        pan_deadband_increase_count: Some(4),
        pan_deadband_decrease_count: Some(6),
        tilt_min_count: 0,
        tilt_max_count: 1240,
        tilt_deadband_count: 6,
        tilt_deadband_increase_count: None,
        tilt_deadband_decrease_count: None,
        pan_model: AxisModelParams {
            alpha: serde_json::Value::from(0.9),
            beta: serde_json::Value::from(120.0),
        },
        tilt_model: AxisModelParams {
            alpha: serde_json::Value::from(0.9),
            beta: serde_json::Value::from(60.0),
        },
        created_at: "1".to_string(),
    };
    let summary = PtzCalibrationReport {
        channel: 0,
        camera_key: "key".to_string(),
        calibration_path: "/c/key.json".to_string(),
        reused_existing: false,
        calibrated_state: None,
        pan_count: 1,
        tilt_count: 2,
        params: StoredCalibration {
            schema_version: 2,
            source: "auto_measured".to_string(),
            camera_key: "key".to_string(),
            channel: 0,
            calibration: calibration(),
        },
        calibration: calibration(),
        report: CalibrationReport {
            samples: 100,
            pan_error_p95_count: 3,
            tilt_error_p95_count: 4,
            notes: "measured".to_string(),
        },
    };
    assert_eq!(
        printed(&["ptz", "calibrate", "auto"], Report::Calibration(summary)),
        "channel=0; operation=calibrate_auto; camera_key=key; calibration_path=/c/key.json; reused_existing=false; calibrated=unknown; model=M; firmware=F; samples=100; pan_error_p95_count=3; tilt_error_p95_count=4; notes=measured"
    );
}
