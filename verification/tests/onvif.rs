use reocli::error::{AppError, AppResult, ErrorKind};
use reocli::interfaces::runtime::PtzBackend;
use reocli::model::PtzDirection;
use reocli::reolink::client::HttpReply;
use reocli::reolink::onvif::{
    build_content_type, build_envelope, build_get_configuration_options_body,
    build_get_status_body, build_relative_move_body, build_security_header, classify_soap_reply,
    continuous_move, extract_fault_message, extract_media_profiles, extract_service_xaddr,
    format_duration, format_velocity, generate_nonce, get_configuration_options, get_status,
    parse_get_configuration_options_response, parse_get_status_response, parse_move_status,
    password_digest, relative_move, resolve_services, security_header_for, stop,
    velocity_from_direction, MediaProfile, OnvifConfig, OnvifMoveStatus, ResolvedServices,
    SoapStep,
};
use reocli::reolink::xml::{
    escape_xml, extract_all_tag_values, extract_first_tag_attribute_by_local_name,
    extract_first_tag_text_by_local_name, has_tag_with_local_name, local_name,
};
use reocli::usecases::ptz_transport;
use reocli::usecases::ptz_transport::{
    relative_move_for, RelativeMove, RelativeStep, TransportStep,
};

#[test]
fn extract_media_profiles_parses_multiple_entries() {
    let xml = r#"
    <trt:GetProfilesResponse xmlns:trt="http://www.onvif.org/ver10/media/wsdl">
      <trt:Profiles token="Profile000"></trt:Profiles>
      <trt:Profiles token='Profile001'></trt:Profiles>
      <trt:Profiles></trt:Profiles>
    </trt:GetProfilesResponse>
    "#;
    let tokens = extract_media_profiles(xml)
        .into_iter()
        .map(|profile| profile.token)
        .collect::<Vec<_>>();
    assert_eq!(
        tokens,
        vec!["Profile000".to_string(), "Profile001".to_string()]
    );
}

#[test]
fn extract_media_profiles_parses_ptz_configuration_tokens() {
    let xml = r#"
    <trt:GetProfilesResponse xmlns:trt="http://www.onvif.org/ver10/media/wsdl">
      <trt:Profiles token="Profile000">
        <tt:PTZConfiguration token="Ptz000"/>
      </trt:Profiles>
      <trt:Profiles token="Profile001">
        <tt:PTZConfiguration token='Ptz001'/>
      </trt:Profiles>
    </trt:GetProfilesResponse>
    "#;

    let profiles = extract_media_profiles(xml);
    assert_eq!(profiles.len(), 2);
    assert_eq!(profiles[0].token, "Profile000");
    assert_eq!(
        profiles[0].ptz_configuration_token.as_deref(),
        Some("Ptz000")
    );
    assert_eq!(profiles[1].token, "Profile001");
    assert_eq!(
        profiles[1].ptz_configuration_token.as_deref(),
        Some("Ptz001")
    );
}

#[test]
fn parse_get_status_response_parses_position_move_status_and_utc_time() {
    let xml = r#"
    <tptz:GetStatusResponse xmlns:tptz="http://www.onvif.org/ver20/ptz/wsdl">
      <tptz:PTZStatus>
        <tt:Position>
          <tt:PanTilt x="0.250" y="-0.125"/>
          <tt:Zoom x="0.500"/>
        </tt:Position>
        <tt:MoveStatus>
          <tt:PanTilt>MOVING</tt:PanTilt>
          <tt:Zoom>IDLE</tt:Zoom>
        </tt:MoveStatus>
        <tt:UtcTime>2026-02-20T10:11:12Z</tt:UtcTime>
      </tptz:PTZStatus>
    </tptz:GetStatusResponse>
    "#;

    let status = parse_get_status_response(xml);
    let number = |text: &Option<String>| text.as_deref().and_then(|raw| raw.parse::<f64>().ok());
    assert_eq!(number(&status.pan), Some(0.25));
    assert_eq!(number(&status.tilt), Some(-0.125));
    assert_eq!(number(&status.zoom), Some(0.5));
    assert_eq!(status.pan_tilt_move_status, Some(OnvifMoveStatus::Moving));
    assert_eq!(status.zoom_move_status, Some(OnvifMoveStatus::Idle));
    assert_eq!(status.utc_time.as_deref(), Some("2026-02-20T10:11:12Z"));
}

#[test]
fn parse_get_configuration_options_response_parses_timeout_and_flags() {
    let xml = r#"
    <tptz:GetConfigurationOptionsResponse xmlns:tptz="http://www.onvif.org/ver20/ptz/wsdl">
      <tptz:PTZConfigurationOptions>
        <tt:Spaces>
          <tt:RelativePanTiltTranslationSpace/>
          <tt:ContinuousPanTiltVelocitySpace/>
          <tt:PanTiltSpeedSpace/>
        </tt:Spaces>
        <tt:PTZTimeout>
          <tt:Min>PT0S</tt:Min>
          <tt:Max>PT5S</tt:Max>
        </tt:PTZTimeout>
      </tptz:PTZConfigurationOptions>
    </tptz:GetConfigurationOptionsResponse>
    "#;

    let options = parse_get_configuration_options_response(xml);
    assert!(options.supports_relative_pan_tilt_translation);
    assert!(options.supports_continuous_pan_tilt_velocity);
    assert!(options.supports_relative_pan_tilt_speed);
    assert!(options.has_timeout_range);
    assert_eq!(options.timeout_min.as_deref(), Some("PT0S"));
    assert_eq!(options.timeout_max.as_deref(), Some("PT5S"));
}

#[test]
fn build_relative_move_body_contains_translation_and_speed_vectors() {
    let body = build_relative_move_body(
        "Profile<1>",
        &format!("{:.6}", 0.25),
        &format!("{:.6}", -0.5),
    );
    assert!(body.contains("<tptz:RelativeMove"));
    assert!(body.contains("<tptz:ProfileToken>Profile&lt;1&gt;</tptz:ProfileToken>"));
    assert!(body.contains("<tptz:Translation>"));
    assert!(body.contains("<tptz:Speed>"));
    assert!(body.contains("x=\"0.250000\" y=\"-0.500000\""));
}

#[test]
fn build_get_configuration_options_body_escapes_configuration_token() {
    let body = build_get_configuration_options_body("Token&01");
    assert!(body.contains("<tptz:ConfigurationToken>Token&amp;01</tptz:ConfigurationToken>"));
}

#[test]
fn build_get_status_body_escapes_profile_token() {
    let body = build_get_status_body("Profile\"A\"");
    assert!(body.contains("<tptz:ProfileToken>Profile&quot;A&quot;</tptz:ProfileToken>"));
}

#[test]
fn velocity_from_direction_rejects_diagonal() {
    let error = velocity_from_direction(PtzDirection::LeftUp, 8).expect_err("must fail");
    assert_eq!(error.kind, ErrorKind::InvalidInput);
    assert!(error.message.contains("diagonal"));
}

#[test]
fn velocities_are_sixty_fourths_with_six_digits() {
    for speed in 1..=64u8 {
        let expected = format!("{:.6}", f64::from(speed) / 64.0);
        let (pan, tilt) = velocity_from_direction(PtzDirection::Right, speed).expect("velocity");
        assert_eq!(format_velocity(pan), expected);
        assert_eq!(format_velocity(tilt), "0.000000");
        let (pan, _) = velocity_from_direction(PtzDirection::Left, speed).expect("velocity");
        assert_eq!(format_velocity(pan), format!("-{expected}"));
    }
    assert_eq!(
        velocity_from_direction(PtzDirection::Down, 32).expect("velocity"),
        (0, -32)
    );
}

#[test]
fn durations_are_written_in_seconds() {
    assert_eq!(format_duration(0), "PT0S");
    assert_eq!(format_duration(1_500), "PT1.500S");
    assert_eq!(format_duration(45), "PT0.045S");
}

#[test]
fn digests_are_those_of_the_profile() {
    assert_eq!(
        password_digest(
            &[
                0x2c, 0xc4, 0x28, 0x5e, 0x4c, 0x85, 0x83, 0x77, 0x11, 0xb1, 0x30, 0x6d, 0x88, 0x79,
                0x5c, 0x1b
            ],
            "2010-09-16T07:50:45Z",
            "userpassword"
        )
        .len(),
        28
    );
    // The digest of the empty nonce, time and password is the digest of nothing.
    assert_eq!(password_digest(&[], "", ""), "2jmj7l5rSw0yVb/vlWAYkK/YBwk=");
    assert_eq!(password_digest(&[], "a", "bc"), "qZk+NkcGgWq6PiVxeFDCbJzQ2J0=");
}

#[test]
fn security_headers_hold_the_digest_and_not_the_password() {
    let header = security_header_for("ad<min", "secret", "2026-01-01T00:00:00Z", &[1, 2, 3]);
    assert!(header.contains("ad&lt;min"));
    assert!(header.contains("AQID"));
    assert!(header.contains(&password_digest(&[1, 2, 3], "2026-01-01T00:00:00Z", "secret")));
    assert!(!header.contains("secret"));
    let header = build_security_header("admin", "secret", 1_767_225_600_000_000_000, &[7])
        .expect("header");
    assert!(header.contains("2026-01-01T00:00:00Z"));
    assert!(build_security_header("admin", "secret", i128::MAX, &[7]).is_err());
}

#[test]
fn nonces_hold_the_time_and_the_process() {
    let nonce = generate_nonce(0x0102, 0x0304);
    assert!(nonce.len() >= 16);
    assert_eq!(nonce, generate_nonce(0x0102, 0x0304));
    assert_ne!(nonce, generate_nonce(0x0103, 0x0304));
    assert_ne!(nonce, generate_nonce(0x0102, 0x0305));
}

#[test]
fn messages_are_wrapped() {
    let envelope = build_envelope("<h/>", "<b/>");
    assert!(envelope.contains("<h/>"));
    assert!(envelope.contains("<b/>"));
    assert!(build_content_type("http://action").contains("http://action"));
}

#[test]
fn faults_are_told() {
    let fault = "<s:Envelope><s:Fault><s:Reason><s:Text>Not Authorized</s:Text></s:Reason></s:Fault></s:Envelope>";
    assert_eq!(
        extract_fault_message(fault).as_deref(),
        Some("Not Authorized")
    );
    assert_eq!(extract_fault_message("<s:Envelope/>"), None);
    let classify = |status: u16, body: &str| {
        classify_soap_reply(
            "http://action",
            &HttpReply::Answered {
                status,
                status_text: format!("{status}"),
                body: body.to_string(),
            },
        )
    };
    assert_eq!(classify(200, "<ok/>").expect("ok"), "<ok/>");
    let error = classify(401, "denied").expect_err("refused");
    assert_eq!(error.kind, ErrorKind::Network);
    assert_eq!(
        error.message,
        "ONVIF SOAP request http://action failed: status=401 body=denied"
    );
    let error = classify(200, fault).expect_err("fault");
    assert_eq!(error.kind, ErrorKind::UnexpectedResponse);
    assert_eq!(
        error.message,
        "ONVIF SOAP fault for http://action: Not Authorized"
    );
    assert!(classify_soap_reply("http://action", &HttpReply::SendFailed("gone".to_string()))
        .expect_err("unsent")
        .message
        .contains("gone"));
}

#[test]
fn services_are_found_by_their_address() {
    let xml = "<tt:XAddr>http://c/onvif/Media</tt:XAddr><tt:XAddr>http://c/onvif/PTZ</tt:XAddr>";
    assert_eq!(
        extract_service_xaddr(xml, "ptz").as_deref(),
        Some("http://c/onvif/PTZ")
    );
    assert_eq!(extract_service_xaddr(xml, "imaging"), None);
}

fn config() -> OnvifConfig {
    OnvifConfig::with_defaults(
        "http://c/onvif/device_service".to_string(),
        "admin".to_string(),
        "secret".to_string(),
        None,
    )
}

fn services() -> ResolvedServices {
    match resolve_services(
        &config(),
        None,
        &[
            Ok("<tt:XAddr>http://c/onvif/media</tt:XAddr><tt:XAddr>http://c/onvif/ptz</tt:XAddr>"
                .to_string()),
            Ok("<trt:Profiles token=\"P0\"><tt:PTZConfiguration token=\"C0\"/></trt:Profiles><trt:Profiles token=\"P1\"></trt:Profiles>".to_string()),
        ],
    ) {
        SoapStep::Done(Ok(services)) => services,
        _ => panic!("the services should be known"),
    }
}

#[test]
fn services_are_resolved_by_two_messages() {
    match resolve_services(&config(), None, &[]) {
        SoapStep::Send(call) => {
            assert_eq!(call.url, "http://c/onvif/device_service");
            assert!(call.body.contains("GetCapabilities"));
        }
        _ => panic!("the capabilities should be asked for"),
    }
    let known = services();
    assert_eq!(known.ptz_xaddr, "http://c/onvif/ptz");
    assert_eq!(known.media_profiles.len(), 2);
    assert_eq!(
        known.profile_token_for_channel(1, &config()).expect("token"),
        "P1"
    );
    assert_eq!(
        known.profile_token_for_channel(9, &config()).expect("token"),
        "P0"
    );
    assert_eq!(
        known.ptz_configuration_token_for("P0", 0).as_deref(),
        Some("C0")
    );
    match resolve_services(&config(), Some(&known), &[]) {
        SoapStep::Done(Ok(again)) => assert_eq!(again, known),
        _ => panic!("known services should be used again"),
    }
    match resolve_services(&config(), None, &[Ok("<x/>".to_string())]) {
        SoapStep::Done(Err(error)) => assert_eq!(
            error.message,
            "ONVIF GetCapabilities response did not include PTZ XAddr"
        ),
        _ => panic!("the services should not be known"),
    }
    assert_eq!(
        known.media_profiles[1],
        MediaProfile {
            token: "P1".to_string(),
            ptz_configuration_token: None
        }
    );
}

fn sent<T>(step: SoapStep<T>) -> (String, String, u64) {
    match step {
        SoapStep::Send(call) => (call.url, call.body, call.delay_ms),
        _ => panic!("a message should be sent"),
    }
}

#[test]
fn a_continuous_movement_is_stopped_after_its_time() {
    let known = services();
    let ok: AppResult<String> = Ok("<ok/>".to_string());
    let step = |replies: &[AppResult<String>]| {
        continuous_move(
            &config(),
            0,
            PtzDirection::Up,
            32,
            Some(250),
            Some(&known),
            replies,
        )
    };
    assert!(matches!(
        continuous_move(&config(), 0, PtzDirection::Up, 32, None, None, &[]),
        SoapStep::Resolve
    ));
    let (url, body, delay) = sent(step(&[]));
    assert_eq!((url.as_str(), delay), ("http://c/onvif/ptz", 0));
    assert!(body.contains("<tptz:ProfileToken>P0</tptz:ProfileToken>"));
    assert!(body.contains("x=\"0.000000\" y=\"0.500000\""));
    assert!(body.contains("<tptz:Timeout>PT0.250S</tptz:Timeout>"));
    let (_, body, delay) = sent(step(&[ok.clone()]));
    assert_eq!(delay, 250);
    assert!(body.contains("<tptz:Stop"));
    assert!(matches!(step(&[ok.clone(), ok.clone()]), SoapStep::Done(Ok(()))));
    assert!(matches!(
        stop(&config(), 0, Some(&known), &[ok]),
        SoapStep::Done(Ok(()))
    ));
}

#[test]
fn status_options_and_distances_go_over_the_interface() {
    let known = services();
    let (_, body, _) = sent(get_status(&config(), 1, Some(&known), &[]));
    assert!(body.contains("P1"));
    let (_, body, _) = sent(get_configuration_options(&config(), 0, Some(&known), &[]));
    assert!(body.contains("C0"));
    let (_, body, _) = sent(relative_move(
        &config(),
        0,
        "0.100000",
        "-0.200000",
        Some(&known),
        &[],
    ));
    assert!(body.contains("x=\"0.100000\" y=\"-0.200000\""));

    let supported: AppResult<String> = Ok("<tt:RelativePanTiltTranslationSpace/>".to_string());
    let step = |pan, tilt, options: &[AppResult<String>], sent: Option<&AppResult<()>>| {
        ptz_transport::move_relative_ptz(
            PtzBackend::OnvifContinuous,
            Some(&config()),
            0,
            pan,
            tilt,
            Some(&known),
            options,
            sent,
        )
    };
    assert!(matches!(
        step(10, -20, &[], None),
        RelativeStep::Ask(TransportStep::SendSoap(call))
            if call.body.contains("GetConfigurationOptions")
    ));
    for (pan, tilt, speed) in [(10, -20, 1), (-45, 3, 2), (0, 80, 3), (81, 0, 4), (i64::MIN, 1, 4)] {
        assert!(matches!(
            step(pan, tilt, &[supported.clone()], None),
            RelativeStep::Move(movement) if movement == RelativeMove {
                pan_delta_count: pan,
                tilt_delta_count: tilt,
                speed,
            }
        ));
    }
    assert_eq!(relative_move_for(0, 0), None);
    assert!(matches!(
        step(0, 0, &[supported.clone()], None),
        RelativeStep::Done(Ok(true))
    ));
    assert!(matches!(
        step(10, -20, &[supported.clone()], Some(&Ok(()))),
        RelativeStep::Done(Ok(true))
    ));
    assert!(matches!(
        step(
            10,
            -20,
            &[supported.clone()],
            Some(&Err(AppError::new(ErrorKind::Network, "gone")))
        ),
        RelativeStep::Done(Err(error)) if error.message == "gone"
    ));
    assert!(matches!(
        step(10, -20, &[Ok("<none/>".to_string())], None),
        RelativeStep::Done(Ok(false))
    ));
    assert!(matches!(
        ptz_transport::get_onvif_status(PtzBackend::Cgi, None, 0, None, &[]),
        TransportStep::Done(Ok(None))
    ));
}

#[test]
fn tags_are_found_by_their_local_names() {
    let xml = "<a:Root><b:Item x=\"1\" y='2'> text </b:Item><Empty/></a:Root>";
    assert_eq!(
        extract_first_tag_text_by_local_name(xml, "Item").as_deref(),
        Some("text")
    );
    assert_eq!(
        extract_first_tag_attribute_by_local_name(xml, "Item", "y").as_deref(),
        Some("2")
    );
    assert!(has_tag_with_local_name(xml, "Empty"));
    assert!(!has_tag_with_local_name(xml, "Missing"));
    assert_eq!(local_name("a:Root"), "Root");
    assert_eq!(
        extract_all_tag_values("<t>1</t><t> 2 </t>", "t"),
        vec!["1".to_string(), "2".to_string()]
    );
    assert_eq!(escape_xml("<&>\"'"), "&lt;&amp;&gt;&quot;&apos;");
    assert_eq!(parse_move_status(" moving "), OnvifMoveStatus::Moving);
    assert_eq!(parse_move_status("other"), OnvifMoveStatus::Unknown);
}
