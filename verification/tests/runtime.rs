use reocli::interfaces::runtime::{
    ability_user_from_env, auth_from_env, calibration_camera_key, calibration_dir_from_env,
    calibration_file_path_for_camera, client_from_env, default_onvif_device_service_url,
    device_service_url_at, endpoint_from_env, onvif_config_from_env, onvif_config_with,
    ptz_backend_from_env, sanitize_key_component, token_cache_path_from_env, Environment,
    PtzBackend,
};
use reocli::model::DeviceInfo;
use reocli::reolink::client::{Auth, Sessions};
use reocli::usecases::ptz_set_absolute_raw::ekf_state_identity;

fn empty() -> Environment {
    Environment {
        endpoint: None,
        token: None,
        token_cache_path: None,
        user: None,
        password: None,
        calibration_dir: None,
        ptz_backend: None,
        onvif_device_service_url: None,
        onvif_profile_token: None,
        onvif_port: None,
        home: None,
    }
}

fn text(value: &str) -> Option<String> {
    Some(value.to_string())
}

#[test]
fn credentials_come_in_their_order() {
    let full = Environment {
        token: text("env-token"),
        user: text("operator"),
        password: text("secret"),
        ..empty()
    };
    let login = Auth::UserPassword {
        user: "operator".to_string(),
        password: "secret".to_string(),
    };
    assert_eq!(
        auth_from_env(&full, &text("file-token")),
        (Auth::Token("env-token".to_string()), Some(login.clone()))
    );
    let no_token = Environment {
        token: text("  "),
        ..full.clone()
    };
    assert_eq!(
        auth_from_env(&no_token, &text(" file-token\n")),
        (Auth::Token("file-token".to_string()), Some(login.clone()))
    );
    assert_eq!(auth_from_env(&no_token, &text("\n")), (login, None));
    assert_eq!(auth_from_env(&empty(), &None), (Auth::Anonymous, None));
}

#[test]
fn a_password_without_a_user_is_the_administrators() {
    let env = Environment {
        user: text(" "),
        password: text("secret"),
        ..empty()
    };
    assert_eq!(
        auth_from_env(&env, &None).0,
        Auth::UserPassword {
            user: "admin".to_string(),
            password: "secret".to_string()
        }
    );
    assert_eq!(ability_user_from_env(&env), "admin");
}

#[test]
fn the_client_is_what_the_environment_describes() {
    let env = Environment {
        home: text("/home/me"),
        ..empty()
    };
    let client = client_from_env(&mut Sessions::new(), &env, &None);
    assert_eq!(client.endpoint(), "https://camera.local");
    assert_eq!(client.auth(), &Auth::Anonymous);
    assert_eq!(
        client.token_cache_path(),
        Some("/home/me/.reocli/tokens/https_camera_local.token")
    );
    assert!(client.allows_insecure_tls());
}

#[test]
fn endpoints_are_taken_as_they_are() {
    let env = Environment {
        endpoint: text(" https://10.0.0.1/ "),
        ..empty()
    };
    assert_eq!(endpoint_from_env(&env), " https://10.0.0.1/ ");
}

#[test]
fn paths_stand_below_their_directories() {
    assert_eq!(calibration_dir_from_env(&empty()), ".reocli/calibration");
    let home = Environment {
        home: text("/home/me/"),
        ..empty()
    };
    assert_eq!(
        calibration_dir_from_env(&home),
        "/home/me/.reocli/calibration"
    );
    let explicit = Environment {
        calibration_dir: text(" /var/cal "),
        home: text("/home/me"),
        ..empty()
    };
    assert_eq!(calibration_dir_from_env(&explicit), "/var/cal");
    let device = DeviceInfo {
        model: "RLC-823A".to_string(),
        firmware: "v3.1.0".to_string(),
        serial_number: " ABC 123 ".to_string(),
    };
    assert_eq!(
        calibration_camera_key(&device),
        "abc_123__rlc_823a__v3_1_0"
    );
    assert_eq!(
        calibration_file_path_for_camera(&explicit, &device),
        "/var/cal/abc_123__rlc_823a__v3_1_0.json"
    );
    assert_eq!(
        ekf_state_identity(&explicit, "https://10.0.0.1", 3),
        (
            "https_10_0_0_1.ch3".to_string(),
            "/var/cal/https_10_0_0_1.ch3.ekf-count.json".to_string()
        )
    );
    assert_eq!(token_cache_path_from_env(&empty()), None);
    let kept = Environment {
        token_cache_path: text("/tmp/token"),
        home: text("/home/me"),
        ..empty()
    };
    assert_eq!(token_cache_path_from_env(&kept), text("/tmp/token"));
}

#[test]
fn components_of_keys_are_names() {
    assert_eq!(sanitize_key_component("https://Camera.Local"), "https_camera_local");
    assert_eq!(sanitize_key_component("  --__  "), "unknown");
    assert_eq!(sanitize_key_component(""), "unknown");
    assert_eq!(sanitize_key_component("カメラ7号"), "7");
    for raw in ["__a--B__", "https://Camera.Local/", "!", "x y"] {
        let key = sanitize_key_component(raw);
        assert_eq!(sanitize_key_component(&key), key);
        assert!(!key.starts_with('_') && !key.ends_with('_') && !key.contains("__"));
    }
}

#[test]
fn backends_have_several_names() {
    for name in ["onvif", "ONVIF", " continuous ", "onvif_continuous", "Onvif-Continuous"] {
        let env = Environment {
            ptz_backend: text(name),
            ..empty()
        };
        assert_eq!(ptz_backend_from_env(&env), PtzBackend::OnvifContinuous);
    }
    for name in ["cgi", "", "other"] {
        let env = Environment {
            ptz_backend: text(name),
            ..empty()
        };
        assert_eq!(ptz_backend_from_env(&env), PtzBackend::Cgi);
    }
    assert_eq!(ptz_backend_from_env(&empty()), PtzBackend::Cgi);
}

#[test]
fn the_address_of_the_device_service_is_made_from_the_endpoint() {
    assert_eq!(
        default_onvif_device_service_url("https://192.168.0.220:8443/path?x=1", 8000),
        text("http://192.168.0.220:8000/onvif/device_service")
    );
    assert_eq!(
        default_onvif_device_service_url("https://camera.local", 80),
        text("http://camera.local/onvif/device_service")
    );
    assert_eq!(default_onvif_device_service_url("camera.local", 8000), None);
    assert_eq!(default_onvif_device_service_url("mailto:me", 8000), None);
    assert_eq!(
        device_service_url_at("10.0.0.7", 8080),
        text("http://10.0.0.7:8080/onvif/device_service")
    );
    assert_eq!(device_service_url_at("", 8080), None);
}

#[test]
fn the_onvif_interface_needs_a_password_and_an_address() {
    assert_eq!(onvif_config_from_env(&empty()), None);
    let env = Environment {
        endpoint: text("https://192.168.0.220"),
        password: text("secret"),
        onvif_port: text("0"),
        onvif_profile_token: text(" Profile000 "),
        ..empty()
    };
    let config = onvif_config_from_env(&env).expect("config");
    assert_eq!(
        config.device_service_url,
        "http://192.168.0.220:8000/onvif/device_service"
    );
    assert_eq!(config.user_name, "admin");
    assert_eq!(config.password, "secret");
    assert_eq!(config.profile_token.as_deref(), Some("Profile000"));
    let explicit = Environment {
        onvif_device_service_url: text("http://10.0.0.2/onvif"),
        ..env.clone()
    };
    assert_eq!(
        onvif_config_from_env(&explicit).expect("config").device_service_url,
        "http://10.0.0.2/onvif"
    );
    assert_eq!(onvif_config_with(&env, None), None);
    let port = Environment {
        onvif_port: text("8899"),
        ..env
    };
    assert_eq!(
        onvif_config_from_env(&port).expect("config").device_service_url,
        "http://192.168.0.220:8899/onvif/device_service"
    );
}
