//! What is reported, as a line and as an object.
use crate::command::{command_name, CgiCommand};
use crate::interfaces::cli_args::CliModel;
use crate::interfaces::cli_handlers::{
    command_list, net_port_text, number_list, onvif_options_text, onvif_status_text, preset_list,
    printed, status_text,
};
use crate::interfaces::mcp_handlers::{
    answer_tree, calibrated_tree, calibration_tree, flag_tree, int_tree, measuring_tree, model_tree,
    numbers_tree, port_tree, position_tree, range_tree, status_tree, with_net_port,
};
use crate::interfaces::report::ReportModel;
use crate::json::{empty_tree, signed_tree, tree_get, tree_get2, tree_with, unsigned_tree, JsonTree};
use crate::laws::answers::{is_count, is_integer, law_members_are_found};
use crate::model::{
    calibrated_state, direction_op, AbilityModel, ChannelStatus, DeviceModel, NetPortSettings,
    NumericRange, PtzDirection, SnapshotModel, StatusModel,
};
use crate::reolink::onvif::{OnvifMoveStatus, OptionsModel, StatusFieldsModel};
use crate::text::{dec, dec_int};
use crate::usecases::ptz_calibration::CalibrationModel;
use crate::usecases::ptz_get_absolute_raw::PtzRawPosition;
use vstd::prelude::*;

verus! {

/// The names in a status differ.
proof fn lemma_status_keys_differ()
    ensures
        "pan"@ != "channel"@,
        "tilt"@ != "channel"@,
        "tilt"@ != "pan"@,
        "zoom"@ != "channel"@,
        "zoom"@ != "pan"@,
        "zoom"@ != "tilt"@,
        "focus"@ != "channel"@,
        "focus"@ != "pan"@,
        "focus"@ != "tilt"@,
        "focus"@ != "zoom"@,
        "pan_range"@ != "channel"@,
        "pan_range"@ != "pan"@,
        "pan_range"@ != "tilt"@,
        "pan_range"@ != "zoom"@,
        "pan_range"@ != "focus"@,
        "tilt_range"@ != "channel"@,
        "tilt_range"@ != "pan"@,
        "tilt_range"@ != "tilt"@,
        "tilt_range"@ != "zoom"@,
        "tilt_range"@ != "focus"@,
        "tilt_range"@ != "pan_range"@,
        "zoom_range"@ != "channel"@,
        "zoom_range"@ != "pan"@,
        "zoom_range"@ != "tilt"@,
        "zoom_range"@ != "zoom"@,
        "zoom_range"@ != "focus"@,
        "zoom_range"@ != "pan_range"@,
        "zoom_range"@ != "tilt_range"@,
        "focus_range"@ != "channel"@,
        "focus_range"@ != "pan"@,
        "focus_range"@ != "tilt"@,
        "focus_range"@ != "zoom"@,
        "focus_range"@ != "focus"@,
        "focus_range"@ != "pan_range"@,
        "focus_range"@ != "tilt_range"@,
        "focus_range"@ != "zoom_range"@,
        "preset_range"@ != "channel"@,
        "preset_range"@ != "pan"@,
        "preset_range"@ != "tilt"@,
        "preset_range"@ != "zoom"@,
        "preset_range"@ != "focus"@,
        "preset_range"@ != "pan_range"@,
        "preset_range"@ != "tilt_range"@,
        "preset_range"@ != "zoom_range"@,
        "preset_range"@ != "focus_range"@,
        "enabled_presets"@ != "channel"@,
        "enabled_presets"@ != "pan"@,
        "enabled_presets"@ != "tilt"@,
        "enabled_presets"@ != "zoom"@,
        "enabled_presets"@ != "focus"@,
        "enabled_presets"@ != "pan_range"@,
        "enabled_presets"@ != "tilt_range"@,
        "enabled_presets"@ != "zoom_range"@,
        "enabled_presets"@ != "focus_range"@,
        "enabled_presets"@ != "preset_range"@,
        "calibration_state"@ != "channel"@,
        "calibration_state"@ != "pan"@,
        "calibration_state"@ != "tilt"@,
        "calibration_state"@ != "zoom"@,
        "calibration_state"@ != "focus"@,
        "calibration_state"@ != "pan_range"@,
        "calibration_state"@ != "tilt_range"@,
        "calibration_state"@ != "zoom_range"@,
        "calibration_state"@ != "focus_range"@,
        "calibration_state"@ != "preset_range"@,
        "calibration_state"@ != "enabled_presets"@,
        "calibrated"@ != "channel"@,
        "calibrated"@ != "pan"@,
        "calibrated"@ != "tilt"@,
        "calibrated"@ != "zoom"@,
        "calibrated"@ != "focus"@,
        "calibrated"@ != "pan_range"@,
        "calibrated"@ != "tilt_range"@,
        "calibrated"@ != "zoom_range"@,
        "calibrated"@ != "focus_range"@,
        "calibrated"@ != "preset_range"@,
        "calibrated"@ != "enabled_presets"@,
        "calibrated"@ != "calibration_state"@,
        "min"@ != "channel"@,
        "min"@ != "pan"@,
        "min"@ != "tilt"@,
        "min"@ != "zoom"@,
        "min"@ != "focus"@,
        "min"@ != "pan_range"@,
        "min"@ != "tilt_range"@,
        "min"@ != "zoom_range"@,
        "min"@ != "focus_range"@,
        "min"@ != "preset_range"@,
        "min"@ != "enabled_presets"@,
        "min"@ != "calibration_state"@,
        "min"@ != "calibrated"@,
        "max"@ != "channel"@,
        "max"@ != "pan"@,
        "max"@ != "tilt"@,
        "max"@ != "zoom"@,
        "max"@ != "focus"@,
        "max"@ != "pan_range"@,
        "max"@ != "tilt_range"@,
        "max"@ != "zoom_range"@,
        "max"@ != "focus_range"@,
        "max"@ != "preset_range"@,
        "max"@ != "enabled_presets"@,
        "max"@ != "calibration_state"@,
        "max"@ != "calibrated"@,
        "max"@ != "min"@,
{
    reveal_strlit("channel");
    reveal_strlit("pan");
    reveal_strlit("tilt");
    reveal_strlit("zoom");
    reveal_strlit("focus");
    reveal_strlit("pan_range");
    reveal_strlit("tilt_range");
    reveal_strlit("zoom_range");
    reveal_strlit("focus_range");
    reveal_strlit("preset_range");
    reveal_strlit("enabled_presets");
    reveal_strlit("calibration_state");
    reveal_strlit("calibrated");
    reveal_strlit("min");
    reveal_strlit("max");
    assert("pan"@.len() != "channel"@.len());
    assert("tilt"@.len() != "channel"@.len());
    assert("tilt"@.len() != "pan"@.len());
    assert("zoom"@.len() != "channel"@.len());
    assert("zoom"@.len() != "pan"@.len());
    assert("zoom"@[0] != "tilt"@[0]);
    assert("focus"@.len() != "channel"@.len());
    assert("focus"@.len() != "pan"@.len());
    assert("focus"@.len() != "tilt"@.len());
    assert("focus"@.len() != "zoom"@.len());
    assert("pan_range"@.len() != "channel"@.len());
    assert("pan_range"@.len() != "pan"@.len());
    assert("pan_range"@.len() != "tilt"@.len());
    assert("pan_range"@.len() != "zoom"@.len());
    assert("pan_range"@.len() != "focus"@.len());
    assert("tilt_range"@.len() != "channel"@.len());
    assert("tilt_range"@.len() != "pan"@.len());
    assert("tilt_range"@.len() != "tilt"@.len());
    assert("tilt_range"@.len() != "zoom"@.len());
    assert("tilt_range"@.len() != "focus"@.len());
    assert("tilt_range"@.len() != "pan_range"@.len());
    assert("zoom_range"@.len() != "channel"@.len());
    assert("zoom_range"@.len() != "pan"@.len());
    assert("zoom_range"@.len() != "tilt"@.len());
    assert("zoom_range"@.len() != "zoom"@.len());
    assert("zoom_range"@.len() != "focus"@.len());
    assert("zoom_range"@.len() != "pan_range"@.len());
    assert("zoom_range"@[0] != "tilt_range"@[0]);
    assert("focus_range"@.len() != "channel"@.len());
    assert("focus_range"@.len() != "pan"@.len());
    assert("focus_range"@.len() != "tilt"@.len());
    assert("focus_range"@.len() != "zoom"@.len());
    assert("focus_range"@.len() != "focus"@.len());
    assert("focus_range"@.len() != "pan_range"@.len());
    assert("focus_range"@.len() != "tilt_range"@.len());
    assert("focus_range"@.len() != "zoom_range"@.len());
    assert("preset_range"@.len() != "channel"@.len());
    assert("preset_range"@.len() != "pan"@.len());
    assert("preset_range"@.len() != "tilt"@.len());
    assert("preset_range"@.len() != "zoom"@.len());
    assert("preset_range"@.len() != "focus"@.len());
    assert("preset_range"@.len() != "pan_range"@.len());
    assert("preset_range"@.len() != "tilt_range"@.len());
    assert("preset_range"@.len() != "zoom_range"@.len());
    assert("preset_range"@.len() != "focus_range"@.len());
    assert("enabled_presets"@.len() != "channel"@.len());
    assert("enabled_presets"@.len() != "pan"@.len());
    assert("enabled_presets"@.len() != "tilt"@.len());
    assert("enabled_presets"@.len() != "zoom"@.len());
    assert("enabled_presets"@.len() != "focus"@.len());
    assert("enabled_presets"@.len() != "pan_range"@.len());
    assert("enabled_presets"@.len() != "tilt_range"@.len());
    assert("enabled_presets"@.len() != "zoom_range"@.len());
    assert("enabled_presets"@.len() != "focus_range"@.len());
    assert("enabled_presets"@.len() != "preset_range"@.len());
    assert("calibration_state"@.len() != "channel"@.len());
    assert("calibration_state"@.len() != "pan"@.len());
    assert("calibration_state"@.len() != "tilt"@.len());
    assert("calibration_state"@.len() != "zoom"@.len());
    assert("calibration_state"@.len() != "focus"@.len());
    assert("calibration_state"@.len() != "pan_range"@.len());
    assert("calibration_state"@.len() != "tilt_range"@.len());
    assert("calibration_state"@.len() != "zoom_range"@.len());
    assert("calibration_state"@.len() != "focus_range"@.len());
    assert("calibration_state"@.len() != "preset_range"@.len());
    assert("calibration_state"@.len() != "enabled_presets"@.len());
    assert("calibrated"@.len() != "channel"@.len());
    assert("calibrated"@.len() != "pan"@.len());
    assert("calibrated"@.len() != "tilt"@.len());
    assert("calibrated"@.len() != "zoom"@.len());
    assert("calibrated"@.len() != "focus"@.len());
    assert("calibrated"@.len() != "pan_range"@.len());
    assert("calibrated"@[0] != "tilt_range"@[0]);
    assert("calibrated"@[0] != "zoom_range"@[0]);
    assert("calibrated"@.len() != "focus_range"@.len());
    assert("calibrated"@.len() != "preset_range"@.len());
    assert("calibrated"@.len() != "enabled_presets"@.len());
    assert("calibrated"@.len() != "calibration_state"@.len());
    assert("min"@.len() != "channel"@.len());
    assert("min"@[0] != "pan"@[0]);
    assert("min"@.len() != "tilt"@.len());
    assert("min"@.len() != "zoom"@.len());
    assert("min"@.len() != "focus"@.len());
    assert("min"@.len() != "pan_range"@.len());
    assert("min"@.len() != "tilt_range"@.len());
    assert("min"@.len() != "zoom_range"@.len());
    assert("min"@.len() != "focus_range"@.len());
    assert("min"@.len() != "preset_range"@.len());
    assert("min"@.len() != "enabled_presets"@.len());
    assert("min"@.len() != "calibration_state"@.len());
    assert("min"@.len() != "calibrated"@.len());
    assert("max"@.len() != "channel"@.len());
    assert("max"@[0] != "pan"@[0]);
    assert("max"@.len() != "tilt"@.len());
    assert("max"@.len() != "zoom"@.len());
    assert("max"@.len() != "focus"@.len());
    assert("max"@.len() != "pan_range"@.len());
    assert("max"@.len() != "tilt_range"@.len());
    assert("max"@.len() != "zoom_range"@.len());
    assert("max"@.len() != "focus_range"@.len());
    assert("max"@.len() != "preset_range"@.len());
    assert("max"@.len() != "enabled_presets"@.len());
    assert("max"@.len() != "calibration_state"@.len());
    assert("max"@.len() != "calibrated"@.len());
    assert("max"@[1] != "min"@[1]);
}

/// The names in the settings differ.
proof fn lemma_port_keys_differ()
    ensures
        "http_port"@ != "http_enable"@,
        "https_enable"@ != "http_enable"@,
        "https_enable"@ != "http_port"@,
        "https_port"@ != "http_enable"@,
        "https_port"@ != "http_port"@,
        "https_port"@ != "https_enable"@,
        "media_port"@ != "http_enable"@,
        "media_port"@ != "http_port"@,
        "media_port"@ != "https_enable"@,
        "media_port"@ != "https_port"@,
        "onvif_enable"@ != "http_enable"@,
        "onvif_enable"@ != "http_port"@,
        "onvif_enable"@ != "https_enable"@,
        "onvif_enable"@ != "https_port"@,
        "onvif_enable"@ != "media_port"@,
        "onvif_port"@ != "http_enable"@,
        "onvif_port"@ != "http_port"@,
        "onvif_port"@ != "https_enable"@,
        "onvif_port"@ != "https_port"@,
        "onvif_port"@ != "media_port"@,
        "onvif_port"@ != "onvif_enable"@,
        "rtsp_enable"@ != "http_enable"@,
        "rtsp_enable"@ != "http_port"@,
        "rtsp_enable"@ != "https_enable"@,
        "rtsp_enable"@ != "https_port"@,
        "rtsp_enable"@ != "media_port"@,
        "rtsp_enable"@ != "onvif_enable"@,
        "rtsp_enable"@ != "onvif_port"@,
        "rtsp_port"@ != "http_enable"@,
        "rtsp_port"@ != "http_port"@,
        "rtsp_port"@ != "https_enable"@,
        "rtsp_port"@ != "https_port"@,
        "rtsp_port"@ != "media_port"@,
        "rtsp_port"@ != "onvif_enable"@,
        "rtsp_port"@ != "onvif_port"@,
        "rtsp_port"@ != "rtsp_enable"@,
        "rtmp_enable"@ != "http_enable"@,
        "rtmp_enable"@ != "http_port"@,
        "rtmp_enable"@ != "https_enable"@,
        "rtmp_enable"@ != "https_port"@,
        "rtmp_enable"@ != "media_port"@,
        "rtmp_enable"@ != "onvif_enable"@,
        "rtmp_enable"@ != "onvif_port"@,
        "rtmp_enable"@ != "rtsp_enable"@,
        "rtmp_enable"@ != "rtsp_port"@,
        "rtmp_port"@ != "http_enable"@,
        "rtmp_port"@ != "http_port"@,
        "rtmp_port"@ != "https_enable"@,
        "rtmp_port"@ != "https_port"@,
        "rtmp_port"@ != "media_port"@,
        "rtmp_port"@ != "onvif_enable"@,
        "rtmp_port"@ != "onvif_port"@,
        "rtmp_port"@ != "rtsp_enable"@,
        "rtmp_port"@ != "rtsp_port"@,
        "rtmp_port"@ != "rtmp_enable"@,
{
    reveal_strlit("http_enable");
    reveal_strlit("http_port");
    reveal_strlit("https_enable");
    reveal_strlit("https_port");
    reveal_strlit("media_port");
    reveal_strlit("onvif_enable");
    reveal_strlit("onvif_port");
    reveal_strlit("rtsp_enable");
    reveal_strlit("rtsp_port");
    reveal_strlit("rtmp_enable");
    reveal_strlit("rtmp_port");
    assert("http_port"@.len() != "http_enable"@.len());
    assert("https_enable"@.len() != "http_enable"@.len());
    assert("https_enable"@.len() != "http_port"@.len());
    assert("https_port"@.len() != "http_enable"@.len());
    assert("https_port"@.len() != "http_port"@.len());
    assert("https_port"@.len() != "https_enable"@.len());
    assert("media_port"@.len() != "http_enable"@.len());
    assert("media_port"@.len() != "http_port"@.len());
    assert("media_port"@.len() != "https_enable"@.len());
    assert("media_port"@[0] != "https_port"@[0]);
    assert("onvif_enable"@.len() != "http_enable"@.len());
    assert("onvif_enable"@.len() != "http_port"@.len());
    assert("onvif_enable"@[0] != "https_enable"@[0]);
    assert("onvif_enable"@.len() != "https_port"@.len());
    assert("onvif_enable"@.len() != "media_port"@.len());
    assert("onvif_port"@.len() != "http_enable"@.len());
    assert("onvif_port"@.len() != "http_port"@.len());
    assert("onvif_port"@.len() != "https_enable"@.len());
    assert("onvif_port"@[0] != "https_port"@[0]);
    assert("onvif_port"@[0] != "media_port"@[0]);
    assert("onvif_port"@.len() != "onvif_enable"@.len());
    assert("rtsp_enable"@[0] != "http_enable"@[0]);
    assert("rtsp_enable"@.len() != "http_port"@.len());
    assert("rtsp_enable"@.len() != "https_enable"@.len());
    assert("rtsp_enable"@.len() != "https_port"@.len());
    assert("rtsp_enable"@.len() != "media_port"@.len());
    assert("rtsp_enable"@.len() != "onvif_enable"@.len());
    assert("rtsp_enable"@.len() != "onvif_port"@.len());
    assert("rtsp_port"@.len() != "http_enable"@.len());
    assert("rtsp_port"@[0] != "http_port"@[0]);
    assert("rtsp_port"@.len() != "https_enable"@.len());
    assert("rtsp_port"@.len() != "https_port"@.len());
    assert("rtsp_port"@.len() != "media_port"@.len());
    assert("rtsp_port"@.len() != "onvif_enable"@.len());
    assert("rtsp_port"@.len() != "onvif_port"@.len());
    assert("rtsp_port"@.len() != "rtsp_enable"@.len());
    assert("rtmp_enable"@[0] != "http_enable"@[0]);
    assert("rtmp_enable"@.len() != "http_port"@.len());
    assert("rtmp_enable"@.len() != "https_enable"@.len());
    assert("rtmp_enable"@.len() != "https_port"@.len());
    assert("rtmp_enable"@.len() != "media_port"@.len());
    assert("rtmp_enable"@.len() != "onvif_enable"@.len());
    assert("rtmp_enable"@.len() != "onvif_port"@.len());
    assert("rtmp_enable"@[2] != "rtsp_enable"@[2]);
    assert("rtmp_enable"@.len() != "rtsp_port"@.len());
    assert("rtmp_port"@.len() != "http_enable"@.len());
    assert("rtmp_port"@[0] != "http_port"@[0]);
    assert("rtmp_port"@.len() != "https_enable"@.len());
    assert("rtmp_port"@.len() != "https_port"@.len());
    assert("rtmp_port"@.len() != "media_port"@.len());
    assert("rtmp_port"@.len() != "onvif_enable"@.len());
    assert("rtmp_port"@.len() != "onvif_port"@.len());
    assert("rtmp_port"@.len() != "rtsp_enable"@.len());
    assert("rtmp_port"@[2] != "rtsp_port"@[2]);
    assert("rtmp_port"@.len() != "rtmp_enable"@.len());
}

/// The names in a position differ.
proof fn lemma_position_keys_differ()
    ensures
        "pan_count"@ != "channel"@,
        "tilt_count"@ != "channel"@,
        "tilt_count"@ != "pan_count"@,
        "zoom_count"@ != "channel"@,
        "zoom_count"@ != "pan_count"@,
        "zoom_count"@ != "tilt_count"@,
        "focus_count"@ != "channel"@,
        "focus_count"@ != "pan_count"@,
        "focus_count"@ != "tilt_count"@,
        "focus_count"@ != "zoom_count"@,
        "tol_count"@ != "channel"@,
        "tol_count"@ != "pan_count"@,
        "tol_count"@ != "tilt_count"@,
        "tol_count"@ != "zoom_count"@,
        "tol_count"@ != "focus_count"@,
        "timeout_ms"@ != "channel"@,
        "timeout_ms"@ != "pan_count"@,
        "timeout_ms"@ != "tilt_count"@,
        "timeout_ms"@ != "zoom_count"@,
        "timeout_ms"@ != "focus_count"@,
        "timeout_ms"@ != "tol_count"@,
{
    reveal_strlit("channel");
    reveal_strlit("pan_count");
    reveal_strlit("tilt_count");
    reveal_strlit("zoom_count");
    reveal_strlit("focus_count");
    reveal_strlit("tol_count");
    reveal_strlit("timeout_ms");
    assert("pan_count"@.len() != "channel"@.len());
    assert("tilt_count"@.len() != "channel"@.len());
    assert("tilt_count"@.len() != "pan_count"@.len());
    assert("zoom_count"@.len() != "channel"@.len());
    assert("zoom_count"@.len() != "pan_count"@.len());
    assert("zoom_count"@[0] != "tilt_count"@[0]);
    assert("focus_count"@.len() != "channel"@.len());
    assert("focus_count"@.len() != "pan_count"@.len());
    assert("focus_count"@.len() != "tilt_count"@.len());
    assert("focus_count"@.len() != "zoom_count"@.len());
    assert("tol_count"@.len() != "channel"@.len());
    assert("tol_count"@[0] != "pan_count"@[0]);
    assert("tol_count"@.len() != "tilt_count"@.len());
    assert("tol_count"@.len() != "zoom_count"@.len());
    assert("tol_count"@.len() != "focus_count"@.len());
    assert("timeout_ms"@.len() != "channel"@.len());
    assert("timeout_ms"@.len() != "pan_count"@.len());
    assert("timeout_ms"@[2] != "tilt_count"@[2]);
    assert("timeout_ms"@[0] != "zoom_count"@[0]);
    assert("timeout_ms"@.len() != "focus_count"@.len());
    assert("timeout_ms"@.len() != "tol_count"@.len());
}

/// The names in a calibration differ.
proof fn lemma_calibration_keys_differ()
    ensures
        "model"@ != "serial_number"@,
        "firmware"@ != "serial_number"@,
        "firmware"@ != "model"@,
        "pan_min_count"@ != "serial_number"@,
        "pan_min_count"@ != "model"@,
        "pan_min_count"@ != "firmware"@,
        "pan_max_count"@ != "serial_number"@,
        "pan_max_count"@ != "model"@,
        "pan_max_count"@ != "firmware"@,
        "pan_max_count"@ != "pan_min_count"@,
        "pan_deadband_count"@ != "serial_number"@,
        "pan_deadband_count"@ != "model"@,
        "pan_deadband_count"@ != "firmware"@,
        "pan_deadband_count"@ != "pan_min_count"@,
        "pan_deadband_count"@ != "pan_max_count"@,
        "tilt_min_count"@ != "serial_number"@,
        "tilt_min_count"@ != "model"@,
        "tilt_min_count"@ != "firmware"@,
        "tilt_min_count"@ != "pan_min_count"@,
        "tilt_min_count"@ != "pan_max_count"@,
        "tilt_min_count"@ != "pan_deadband_count"@,
        "tilt_max_count"@ != "serial_number"@,
        "tilt_max_count"@ != "model"@,
        "tilt_max_count"@ != "firmware"@,
        "tilt_max_count"@ != "pan_min_count"@,
        "tilt_max_count"@ != "pan_max_count"@,
        "tilt_max_count"@ != "pan_deadband_count"@,
        "tilt_max_count"@ != "tilt_min_count"@,
        "tilt_deadband_count"@ != "serial_number"@,
        "tilt_deadband_count"@ != "model"@,
        "tilt_deadband_count"@ != "firmware"@,
        "tilt_deadband_count"@ != "pan_min_count"@,
        "tilt_deadband_count"@ != "pan_max_count"@,
        "tilt_deadband_count"@ != "pan_deadband_count"@,
        "tilt_deadband_count"@ != "tilt_min_count"@,
        "tilt_deadband_count"@ != "tilt_max_count"@,
        "pan_model"@ != "serial_number"@,
        "pan_model"@ != "model"@,
        "pan_model"@ != "firmware"@,
        "pan_model"@ != "pan_min_count"@,
        "pan_model"@ != "pan_max_count"@,
        "pan_model"@ != "pan_deadband_count"@,
        "pan_model"@ != "tilt_min_count"@,
        "pan_model"@ != "tilt_max_count"@,
        "pan_model"@ != "tilt_deadband_count"@,
        "tilt_model"@ != "serial_number"@,
        "tilt_model"@ != "model"@,
        "tilt_model"@ != "firmware"@,
        "tilt_model"@ != "pan_min_count"@,
        "tilt_model"@ != "pan_max_count"@,
        "tilt_model"@ != "pan_deadband_count"@,
        "tilt_model"@ != "tilt_min_count"@,
        "tilt_model"@ != "tilt_max_count"@,
        "tilt_model"@ != "tilt_deadband_count"@,
        "tilt_model"@ != "pan_model"@,
        "created_at"@ != "serial_number"@,
        "created_at"@ != "model"@,
        "created_at"@ != "firmware"@,
        "created_at"@ != "pan_min_count"@,
        "created_at"@ != "pan_max_count"@,
        "created_at"@ != "pan_deadband_count"@,
        "created_at"@ != "tilt_min_count"@,
        "created_at"@ != "tilt_max_count"@,
        "created_at"@ != "tilt_deadband_count"@,
        "created_at"@ != "pan_model"@,
        "created_at"@ != "tilt_model"@,
        "alpha"@ != "serial_number"@,
        "alpha"@ != "model"@,
        "alpha"@ != "firmware"@,
        "alpha"@ != "pan_min_count"@,
        "alpha"@ != "pan_max_count"@,
        "alpha"@ != "pan_deadband_count"@,
        "alpha"@ != "tilt_min_count"@,
        "alpha"@ != "tilt_max_count"@,
        "alpha"@ != "tilt_deadband_count"@,
        "alpha"@ != "pan_model"@,
        "alpha"@ != "tilt_model"@,
        "alpha"@ != "created_at"@,
        "beta"@ != "serial_number"@,
        "beta"@ != "model"@,
        "beta"@ != "firmware"@,
        "beta"@ != "pan_min_count"@,
        "beta"@ != "pan_max_count"@,
        "beta"@ != "pan_deadband_count"@,
        "beta"@ != "tilt_min_count"@,
        "beta"@ != "tilt_max_count"@,
        "beta"@ != "tilt_deadband_count"@,
        "beta"@ != "pan_model"@,
        "beta"@ != "tilt_model"@,
        "beta"@ != "created_at"@,
        "beta"@ != "alpha"@,
{
    reveal_strlit("serial_number");
    reveal_strlit("model");
    reveal_strlit("firmware");
    reveal_strlit("pan_min_count");
    reveal_strlit("pan_max_count");
    reveal_strlit("pan_deadband_count");
    reveal_strlit("tilt_min_count");
    reveal_strlit("tilt_max_count");
    reveal_strlit("tilt_deadband_count");
    reveal_strlit("pan_model");
    reveal_strlit("tilt_model");
    reveal_strlit("created_at");
    reveal_strlit("alpha");
    reveal_strlit("beta");
    assert("model"@.len() != "serial_number"@.len());
    assert("firmware"@.len() != "serial_number"@.len());
    assert("firmware"@.len() != "model"@.len());
    assert("pan_min_count"@[0] != "serial_number"@[0]);
    assert("pan_min_count"@.len() != "model"@.len());
    assert("pan_min_count"@.len() != "firmware"@.len());
    assert("pan_max_count"@[0] != "serial_number"@[0]);
    assert("pan_max_count"@.len() != "model"@.len());
    assert("pan_max_count"@.len() != "firmware"@.len());
    assert("pan_max_count"@[5] != "pan_min_count"@[5]);
    assert("pan_deadband_count"@.len() != "serial_number"@.len());
    assert("pan_deadband_count"@.len() != "model"@.len());
    assert("pan_deadband_count"@.len() != "firmware"@.len());
    assert("pan_deadband_count"@.len() != "pan_min_count"@.len());
    assert("pan_deadband_count"@.len() != "pan_max_count"@.len());
    assert("tilt_min_count"@.len() != "serial_number"@.len());
    assert("tilt_min_count"@.len() != "model"@.len());
    assert("tilt_min_count"@.len() != "firmware"@.len());
    assert("tilt_min_count"@.len() != "pan_min_count"@.len());
    assert("tilt_min_count"@.len() != "pan_max_count"@.len());
    assert("tilt_min_count"@.len() != "pan_deadband_count"@.len());
    assert("tilt_max_count"@.len() != "serial_number"@.len());
    assert("tilt_max_count"@.len() != "model"@.len());
    assert("tilt_max_count"@.len() != "firmware"@.len());
    assert("tilt_max_count"@.len() != "pan_min_count"@.len());
    assert("tilt_max_count"@.len() != "pan_max_count"@.len());
    assert("tilt_max_count"@.len() != "pan_deadband_count"@.len());
    assert("tilt_max_count"@[6] != "tilt_min_count"@[6]);
    assert("tilt_deadband_count"@.len() != "serial_number"@.len());
    assert("tilt_deadband_count"@.len() != "model"@.len());
    assert("tilt_deadband_count"@.len() != "firmware"@.len());
    assert("tilt_deadband_count"@.len() != "pan_min_count"@.len());
    assert("tilt_deadband_count"@.len() != "pan_max_count"@.len());
    assert("tilt_deadband_count"@.len() != "pan_deadband_count"@.len());
    assert("tilt_deadband_count"@.len() != "tilt_min_count"@.len());
    assert("tilt_deadband_count"@.len() != "tilt_max_count"@.len());
    assert("pan_model"@.len() != "serial_number"@.len());
    assert("pan_model"@.len() != "model"@.len());
    assert("pan_model"@.len() != "firmware"@.len());
    assert("pan_model"@.len() != "pan_min_count"@.len());
    assert("pan_model"@.len() != "pan_max_count"@.len());
    assert("pan_model"@.len() != "pan_deadband_count"@.len());
    assert("pan_model"@.len() != "tilt_min_count"@.len());
    assert("pan_model"@.len() != "tilt_max_count"@.len());
    assert("pan_model"@.len() != "tilt_deadband_count"@.len());
    assert("tilt_model"@.len() != "serial_number"@.len());
    assert("tilt_model"@.len() != "model"@.len());
    assert("tilt_model"@.len() != "firmware"@.len());
    assert("tilt_model"@.len() != "pan_min_count"@.len());
    assert("tilt_model"@.len() != "pan_max_count"@.len());
    assert("tilt_model"@.len() != "pan_deadband_count"@.len());
    assert("tilt_model"@.len() != "tilt_min_count"@.len());
    assert("tilt_model"@.len() != "tilt_max_count"@.len());
    assert("tilt_model"@.len() != "tilt_deadband_count"@.len());
    assert("tilt_model"@.len() != "pan_model"@.len());
    assert("created_at"@.len() != "serial_number"@.len());
    assert("created_at"@.len() != "model"@.len());
    assert("created_at"@.len() != "firmware"@.len());
    assert("created_at"@.len() != "pan_min_count"@.len());
    assert("created_at"@.len() != "pan_max_count"@.len());
    assert("created_at"@.len() != "pan_deadband_count"@.len());
    assert("created_at"@.len() != "tilt_min_count"@.len());
    assert("created_at"@.len() != "tilt_max_count"@.len());
    assert("created_at"@.len() != "tilt_deadband_count"@.len());
    assert("created_at"@.len() != "pan_model"@.len());
    assert("created_at"@[0] != "tilt_model"@[0]);
    assert("alpha"@.len() != "serial_number"@.len());
    assert("alpha"@[0] != "model"@[0]);
    assert("alpha"@.len() != "firmware"@.len());
    assert("alpha"@.len() != "pan_min_count"@.len());
    assert("alpha"@.len() != "pan_max_count"@.len());
    assert("alpha"@.len() != "pan_deadband_count"@.len());
    assert("alpha"@.len() != "tilt_min_count"@.len());
    assert("alpha"@.len() != "tilt_max_count"@.len());
    assert("alpha"@.len() != "tilt_deadband_count"@.len());
    assert("alpha"@.len() != "pan_model"@.len());
    assert("alpha"@.len() != "tilt_model"@.len());
    assert("alpha"@.len() != "created_at"@.len());
    assert("beta"@.len() != "serial_number"@.len());
    assert("beta"@.len() != "model"@.len());
    assert("beta"@.len() != "firmware"@.len());
    assert("beta"@.len() != "pan_min_count"@.len());
    assert("beta"@.len() != "pan_max_count"@.len());
    assert("beta"@.len() != "pan_deadband_count"@.len());
    assert("beta"@.len() != "tilt_min_count"@.len());
    assert("beta"@.len() != "tilt_max_count"@.len());
    assert("beta"@.len() != "tilt_deadband_count"@.len());
    assert("beta"@.len() != "pan_model"@.len());
    assert("beta"@.len() != "tilt_model"@.len());
    assert("beta"@.len() != "created_at"@.len());
    assert("beta"@.len() != "alpha"@.len());
}


proof fn lemma_range_tree(value: NumericRange)
    ensures
        tree_get(range_tree(Some(value)), "min"@) matches Some(raw) && is_integer(
            raw,
            value.min as int,
        ),
        tree_get(range_tree(Some(value)), "max"@) matches Some(raw) && is_integer(
            raw,
            value.max as int,
        ),
{
    lemma_status_keys_differ();
    let first = tree_with(empty_tree(), "min"@, signed_tree(value.min));
    law_members_are_found(empty_tree(), "min"@, signed_tree(value.min), "max"@);
    law_members_are_found(first, "max"@, signed_tree(value.max), "min"@);
}

/// Each position and each range of a status is reported under its own name, and what is not
/// known as nothing.
pub proof fn law_status_is_reported(status: StatusModel)
    ensures
        (tree_get(status_tree(status), "channel"@) matches Some(raw) && is_count(raw, status.channel as int)),
        (status.pan_position matches Some(n) ==> (tree_get(status_tree(status), "pan"@) matches Some(raw) && is_integer(raw, n as int))),
        status.pan_position is None ==> tree_get(status_tree(status), "pan"@) == Some(JsonTree::Null),
        (status.tilt_position matches Some(n) ==> (tree_get(status_tree(status), "tilt"@) matches Some(raw) && is_integer(raw, n as int))),
        status.tilt_position is None ==> tree_get(status_tree(status), "tilt"@) == Some(JsonTree::Null),
        (status.zoom_position matches Some(n) ==> (tree_get(status_tree(status), "zoom"@) matches Some(raw) && is_integer(raw, n as int))),
        status.zoom_position is None ==> tree_get(status_tree(status), "zoom"@) == Some(JsonTree::Null),
        (status.focus_position matches Some(n) ==> (tree_get(status_tree(status), "focus"@) matches Some(raw) && is_integer(raw, n as int))),
        status.focus_position is None ==> tree_get(status_tree(status), "focus"@) == Some(JsonTree::Null),
        (status.calibration_state matches Some(n) ==> (tree_get(status_tree(status), "calibration_state"@) matches Some(raw) && is_integer(raw, n as int))),
        status.calibration_state is None ==> tree_get(status_tree(status), "calibration_state"@) == Some(JsonTree::Null),
        (status.pan_range matches Some(range) ==> (tree_get2(status_tree(status), "pan_range"@, "min"@) matches Some(raw) && is_integer(raw, range.min as int)) && (tree_get2(status_tree(status), "pan_range"@, "max"@) matches Some(raw) && is_integer(raw, range.max as int))),
        (status.tilt_range matches Some(range) ==> (tree_get2(status_tree(status), "tilt_range"@, "min"@) matches Some(raw) && is_integer(raw, range.min as int)) && (tree_get2(status_tree(status), "tilt_range"@, "max"@) matches Some(raw) && is_integer(raw, range.max as int))),
        (status.zoom_range matches Some(range) ==> (tree_get2(status_tree(status), "zoom_range"@, "min"@) matches Some(raw) && is_integer(raw, range.min as int)) && (tree_get2(status_tree(status), "zoom_range"@, "max"@) matches Some(raw) && is_integer(raw, range.max as int))),
        (status.focus_range matches Some(range) ==> (tree_get2(status_tree(status), "focus_range"@, "min"@) matches Some(raw) && is_integer(raw, range.min as int)) && (tree_get2(status_tree(status), "focus_range"@, "max"@) matches Some(raw) && is_integer(raw, range.max as int))),
        (status.preset_range matches Some(range) ==> (tree_get2(status_tree(status), "preset_range"@, "min"@) matches Some(raw) && is_integer(raw, range.min as int)) && (tree_get2(status_tree(status), "preset_range"@, "max"@) matches Some(raw) && is_integer(raw, range.max as int))),
        tree_get(status_tree(status), "enabled_presets"@) == Some(numbers_tree(status.enabled_presets)),
        (status.calibration_state matches Some(n) ==> tree_get(status_tree(status), "calibrated"@) == Some(JsonTree::Bool(n == 2))),
{
    lemma_status_keys_differ();
    let t0 = tree_with(empty_tree(), "channel"@, unsigned_tree(status.channel as u64));
    law_members_are_found(empty_tree(), "channel"@, unsigned_tree(status.channel as u64), "channel"@);
    let t1 = tree_with(t0, "pan"@, int_tree(status.pan_position));
    law_members_are_found(t0, "pan"@, int_tree(status.pan_position), "channel"@);
    let t2 = tree_with(t1, "tilt"@, int_tree(status.tilt_position));
    law_members_are_found(t1, "tilt"@, int_tree(status.tilt_position), "channel"@);
    law_members_are_found(t1, "tilt"@, int_tree(status.tilt_position), "pan"@);
    let t3 = tree_with(t2, "zoom"@, int_tree(status.zoom_position));
    law_members_are_found(t2, "zoom"@, int_tree(status.zoom_position), "channel"@);
    law_members_are_found(t2, "zoom"@, int_tree(status.zoom_position), "pan"@);
    law_members_are_found(t2, "zoom"@, int_tree(status.zoom_position), "tilt"@);
    let t4 = tree_with(t3, "focus"@, int_tree(status.focus_position));
    law_members_are_found(t3, "focus"@, int_tree(status.focus_position), "channel"@);
    law_members_are_found(t3, "focus"@, int_tree(status.focus_position), "pan"@);
    law_members_are_found(t3, "focus"@, int_tree(status.focus_position), "tilt"@);
    law_members_are_found(t3, "focus"@, int_tree(status.focus_position), "zoom"@);
    let t5 = tree_with(t4, "pan_range"@, range_tree(status.pan_range));
    law_members_are_found(t4, "pan_range"@, range_tree(status.pan_range), "channel"@);
    law_members_are_found(t4, "pan_range"@, range_tree(status.pan_range), "pan"@);
    law_members_are_found(t4, "pan_range"@, range_tree(status.pan_range), "tilt"@);
    law_members_are_found(t4, "pan_range"@, range_tree(status.pan_range), "zoom"@);
    law_members_are_found(t4, "pan_range"@, range_tree(status.pan_range), "focus"@);
    let t6 = tree_with(t5, "tilt_range"@, range_tree(status.tilt_range));
    law_members_are_found(t5, "tilt_range"@, range_tree(status.tilt_range), "channel"@);
    law_members_are_found(t5, "tilt_range"@, range_tree(status.tilt_range), "pan"@);
    law_members_are_found(t5, "tilt_range"@, range_tree(status.tilt_range), "tilt"@);
    law_members_are_found(t5, "tilt_range"@, range_tree(status.tilt_range), "zoom"@);
    law_members_are_found(t5, "tilt_range"@, range_tree(status.tilt_range), "focus"@);
    law_members_are_found(t5, "tilt_range"@, range_tree(status.tilt_range), "pan_range"@);
    let t7 = tree_with(t6, "zoom_range"@, range_tree(status.zoom_range));
    law_members_are_found(t6, "zoom_range"@, range_tree(status.zoom_range), "channel"@);
    law_members_are_found(t6, "zoom_range"@, range_tree(status.zoom_range), "pan"@);
    law_members_are_found(t6, "zoom_range"@, range_tree(status.zoom_range), "tilt"@);
    law_members_are_found(t6, "zoom_range"@, range_tree(status.zoom_range), "zoom"@);
    law_members_are_found(t6, "zoom_range"@, range_tree(status.zoom_range), "focus"@);
    law_members_are_found(t6, "zoom_range"@, range_tree(status.zoom_range), "pan_range"@);
    law_members_are_found(t6, "zoom_range"@, range_tree(status.zoom_range), "tilt_range"@);
    let t8 = tree_with(t7, "focus_range"@, range_tree(status.focus_range));
    law_members_are_found(t7, "focus_range"@, range_tree(status.focus_range), "channel"@);
    law_members_are_found(t7, "focus_range"@, range_tree(status.focus_range), "pan"@);
    law_members_are_found(t7, "focus_range"@, range_tree(status.focus_range), "tilt"@);
    law_members_are_found(t7, "focus_range"@, range_tree(status.focus_range), "zoom"@);
    law_members_are_found(t7, "focus_range"@, range_tree(status.focus_range), "focus"@);
    law_members_are_found(t7, "focus_range"@, range_tree(status.focus_range), "pan_range"@);
    law_members_are_found(t7, "focus_range"@, range_tree(status.focus_range), "tilt_range"@);
    law_members_are_found(t7, "focus_range"@, range_tree(status.focus_range), "zoom_range"@);
    let t9 = tree_with(t8, "preset_range"@, range_tree(status.preset_range));
    law_members_are_found(t8, "preset_range"@, range_tree(status.preset_range), "channel"@);
    law_members_are_found(t8, "preset_range"@, range_tree(status.preset_range), "pan"@);
    law_members_are_found(t8, "preset_range"@, range_tree(status.preset_range), "tilt"@);
    law_members_are_found(t8, "preset_range"@, range_tree(status.preset_range), "zoom"@);
    law_members_are_found(t8, "preset_range"@, range_tree(status.preset_range), "focus"@);
    law_members_are_found(t8, "preset_range"@, range_tree(status.preset_range), "pan_range"@);
    law_members_are_found(t8, "preset_range"@, range_tree(status.preset_range), "tilt_range"@);
    law_members_are_found(t8, "preset_range"@, range_tree(status.preset_range), "zoom_range"@);
    law_members_are_found(t8, "preset_range"@, range_tree(status.preset_range), "focus_range"@);
    let t10 = tree_with(t9, "enabled_presets"@, numbers_tree(status.enabled_presets));
    law_members_are_found(t9, "enabled_presets"@, numbers_tree(status.enabled_presets), "channel"@);
    law_members_are_found(t9, "enabled_presets"@, numbers_tree(status.enabled_presets), "pan"@);
    law_members_are_found(t9, "enabled_presets"@, numbers_tree(status.enabled_presets), "tilt"@);
    law_members_are_found(t9, "enabled_presets"@, numbers_tree(status.enabled_presets), "zoom"@);
    law_members_are_found(t9, "enabled_presets"@, numbers_tree(status.enabled_presets), "focus"@);
    law_members_are_found(t9, "enabled_presets"@, numbers_tree(status.enabled_presets), "pan_range"@);
    law_members_are_found(t9, "enabled_presets"@, numbers_tree(status.enabled_presets), "tilt_range"@);
    law_members_are_found(t9, "enabled_presets"@, numbers_tree(status.enabled_presets), "zoom_range"@);
    law_members_are_found(t9, "enabled_presets"@, numbers_tree(status.enabled_presets), "focus_range"@);
    law_members_are_found(t9, "enabled_presets"@, numbers_tree(status.enabled_presets), "preset_range"@);
    let t11 = tree_with(t10, "calibration_state"@, int_tree(status.calibration_state));
    law_members_are_found(t10, "calibration_state"@, int_tree(status.calibration_state), "channel"@);
    law_members_are_found(t10, "calibration_state"@, int_tree(status.calibration_state), "pan"@);
    law_members_are_found(t10, "calibration_state"@, int_tree(status.calibration_state), "tilt"@);
    law_members_are_found(t10, "calibration_state"@, int_tree(status.calibration_state), "zoom"@);
    law_members_are_found(t10, "calibration_state"@, int_tree(status.calibration_state), "focus"@);
    law_members_are_found(t10, "calibration_state"@, int_tree(status.calibration_state), "pan_range"@);
    law_members_are_found(t10, "calibration_state"@, int_tree(status.calibration_state), "tilt_range"@);
    law_members_are_found(t10, "calibration_state"@, int_tree(status.calibration_state), "zoom_range"@);
    law_members_are_found(t10, "calibration_state"@, int_tree(status.calibration_state), "focus_range"@);
    law_members_are_found(t10, "calibration_state"@, int_tree(status.calibration_state), "preset_range"@);
    law_members_are_found(t10, "calibration_state"@, int_tree(status.calibration_state), "enabled_presets"@);
    let t12 = tree_with(t11, "calibrated"@, flag_tree(calibrated_state(status)));
    law_members_are_found(t11, "calibrated"@, flag_tree(calibrated_state(status)), "channel"@);
    law_members_are_found(t11, "calibrated"@, flag_tree(calibrated_state(status)), "pan"@);
    law_members_are_found(t11, "calibrated"@, flag_tree(calibrated_state(status)), "tilt"@);
    law_members_are_found(t11, "calibrated"@, flag_tree(calibrated_state(status)), "zoom"@);
    law_members_are_found(t11, "calibrated"@, flag_tree(calibrated_state(status)), "focus"@);
    law_members_are_found(t11, "calibrated"@, flag_tree(calibrated_state(status)), "pan_range"@);
    law_members_are_found(t11, "calibrated"@, flag_tree(calibrated_state(status)), "tilt_range"@);
    law_members_are_found(t11, "calibrated"@, flag_tree(calibrated_state(status)), "zoom_range"@);
    law_members_are_found(t11, "calibrated"@, flag_tree(calibrated_state(status)), "focus_range"@);
    law_members_are_found(t11, "calibrated"@, flag_tree(calibrated_state(status)), "preset_range"@);
    law_members_are_found(t11, "calibrated"@, flag_tree(calibrated_state(status)), "enabled_presets"@);
    law_members_are_found(t11, "calibrated"@, flag_tree(calibrated_state(status)), "calibration_state"@);
    if let Some(range) = status.pan_range {
        lemma_range_tree(range);
    }
    if let Some(range) = status.tilt_range {
        lemma_range_tree(range);
    }
    if let Some(range) = status.zoom_range {
        lemma_range_tree(range);
    }
    if let Some(range) = status.focus_range {
        lemma_range_tree(range);
    }
    if let Some(range) = status.preset_range {
        lemma_range_tree(range);
    }
}

/// Each service and each port is reported under its own name.
pub proof fn law_settings_are_reported(object: JsonTree, settings: NetPortSettings)
    requires
        object is Object,
    ensures
        (settings.http_enable matches Some(on) ==> tree_get(with_net_port(object, settings), "http_enable"@) == Some(JsonTree::Bool(on))),
        (settings.http_port matches Some(port) ==> (tree_get(with_net_port(object, settings), "http_port"@) matches Some(raw) && is_count(raw, port as int))),
        (settings.https_enable matches Some(on) ==> tree_get(with_net_port(object, settings), "https_enable"@) == Some(JsonTree::Bool(on))),
        (settings.https_port matches Some(port) ==> (tree_get(with_net_port(object, settings), "https_port"@) matches Some(raw) && is_count(raw, port as int))),
        (settings.media_port matches Some(port) ==> (tree_get(with_net_port(object, settings), "media_port"@) matches Some(raw) && is_count(raw, port as int))),
        (settings.onvif_enable matches Some(on) ==> tree_get(with_net_port(object, settings), "onvif_enable"@) == Some(JsonTree::Bool(on))),
        (settings.onvif_port matches Some(port) ==> (tree_get(with_net_port(object, settings), "onvif_port"@) matches Some(raw) && is_count(raw, port as int))),
        (settings.rtsp_enable matches Some(on) ==> tree_get(with_net_port(object, settings), "rtsp_enable"@) == Some(JsonTree::Bool(on))),
        (settings.rtsp_port matches Some(port) ==> (tree_get(with_net_port(object, settings), "rtsp_port"@) matches Some(raw) && is_count(raw, port as int))),
        (settings.rtmp_enable matches Some(on) ==> tree_get(with_net_port(object, settings), "rtmp_enable"@) == Some(JsonTree::Bool(on))),
        (settings.rtmp_port matches Some(port) ==> (tree_get(with_net_port(object, settings), "rtmp_port"@) matches Some(raw) && is_count(raw, port as int))),
{
    lemma_port_keys_differ();
    let t0 = tree_with(object, "http_enable"@, flag_tree(settings.http_enable));
    law_members_are_found(object, "http_enable"@, flag_tree(settings.http_enable), "http_enable"@);
    let t1 = tree_with(t0, "http_port"@, port_tree(settings.http_port));
    law_members_are_found(t0, "http_port"@, port_tree(settings.http_port), "http_enable"@);
    let t2 = tree_with(t1, "https_enable"@, flag_tree(settings.https_enable));
    law_members_are_found(t1, "https_enable"@, flag_tree(settings.https_enable), "http_enable"@);
    law_members_are_found(t1, "https_enable"@, flag_tree(settings.https_enable), "http_port"@);
    let t3 = tree_with(t2, "https_port"@, port_tree(settings.https_port));
    law_members_are_found(t2, "https_port"@, port_tree(settings.https_port), "http_enable"@);
    law_members_are_found(t2, "https_port"@, port_tree(settings.https_port), "http_port"@);
    law_members_are_found(t2, "https_port"@, port_tree(settings.https_port), "https_enable"@);
    let t4 = tree_with(t3, "media_port"@, port_tree(settings.media_port));
    law_members_are_found(t3, "media_port"@, port_tree(settings.media_port), "http_enable"@);
    law_members_are_found(t3, "media_port"@, port_tree(settings.media_port), "http_port"@);
    law_members_are_found(t3, "media_port"@, port_tree(settings.media_port), "https_enable"@);
    law_members_are_found(t3, "media_port"@, port_tree(settings.media_port), "https_port"@);
    let t5 = tree_with(t4, "onvif_enable"@, flag_tree(settings.onvif_enable));
    law_members_are_found(t4, "onvif_enable"@, flag_tree(settings.onvif_enable), "http_enable"@);
    law_members_are_found(t4, "onvif_enable"@, flag_tree(settings.onvif_enable), "http_port"@);
    law_members_are_found(t4, "onvif_enable"@, flag_tree(settings.onvif_enable), "https_enable"@);
    law_members_are_found(t4, "onvif_enable"@, flag_tree(settings.onvif_enable), "https_port"@);
    law_members_are_found(t4, "onvif_enable"@, flag_tree(settings.onvif_enable), "media_port"@);
    let t6 = tree_with(t5, "onvif_port"@, port_tree(settings.onvif_port));
    law_members_are_found(t5, "onvif_port"@, port_tree(settings.onvif_port), "http_enable"@);
    law_members_are_found(t5, "onvif_port"@, port_tree(settings.onvif_port), "http_port"@);
    law_members_are_found(t5, "onvif_port"@, port_tree(settings.onvif_port), "https_enable"@);
    law_members_are_found(t5, "onvif_port"@, port_tree(settings.onvif_port), "https_port"@);
    law_members_are_found(t5, "onvif_port"@, port_tree(settings.onvif_port), "media_port"@);
    law_members_are_found(t5, "onvif_port"@, port_tree(settings.onvif_port), "onvif_enable"@);
    let t7 = tree_with(t6, "rtsp_enable"@, flag_tree(settings.rtsp_enable));
    law_members_are_found(t6, "rtsp_enable"@, flag_tree(settings.rtsp_enable), "http_enable"@);
    law_members_are_found(t6, "rtsp_enable"@, flag_tree(settings.rtsp_enable), "http_port"@);
    law_members_are_found(t6, "rtsp_enable"@, flag_tree(settings.rtsp_enable), "https_enable"@);
    law_members_are_found(t6, "rtsp_enable"@, flag_tree(settings.rtsp_enable), "https_port"@);
    law_members_are_found(t6, "rtsp_enable"@, flag_tree(settings.rtsp_enable), "media_port"@);
    law_members_are_found(t6, "rtsp_enable"@, flag_tree(settings.rtsp_enable), "onvif_enable"@);
    law_members_are_found(t6, "rtsp_enable"@, flag_tree(settings.rtsp_enable), "onvif_port"@);
    let t8 = tree_with(t7, "rtsp_port"@, port_tree(settings.rtsp_port));
    law_members_are_found(t7, "rtsp_port"@, port_tree(settings.rtsp_port), "http_enable"@);
    law_members_are_found(t7, "rtsp_port"@, port_tree(settings.rtsp_port), "http_port"@);
    law_members_are_found(t7, "rtsp_port"@, port_tree(settings.rtsp_port), "https_enable"@);
    law_members_are_found(t7, "rtsp_port"@, port_tree(settings.rtsp_port), "https_port"@);
    law_members_are_found(t7, "rtsp_port"@, port_tree(settings.rtsp_port), "media_port"@);
    law_members_are_found(t7, "rtsp_port"@, port_tree(settings.rtsp_port), "onvif_enable"@);
    law_members_are_found(t7, "rtsp_port"@, port_tree(settings.rtsp_port), "onvif_port"@);
    law_members_are_found(t7, "rtsp_port"@, port_tree(settings.rtsp_port), "rtsp_enable"@);
    let t9 = tree_with(t8, "rtmp_enable"@, flag_tree(settings.rtmp_enable));
    law_members_are_found(t8, "rtmp_enable"@, flag_tree(settings.rtmp_enable), "http_enable"@);
    law_members_are_found(t8, "rtmp_enable"@, flag_tree(settings.rtmp_enable), "http_port"@);
    law_members_are_found(t8, "rtmp_enable"@, flag_tree(settings.rtmp_enable), "https_enable"@);
    law_members_are_found(t8, "rtmp_enable"@, flag_tree(settings.rtmp_enable), "https_port"@);
    law_members_are_found(t8, "rtmp_enable"@, flag_tree(settings.rtmp_enable), "media_port"@);
    law_members_are_found(t8, "rtmp_enable"@, flag_tree(settings.rtmp_enable), "onvif_enable"@);
    law_members_are_found(t8, "rtmp_enable"@, flag_tree(settings.rtmp_enable), "onvif_port"@);
    law_members_are_found(t8, "rtmp_enable"@, flag_tree(settings.rtmp_enable), "rtsp_enable"@);
    law_members_are_found(t8, "rtmp_enable"@, flag_tree(settings.rtmp_enable), "rtsp_port"@);
    let t10 = tree_with(t9, "rtmp_port"@, port_tree(settings.rtmp_port));
    law_members_are_found(t9, "rtmp_port"@, port_tree(settings.rtmp_port), "http_enable"@);
    law_members_are_found(t9, "rtmp_port"@, port_tree(settings.rtmp_port), "http_port"@);
    law_members_are_found(t9, "rtmp_port"@, port_tree(settings.rtmp_port), "https_enable"@);
    law_members_are_found(t9, "rtmp_port"@, port_tree(settings.rtmp_port), "https_port"@);
    law_members_are_found(t9, "rtmp_port"@, port_tree(settings.rtmp_port), "media_port"@);
    law_members_are_found(t9, "rtmp_port"@, port_tree(settings.rtmp_port), "onvif_enable"@);
    law_members_are_found(t9, "rtmp_port"@, port_tree(settings.rtmp_port), "onvif_port"@);
    law_members_are_found(t9, "rtmp_port"@, port_tree(settings.rtmp_port), "rtsp_enable"@);
    law_members_are_found(t9, "rtmp_port"@, port_tree(settings.rtmp_port), "rtsp_port"@);
    law_members_are_found(t9, "rtmp_port"@, port_tree(settings.rtmp_port), "rtmp_enable"@);
}

/// The counts of a position are reported under their own names.
pub proof fn law_position_is_reported(pose: PtzRawPosition)
    ensures
        (tree_get(position_tree(pose), "channel"@) matches Some(raw) && is_count(raw, pose.channel as int)),
        (tree_get(position_tree(pose), "pan_count"@) matches Some(raw) && is_integer(raw, pose.pan_count as int)),
        (tree_get(position_tree(pose), "tilt_count"@) matches Some(raw) && is_integer(raw, pose.tilt_count as int)),
        (pose.zoom_count matches Some(n) ==> (tree_get(position_tree(pose), "zoom_count"@) matches Some(raw) && is_integer(raw, n as int))),
        pose.zoom_count is None ==> tree_get(position_tree(pose), "zoom_count"@) == Some(JsonTree::Null),
        (pose.focus_count matches Some(n) ==> (tree_get(position_tree(pose), "focus_count"@) matches Some(raw) && is_integer(raw, n as int))),
        pose.focus_count is None ==> tree_get(position_tree(pose), "focus_count"@) == Some(JsonTree::Null),
{
    lemma_position_keys_differ();
    let t0 = tree_with(empty_tree(), "channel"@, unsigned_tree(pose.channel as u64));
    law_members_are_found(empty_tree(), "channel"@, unsigned_tree(pose.channel as u64), "channel"@);
    let t1 = tree_with(t0, "pan_count"@, signed_tree(pose.pan_count));
    law_members_are_found(t0, "pan_count"@, signed_tree(pose.pan_count), "channel"@);
    let t2 = tree_with(t1, "tilt_count"@, signed_tree(pose.tilt_count));
    law_members_are_found(t1, "tilt_count"@, signed_tree(pose.tilt_count), "channel"@);
    law_members_are_found(t1, "tilt_count"@, signed_tree(pose.tilt_count), "pan_count"@);
    let t3 = tree_with(t2, "zoom_count"@, int_tree(pose.zoom_count));
    law_members_are_found(t2, "zoom_count"@, int_tree(pose.zoom_count), "channel"@);
    law_members_are_found(t2, "zoom_count"@, int_tree(pose.zoom_count), "pan_count"@);
    law_members_are_found(t2, "zoom_count"@, int_tree(pose.zoom_count), "tilt_count"@);
    let t4 = tree_with(t3, "focus_count"@, int_tree(pose.focus_count));
    law_members_are_found(t3, "focus_count"@, int_tree(pose.focus_count), "channel"@);
    law_members_are_found(t3, "focus_count"@, int_tree(pose.focus_count), "pan_count"@);
    law_members_are_found(t3, "focus_count"@, int_tree(pose.focus_count), "tilt_count"@);
    law_members_are_found(t3, "focus_count"@, int_tree(pose.focus_count), "zoom_count"@);
}

/// The ends and the smallest movements of a calibration are reported for their own axes.
pub proof fn law_calibration_is_reported(result: CalibrationModel)
    ensures
        tree_get(calibrated_tree(result), "serial_number"@) == Some(JsonTree::Text(result.calibration.serial_number)),
        tree_get(calibrated_tree(result), "model"@) == Some(JsonTree::Text(result.calibration.model)),
        tree_get(calibrated_tree(result), "firmware"@) == Some(JsonTree::Text(result.calibration.firmware)),
        tree_get(calibrated_tree(result), "created_at"@) == Some(JsonTree::Text(result.calibration.created_at)),
        (tree_get(calibrated_tree(result), "pan_min_count"@) matches Some(raw) && is_integer(raw, result.calibration.pan_min_count as int)),
        (tree_get(calibrated_tree(result), "pan_max_count"@) matches Some(raw) && is_integer(raw, result.calibration.pan_max_count as int)),
        (tree_get(calibrated_tree(result), "pan_deadband_count"@) matches Some(raw) && is_integer(raw, result.calibration.pan_deadband_count as int)),
        (tree_get(calibrated_tree(result), "tilt_min_count"@) matches Some(raw) && is_integer(raw, result.calibration.tilt_min_count as int)),
        (tree_get(calibrated_tree(result), "tilt_max_count"@) matches Some(raw) && is_integer(raw, result.calibration.tilt_max_count as int)),
        (tree_get(calibrated_tree(result), "tilt_deadband_count"@) matches Some(raw) && is_integer(raw, result.calibration.tilt_deadband_count as int)),
        tree_get2(calibrated_tree(result), "pan_model"@, "alpha"@) == Some(result.calibration.pan_model.alpha),
        tree_get2(calibrated_tree(result), "pan_model"@, "beta"@) == Some(result.calibration.pan_model.beta),
        tree_get2(calibrated_tree(result), "tilt_model"@, "alpha"@) == Some(result.calibration.tilt_model.alpha),
        tree_get2(calibrated_tree(result), "tilt_model"@, "beta"@) == Some(result.calibration.tilt_model.beta),
{
    lemma_calibration_keys_differ();
    let t0 = tree_with(empty_tree(), "serial_number"@, JsonTree::Text(result.calibration.serial_number));
    law_members_are_found(empty_tree(), "serial_number"@, JsonTree::Text(result.calibration.serial_number), "serial_number"@);
    let t1 = tree_with(t0, "model"@, JsonTree::Text(result.calibration.model));
    law_members_are_found(t0, "model"@, JsonTree::Text(result.calibration.model), "serial_number"@);
    let t2 = tree_with(t1, "firmware"@, JsonTree::Text(result.calibration.firmware));
    law_members_are_found(t1, "firmware"@, JsonTree::Text(result.calibration.firmware), "serial_number"@);
    law_members_are_found(t1, "firmware"@, JsonTree::Text(result.calibration.firmware), "model"@);
    let t3 = tree_with(t2, "pan_min_count"@, signed_tree(result.calibration.pan_min_count));
    law_members_are_found(t2, "pan_min_count"@, signed_tree(result.calibration.pan_min_count), "serial_number"@);
    law_members_are_found(t2, "pan_min_count"@, signed_tree(result.calibration.pan_min_count), "model"@);
    law_members_are_found(t2, "pan_min_count"@, signed_tree(result.calibration.pan_min_count), "firmware"@);
    let t4 = tree_with(t3, "pan_max_count"@, signed_tree(result.calibration.pan_max_count));
    law_members_are_found(t3, "pan_max_count"@, signed_tree(result.calibration.pan_max_count), "serial_number"@);
    law_members_are_found(t3, "pan_max_count"@, signed_tree(result.calibration.pan_max_count), "model"@);
    law_members_are_found(t3, "pan_max_count"@, signed_tree(result.calibration.pan_max_count), "firmware"@);
    law_members_are_found(t3, "pan_max_count"@, signed_tree(result.calibration.pan_max_count), "pan_min_count"@);
    let t5 = tree_with(t4, "pan_deadband_count"@, signed_tree(result.calibration.pan_deadband_count));
    law_members_are_found(t4, "pan_deadband_count"@, signed_tree(result.calibration.pan_deadband_count), "serial_number"@);
    law_members_are_found(t4, "pan_deadband_count"@, signed_tree(result.calibration.pan_deadband_count), "model"@);
    law_members_are_found(t4, "pan_deadband_count"@, signed_tree(result.calibration.pan_deadband_count), "firmware"@);
    law_members_are_found(t4, "pan_deadband_count"@, signed_tree(result.calibration.pan_deadband_count), "pan_min_count"@);
    law_members_are_found(t4, "pan_deadband_count"@, signed_tree(result.calibration.pan_deadband_count), "pan_max_count"@);
    let t6 = tree_with(t5, "tilt_min_count"@, signed_tree(result.calibration.tilt_min_count));
    law_members_are_found(t5, "tilt_min_count"@, signed_tree(result.calibration.tilt_min_count), "serial_number"@);
    law_members_are_found(t5, "tilt_min_count"@, signed_tree(result.calibration.tilt_min_count), "model"@);
    law_members_are_found(t5, "tilt_min_count"@, signed_tree(result.calibration.tilt_min_count), "firmware"@);
    law_members_are_found(t5, "tilt_min_count"@, signed_tree(result.calibration.tilt_min_count), "pan_min_count"@);
    law_members_are_found(t5, "tilt_min_count"@, signed_tree(result.calibration.tilt_min_count), "pan_max_count"@);
    law_members_are_found(t5, "tilt_min_count"@, signed_tree(result.calibration.tilt_min_count), "pan_deadband_count"@);
    let t7 = tree_with(t6, "tilt_max_count"@, signed_tree(result.calibration.tilt_max_count));
    law_members_are_found(t6, "tilt_max_count"@, signed_tree(result.calibration.tilt_max_count), "serial_number"@);
    law_members_are_found(t6, "tilt_max_count"@, signed_tree(result.calibration.tilt_max_count), "model"@);
    law_members_are_found(t6, "tilt_max_count"@, signed_tree(result.calibration.tilt_max_count), "firmware"@);
    law_members_are_found(t6, "tilt_max_count"@, signed_tree(result.calibration.tilt_max_count), "pan_min_count"@);
    law_members_are_found(t6, "tilt_max_count"@, signed_tree(result.calibration.tilt_max_count), "pan_max_count"@);
    law_members_are_found(t6, "tilt_max_count"@, signed_tree(result.calibration.tilt_max_count), "pan_deadband_count"@);
    law_members_are_found(t6, "tilt_max_count"@, signed_tree(result.calibration.tilt_max_count), "tilt_min_count"@);
    let t8 = tree_with(t7, "tilt_deadband_count"@, signed_tree(result.calibration.tilt_deadband_count));
    law_members_are_found(t7, "tilt_deadband_count"@, signed_tree(result.calibration.tilt_deadband_count), "serial_number"@);
    law_members_are_found(t7, "tilt_deadband_count"@, signed_tree(result.calibration.tilt_deadband_count), "model"@);
    law_members_are_found(t7, "tilt_deadband_count"@, signed_tree(result.calibration.tilt_deadband_count), "firmware"@);
    law_members_are_found(t7, "tilt_deadband_count"@, signed_tree(result.calibration.tilt_deadband_count), "pan_min_count"@);
    law_members_are_found(t7, "tilt_deadband_count"@, signed_tree(result.calibration.tilt_deadband_count), "pan_max_count"@);
    law_members_are_found(t7, "tilt_deadband_count"@, signed_tree(result.calibration.tilt_deadband_count), "pan_deadband_count"@);
    law_members_are_found(t7, "tilt_deadband_count"@, signed_tree(result.calibration.tilt_deadband_count), "tilt_min_count"@);
    law_members_are_found(t7, "tilt_deadband_count"@, signed_tree(result.calibration.tilt_deadband_count), "tilt_max_count"@);
    let t9 = tree_with(t8, "pan_model"@, model_tree(result.calibration.pan_model.alpha, result.calibration.pan_model.beta));
    law_members_are_found(t8, "pan_model"@, model_tree(result.calibration.pan_model.alpha, result.calibration.pan_model.beta), "serial_number"@);
    law_members_are_found(t8, "pan_model"@, model_tree(result.calibration.pan_model.alpha, result.calibration.pan_model.beta), "model"@);
    law_members_are_found(t8, "pan_model"@, model_tree(result.calibration.pan_model.alpha, result.calibration.pan_model.beta), "firmware"@);
    law_members_are_found(t8, "pan_model"@, model_tree(result.calibration.pan_model.alpha, result.calibration.pan_model.beta), "pan_min_count"@);
    law_members_are_found(t8, "pan_model"@, model_tree(result.calibration.pan_model.alpha, result.calibration.pan_model.beta), "pan_max_count"@);
    law_members_are_found(t8, "pan_model"@, model_tree(result.calibration.pan_model.alpha, result.calibration.pan_model.beta), "pan_deadband_count"@);
    law_members_are_found(t8, "pan_model"@, model_tree(result.calibration.pan_model.alpha, result.calibration.pan_model.beta), "tilt_min_count"@);
    law_members_are_found(t8, "pan_model"@, model_tree(result.calibration.pan_model.alpha, result.calibration.pan_model.beta), "tilt_max_count"@);
    law_members_are_found(t8, "pan_model"@, model_tree(result.calibration.pan_model.alpha, result.calibration.pan_model.beta), "tilt_deadband_count"@);
    let t10 = tree_with(t9, "tilt_model"@, model_tree(result.calibration.tilt_model.alpha, result.calibration.tilt_model.beta));
    law_members_are_found(t9, "tilt_model"@, model_tree(result.calibration.tilt_model.alpha, result.calibration.tilt_model.beta), "serial_number"@);
    law_members_are_found(t9, "tilt_model"@, model_tree(result.calibration.tilt_model.alpha, result.calibration.tilt_model.beta), "model"@);
    law_members_are_found(t9, "tilt_model"@, model_tree(result.calibration.tilt_model.alpha, result.calibration.tilt_model.beta), "firmware"@);
    law_members_are_found(t9, "tilt_model"@, model_tree(result.calibration.tilt_model.alpha, result.calibration.tilt_model.beta), "pan_min_count"@);
    law_members_are_found(t9, "tilt_model"@, model_tree(result.calibration.tilt_model.alpha, result.calibration.tilt_model.beta), "pan_max_count"@);
    law_members_are_found(t9, "tilt_model"@, model_tree(result.calibration.tilt_model.alpha, result.calibration.tilt_model.beta), "pan_deadband_count"@);
    law_members_are_found(t9, "tilt_model"@, model_tree(result.calibration.tilt_model.alpha, result.calibration.tilt_model.beta), "tilt_min_count"@);
    law_members_are_found(t9, "tilt_model"@, model_tree(result.calibration.tilt_model.alpha, result.calibration.tilt_model.beta), "tilt_max_count"@);
    law_members_are_found(t9, "tilt_model"@, model_tree(result.calibration.tilt_model.alpha, result.calibration.tilt_model.beta), "tilt_deadband_count"@);
    law_members_are_found(t9, "tilt_model"@, model_tree(result.calibration.tilt_model.alpha, result.calibration.tilt_model.beta), "pan_model"@);
    let t11 = tree_with(t10, "created_at"@, JsonTree::Text(result.calibration.created_at));
    law_members_are_found(t10, "created_at"@, JsonTree::Text(result.calibration.created_at), "serial_number"@);
    law_members_are_found(t10, "created_at"@, JsonTree::Text(result.calibration.created_at), "model"@);
    law_members_are_found(t10, "created_at"@, JsonTree::Text(result.calibration.created_at), "firmware"@);
    law_members_are_found(t10, "created_at"@, JsonTree::Text(result.calibration.created_at), "pan_min_count"@);
    law_members_are_found(t10, "created_at"@, JsonTree::Text(result.calibration.created_at), "pan_max_count"@);
    law_members_are_found(t10, "created_at"@, JsonTree::Text(result.calibration.created_at), "pan_deadband_count"@);
    law_members_are_found(t10, "created_at"@, JsonTree::Text(result.calibration.created_at), "tilt_min_count"@);
    law_members_are_found(t10, "created_at"@, JsonTree::Text(result.calibration.created_at), "tilt_max_count"@);
    law_members_are_found(t10, "created_at"@, JsonTree::Text(result.calibration.created_at), "tilt_deadband_count"@);
    law_members_are_found(t10, "created_at"@, JsonTree::Text(result.calibration.created_at), "pan_model"@);
    law_members_are_found(t10, "created_at"@, JsonTree::Text(result.calibration.created_at), "tilt_model"@);
    let pan = tree_with(empty_tree(), "alpha"@, result.calibration.pan_model.alpha);
    law_members_are_found(empty_tree(), "alpha"@, result.calibration.pan_model.alpha, "beta"@);
    law_members_are_found(pan, "beta"@, result.calibration.pan_model.beta, "alpha"@);
    let tilt = tree_with(empty_tree(), "alpha"@, result.calibration.tilt_model.alpha);
    law_members_are_found(empty_tree(), "alpha"@, result.calibration.tilt_model.alpha, "beta"@);
    law_members_are_found(tilt, "beta"@, result.calibration.tilt_model.beta, "alpha"@);
}

/// The answers of the smaller tools say what was found, each under its own name.
pub proof fn law_small_answers(
    token: Seq<char>,
    ability: AbilityModel,
    device: DeviceModel,
    channel: ChannelStatus,
    time: Seq<char>,
    user: Seq<char>,
)
    ensures
        tree_get(answer_tree(CliModel::GetDevInfo, ReportModel::Device(device)), "model"@) == Some(
            JsonTree::Text(device.model),
        ),
        tree_get(answer_tree(CliModel::GetDevInfo, ReportModel::Device(device)), "firmware"@)
            == Some(JsonTree::Text(device.firmware)),
        tree_get(answer_tree(CliModel::GetDevInfo, ReportModel::Device(device)), "serial"@) == Some(
            JsonTree::Text(device.serial_number),
        ),
        tree_get(
            answer_tree(
                CliModel::GetChannelStatus { channel: channel.channel },
                ReportModel::Channel(channel),
            ),
            "online"@,
        ) == Some(JsonTree::Bool(channel.online)),
        tree_get(
            answer_tree(
                CliModel::GetChannelStatus { channel: channel.channel },
                ReportModel::Channel(channel),
            ),
            "channel"@,
        ) matches Some(raw) && is_count(raw, channel.channel as int),
        tree_get(answer_tree(CliModel::GetTime, ReportModel::Time(time)), "time"@) == Some(
            JsonTree::Text(time),
        ),
        tree_get(
            answer_tree(
                CliModel::GetUserAuth { user_name: user, password: user },
                ReportModel::Token(token),
            ),
            "token"@,
        ) == Some(JsonTree::Text(token)),
        tree_get(
            answer_tree(CliModel::GetAbility { user_name: user }, ReportModel::Ability(ability)),
            "user"@,
        ) == Some(JsonTree::Text(ability.user_name)),
        tree_get(
            answer_tree(CliModel::GetAbility { user_name: user }, ReportModel::Ability(ability)),
            "commands"@,
        ) == Some(JsonTree::Text(command_list(ability.supported_commands))),
{
    lemma_small_keys_differ();
    let d0 = tree_with(empty_tree(), "model"@, JsonTree::Text(device.model));
    law_members_are_found(empty_tree(), "model"@, JsonTree::Text(device.model), "model"@);
    let d1 = tree_with(d0, "firmware"@, JsonTree::Text(device.firmware));
    law_members_are_found(d0, "firmware"@, JsonTree::Text(device.firmware), "model"@);
    let d2 = tree_with(d1, "serial"@, JsonTree::Text(device.serial_number));
    law_members_are_found(d1, "serial"@, JsonTree::Text(device.serial_number), "model"@);
    law_members_are_found(d1, "serial"@, JsonTree::Text(device.serial_number), "firmware"@);
    let c0 = tree_with(empty_tree(), "channel"@, unsigned_tree(channel.channel as u64));
    law_members_are_found(empty_tree(), "channel"@, unsigned_tree(channel.channel as u64), "channel"@);
    let c1 = tree_with(c0, "online"@, JsonTree::Bool(channel.online));
    law_members_are_found(c0, "online"@, JsonTree::Bool(channel.online), "channel"@);
    let m0 = tree_with(empty_tree(), "time"@, JsonTree::Text(time));
    law_members_are_found(empty_tree(), "time"@, JsonTree::Text(time), "time"@);
    let k0 = tree_with(empty_tree(), "token"@, JsonTree::Text(token));
    law_members_are_found(empty_tree(), "token"@, JsonTree::Text(token), "token"@);
    let a0 = tree_with(empty_tree(), "user"@, JsonTree::Text(ability.user_name));
    law_members_are_found(empty_tree(), "user"@, JsonTree::Text(ability.user_name), "user"@);
    let a1 = tree_with(a0, "commands"@, JsonTree::Text(command_list(ability.supported_commands)));
    law_members_are_found(a0, "commands"@, JsonTree::Text(command_list(ability.supported_commands)), "user"@);
}

/// The names in the smaller answers differ.
proof fn lemma_small_keys_differ()
    ensures
        "firmware"@ != "model"@,
        "serial"@ != "model"@,
        "serial"@ != "firmware"@,
        "channel"@ != "model"@,
        "channel"@ != "firmware"@,
        "channel"@ != "serial"@,
        "online"@ != "model"@,
        "online"@ != "firmware"@,
        "online"@ != "serial"@,
        "online"@ != "channel"@,
        "time"@ != "model"@,
        "time"@ != "firmware"@,
        "time"@ != "serial"@,
        "time"@ != "channel"@,
        "time"@ != "online"@,
        "token"@ != "model"@,
        "token"@ != "firmware"@,
        "token"@ != "serial"@,
        "token"@ != "channel"@,
        "token"@ != "online"@,
        "token"@ != "time"@,
        "user"@ != "model"@,
        "user"@ != "firmware"@,
        "user"@ != "serial"@,
        "user"@ != "channel"@,
        "user"@ != "online"@,
        "user"@ != "time"@,
        "user"@ != "token"@,
        "commands"@ != "model"@,
        "commands"@ != "firmware"@,
        "commands"@ != "serial"@,
        "commands"@ != "channel"@,
        "commands"@ != "online"@,
        "commands"@ != "time"@,
        "commands"@ != "token"@,
        "commands"@ != "user"@,
        "ok"@ != "model"@,
        "ok"@ != "firmware"@,
        "ok"@ != "serial"@,
        "ok"@ != "channel"@,
        "ok"@ != "online"@,
        "ok"@ != "time"@,
        "ok"@ != "token"@,
        "ok"@ != "user"@,
        "ok"@ != "commands"@,
        "direction"@ != "model"@,
        "direction"@ != "firmware"@,
        "direction"@ != "serial"@,
        "direction"@ != "channel"@,
        "direction"@ != "online"@,
        "direction"@ != "time"@,
        "direction"@ != "token"@,
        "direction"@ != "user"@,
        "direction"@ != "commands"@,
        "direction"@ != "ok"@,
        "speed"@ != "model"@,
        "speed"@ != "firmware"@,
        "speed"@ != "serial"@,
        "speed"@ != "channel"@,
        "speed"@ != "online"@,
        "speed"@ != "time"@,
        "speed"@ != "token"@,
        "speed"@ != "user"@,
        "speed"@ != "commands"@,
        "speed"@ != "ok"@,
        "speed"@ != "direction"@,
        "duration_ms"@ != "model"@,
        "duration_ms"@ != "firmware"@,
        "duration_ms"@ != "serial"@,
        "duration_ms"@ != "channel"@,
        "duration_ms"@ != "online"@,
        "duration_ms"@ != "time"@,
        "duration_ms"@ != "token"@,
        "duration_ms"@ != "user"@,
        "duration_ms"@ != "commands"@,
        "duration_ms"@ != "ok"@,
        "duration_ms"@ != "direction"@,
        "duration_ms"@ != "speed"@,
        "image_path"@ != "model"@,
        "image_path"@ != "firmware"@,
        "image_path"@ != "serial"@,
        "image_path"@ != "channel"@,
        "image_path"@ != "online"@,
        "image_path"@ != "time"@,
        "image_path"@ != "token"@,
        "image_path"@ != "user"@,
        "image_path"@ != "commands"@,
        "image_path"@ != "ok"@,
        "image_path"@ != "direction"@,
        "image_path"@ != "speed"@,
        "image_path"@ != "duration_ms"@,
        "bytes_written"@ != "model"@,
        "bytes_written"@ != "firmware"@,
        "bytes_written"@ != "serial"@,
        "bytes_written"@ != "channel"@,
        "bytes_written"@ != "online"@,
        "bytes_written"@ != "time"@,
        "bytes_written"@ != "token"@,
        "bytes_written"@ != "user"@,
        "bytes_written"@ != "commands"@,
        "bytes_written"@ != "ok"@,
        "bytes_written"@ != "direction"@,
        "bytes_written"@ != "speed"@,
        "bytes_written"@ != "duration_ms"@,
        "bytes_written"@ != "image_path"@,
        "preset_id"@ != "model"@,
        "preset_id"@ != "firmware"@,
        "preset_id"@ != "serial"@,
        "preset_id"@ != "channel"@,
        "preset_id"@ != "online"@,
        "preset_id"@ != "time"@,
        "preset_id"@ != "token"@,
        "preset_id"@ != "user"@,
        "preset_id"@ != "commands"@,
        "preset_id"@ != "ok"@,
        "preset_id"@ != "direction"@,
        "preset_id"@ != "speed"@,
        "preset_id"@ != "duration_ms"@,
        "preset_id"@ != "image_path"@,
        "preset_id"@ != "bytes_written"@,
        "presets"@ != "model"@,
        "presets"@ != "firmware"@,
        "presets"@ != "serial"@,
        "presets"@ != "channel"@,
        "presets"@ != "online"@,
        "presets"@ != "time"@,
        "presets"@ != "token"@,
        "presets"@ != "user"@,
        "presets"@ != "commands"@,
        "presets"@ != "ok"@,
        "presets"@ != "direction"@,
        "presets"@ != "speed"@,
        "presets"@ != "duration_ms"@,
        "presets"@ != "image_path"@,
        "presets"@ != "bytes_written"@,
        "presets"@ != "preset_id"@,
        "requested_enabled"@ != "model"@,
        "requested_enabled"@ != "firmware"@,
        "requested_enabled"@ != "serial"@,
        "requested_enabled"@ != "channel"@,
        "requested_enabled"@ != "online"@,
        "requested_enabled"@ != "time"@,
        "requested_enabled"@ != "token"@,
        "requested_enabled"@ != "user"@,
        "requested_enabled"@ != "commands"@,
        "requested_enabled"@ != "ok"@,
        "requested_enabled"@ != "direction"@,
        "requested_enabled"@ != "speed"@,
        "requested_enabled"@ != "duration_ms"@,
        "requested_enabled"@ != "image_path"@,
        "requested_enabled"@ != "bytes_written"@,
        "requested_enabled"@ != "preset_id"@,
        "requested_enabled"@ != "presets"@,
        "requested_port"@ != "model"@,
        "requested_port"@ != "firmware"@,
        "requested_port"@ != "serial"@,
        "requested_port"@ != "channel"@,
        "requested_port"@ != "online"@,
        "requested_port"@ != "time"@,
        "requested_port"@ != "token"@,
        "requested_port"@ != "user"@,
        "requested_port"@ != "commands"@,
        "requested_port"@ != "ok"@,
        "requested_port"@ != "direction"@,
        "requested_port"@ != "speed"@,
        "requested_port"@ != "duration_ms"@,
        "requested_port"@ != "image_path"@,
        "requested_port"@ != "bytes_written"@,
        "requested_port"@ != "preset_id"@,
        "requested_port"@ != "presets"@,
        "requested_port"@ != "requested_enabled"@,
{
    reveal_strlit("model");
    reveal_strlit("firmware");
    reveal_strlit("serial");
    reveal_strlit("channel");
    reveal_strlit("online");
    reveal_strlit("time");
    reveal_strlit("token");
    reveal_strlit("user");
    reveal_strlit("commands");
    reveal_strlit("ok");
    reveal_strlit("direction");
    reveal_strlit("speed");
    reveal_strlit("duration_ms");
    reveal_strlit("image_path");
    reveal_strlit("bytes_written");
    reveal_strlit("preset_id");
    reveal_strlit("presets");
    reveal_strlit("requested_enabled");
    reveal_strlit("requested_port");
    assert("firmware"@.len() != "model"@.len());
    assert("serial"@.len() != "model"@.len());
    assert("serial"@.len() != "firmware"@.len());
    assert("channel"@.len() != "model"@.len());
    assert("channel"@.len() != "firmware"@.len());
    assert("channel"@.len() != "serial"@.len());
    assert("online"@.len() != "model"@.len());
    assert("online"@.len() != "firmware"@.len());
    assert("online"@[0] != "serial"@[0]);
    assert("online"@.len() != "channel"@.len());
    assert("time"@.len() != "model"@.len());
    assert("time"@.len() != "firmware"@.len());
    assert("time"@.len() != "serial"@.len());
    assert("time"@.len() != "channel"@.len());
    assert("time"@.len() != "online"@.len());
    assert("token"@[0] != "model"@[0]);
    assert("token"@.len() != "firmware"@.len());
    assert("token"@.len() != "serial"@.len());
    assert("token"@.len() != "channel"@.len());
    assert("token"@.len() != "online"@.len());
    assert("token"@.len() != "time"@.len());
    assert("user"@.len() != "model"@.len());
    assert("user"@.len() != "firmware"@.len());
    assert("user"@.len() != "serial"@.len());
    assert("user"@.len() != "channel"@.len());
    assert("user"@.len() != "online"@.len());
    assert("user"@[0] != "time"@[0]);
    assert("user"@.len() != "token"@.len());
    assert("commands"@.len() != "model"@.len());
    assert("commands"@[0] != "firmware"@[0]);
    assert("commands"@.len() != "serial"@.len());
    assert("commands"@.len() != "channel"@.len());
    assert("commands"@.len() != "online"@.len());
    assert("commands"@.len() != "time"@.len());
    assert("commands"@.len() != "token"@.len());
    assert("commands"@.len() != "user"@.len());
    assert("ok"@.len() != "model"@.len());
    assert("ok"@.len() != "firmware"@.len());
    assert("ok"@.len() != "serial"@.len());
    assert("ok"@.len() != "channel"@.len());
    assert("ok"@.len() != "online"@.len());
    assert("ok"@.len() != "time"@.len());
    assert("ok"@.len() != "token"@.len());
    assert("ok"@.len() != "user"@.len());
    assert("ok"@.len() != "commands"@.len());
    assert("direction"@.len() != "model"@.len());
    assert("direction"@.len() != "firmware"@.len());
    assert("direction"@.len() != "serial"@.len());
    assert("direction"@.len() != "channel"@.len());
    assert("direction"@.len() != "online"@.len());
    assert("direction"@.len() != "time"@.len());
    assert("direction"@.len() != "token"@.len());
    assert("direction"@.len() != "user"@.len());
    assert("direction"@.len() != "commands"@.len());
    assert("direction"@.len() != "ok"@.len());
    assert("speed"@[0] != "model"@[0]);
    assert("speed"@.len() != "firmware"@.len());
    assert("speed"@.len() != "serial"@.len());
    assert("speed"@.len() != "channel"@.len());
    assert("speed"@.len() != "online"@.len());
    assert("speed"@.len() != "time"@.len());
    assert("speed"@[0] != "token"@[0]);
    assert("speed"@.len() != "user"@.len());
    assert("speed"@.len() != "commands"@.len());
    assert("speed"@.len() != "ok"@.len());
    assert("speed"@.len() != "direction"@.len());
    assert("duration_ms"@.len() != "model"@.len());
    assert("duration_ms"@.len() != "firmware"@.len());
    assert("duration_ms"@.len() != "serial"@.len());
    assert("duration_ms"@.len() != "channel"@.len());
    assert("duration_ms"@.len() != "online"@.len());
    assert("duration_ms"@.len() != "time"@.len());
    assert("duration_ms"@.len() != "token"@.len());
    assert("duration_ms"@.len() != "user"@.len());
    assert("duration_ms"@.len() != "commands"@.len());
    assert("duration_ms"@.len() != "ok"@.len());
    assert("duration_ms"@.len() != "direction"@.len());
    assert("duration_ms"@.len() != "speed"@.len());
    assert("image_path"@.len() != "model"@.len());
    assert("image_path"@.len() != "firmware"@.len());
    assert("image_path"@.len() != "serial"@.len());
    assert("image_path"@.len() != "channel"@.len());
    assert("image_path"@.len() != "online"@.len());
    assert("image_path"@.len() != "time"@.len());
    assert("image_path"@.len() != "token"@.len());
    assert("image_path"@.len() != "user"@.len());
    assert("image_path"@.len() != "commands"@.len());
    assert("image_path"@.len() != "ok"@.len());
    assert("image_path"@.len() != "direction"@.len());
    assert("image_path"@.len() != "speed"@.len());
    assert("image_path"@.len() != "duration_ms"@.len());
    assert("bytes_written"@.len() != "model"@.len());
    assert("bytes_written"@.len() != "firmware"@.len());
    assert("bytes_written"@.len() != "serial"@.len());
    assert("bytes_written"@.len() != "channel"@.len());
    assert("bytes_written"@.len() != "online"@.len());
    assert("bytes_written"@.len() != "time"@.len());
    assert("bytes_written"@.len() != "token"@.len());
    assert("bytes_written"@.len() != "user"@.len());
    assert("bytes_written"@.len() != "commands"@.len());
    assert("bytes_written"@.len() != "ok"@.len());
    assert("bytes_written"@.len() != "direction"@.len());
    assert("bytes_written"@.len() != "speed"@.len());
    assert("bytes_written"@.len() != "duration_ms"@.len());
    assert("bytes_written"@.len() != "image_path"@.len());
    assert("preset_id"@.len() != "model"@.len());
    assert("preset_id"@.len() != "firmware"@.len());
    assert("preset_id"@.len() != "serial"@.len());
    assert("preset_id"@.len() != "channel"@.len());
    assert("preset_id"@.len() != "online"@.len());
    assert("preset_id"@.len() != "time"@.len());
    assert("preset_id"@.len() != "token"@.len());
    assert("preset_id"@.len() != "user"@.len());
    assert("preset_id"@.len() != "commands"@.len());
    assert("preset_id"@.len() != "ok"@.len());
    assert("preset_id"@[0] != "direction"@[0]);
    assert("preset_id"@.len() != "speed"@.len());
    assert("preset_id"@.len() != "duration_ms"@.len());
    assert("preset_id"@.len() != "image_path"@.len());
    assert("preset_id"@.len() != "bytes_written"@.len());
    assert("presets"@.len() != "model"@.len());
    assert("presets"@.len() != "firmware"@.len());
    assert("presets"@.len() != "serial"@.len());
    assert("presets"@[0] != "channel"@[0]);
    assert("presets"@.len() != "online"@.len());
    assert("presets"@.len() != "time"@.len());
    assert("presets"@.len() != "token"@.len());
    assert("presets"@.len() != "user"@.len());
    assert("presets"@.len() != "commands"@.len());
    assert("presets"@.len() != "ok"@.len());
    assert("presets"@.len() != "direction"@.len());
    assert("presets"@.len() != "speed"@.len());
    assert("presets"@.len() != "duration_ms"@.len());
    assert("presets"@.len() != "image_path"@.len());
    assert("presets"@.len() != "bytes_written"@.len());
    assert("presets"@.len() != "preset_id"@.len());
    assert("requested_enabled"@.len() != "model"@.len());
    assert("requested_enabled"@.len() != "firmware"@.len());
    assert("requested_enabled"@.len() != "serial"@.len());
    assert("requested_enabled"@.len() != "channel"@.len());
    assert("requested_enabled"@.len() != "online"@.len());
    assert("requested_enabled"@.len() != "time"@.len());
    assert("requested_enabled"@.len() != "token"@.len());
    assert("requested_enabled"@.len() != "user"@.len());
    assert("requested_enabled"@.len() != "commands"@.len());
    assert("requested_enabled"@.len() != "ok"@.len());
    assert("requested_enabled"@.len() != "direction"@.len());
    assert("requested_enabled"@.len() != "speed"@.len());
    assert("requested_enabled"@.len() != "duration_ms"@.len());
    assert("requested_enabled"@.len() != "image_path"@.len());
    assert("requested_enabled"@.len() != "bytes_written"@.len());
    assert("requested_enabled"@.len() != "preset_id"@.len());
    assert("requested_enabled"@.len() != "presets"@.len());
    assert("requested_port"@.len() != "model"@.len());
    assert("requested_port"@.len() != "firmware"@.len());
    assert("requested_port"@.len() != "serial"@.len());
    assert("requested_port"@.len() != "channel"@.len());
    assert("requested_port"@.len() != "online"@.len());
    assert("requested_port"@.len() != "time"@.len());
    assert("requested_port"@.len() != "token"@.len());
    assert("requested_port"@.len() != "user"@.len());
    assert("requested_port"@.len() != "commands"@.len());
    assert("requested_port"@.len() != "ok"@.len());
    assert("requested_port"@.len() != "direction"@.len());
    assert("requested_port"@.len() != "speed"@.len());
    assert("requested_port"@.len() != "duration_ms"@.len());
    assert("requested_port"@.len() != "image_path"@.len());
    assert("requested_port"@.len() != "bytes_written"@.len());
    assert("requested_port"@.len() != "preset_id"@.len());
    assert("requested_port"@.len() != "presets"@.len());
    assert("requested_port"@.len() != "requested_enabled"@.len());
}


/// A movement is answered with the direction, the speed and the duration that it had, and a
/// picture with its place and its size.
pub proof fn law_answers_to_actions(
    channel: u8,
    direction: PtzDirection,
    speed: u8,
    duration_ms: u64,
    preset_id: u8,
    snapshot: SnapshotModel,
)
    ensures
        ({
            let moved = answer_tree(
                CliModel::PtzMove { channel, direction, speed, duration_ms: Some(duration_ms) },
                ReportModel::Moved,
            );
            &&& tree_get(moved, "ok"@) == Some(JsonTree::Bool(true))
            &&& tree_get(moved, "channel"@) matches Some(raw) && is_count(raw, channel as int)
            &&& tree_get(moved, "direction"@) == Some(JsonTree::Text(direction_op(direction)))
            &&& tree_get(moved, "speed"@) matches Some(raw) && is_count(raw, speed as int)
            &&& tree_get(moved, "duration_ms"@) matches Some(raw) && is_count(
                raw,
                duration_ms as int,
            )
        }),
        ({
            let went = answer_tree(CliModel::PtzPresetGoto { channel, preset_id }, ReportModel::Moved);
            &&& tree_get(went, "channel"@) matches Some(raw) && is_count(raw, channel as int)
            &&& tree_get(went, "preset_id"@) matches Some(raw) && is_count(raw, preset_id as int)
        }),
        ({
            let taken = answer_tree(
                CliModel::Snap { channel, out: None },
                ReportModel::Snapshot(snapshot),
            );
            &&& tree_get(taken, "channel"@) matches Some(raw) && is_count(
                raw,
                snapshot.channel as int,
            )
            &&& tree_get(taken, "image_path"@) == Some(JsonTree::Text(snapshot.image_path))
            &&& tree_get(taken, "bytes_written"@) matches Some(raw) && is_count(
                raw,
                snapshot.bytes_written as int,
            )
        }),
{
    lemma_small_keys_differ();
    let m0 = tree_with(empty_tree(), "ok"@, JsonTree::Bool(true));
    law_members_are_found(empty_tree(), "ok"@, JsonTree::Bool(true), "ok"@);
    let m1 = tree_with(m0, "channel"@, unsigned_tree(channel as u64));
    law_members_are_found(m0, "channel"@, unsigned_tree(channel as u64), "ok"@);
    let m2 = tree_with(m1, "direction"@, JsonTree::Text(direction_op(direction)));
    law_members_are_found(m1, "direction"@, JsonTree::Text(direction_op(direction)), "ok"@);
    law_members_are_found(m1, "direction"@, JsonTree::Text(direction_op(direction)), "channel"@);
    let m3 = tree_with(m2, "speed"@, unsigned_tree(speed as u64));
    law_members_are_found(m2, "speed"@, unsigned_tree(speed as u64), "ok"@);
    law_members_are_found(m2, "speed"@, unsigned_tree(speed as u64), "channel"@);
    law_members_are_found(m2, "speed"@, unsigned_tree(speed as u64), "direction"@);
    let m4 = tree_with(m3, "duration_ms"@, unsigned_tree(duration_ms));
    law_members_are_found(m3, "duration_ms"@, unsigned_tree(duration_ms), "ok"@);
    law_members_are_found(m3, "duration_ms"@, unsigned_tree(duration_ms), "channel"@);
    law_members_are_found(m3, "duration_ms"@, unsigned_tree(duration_ms), "direction"@);
    law_members_are_found(m3, "duration_ms"@, unsigned_tree(duration_ms), "speed"@);
    let g0 = tree_with(empty_tree(), "ok"@, JsonTree::Bool(true));
    law_members_are_found(empty_tree(), "ok"@, JsonTree::Bool(true), "ok"@);
    let g1 = tree_with(g0, "channel"@, unsigned_tree(channel as u64));
    law_members_are_found(g0, "channel"@, unsigned_tree(channel as u64), "ok"@);
    let g2 = tree_with(g1, "preset_id"@, unsigned_tree(preset_id as u64));
    law_members_are_found(g1, "preset_id"@, unsigned_tree(preset_id as u64), "ok"@);
    law_members_are_found(g1, "preset_id"@, unsigned_tree(preset_id as u64), "channel"@);
    let s0 = tree_with(empty_tree(), "channel"@, unsigned_tree(snapshot.channel as u64));
    law_members_are_found(empty_tree(), "channel"@, unsigned_tree(snapshot.channel as u64), "channel"@);
    let s1 = tree_with(s0, "image_path"@, JsonTree::Text(snapshot.image_path));
    law_members_are_found(s0, "image_path"@, JsonTree::Text(snapshot.image_path), "channel"@);
    let s2 = tree_with(s1, "bytes_written"@, unsigned_tree(snapshot.bytes_written as u64));
    law_members_are_found(s1, "bytes_written"@, unsigned_tree(snapshot.bytes_written as u64), "channel"@);
    law_members_are_found(s1, "bytes_written"@, unsigned_tree(snapshot.bytes_written as u64), "image_path"@);
}

// ---------------------------------------------------------------- lines

/// The line for a status, where everything is known.
pub proof fn law_line_of_a_status(
    status: StatusModel,
    pan: i64,
    tilt: i64,
    zoom: i64,
    focus: i64,
    ranges: Seq<NumericRange>,
    state: i64,
)
    requires
        status.pan_position == Some(pan),
        status.tilt_position == Some(tilt),
        status.zoom_position == Some(zoom),
        status.focus_position == Some(focus),
        ranges.len() == 5,
        status.pan_range == Some(ranges[0]),
        status.tilt_range == Some(ranges[1]),
        status.zoom_range == Some(ranges[2]),
        status.focus_range == Some(ranges[3]),
        status.preset_range == Some(ranges[4]),
        status.calibration_state == Some(state),
    ensures
        status_text(status) == "channel="@ + dec(status.channel as nat) + "; pan="@ + dec_int(
            pan as int,
        ) + "; tilt="@ + dec_int(tilt as int) + "; zoom="@ + dec_int(zoom as int) + "; focus="@
            + dec_int(focus as int) + "; pan_range="@ + (dec_int(ranges[0].min as int) + ".."@
            + dec_int(ranges[0].max as int)) + "; tilt_range="@ + (dec_int(ranges[1].min as int)
            + ".."@ + dec_int(ranges[1].max as int)) + "; zoom_range="@ + (dec_int(
            ranges[2].min as int,
        ) + ".."@ + dec_int(ranges[2].max as int)) + "; focus_range="@ + (dec_int(
            ranges[3].min as int,
        ) + ".."@ + dec_int(ranges[3].max as int)) + "; preset_range="@ + (dec_int(
            ranges[4].min as int,
        ) + ".."@ + dec_int(ranges[4].max as int)) + "; enabled_presets=["@ + number_list(
            status.enabled_presets,
        ) + "]; calibration_state="@ + dec_int(state as int) + "; calibrated="@ + if state == 2 {
            "true"@
        } else {
            "false"@
        },
{
}

/// The lines for the smaller reports: each value behind its own name.
pub proof fn law_lines_of_small_reports(
    device: DeviceModel,
    status: ChannelStatus,
    pose: PtzRawPosition,
    snapshot: SnapshotModel,
    channel: u8,
)
    ensures
        printed(CliModel::GetDevInfo, ReportModel::Device(device)) == "model="@ + device.model
            + "; firmware="@ + device.firmware + "; serial="@ + device.serial_number,
        printed(CliModel::GetChannelStatus { channel }, ReportModel::Channel(status)) == "channel="@
            + dec(status.channel as nat) + "; online="@ + if status.online {
            "true"@
        } else {
            "false"@
        },
        printed(CliModel::PtzGetAbsolute { channel }, ReportModel::Position(pose)) == "channel="@
            + dec(channel as nat) + "; operation=get_absolute; pan_count="@ + dec_int(
            pose.pan_count as int,
        ) + "; tilt_count="@ + dec_int(pose.tilt_count as int),
        printed(CliModel::Snap { channel, out: None }, ReportModel::Snapshot(snapshot))
            == "channel="@ + dec(snapshot.channel as nat) + "; image_path="@ + snapshot.image_path
            + "; bytes_written="@ + dec(snapshot.bytes_written as nat),
        printed(CliModel::PtzStop { channel }, ReportModel::Moved) == "channel="@ + dec(
            channel as nat,
        ) + "; operation=stop"@,
{
}

/// The line for a movement names what was asked for.
pub proof fn law_line_of_a_movement(
    channel: u8,
    direction: PtzDirection,
    speed: u8,
    duration_ms: u64,
    tol_count: i64,
    pose: PtzRawPosition,
    pan: i64,
    tilt: i64,
    applied: bool,
)
    ensures
        printed(
            CliModel::PtzMove { channel, direction, speed, duration_ms: Some(duration_ms) },
            ReportModel::Moved,
        ) == "channel="@ + dec(channel as nat) + "; operation=move; direction="@ + direction_op(
            direction,
        ) + "; speed="@ + dec(speed as nat) + "; duration_ms="@ + dec(duration_ms as nat),
        printed(
            CliModel::PtzSetAbsolute {
                channel,
                pan_count: pan,
                tilt_count: tilt,
                tol_count,
                timeout_ms: duration_ms,
            },
            ReportModel::Position(pose),
        ) == "channel="@ + dec(channel as nat) + "; operation=set_absolute; pan_count="@ + dec_int(
            pose.pan_count as int,
        ) + "; tilt_count="@ + dec_int(pose.tilt_count as int) + "; tol_count="@ + dec_int(
            tol_count as int,
        ) + "; timeout_ms="@ + dec(duration_ms as nat),
        printed(
            CliModel::PtzOnvifRelativeMove { channel, pan_delta_count: pan, tilt_delta_count: tilt },
            ReportModel::RelativeMove(applied),
        ) == "channel="@ + dec(channel as nat)
            + "; operation=onvif_relative_move; pan_delta_count="@ + dec_int(pan as int)
            + "; tilt_delta_count="@ + dec_int(tilt as int) + "; applied="@ + if applied {
            "true"@
        } else {
            "false"@
        },
{
}

/// The line for the status over ONVIF, where everything is known.
pub proof fn law_line_of_an_onvif_status(channel: u8, known: StatusFieldsModel)
    requires
        known.pan is Some && known.tilt is Some && known.zoom is Some && known.utc_time is Some,
        known.pan_tilt_move_status == Some(OnvifMoveStatus::Moving),
        known.zoom_move_status == Some(OnvifMoveStatus::Idle),
    ensures
        onvif_status_text(channel, Some(known)) == "channel="@ + dec(channel as nat)
            + "; operation=onvif_status; pan="@ + known.pan->0 + "; tilt="@ + known.tilt->0
            + "; zoom="@ + known.zoom->0 + "; pan_tilt_move_status="@ + "moving"@
            + "; zoom_move_status="@ + "idle"@ + "; utc_time="@ + known.utc_time->0,
{
}

/// Lists are separated by commas, in their order.
pub proof fn law_lists_are_separated(numbers: Seq<u8>, commands: Seq<CgiCommand>)
    ensures
        numbers.len() == 1 ==> number_list(numbers) == dec(numbers[0] as nat),
        numbers.len() > 1 ==> number_list(numbers) == number_list(numbers.drop_last()) + ","@ + dec(
            numbers.last() as nat,
        ),
        commands.len() == 1 ==> command_list(commands) == command_name(commands[0]),
        commands.len() > 1 ==> command_list(commands) == command_list(commands.drop_last()) + ","@
            + command_name(commands.last()),
{
}

// ---------------------------------------------------------------- more objects

/// The names in the summary of a calibration differ.
proof fn lemma_summary_keys_differ()
    ensures
        "camera_key"@ != "channel"@,
        "calibration_path"@ != "channel"@,
        "calibration_path"@ != "camera_key"@,
        "reused_existing"@ != "channel"@,
        "reused_existing"@ != "camera_key"@,
        "reused_existing"@ != "calibration_path"@,
        "calibrated_state"@ != "channel"@,
        "calibrated_state"@ != "camera_key"@,
        "calibrated_state"@ != "calibration_path"@,
        "calibrated_state"@ != "reused_existing"@,
        "pan_count"@ != "channel"@,
        "pan_count"@ != "camera_key"@,
        "pan_count"@ != "calibration_path"@,
        "pan_count"@ != "reused_existing"@,
        "pan_count"@ != "calibrated_state"@,
        "tilt_count"@ != "channel"@,
        "tilt_count"@ != "camera_key"@,
        "tilt_count"@ != "calibration_path"@,
        "tilt_count"@ != "reused_existing"@,
        "tilt_count"@ != "calibrated_state"@,
        "tilt_count"@ != "pan_count"@,
        "calibration"@ != "channel"@,
        "calibration"@ != "camera_key"@,
        "calibration"@ != "calibration_path"@,
        "calibration"@ != "reused_existing"@,
        "calibration"@ != "calibrated_state"@,
        "calibration"@ != "pan_count"@,
        "calibration"@ != "tilt_count"@,
        "report"@ != "channel"@,
        "report"@ != "camera_key"@,
        "report"@ != "calibration_path"@,
        "report"@ != "reused_existing"@,
        "report"@ != "calibrated_state"@,
        "report"@ != "pan_count"@,
        "report"@ != "tilt_count"@,
        "report"@ != "calibration"@,
{
    reveal_strlit("channel");
    reveal_strlit("camera_key");
    reveal_strlit("calibration_path");
    reveal_strlit("reused_existing");
    reveal_strlit("calibrated_state");
    reveal_strlit("pan_count");
    reveal_strlit("tilt_count");
    reveal_strlit("calibration");
    reveal_strlit("report");
    assert("camera_key"@.len() != "channel"@.len());
    assert("calibration_path"@.len() != "channel"@.len());
    assert("calibration_path"@.len() != "camera_key"@.len());
    assert("reused_existing"@.len() != "channel"@.len());
    assert("reused_existing"@.len() != "camera_key"@.len());
    assert("reused_existing"@.len() != "calibration_path"@.len());
    assert("calibrated_state"@.len() != "channel"@.len());
    assert("calibrated_state"@.len() != "camera_key"@.len());
    assert("calibrated_state"@[8] != "calibration_path"@[8]);
    assert("calibrated_state"@.len() != "reused_existing"@.len());
    assert("pan_count"@.len() != "channel"@.len());
    assert("pan_count"@.len() != "camera_key"@.len());
    assert("pan_count"@.len() != "calibration_path"@.len());
    assert("pan_count"@.len() != "reused_existing"@.len());
    assert("pan_count"@.len() != "calibrated_state"@.len());
    assert("tilt_count"@.len() != "channel"@.len());
    assert("tilt_count"@[0] != "camera_key"@[0]);
    assert("tilt_count"@.len() != "calibration_path"@.len());
    assert("tilt_count"@.len() != "reused_existing"@.len());
    assert("tilt_count"@.len() != "calibrated_state"@.len());
    assert("tilt_count"@.len() != "pan_count"@.len());
    assert("calibration"@.len() != "channel"@.len());
    assert("calibration"@.len() != "camera_key"@.len());
    assert("calibration"@.len() != "calibration_path"@.len());
    assert("calibration"@.len() != "reused_existing"@.len());
    assert("calibration"@.len() != "calibrated_state"@.len());
    assert("calibration"@.len() != "pan_count"@.len());
    assert("calibration"@.len() != "tilt_count"@.len());
    assert("report"@.len() != "channel"@.len());
    assert("report"@.len() != "camera_key"@.len());
    assert("report"@.len() != "calibration_path"@.len());
    assert("report"@.len() != "reused_existing"@.len());
    assert("report"@.len() != "calibrated_state"@.len());
    assert("report"@.len() != "pan_count"@.len());
    assert("report"@.len() != "tilt_count"@.len());
    assert("report"@.len() != "calibration"@.len());
}

/// The names in the report of a calibration differ.
proof fn lemma_measuring_keys_differ()
    ensures
        "pan_error_p95_count"@ != "samples"@,
        "tilt_error_p95_count"@ != "samples"@,
        "tilt_error_p95_count"@ != "pan_error_p95_count"@,
        "notes"@ != "samples"@,
        "notes"@ != "pan_error_p95_count"@,
        "notes"@ != "tilt_error_p95_count"@,
{
    reveal_strlit("samples");
    reveal_strlit("pan_error_p95_count");
    reveal_strlit("tilt_error_p95_count");
    reveal_strlit("notes");
    assert("pan_error_p95_count"@.len() != "samples"@.len());
    assert("tilt_error_p95_count"@.len() != "samples"@.len());
    assert("tilt_error_p95_count"@.len() != "pan_error_p95_count"@.len());
    assert("notes"@.len() != "samples"@.len());
    assert("notes"@.len() != "pan_error_p95_count"@.len());
    assert("notes"@.len() != "tilt_error_p95_count"@.len());
}


/// The summary of a calibration: the counts of each axis, the file and what was found, each
/// under its own name.
pub proof fn law_calibration_summary_is_reported(result: CalibrationModel)
    ensures
        (tree_get(calibration_tree(result), "channel"@) matches Some(raw) && is_count(
            raw,
            result.channel as int,
        )),
        tree_get(calibration_tree(result), "camera_key"@) == Some(
            JsonTree::Text(result.camera_key),
        ),
        tree_get(calibration_tree(result), "calibration_path"@) == Some(
            JsonTree::Text(result.calibration_path),
        ),
        tree_get(calibration_tree(result), "reused_existing"@) == Some(
            JsonTree::Bool(result.reused_existing),
        ),
        (result.calibrated_state matches Some(on) ==> tree_get(
            calibration_tree(result),
            "calibrated_state"@,
        ) == Some(JsonTree::Bool(on))),
        (tree_get(calibration_tree(result), "pan_count"@) matches Some(raw) && is_integer(
            raw,
            result.pan_count as int,
        )),
        (tree_get(calibration_tree(result), "tilt_count"@) matches Some(raw) && is_integer(
            raw,
            result.tilt_count as int,
        )),
        tree_get(calibration_tree(result), "calibration"@) == Some(calibrated_tree(result)),
        tree_get(calibration_tree(result), "report"@) == Some(measuring_tree(result)),
{
    lemma_summary_keys_differ();
    let t0 = tree_with(empty_tree(), "channel"@, unsigned_tree(result.channel as u64));
    law_members_are_found(empty_tree(), "channel"@, unsigned_tree(result.channel as u64), "channel"@);
    let t1 = tree_with(t0, "camera_key"@, JsonTree::Text(result.camera_key));
    law_members_are_found(t0, "camera_key"@, JsonTree::Text(result.camera_key), "channel"@);
    let t2 = tree_with(t1, "calibration_path"@, JsonTree::Text(result.calibration_path));
    law_members_are_found(t1, "calibration_path"@, JsonTree::Text(result.calibration_path), "channel"@);
    law_members_are_found(t1, "calibration_path"@, JsonTree::Text(result.calibration_path), "camera_key"@);
    let t3 = tree_with(t2, "reused_existing"@, JsonTree::Bool(result.reused_existing));
    law_members_are_found(t2, "reused_existing"@, JsonTree::Bool(result.reused_existing), "channel"@);
    law_members_are_found(t2, "reused_existing"@, JsonTree::Bool(result.reused_existing), "camera_key"@);
    law_members_are_found(t2, "reused_existing"@, JsonTree::Bool(result.reused_existing), "calibration_path"@);
    let t4 = tree_with(t3, "calibrated_state"@, flag_tree(result.calibrated_state));
    law_members_are_found(t3, "calibrated_state"@, flag_tree(result.calibrated_state), "channel"@);
    law_members_are_found(t3, "calibrated_state"@, flag_tree(result.calibrated_state), "camera_key"@);
    law_members_are_found(t3, "calibrated_state"@, flag_tree(result.calibrated_state), "calibration_path"@);
    law_members_are_found(t3, "calibrated_state"@, flag_tree(result.calibrated_state), "reused_existing"@);
    let t5 = tree_with(t4, "pan_count"@, signed_tree(result.pan_count));
    law_members_are_found(t4, "pan_count"@, signed_tree(result.pan_count), "channel"@);
    law_members_are_found(t4, "pan_count"@, signed_tree(result.pan_count), "camera_key"@);
    law_members_are_found(t4, "pan_count"@, signed_tree(result.pan_count), "calibration_path"@);
    law_members_are_found(t4, "pan_count"@, signed_tree(result.pan_count), "reused_existing"@);
    law_members_are_found(t4, "pan_count"@, signed_tree(result.pan_count), "calibrated_state"@);
    let t6 = tree_with(t5, "tilt_count"@, signed_tree(result.tilt_count));
    law_members_are_found(t5, "tilt_count"@, signed_tree(result.tilt_count), "channel"@);
    law_members_are_found(t5, "tilt_count"@, signed_tree(result.tilt_count), "camera_key"@);
    law_members_are_found(t5, "tilt_count"@, signed_tree(result.tilt_count), "calibration_path"@);
    law_members_are_found(t5, "tilt_count"@, signed_tree(result.tilt_count), "reused_existing"@);
    law_members_are_found(t5, "tilt_count"@, signed_tree(result.tilt_count), "calibrated_state"@);
    law_members_are_found(t5, "tilt_count"@, signed_tree(result.tilt_count), "pan_count"@);
    let t7 = tree_with(t6, "calibration"@, calibrated_tree(result));
    law_members_are_found(t6, "calibration"@, calibrated_tree(result), "channel"@);
    law_members_are_found(t6, "calibration"@, calibrated_tree(result), "camera_key"@);
    law_members_are_found(t6, "calibration"@, calibrated_tree(result), "calibration_path"@);
    law_members_are_found(t6, "calibration"@, calibrated_tree(result), "reused_existing"@);
    law_members_are_found(t6, "calibration"@, calibrated_tree(result), "calibrated_state"@);
    law_members_are_found(t6, "calibration"@, calibrated_tree(result), "pan_count"@);
    law_members_are_found(t6, "calibration"@, calibrated_tree(result), "tilt_count"@);
    let t8 = tree_with(t7, "report"@, measuring_tree(result));
    law_members_are_found(t7, "report"@, measuring_tree(result), "channel"@);
    law_members_are_found(t7, "report"@, measuring_tree(result), "camera_key"@);
    law_members_are_found(t7, "report"@, measuring_tree(result), "calibration_path"@);
    law_members_are_found(t7, "report"@, measuring_tree(result), "reused_existing"@);
    law_members_are_found(t7, "report"@, measuring_tree(result), "calibrated_state"@);
    law_members_are_found(t7, "report"@, measuring_tree(result), "pan_count"@);
    law_members_are_found(t7, "report"@, measuring_tree(result), "tilt_count"@);
    law_members_are_found(t7, "report"@, measuring_tree(result), "calibration"@);
}

/// What is reported of the measuring, each under its own name.
pub proof fn law_measuring_is_reported(result: CalibrationModel)
    ensures
        (tree_get(measuring_tree(result), "samples"@) matches Some(raw) && is_count(
            raw,
            result.report.samples as int,
        )),
        (tree_get(measuring_tree(result), "pan_error_p95_count"@) matches Some(raw) && is_integer(
            raw,
            result.report.pan_error_p95_count as int,
        )),
        (tree_get(measuring_tree(result), "tilt_error_p95_count"@) matches Some(raw) && is_integer(
            raw,
            result.report.tilt_error_p95_count as int,
        )),
        tree_get(measuring_tree(result), "notes"@) == Some(JsonTree::Text(result.report.notes)),
{
    lemma_measuring_keys_differ();
    let t0 = tree_with(empty_tree(), "samples"@, unsigned_tree(result.report.samples as u64));
    law_members_are_found(empty_tree(), "samples"@, unsigned_tree(result.report.samples as u64), "samples"@);
    let t1 = tree_with(t0, "pan_error_p95_count"@, signed_tree(result.report.pan_error_p95_count));
    law_members_are_found(t0, "pan_error_p95_count"@, signed_tree(result.report.pan_error_p95_count), "samples"@);
    let t2 = tree_with(t1, "tilt_error_p95_count"@, signed_tree(result.report.tilt_error_p95_count));
    law_members_are_found(t1, "tilt_error_p95_count"@, signed_tree(result.report.tilt_error_p95_count), "samples"@);
    law_members_are_found(t1, "tilt_error_p95_count"@, signed_tree(result.report.tilt_error_p95_count), "pan_error_p95_count"@);
    let t3 = tree_with(t2, "notes"@, JsonTree::Text(result.report.notes));
    law_members_are_found(t2, "notes"@, JsonTree::Text(result.report.notes), "samples"@);
    law_members_are_found(t2, "notes"@, JsonTree::Text(result.report.notes), "pan_error_p95_count"@);
    law_members_are_found(t2, "notes"@, JsonTree::Text(result.report.notes), "tilt_error_p95_count"@);
}

/// The answer to a movement to counts holds where the camera is, and what was asked for.
pub proof fn law_answer_to_a_movement_to_counts(
    channel: u8,
    pan: i64,
    tilt: i64,
    tol_count: i64,
    timeout_ms: u64,
    pose: PtzRawPosition,
)
    ensures
        ({
            let answer = answer_tree(
                CliModel::PtzSetAbsolute {
                    channel,
                    pan_count: pan,
                    tilt_count: tilt,
                    tol_count,
                    timeout_ms,
                },
                ReportModel::Position(pose),
            );
            &&& tree_get(answer, "pan_count"@) matches Some(raw) && is_integer(
                raw,
                pose.pan_count as int,
            )
            &&& tree_get(answer, "tilt_count"@) matches Some(raw) && is_integer(
                raw,
                pose.tilt_count as int,
            )
            &&& tree_get(answer, "tol_count"@) matches Some(raw) && is_integer(
                raw,
                tol_count as int,
            )
            &&& tree_get(answer, "timeout_ms"@) matches Some(raw) && is_count(
                raw,
                timeout_ms as int,
            )
        }),
        answer_tree(CliModel::PtzGetAbsolute { channel }, ReportModel::Position(pose))
            == position_tree(pose),
        answer_tree(CliModel::GetPtzStatus { channel }, ReportModel::Status(crate::model::blank_status(channel)))
            == status_tree(crate::model::blank_status(channel)),
{
    lemma_position_keys_differ();
    law_position_is_reported(pose);
    let place = position_tree(pose);
    let first = tree_with(place, "tol_count"@, signed_tree(tol_count));
    law_members_are_found(place, "tol_count"@, signed_tree(tol_count), "pan_count"@);
    law_members_are_found(place, "tol_count"@, signed_tree(tol_count), "tilt_count"@);
    law_members_are_found(first, "timeout_ms"@, unsigned_tree(timeout_ms), "pan_count"@);
    law_members_are_found(first, "timeout_ms"@, unsigned_tree(timeout_ms), "tilt_count"@);
    law_members_are_found(first, "timeout_ms"@, unsigned_tree(timeout_ms), "tol_count"@);
}

/// Each stored position is reported in its place in the list, with its number and its name.
pub proof fn law_stored_positions_are_reported(
    channel: u8,
    presets: Seq<(u8, Option<Seq<char>>)>,
    k: int,
)
    requires
        0 <= k < presets.len(),
    ensures
        ({
            let answer = answer_tree(
                CliModel::PtzPresetList { channel },
                ReportModel::Presets(presets),
            );
            &&& tree_get(answer, "channel"@) matches Some(raw) && is_count(raw, channel as int)
            &&& tree_get(answer, "presets"@) matches Some(JsonTree::Array(items)) && items.len()
                == presets.len() && (tree_get(items[k], "id"@) matches Some(raw) && is_count(
                raw,
                presets[k].0 as int,
            )) && (presets[k].1 matches Some(name) ==> tree_get(items[k], "name"@) == Some(
                JsonTree::Text(name),
            ))
        }),
{
    lemma_small_keys_differ();
    lemma_preset_keys_differ();
    let number = unsigned_tree(channel as u64);
    let list = crate::interfaces::mcp_handlers::presets_tree(presets);
    let first = tree_with(empty_tree(), "channel"@, number);
    law_members_are_found(empty_tree(), "channel"@, number, "channel"@);
    law_members_are_found(first, "presets"@, list, "channel"@);
    let id = unsigned_tree(presets[k].0 as u64);
    let name = crate::interfaces::mcp_handlers::name_tree(presets[k].1);
    let one = tree_with(empty_tree(), "id"@, id);
    law_members_are_found(empty_tree(), "id"@, id, "id"@);
    law_members_are_found(one, "name"@, name, "id"@);
}

/// The names in a stored position differ.
proof fn lemma_preset_keys_differ()
    ensures
        "name"@ != "id"@,
{
    reveal_strlit("id");
    reveal_strlit("name");
    assert("name"@.len() != "id"@.len());
}


/// The answer to switching says what was asked for.
pub proof fn law_answer_to_switching(enabled: bool, port: u16, settings: NetPortSettings)
    ensures
        answer_tree(CliModel::GetNetPort, ReportModel::NetPort(settings)) == with_net_port(
            empty_tree(),
            settings,
        ),
        answer_tree(
            CliModel::SetOnvif { enabled, onvif_port: Some(port) },
            ReportModel::NetPort(settings),
        ) == with_net_port(
            tree_with(
                tree_with(empty_tree(), "requested_enabled"@, JsonTree::Bool(enabled)),
                "requested_port"@,
                unsigned_tree(port as u64),
            ),
            settings,
        ),
{
}

// ---------------------------------------------------------------- more lines

/// The line for the ports and services, where everything is known: each behind its own name.
pub proof fn law_line_of_the_settings(
    settings: NetPortSettings,
    flags: Seq<bool>,
    ports: Seq<u16>,
)
    requires
        flags.len() == 5 && ports.len() == 6,
        settings.http_enable == Some(flags[0]),
        settings.https_enable == Some(flags[1]),
        settings.onvif_enable == Some(flags[2]),
        settings.rtsp_enable == Some(flags[3]),
        settings.rtmp_enable == Some(flags[4]),
        settings.http_port == Some(ports[0]),
        settings.https_port == Some(ports[1]),
        settings.media_port == Some(ports[2]),
        settings.onvif_port == Some(ports[3]),
        settings.rtsp_port == Some(ports[4]),
        settings.rtmp_port == Some(ports[5]),
    ensures
        net_port_text(settings) == "http_enable="@ + word_of(flags[0]) + "; http_port="@ + dec(
            ports[0] as nat,
        ) + "; https_enable="@ + word_of(flags[1]) + "; https_port="@ + dec(ports[1] as nat)
            + "; media_port="@ + dec(ports[2] as nat) + "; onvif_enable="@ + word_of(flags[2])
            + "; onvif_port="@ + dec(ports[3] as nat) + "; rtsp_enable="@ + word_of(flags[3])
            + "; rtsp_port="@ + dec(ports[4] as nat) + "; rtmp_enable="@ + word_of(flags[4])
            + "; rtmp_port="@ + dec(ports[5] as nat),
        printed(CliModel::GetNetPort, ReportModel::NetPort(settings)) == net_port_text(settings),
{
}

pub open spec fn word_of(flag: bool) -> Seq<char> {
    if flag {
        "true"@
    } else {
        "false"@
    }
}

/// The line for switching begins with what was asked for.
pub proof fn law_line_of_switching(enabled: bool, port: u16, settings: NetPortSettings)
    ensures
        printed(
            CliModel::SetOnvif { enabled, onvif_port: Some(port) },
            ReportModel::NetPort(settings),
        ) == "requested_enabled="@ + word_of(enabled) + "; requested_port="@ + dec(port as nat)
            + "; "@ + net_port_text(settings),
        printed(
            CliModel::SetOnvif { enabled, onvif_port: None },
            ReportModel::NetPort(settings),
        ) == "requested_enabled="@ + word_of(enabled) + "; requested_port="@ + "none"@ + "; "@
            + net_port_text(settings),
{
}

/// The line for a calibration.
pub proof fn law_line_of_a_calibration(channel: u8, result: CalibrationModel, state: bool)
    requires
        result.calibrated_state == Some(state),
    ensures
        printed(CliModel::PtzCalibrateAuto { channel }, ReportModel::Calibration(result))
            == "channel="@ + dec(channel as nat) + "; operation=calibrate_auto; camera_key="@
            + result.camera_key + "; calibration_path="@ + result.calibration_path
            + "; reused_existing="@ + word_of(result.reused_existing) + "; calibrated="@ + word_of(
            state,
        ) + "; model="@ + result.calibration.model + "; firmware="@ + result.calibration.firmware
            + "; samples="@ + dec(result.report.samples as nat) + "; pan_error_p95_count="@
            + dec_int(result.report.pan_error_p95_count as int) + "; tilt_error_p95_count="@
            + dec_int(result.report.tilt_error_p95_count as int) + "; notes="@
            + result.report.notes,
{
}

/// The lines for the remaining reports.
pub proof fn law_lines_of_other_reports(
    channel: u8,
    preset_id: u8,
    ability: AbilityModel,
    token: Seq<char>,
    time: Seq<char>,
    presets: Seq<(u8, Option<Seq<char>>)>,
    found: crate::usecases::preflight::PreflightModel,
)
    ensures
        printed(
            CliModel::GetAbility { user_name: token },
            ReportModel::Ability(ability),
        ) == "user="@ + ability.user_name + "; supported=["@ + command_list(
            ability.supported_commands,
        ) + "]"@,
        printed(
            CliModel::GetUserAuth { user_name: time, password: time },
            ReportModel::Token(token),
        ) == "token="@ + token,
        printed(CliModel::GetTime, ReportModel::Time(time)) == "time="@ + time,
        printed(CliModel::SetTime { iso8601: token }, ReportModel::Time(time)) == "time="@ + time,
        printed(CliModel::PtzPresetGoto { channel, preset_id }, ReportModel::Moved) == "channel="@
            + dec(channel as nat) + "; operation=preset_goto; preset_id="@ + dec(preset_id as nat),
        printed(CliModel::PtzPresetList { channel }, ReportModel::Presets(presets)) == "channel="@
            + dec(channel as nat) + "; presets=["@ + preset_list(presets) + "]"@,
        printed(CliModel::Preflight { user_name: token }, ReportModel::Preflight(found))
            == "model="@ + found.device_info.model + "; supported_commands="@ + dec(
            found.supported_commands.len(),
        ),
        presets.len() == 1 && presets[0].1 is None ==> preset_list(presets) == dec(
            presets[0].0 as nat,
        ),
        presets.len() == 1 && presets[0].1 is Some ==> preset_list(presets) == dec(
            presets[0].0 as nat,
        ) + ":"@ + presets[0].1->0,
        presets.len() > 1 && presets.last().1 is Some ==> preset_list(presets) == preset_list(
            presets.drop_last(),
        ) + ","@ + (dec(presets.last().0 as nat) + ":"@ + presets.last().1->0),
{
}

/// The line for what the camera can do over ONVIF.
pub proof fn law_line_of_onvif_options(channel: u8, known: OptionsModel)
    requires
        known.timeout_min is Some && known.timeout_max is Some,
    ensures
        onvif_options_text(channel, Some(known)) == "channel="@ + dec(channel as nat)
            + "; operation=onvif_options; supports_continuous_pan_tilt_velocity="@ + word_of(
            known.supports_continuous_pan_tilt_velocity,
        ) + "; supports_relative_pan_tilt_translation="@ + word_of(
            known.supports_relative_pan_tilt_translation,
        ) + "; supports_relative_pan_tilt_speed="@ + word_of(
            known.supports_relative_pan_tilt_speed,
        ) + "; has_timeout_range="@ + word_of(known.has_timeout_range) + "; timeout_min="@
            + known.timeout_min->0 + "; timeout_max="@ + known.timeout_max->0,
        printed(
            CliModel::PtzOnvifOptions { channel },
            ReportModel::OnvifOptions(Some(known)),
        ) == onvif_options_text(channel, Some(known)),
{
}

/// What is not known is said to be unknown.
pub proof fn law_lines_say_what_is_unknown(channel: u8)
    ensures
        printed(
            CliModel::GetPtzStatus { channel },
            ReportModel::Status(crate::model::blank_status(channel)),
        ) == "channel="@ + dec(channel as nat) + "; pan="@ + "unknown"@ + "; tilt="@ + "unknown"@
            + "; zoom="@ + "unknown"@ + "; focus="@ + "unknown"@ + "; pan_range="@ + "unknown"@
            + "; tilt_range="@ + "unknown"@ + "; zoom_range="@ + "unknown"@ + "; focus_range="@
            + "unknown"@ + "; preset_range="@ + "unknown"@ + "; enabled_presets=["@ + Seq::empty()
            + "]; calibration_state="@ + "unknown"@ + "; calibrated="@ + "unknown"@,
        printed(CliModel::PtzOnvifStatus { channel }, ReportModel::OnvifStatus(None)) == "channel="@
            + dec(channel as nat) + "; operation=onvif_status; status=unavailable"@,
{
}

} // verus!
