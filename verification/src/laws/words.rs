//! What the words of a command line, or of a tool's request, ask for.
use crate::command::CgiCommand;
use crate::error::{ErrorKind, ErrorModel};
use crate::interfaces::arguments::{i64_arg, on_off_word, port_arg, u64_arg, u8_arg};
use crate::interfaces::cli_args::{
    absolute_options, cli_meaning, move_options, set_onvif_options, snap_arguments, CliModel,
};
use crate::interfaces::cli_handlers::needed_command;
use crate::interfaces::cli_usage::{
    lemma_absolute_options_differ, lemma_commands_differ, lemma_move_options_differ,
    lemma_other_words_differ, lemma_ptz_actions_differ,
};
use crate::interfaces::mcp_handlers::{tool_meaning, tool_need};
use crate::interfaces::report::{support_of, SupportModel};
use crate::model::{direction_named, AbilityModel, PtzDirection};
use crate::text::{dec, dec_int, is_digit, law_dec_int_reads_back, law_dec_reads_back, lower, trim};
use vstd::prelude::*;

verus! {

/// The names of the tools differ.
proof fn lemma_tools_differ()
    ensures
        "reolink.get_user_auth"@ != "reolink.get_ability"@,
        "reolink.get_dev_info"@ != "reolink.get_ability"@,
        "reolink.get_dev_info"@ != "reolink.get_user_auth"@,
        "reolink.get_channel_status"@ != "reolink.get_ability"@,
        "reolink.get_channel_status"@ != "reolink.get_user_auth"@,
        "reolink.get_channel_status"@ != "reolink.get_dev_info"@,
        "reolink.get_ptz_status"@ != "reolink.get_ability"@,
        "reolink.get_ptz_status"@ != "reolink.get_user_auth"@,
        "reolink.get_ptz_status"@ != "reolink.get_dev_info"@,
        "reolink.get_ptz_status"@ != "reolink.get_channel_status"@,
        "reolink.get_time"@ != "reolink.get_ability"@,
        "reolink.get_time"@ != "reolink.get_user_auth"@,
        "reolink.get_time"@ != "reolink.get_dev_info"@,
        "reolink.get_time"@ != "reolink.get_channel_status"@,
        "reolink.get_time"@ != "reolink.get_ptz_status"@,
        "reolink.set_time"@ != "reolink.get_ability"@,
        "reolink.set_time"@ != "reolink.get_user_auth"@,
        "reolink.set_time"@ != "reolink.get_dev_info"@,
        "reolink.set_time"@ != "reolink.get_channel_status"@,
        "reolink.set_time"@ != "reolink.get_ptz_status"@,
        "reolink.set_time"@ != "reolink.get_time"@,
        "reolink.get_net_port"@ != "reolink.get_ability"@,
        "reolink.get_net_port"@ != "reolink.get_user_auth"@,
        "reolink.get_net_port"@ != "reolink.get_dev_info"@,
        "reolink.get_net_port"@ != "reolink.get_channel_status"@,
        "reolink.get_net_port"@ != "reolink.get_ptz_status"@,
        "reolink.get_net_port"@ != "reolink.get_time"@,
        "reolink.get_net_port"@ != "reolink.set_time"@,
        "reolink.set_onvif_enabled"@ != "reolink.get_ability"@,
        "reolink.set_onvif_enabled"@ != "reolink.get_user_auth"@,
        "reolink.set_onvif_enabled"@ != "reolink.get_dev_info"@,
        "reolink.set_onvif_enabled"@ != "reolink.get_channel_status"@,
        "reolink.set_onvif_enabled"@ != "reolink.get_ptz_status"@,
        "reolink.set_onvif_enabled"@ != "reolink.get_time"@,
        "reolink.set_onvif_enabled"@ != "reolink.set_time"@,
        "reolink.set_onvif_enabled"@ != "reolink.get_net_port"@,
        "reolink.snap"@ != "reolink.get_ability"@,
        "reolink.snap"@ != "reolink.get_user_auth"@,
        "reolink.snap"@ != "reolink.get_dev_info"@,
        "reolink.snap"@ != "reolink.get_channel_status"@,
        "reolink.snap"@ != "reolink.get_ptz_status"@,
        "reolink.snap"@ != "reolink.get_time"@,
        "reolink.snap"@ != "reolink.set_time"@,
        "reolink.snap"@ != "reolink.get_net_port"@,
        "reolink.snap"@ != "reolink.set_onvif_enabled"@,
        "reolink.ptz_move"@ != "reolink.get_ability"@,
        "reolink.ptz_move"@ != "reolink.get_user_auth"@,
        "reolink.ptz_move"@ != "reolink.get_dev_info"@,
        "reolink.ptz_move"@ != "reolink.get_channel_status"@,
        "reolink.ptz_move"@ != "reolink.get_ptz_status"@,
        "reolink.ptz_move"@ != "reolink.get_time"@,
        "reolink.ptz_move"@ != "reolink.set_time"@,
        "reolink.ptz_move"@ != "reolink.get_net_port"@,
        "reolink.ptz_move"@ != "reolink.set_onvif_enabled"@,
        "reolink.ptz_move"@ != "reolink.snap"@,
        "reolink.ptz_stop"@ != "reolink.get_ability"@,
        "reolink.ptz_stop"@ != "reolink.get_user_auth"@,
        "reolink.ptz_stop"@ != "reolink.get_dev_info"@,
        "reolink.ptz_stop"@ != "reolink.get_channel_status"@,
        "reolink.ptz_stop"@ != "reolink.get_ptz_status"@,
        "reolink.ptz_stop"@ != "reolink.get_time"@,
        "reolink.ptz_stop"@ != "reolink.set_time"@,
        "reolink.ptz_stop"@ != "reolink.get_net_port"@,
        "reolink.ptz_stop"@ != "reolink.set_onvif_enabled"@,
        "reolink.ptz_stop"@ != "reolink.snap"@,
        "reolink.ptz_stop"@ != "reolink.ptz_move"@,
        "reolink.ptz_preset_list"@ != "reolink.get_ability"@,
        "reolink.ptz_preset_list"@ != "reolink.get_user_auth"@,
        "reolink.ptz_preset_list"@ != "reolink.get_dev_info"@,
        "reolink.ptz_preset_list"@ != "reolink.get_channel_status"@,
        "reolink.ptz_preset_list"@ != "reolink.get_ptz_status"@,
        "reolink.ptz_preset_list"@ != "reolink.get_time"@,
        "reolink.ptz_preset_list"@ != "reolink.set_time"@,
        "reolink.ptz_preset_list"@ != "reolink.get_net_port"@,
        "reolink.ptz_preset_list"@ != "reolink.set_onvif_enabled"@,
        "reolink.ptz_preset_list"@ != "reolink.snap"@,
        "reolink.ptz_preset_list"@ != "reolink.ptz_move"@,
        "reolink.ptz_preset_list"@ != "reolink.ptz_stop"@,
        "reolink.ptz_preset_goto"@ != "reolink.get_ability"@,
        "reolink.ptz_preset_goto"@ != "reolink.get_user_auth"@,
        "reolink.ptz_preset_goto"@ != "reolink.get_dev_info"@,
        "reolink.ptz_preset_goto"@ != "reolink.get_channel_status"@,
        "reolink.ptz_preset_goto"@ != "reolink.get_ptz_status"@,
        "reolink.ptz_preset_goto"@ != "reolink.get_time"@,
        "reolink.ptz_preset_goto"@ != "reolink.set_time"@,
        "reolink.ptz_preset_goto"@ != "reolink.get_net_port"@,
        "reolink.ptz_preset_goto"@ != "reolink.set_onvif_enabled"@,
        "reolink.ptz_preset_goto"@ != "reolink.snap"@,
        "reolink.ptz_preset_goto"@ != "reolink.ptz_move"@,
        "reolink.ptz_preset_goto"@ != "reolink.ptz_stop"@,
        "reolink.ptz_preset_goto"@ != "reolink.ptz_preset_list"@,
        "reolink.ptz_calibrate_auto"@ != "reolink.get_ability"@,
        "reolink.ptz_calibrate_auto"@ != "reolink.get_user_auth"@,
        "reolink.ptz_calibrate_auto"@ != "reolink.get_dev_info"@,
        "reolink.ptz_calibrate_auto"@ != "reolink.get_channel_status"@,
        "reolink.ptz_calibrate_auto"@ != "reolink.get_ptz_status"@,
        "reolink.ptz_calibrate_auto"@ != "reolink.get_time"@,
        "reolink.ptz_calibrate_auto"@ != "reolink.set_time"@,
        "reolink.ptz_calibrate_auto"@ != "reolink.get_net_port"@,
        "reolink.ptz_calibrate_auto"@ != "reolink.set_onvif_enabled"@,
        "reolink.ptz_calibrate_auto"@ != "reolink.snap"@,
        "reolink.ptz_calibrate_auto"@ != "reolink.ptz_move"@,
        "reolink.ptz_calibrate_auto"@ != "reolink.ptz_stop"@,
        "reolink.ptz_calibrate_auto"@ != "reolink.ptz_preset_list"@,
        "reolink.ptz_calibrate_auto"@ != "reolink.ptz_preset_goto"@,
        "reolink.ptz_set_absolute"@ != "reolink.get_ability"@,
        "reolink.ptz_set_absolute"@ != "reolink.get_user_auth"@,
        "reolink.ptz_set_absolute"@ != "reolink.get_dev_info"@,
        "reolink.ptz_set_absolute"@ != "reolink.get_channel_status"@,
        "reolink.ptz_set_absolute"@ != "reolink.get_ptz_status"@,
        "reolink.ptz_set_absolute"@ != "reolink.get_time"@,
        "reolink.ptz_set_absolute"@ != "reolink.set_time"@,
        "reolink.ptz_set_absolute"@ != "reolink.get_net_port"@,
        "reolink.ptz_set_absolute"@ != "reolink.set_onvif_enabled"@,
        "reolink.ptz_set_absolute"@ != "reolink.snap"@,
        "reolink.ptz_set_absolute"@ != "reolink.ptz_move"@,
        "reolink.ptz_set_absolute"@ != "reolink.ptz_stop"@,
        "reolink.ptz_set_absolute"@ != "reolink.ptz_preset_list"@,
        "reolink.ptz_set_absolute"@ != "reolink.ptz_preset_goto"@,
        "reolink.ptz_set_absolute"@ != "reolink.ptz_calibrate_auto"@,
        "reolink.ptz_get_absolute"@ != "reolink.get_ability"@,
        "reolink.ptz_get_absolute"@ != "reolink.get_user_auth"@,
        "reolink.ptz_get_absolute"@ != "reolink.get_dev_info"@,
        "reolink.ptz_get_absolute"@ != "reolink.get_channel_status"@,
        "reolink.ptz_get_absolute"@ != "reolink.get_ptz_status"@,
        "reolink.ptz_get_absolute"@ != "reolink.get_time"@,
        "reolink.ptz_get_absolute"@ != "reolink.set_time"@,
        "reolink.ptz_get_absolute"@ != "reolink.get_net_port"@,
        "reolink.ptz_get_absolute"@ != "reolink.set_onvif_enabled"@,
        "reolink.ptz_get_absolute"@ != "reolink.snap"@,
        "reolink.ptz_get_absolute"@ != "reolink.ptz_move"@,
        "reolink.ptz_get_absolute"@ != "reolink.ptz_stop"@,
        "reolink.ptz_get_absolute"@ != "reolink.ptz_preset_list"@,
        "reolink.ptz_get_absolute"@ != "reolink.ptz_preset_goto"@,
        "reolink.ptz_get_absolute"@ != "reolink.ptz_calibrate_auto"@,
        "reolink.ptz_get_absolute"@ != "reolink.ptz_set_absolute"@,
{
    reveal_strlit("reolink.get_ability");
    reveal_strlit("reolink.get_user_auth");
    reveal_strlit("reolink.get_dev_info");
    reveal_strlit("reolink.get_channel_status");
    reveal_strlit("reolink.get_ptz_status");
    reveal_strlit("reolink.get_time");
    reveal_strlit("reolink.set_time");
    reveal_strlit("reolink.get_net_port");
    reveal_strlit("reolink.set_onvif_enabled");
    reveal_strlit("reolink.snap");
    reveal_strlit("reolink.ptz_move");
    reveal_strlit("reolink.ptz_stop");
    reveal_strlit("reolink.ptz_preset_list");
    reveal_strlit("reolink.ptz_preset_goto");
    reveal_strlit("reolink.ptz_calibrate_auto");
    reveal_strlit("reolink.ptz_set_absolute");
    reveal_strlit("reolink.ptz_get_absolute");
    assert("reolink.get_user_auth"@.len() != "reolink.get_ability"@.len());
    assert("reolink.get_dev_info"@.len() != "reolink.get_ability"@.len());
    assert("reolink.get_dev_info"@.len() != "reolink.get_user_auth"@.len());
    assert("reolink.get_channel_status"@.len() != "reolink.get_ability"@.len());
    assert("reolink.get_channel_status"@.len() != "reolink.get_user_auth"@.len());
    assert("reolink.get_channel_status"@.len() != "reolink.get_dev_info"@.len());
    assert("reolink.get_ptz_status"@.len() != "reolink.get_ability"@.len());
    assert("reolink.get_ptz_status"@.len() != "reolink.get_user_auth"@.len());
    assert("reolink.get_ptz_status"@.len() != "reolink.get_dev_info"@.len());
    assert("reolink.get_ptz_status"@.len() != "reolink.get_channel_status"@.len());
    assert("reolink.get_time"@.len() != "reolink.get_ability"@.len());
    assert("reolink.get_time"@.len() != "reolink.get_user_auth"@.len());
    assert("reolink.get_time"@.len() != "reolink.get_dev_info"@.len());
    assert("reolink.get_time"@.len() != "reolink.get_channel_status"@.len());
    assert("reolink.get_time"@.len() != "reolink.get_ptz_status"@.len());
    assert("reolink.set_time"@.len() != "reolink.get_ability"@.len());
    assert("reolink.set_time"@.len() != "reolink.get_user_auth"@.len());
    assert("reolink.set_time"@.len() != "reolink.get_dev_info"@.len());
    assert("reolink.set_time"@.len() != "reolink.get_channel_status"@.len());
    assert("reolink.set_time"@.len() != "reolink.get_ptz_status"@.len());
    assert("reolink.set_time"@[8] != "reolink.get_time"@[8]);
    assert("reolink.get_net_port"@.len() != "reolink.get_ability"@.len());
    assert("reolink.get_net_port"@.len() != "reolink.get_user_auth"@.len());
    assert("reolink.get_net_port"@[12] != "reolink.get_dev_info"@[12]);
    assert("reolink.get_net_port"@.len() != "reolink.get_channel_status"@.len());
    assert("reolink.get_net_port"@.len() != "reolink.get_ptz_status"@.len());
    assert("reolink.get_net_port"@.len() != "reolink.get_time"@.len());
    assert("reolink.get_net_port"@.len() != "reolink.set_time"@.len());
    assert("reolink.set_onvif_enabled"@.len() != "reolink.get_ability"@.len());
    assert("reolink.set_onvif_enabled"@.len() != "reolink.get_user_auth"@.len());
    assert("reolink.set_onvif_enabled"@.len() != "reolink.get_dev_info"@.len());
    assert("reolink.set_onvif_enabled"@.len() != "reolink.get_channel_status"@.len());
    assert("reolink.set_onvif_enabled"@.len() != "reolink.get_ptz_status"@.len());
    assert("reolink.set_onvif_enabled"@.len() != "reolink.get_time"@.len());
    assert("reolink.set_onvif_enabled"@.len() != "reolink.set_time"@.len());
    assert("reolink.set_onvif_enabled"@.len() != "reolink.get_net_port"@.len());
    assert("reolink.snap"@.len() != "reolink.get_ability"@.len());
    assert("reolink.snap"@.len() != "reolink.get_user_auth"@.len());
    assert("reolink.snap"@.len() != "reolink.get_dev_info"@.len());
    assert("reolink.snap"@.len() != "reolink.get_channel_status"@.len());
    assert("reolink.snap"@.len() != "reolink.get_ptz_status"@.len());
    assert("reolink.snap"@.len() != "reolink.get_time"@.len());
    assert("reolink.snap"@.len() != "reolink.set_time"@.len());
    assert("reolink.snap"@.len() != "reolink.get_net_port"@.len());
    assert("reolink.snap"@.len() != "reolink.set_onvif_enabled"@.len());
    assert("reolink.ptz_move"@.len() != "reolink.get_ability"@.len());
    assert("reolink.ptz_move"@.len() != "reolink.get_user_auth"@.len());
    assert("reolink.ptz_move"@.len() != "reolink.get_dev_info"@.len());
    assert("reolink.ptz_move"@.len() != "reolink.get_channel_status"@.len());
    assert("reolink.ptz_move"@.len() != "reolink.get_ptz_status"@.len());
    assert("reolink.ptz_move"@[8] != "reolink.get_time"@[8]);
    assert("reolink.ptz_move"@[8] != "reolink.set_time"@[8]);
    assert("reolink.ptz_move"@.len() != "reolink.get_net_port"@.len());
    assert("reolink.ptz_move"@.len() != "reolink.set_onvif_enabled"@.len());
    assert("reolink.ptz_move"@.len() != "reolink.snap"@.len());
    assert("reolink.ptz_stop"@.len() != "reolink.get_ability"@.len());
    assert("reolink.ptz_stop"@.len() != "reolink.get_user_auth"@.len());
    assert("reolink.ptz_stop"@.len() != "reolink.get_dev_info"@.len());
    assert("reolink.ptz_stop"@.len() != "reolink.get_channel_status"@.len());
    assert("reolink.ptz_stop"@.len() != "reolink.get_ptz_status"@.len());
    assert("reolink.ptz_stop"@[8] != "reolink.get_time"@[8]);
    assert("reolink.ptz_stop"@[8] != "reolink.set_time"@[8]);
    assert("reolink.ptz_stop"@.len() != "reolink.get_net_port"@.len());
    assert("reolink.ptz_stop"@.len() != "reolink.set_onvif_enabled"@.len());
    assert("reolink.ptz_stop"@.len() != "reolink.snap"@.len());
    assert("reolink.ptz_stop"@[12] != "reolink.ptz_move"@[12]);
    assert("reolink.ptz_preset_list"@.len() != "reolink.get_ability"@.len());
    assert("reolink.ptz_preset_list"@.len() != "reolink.get_user_auth"@.len());
    assert("reolink.ptz_preset_list"@.len() != "reolink.get_dev_info"@.len());
    assert("reolink.ptz_preset_list"@.len() != "reolink.get_channel_status"@.len());
    assert("reolink.ptz_preset_list"@.len() != "reolink.get_ptz_status"@.len());
    assert("reolink.ptz_preset_list"@.len() != "reolink.get_time"@.len());
    assert("reolink.ptz_preset_list"@.len() != "reolink.set_time"@.len());
    assert("reolink.ptz_preset_list"@.len() != "reolink.get_net_port"@.len());
    assert("reolink.ptz_preset_list"@.len() != "reolink.set_onvif_enabled"@.len());
    assert("reolink.ptz_preset_list"@.len() != "reolink.snap"@.len());
    assert("reolink.ptz_preset_list"@.len() != "reolink.ptz_move"@.len());
    assert("reolink.ptz_preset_list"@.len() != "reolink.ptz_stop"@.len());
    assert("reolink.ptz_preset_goto"@.len() != "reolink.get_ability"@.len());
    assert("reolink.ptz_preset_goto"@.len() != "reolink.get_user_auth"@.len());
    assert("reolink.ptz_preset_goto"@.len() != "reolink.get_dev_info"@.len());
    assert("reolink.ptz_preset_goto"@.len() != "reolink.get_channel_status"@.len());
    assert("reolink.ptz_preset_goto"@.len() != "reolink.get_ptz_status"@.len());
    assert("reolink.ptz_preset_goto"@.len() != "reolink.get_time"@.len());
    assert("reolink.ptz_preset_goto"@.len() != "reolink.set_time"@.len());
    assert("reolink.ptz_preset_goto"@.len() != "reolink.get_net_port"@.len());
    assert("reolink.ptz_preset_goto"@.len() != "reolink.set_onvif_enabled"@.len());
    assert("reolink.ptz_preset_goto"@.len() != "reolink.snap"@.len());
    assert("reolink.ptz_preset_goto"@.len() != "reolink.ptz_move"@.len());
    assert("reolink.ptz_preset_goto"@.len() != "reolink.ptz_stop"@.len());
    assert("reolink.ptz_preset_goto"@[19] != "reolink.ptz_preset_list"@[19]);
    assert("reolink.ptz_calibrate_auto"@.len() != "reolink.get_ability"@.len());
    assert("reolink.ptz_calibrate_auto"@.len() != "reolink.get_user_auth"@.len());
    assert("reolink.ptz_calibrate_auto"@.len() != "reolink.get_dev_info"@.len());
    assert("reolink.ptz_calibrate_auto"@[8] != "reolink.get_channel_status"@[8]);
    assert("reolink.ptz_calibrate_auto"@.len() != "reolink.get_ptz_status"@.len());
    assert("reolink.ptz_calibrate_auto"@.len() != "reolink.get_time"@.len());
    assert("reolink.ptz_calibrate_auto"@.len() != "reolink.set_time"@.len());
    assert("reolink.ptz_calibrate_auto"@.len() != "reolink.get_net_port"@.len());
    assert("reolink.ptz_calibrate_auto"@.len() != "reolink.set_onvif_enabled"@.len());
    assert("reolink.ptz_calibrate_auto"@.len() != "reolink.snap"@.len());
    assert("reolink.ptz_calibrate_auto"@.len() != "reolink.ptz_move"@.len());
    assert("reolink.ptz_calibrate_auto"@.len() != "reolink.ptz_stop"@.len());
    assert("reolink.ptz_calibrate_auto"@.len() != "reolink.ptz_preset_list"@.len());
    assert("reolink.ptz_calibrate_auto"@.len() != "reolink.ptz_preset_goto"@.len());
    assert("reolink.ptz_set_absolute"@.len() != "reolink.get_ability"@.len());
    assert("reolink.ptz_set_absolute"@.len() != "reolink.get_user_auth"@.len());
    assert("reolink.ptz_set_absolute"@.len() != "reolink.get_dev_info"@.len());
    assert("reolink.ptz_set_absolute"@.len() != "reolink.get_channel_status"@.len());
    assert("reolink.ptz_set_absolute"@.len() != "reolink.get_ptz_status"@.len());
    assert("reolink.ptz_set_absolute"@.len() != "reolink.get_time"@.len());
    assert("reolink.ptz_set_absolute"@.len() != "reolink.set_time"@.len());
    assert("reolink.ptz_set_absolute"@.len() != "reolink.get_net_port"@.len());
    assert("reolink.ptz_set_absolute"@.len() != "reolink.set_onvif_enabled"@.len());
    assert("reolink.ptz_set_absolute"@.len() != "reolink.snap"@.len());
    assert("reolink.ptz_set_absolute"@.len() != "reolink.ptz_move"@.len());
    assert("reolink.ptz_set_absolute"@.len() != "reolink.ptz_stop"@.len());
    assert("reolink.ptz_set_absolute"@.len() != "reolink.ptz_preset_list"@.len());
    assert("reolink.ptz_set_absolute"@.len() != "reolink.ptz_preset_goto"@.len());
    assert("reolink.ptz_set_absolute"@.len() != "reolink.ptz_calibrate_auto"@.len());
    assert("reolink.ptz_get_absolute"@.len() != "reolink.get_ability"@.len());
    assert("reolink.ptz_get_absolute"@.len() != "reolink.get_user_auth"@.len());
    assert("reolink.ptz_get_absolute"@.len() != "reolink.get_dev_info"@.len());
    assert("reolink.ptz_get_absolute"@.len() != "reolink.get_channel_status"@.len());
    assert("reolink.ptz_get_absolute"@.len() != "reolink.get_ptz_status"@.len());
    assert("reolink.ptz_get_absolute"@.len() != "reolink.get_time"@.len());
    assert("reolink.ptz_get_absolute"@.len() != "reolink.set_time"@.len());
    assert("reolink.ptz_get_absolute"@.len() != "reolink.get_net_port"@.len());
    assert("reolink.ptz_get_absolute"@.len() != "reolink.set_onvif_enabled"@.len());
    assert("reolink.ptz_get_absolute"@.len() != "reolink.snap"@.len());
    assert("reolink.ptz_get_absolute"@.len() != "reolink.ptz_move"@.len());
    assert("reolink.ptz_get_absolute"@.len() != "reolink.ptz_stop"@.len());
    assert("reolink.ptz_get_absolute"@.len() != "reolink.ptz_preset_list"@.len());
    assert("reolink.ptz_get_absolute"@.len() != "reolink.ptz_preset_goto"@.len());
    assert("reolink.ptz_get_absolute"@.len() != "reolink.ptz_calibrate_auto"@.len());
    assert("reolink.ptz_get_absolute"@[12] != "reolink.ptz_set_absolute"@[12]);
}

/// The words for on and off differ.
proof fn lemma_switch_words_differ()
    ensures
        "true"@ != "1"@,
        "on"@ != "1"@,
        "on"@ != "true"@,
        "enable"@ != "1"@,
        "enable"@ != "true"@,
        "enable"@ != "on"@,
        "enabled"@ != "1"@,
        "enabled"@ != "true"@,
        "enabled"@ != "on"@,
        "enabled"@ != "enable"@,
        "0"@ != "1"@,
        "0"@ != "true"@,
        "0"@ != "on"@,
        "0"@ != "enable"@,
        "0"@ != "enabled"@,
        "false"@ != "1"@,
        "false"@ != "true"@,
        "false"@ != "on"@,
        "false"@ != "enable"@,
        "false"@ != "enabled"@,
        "false"@ != "0"@,
        "off"@ != "1"@,
        "off"@ != "true"@,
        "off"@ != "on"@,
        "off"@ != "enable"@,
        "off"@ != "enabled"@,
        "off"@ != "0"@,
        "off"@ != "false"@,
        "disable"@ != "1"@,
        "disable"@ != "true"@,
        "disable"@ != "on"@,
        "disable"@ != "enable"@,
        "disable"@ != "enabled"@,
        "disable"@ != "0"@,
        "disable"@ != "false"@,
        "disable"@ != "off"@,
        "disabled"@ != "1"@,
        "disabled"@ != "true"@,
        "disabled"@ != "on"@,
        "disabled"@ != "enable"@,
        "disabled"@ != "enabled"@,
        "disabled"@ != "0"@,
        "disabled"@ != "false"@,
        "disabled"@ != "off"@,
        "disabled"@ != "disable"@,
{
    reveal_strlit("1");
    reveal_strlit("true");
    reveal_strlit("on");
    reveal_strlit("enable");
    reveal_strlit("enabled");
    reveal_strlit("0");
    reveal_strlit("false");
    reveal_strlit("off");
    reveal_strlit("disable");
    reveal_strlit("disabled");
    assert("true"@.len() != "1"@.len());
    assert("on"@.len() != "1"@.len());
    assert("on"@.len() != "true"@.len());
    assert("enable"@.len() != "1"@.len());
    assert("enable"@.len() != "true"@.len());
    assert("enable"@.len() != "on"@.len());
    assert("enabled"@.len() != "1"@.len());
    assert("enabled"@.len() != "true"@.len());
    assert("enabled"@.len() != "on"@.len());
    assert("enabled"@.len() != "enable"@.len());
    assert("0"@[0] != "1"@[0]);
    assert("0"@.len() != "true"@.len());
    assert("0"@.len() != "on"@.len());
    assert("0"@.len() != "enable"@.len());
    assert("0"@.len() != "enabled"@.len());
    assert("false"@.len() != "1"@.len());
    assert("false"@.len() != "true"@.len());
    assert("false"@.len() != "on"@.len());
    assert("false"@.len() != "enable"@.len());
    assert("false"@.len() != "enabled"@.len());
    assert("false"@.len() != "0"@.len());
    assert("off"@.len() != "1"@.len());
    assert("off"@.len() != "true"@.len());
    assert("off"@.len() != "on"@.len());
    assert("off"@.len() != "enable"@.len());
    assert("off"@.len() != "enabled"@.len());
    assert("off"@.len() != "0"@.len());
    assert("off"@.len() != "false"@.len());
    assert("disable"@.len() != "1"@.len());
    assert("disable"@.len() != "true"@.len());
    assert("disable"@.len() != "on"@.len());
    assert("disable"@.len() != "enable"@.len());
    assert("disable"@[0] != "enabled"@[0]);
    assert("disable"@.len() != "0"@.len());
    assert("disable"@.len() != "false"@.len());
    assert("disable"@.len() != "off"@.len());
    assert("disabled"@.len() != "1"@.len());
    assert("disabled"@.len() != "true"@.len());
    assert("disabled"@.len() != "on"@.len());
    assert("disabled"@.len() != "enable"@.len());
    assert("disabled"@.len() != "enabled"@.len());
    assert("disabled"@.len() != "0"@.len());
    assert("disabled"@.len() != "false"@.len());
    assert("disabled"@.len() != "off"@.len());
    assert("disabled"@.len() != "disable"@.len());
}


// ---------------------------------------------------------------- single words

/// A number, written out, is read as that number.
pub proof fn law_numbers_are_read(small: u8, large: u64, signed: i64, port: u16, name: Seq<char>)
    ensures
        u8_arg(dec(small as nat), name) == Ok::<u8, ErrorModel>(small),
        u64_arg(dec(large as nat), name) == Ok::<u64, ErrorModel>(large),
        i64_arg(dec_int(signed as int), name) == Ok::<i64, ErrorModel>(signed),
        port > 0 ==> port_arg(dec(port as nat), name) == Ok::<u16, ErrorModel>(port),
        port_arg(dec(0), name) is Err,
        large > 255 ==> u8_arg(dec(large as nat), name) is Err,
        large > 65535 ==> port_arg(dec(large as nat), name) is Err,
{
    law_dec_reads_back(small as nat);
    law_dec_reads_back(large as nat);
    law_dec_int_reads_back(signed);
    law_dec_reads_back(port as nat);
    law_dec_reads_back(0);
}

/// The words for on and off, whatever their capitals and the white space around them.
pub proof fn law_switch_words(raw: Seq<char>)
    ensures
        ({
            let word = lower(trim(raw));
            &&& on_off_word(raw) == Some(true) <==> word == "on"@ || word == "1"@ || word == "true"@
                || word == "enable"@ || word == "enabled"@
            &&& on_off_word(raw) == Some(false) <==> word == "off"@ || word == "0"@ || word
                == "false"@ || word == "disable"@ || word == "disabled"@
        }),
{
    lemma_switch_words_differ();
}

// ---------------------------------------------------------------- the command line

/// What the first word asks for, where it stands alone or before its arguments.
pub proof fn law_first_words(args: Seq<Seq<char>>)
    ensures
        args.len() == 0 ==> cli_meaning(args) == Ok::<CliModel, ErrorModel>(CliModel::Help),
        args.len() > 0 && (args[0] == "help"@ || args[0] == "--help"@ || args[0] == "-h"@)
            ==> cli_meaning(args) == Ok::<CliModel, ErrorModel>(CliModel::Help),
        args.len() > 0 && args[0] == "get-dev-info"@ ==> cli_meaning(args) == Ok::<
            CliModel,
            ErrorModel,
        >(CliModel::GetDevInfo),
        args.len() > 0 && args[0] == "get-time"@ ==> cli_meaning(args) == Ok::<CliModel, ErrorModel>(
            CliModel::GetTime,
        ),
        args.len() > 0 && args[0] == "get-net-port"@ ==> cli_meaning(args) == Ok::<
            CliModel,
            ErrorModel,
        >(CliModel::GetNetPort),
        args.len() > 1 && args[0] == "get-ability"@ ==> cli_meaning(args) == Ok::<
            CliModel,
            ErrorModel,
        >(CliModel::GetAbility { user_name: args[1] }),
        args.len() == 1 && args[0] == "get-ability"@ ==> cli_meaning(args) == Ok::<
            CliModel,
            ErrorModel,
        >(CliModel::GetAbility { user_name: "admin"@ }),
        args.len() > 1 && args[0] == "preflight"@ ==> cli_meaning(args) == Ok::<
            CliModel,
            ErrorModel,
        >(CliModel::Preflight { user_name: args[1] }),
        args.len() == 1 && args[0] == "preflight"@ ==> cli_meaning(args) == Ok::<
            CliModel,
            ErrorModel,
        >(CliModel::Preflight { user_name: "admin"@ }),
        args.len() > 2 && args[0] == "get-user-auth"@ ==> cli_meaning(args) == Ok::<
            CliModel,
            ErrorModel,
        >(CliModel::GetUserAuth { user_name: args[1], password: args[2] }),
        0 < args.len() < 3 && args[0] == "get-user-auth"@ ==> cli_meaning(args) is Err,
        args.len() > 1 && args[0] == "set-time"@ ==> cli_meaning(args) == Ok::<CliModel, ErrorModel>(
            CliModel::SetTime { iso8601: args[1] },
        ),
        args.len() == 1 && args[0] == "set-time"@ ==> cli_meaning(args) is Err,
        args.len() == 1 && args[0] == "get-channel-status"@ ==> cli_meaning(args) == Ok::<
            CliModel,
            ErrorModel,
        >(CliModel::GetChannelStatus { channel: 0 }),
        args.len() == 1 && args[0] == "get-ptz-status"@ ==> cli_meaning(args) == Ok::<
            CliModel,
            ErrorModel,
        >(CliModel::GetPtzStatus { channel: 0 }),
{
    lemma_commands_differ();
}

/// The channel that is named after the word is the channel that is asked about.
pub proof fn law_channels_are_named(channel: u8)
    ensures
        cli_meaning(seq!["get-channel-status"@, dec(channel as nat)]) == Ok::<CliModel, ErrorModel>(
            CliModel::GetChannelStatus { channel },
        ),
        cli_meaning(seq!["get-ptz-status"@, dec(channel as nat)]) == Ok::<CliModel, ErrorModel>(
            CliModel::GetPtzStatus { channel },
        ),
{
    lemma_commands_differ();
    law_numbers_are_read(channel, 0, 0, 0, "channel"@);
}

/// ONVIF is switched the way the word says, on the port that is named, if any.
pub proof fn law_switching_onvif(word: Seq<char>, enabled: bool, port: u16)
    requires
        on_off_word(word) == Some(enabled),
        port > 0,
    ensures
        cli_meaning(seq!["set-onvif"@, word]) == Ok::<CliModel, ErrorModel>(
            CliModel::SetOnvif { enabled, onvif_port: None },
        ),
        cli_meaning(seq!["set-onvif"@, word, "--port"@, dec(port as nat)]) == Ok::<
            CliModel,
            ErrorModel,
        >(CliModel::SetOnvif { enabled, onvif_port: Some(port) }),
{
    lemma_commands_differ();
    law_numbers_are_read(0, 0, 0, port, "onvif_port"@);
    reveal_with_fuel(set_onvif_options, 3);
    let short = seq!["set-onvif"@, word];
    let long = seq!["set-onvif"@, word, "--port"@, dec(port as nat)];
    assert(short.skip(1) =~= seq![word]);
    assert(long.skip(1) =~= seq![word, "--port"@, dec(port as nat)]);
}

/// A picture is taken of the channel that is named and put where it is asked for, in either
/// order of the two.
pub proof fn law_taking_a_picture(channel: u8, path: Seq<char>)
    requires
        trim(path).len() > 0,
    ensures
        cli_meaning(seq!["snap"@]) == Ok::<CliModel, ErrorModel>(
            CliModel::Snap { channel: 0, out: None },
        ),
        cli_meaning(seq!["snap"@, dec(channel as nat)]) == Ok::<CliModel, ErrorModel>(
            CliModel::Snap { channel, out: None },
        ),
        cli_meaning(seq!["snap"@, dec(channel as nat), "--out"@, path]) == Ok::<
            CliModel,
            ErrorModel,
        >(CliModel::Snap { channel, out: Some(path) }),
        cli_meaning(seq!["snap"@, "--out"@, path, dec(channel as nat)]) == Ok::<
            CliModel,
            ErrorModel,
        >(CliModel::Snap { channel, out: Some(path) }),
{
    lemma_commands_differ();
    let word = dec(channel as nat);
    law_numbers_are_read(channel, 0, 0, 0, "channel"@);
    law_dec_reads_back(channel as nat);
    reveal_with_fuel(snap_arguments, 4);
    reveal_strlit("--out");
    reveal_strlit("--");
    assert(is_digit(word[0]));
    assert(word[0] != "--out"@[0]);
    if crate::text::starts_with(word, "--"@) {
        assert(word.subrange(0, 2)[0] == "--"@[0]);
    }
    assert(seq!["snap"@].skip(1) =~= Seq::<Seq<char>>::empty());
    assert(seq!["snap"@, word].skip(1) =~= seq![word]);
    assert(seq!["snap"@, word, "--out"@, path].skip(1) =~= seq![word, "--out"@, path]);
    assert(seq!["snap"@, "--out"@, path, word].skip(1) =~= seq!["--out"@, path, word]);
}

/// The words for the directions, and what each means.
pub proof fn law_direction_words()
    ensures
        direction_named("left"@) == Some(PtzDirection::Left),
        direction_named("right"@) == Some(PtzDirection::Right),
        direction_named("up"@) == Some(PtzDirection::Up),
        direction_named("down"@) == Some(PtzDirection::Down),
        direction_named("Left"@) == Some(PtzDirection::Left),
        direction_named("Right"@) == Some(PtzDirection::Right),
        direction_named("Up"@) == Some(PtzDirection::Up),
        direction_named("Down"@) == Some(PtzDirection::Down),
        direction_named("left-up"@) == Some(PtzDirection::LeftUp),
        direction_named("left-down"@) == Some(PtzDirection::LeftDown),
        direction_named("right-up"@) == Some(PtzDirection::RightUp),
        direction_named("right-down"@) == Some(PtzDirection::RightDown),
{
    reveal_strlit("left");
    reveal_strlit("right");
    reveal_strlit("up");
    reveal_strlit("down");
    reveal_strlit("leftup");
    reveal_strlit("leftdown");
    reveal_strlit("rightup");
    reveal_strlit("rightdown");
    reveal_strlit("Left");
    reveal_strlit("Right");
    reveal_strlit("Up");
    reveal_strlit("Down");
    reveal_strlit("left-up");
    reveal_strlit("left-down");
    reveal_strlit("right-up");
    reveal_strlit("right-down");
    assert(lower("left"@) =~= "left"@);
    assert(lower("right"@) =~= "right"@);
    assert(lower("up"@) =~= "up"@);
    assert(lower("down"@) =~= "down"@);
    assert(lower("Left"@) =~= "left"@);
    assert(lower("Right"@) =~= "right"@);
    assert(lower("Up"@) =~= "up"@);
    assert(lower("Down"@) =~= "down"@);
    assert(lower("left-up"@) =~= "left-up"@);
    assert(lower("left-down"@) =~= "left-down"@);
    assert(lower("right-up"@) =~= "right-up"@);
    assert(lower("right-down"@) =~= "right-down"@);
    assert("right"@.len() != "left"@.len());
    assert("up"@.len() != "left"@.len());
    assert("up"@.len() != "right"@.len());
    assert("down"@[0] != "left"@[0]);
    assert("down"@.len() != "right"@.len());
    assert("down"@.len() != "up"@.len());
    assert("left-up"@.len() != "left"@.len());
    assert("left-up"@.len() != "right"@.len());
    assert("left-up"@.len() != "up"@.len());
    assert("left-up"@.len() != "down"@.len());
    assert("left-up"@.len() != "leftup"@.len());
    assert("left-down"@.len() != "left"@.len());
    assert("left-down"@.len() != "right"@.len());
    assert("left-down"@.len() != "up"@.len());
    assert("left-down"@.len() != "down"@.len());
    assert("left-down"@.len() != "leftup"@.len());
    assert("left-down"@.len() != "left-up"@.len());
    assert("left-down"@.len() != "leftdown"@.len());
    assert("right-up"@.len() != "left"@.len());
    assert("right-up"@.len() != "right"@.len());
    assert("right-up"@.len() != "up"@.len());
    assert("right-up"@.len() != "down"@.len());
    assert("right-up"@.len() != "leftup"@.len());
    assert("right-up"@.len() != "left-up"@.len());
    assert("right-up"@[0] != "leftdown"@[0]);
    assert("right-up"@.len() != "left-down"@.len());
    assert("right-up"@.len() != "rightup"@.len());
    assert("right-down"@.len() != "left"@.len());
    assert("right-down"@.len() != "right"@.len());
    assert("right-down"@.len() != "up"@.len());
    assert("right-down"@.len() != "down"@.len());
    assert("right-down"@.len() != "leftup"@.len());
    assert("right-down"@.len() != "left-up"@.len());
    assert("right-down"@.len() != "leftdown"@.len());
    assert("right-down"@.len() != "left-down"@.len());
    assert("right-down"@.len() != "rightup"@.len());
    assert("right-down"@.len() != "right-up"@.len());
    assert("right-down"@.len() != "rightdown"@.len());
}

/// The camera moves in the direction of the word: on the first channel and at half speed,
/// until it is stopped, unless the speed, the duration and the channel are named, each by its
/// own option.
pub proof fn law_moving_by_words(
    word: Seq<char>,
    direction: PtzDirection,
    speed: u8,
    duration_ms: u64,
    channel: u8,
)
    requires
        direction_named(word) == Some(direction),
    ensures
        cli_meaning(seq!["ptz"@, "move"@, word]) == Ok::<CliModel, ErrorModel>(
            CliModel::PtzMove { channel: 0, direction, speed: 32, duration_ms: None },
        ),
        cli_meaning(
            seq![
                "ptz"@,
                "move"@,
                word,
                "--speed"@,
                dec(speed as nat),
                "--duration"@,
                dec(duration_ms as nat),
                "--channel"@,
                dec(channel as nat),
            ],
        ) == Ok::<CliModel, ErrorModel>(
            CliModel::PtzMove { channel, direction, speed, duration_ms: Some(duration_ms) },
        ),
{
    lemma_commands_differ();
    lemma_ptz_actions_differ();
    lemma_move_options_differ();
    law_numbers_are_read(speed, duration_ms, 0, 0, "speed"@);
    law_numbers_are_read(channel, duration_ms, 0, 0, "channel"@);
    law_numbers_are_read(channel, duration_ms, 0, 0, "duration"@);
    reveal_with_fuel(move_options, 5);
    let short = seq!["ptz"@, "move"@, word];
    let options = seq![
        word,
        "--speed"@,
        dec(speed as nat),
        "--duration"@,
        dec(duration_ms as nat),
        "--channel"@,
        dec(channel as nat),
    ];
    let long = seq!["ptz"@, "move"@] + options;
    assert(long =~= seq![
        "ptz"@,
        "move"@,
        word,
        "--speed"@,
        dec(speed as nat),
        "--duration"@,
        dec(duration_ms as nat),
        "--channel"@,
        dec(channel as nat),
    ]);
    assert(short.skip(1)[0] == "move"@);
    assert(short.skip(1).skip(1) =~= seq![word]);
    assert(long.skip(1)[0] == "move"@);
    assert(long.skip(1).skip(1) =~= options);
}

/// The camera moves to the counts that are named, pan before tilt: within ten counts and
/// twenty-five seconds, unless others are named, each by its own option.
pub proof fn law_moving_to_counts_by_words(
    pan_count: i64,
    tilt_count: i64,
    tol_count: i64,
    timeout_ms: u64,
    channel: u8,
)
    ensures
        cli_meaning(
            seq!["ptz"@, "set-absolute"@, dec_int(pan_count as int), dec_int(tilt_count as int)],
        ) == Ok::<CliModel, ErrorModel>(
            CliModel::PtzSetAbsolute {
                channel: 0,
                pan_count,
                tilt_count,
                tol_count: 10,
                timeout_ms: 25000,
            },
        ),
        cli_meaning(
            seq![
                "ptz"@,
                "set-absolute"@,
                dec_int(pan_count as int),
                dec_int(tilt_count as int),
                "--tol-count"@,
                dec_int(tol_count as int),
                "--timeout-ms"@,
                dec(timeout_ms as nat),
                "--channel"@,
                dec(channel as nat),
            ],
        ) == Ok::<CliModel, ErrorModel>(
            CliModel::PtzSetAbsolute { channel, pan_count, tilt_count, tol_count, timeout_ms },
        ),
{
    lemma_commands_differ();
    lemma_ptz_actions_differ();
    lemma_absolute_options_differ();
    law_numbers_are_read(channel, timeout_ms, pan_count, 0, "pan_count"@);
    law_numbers_are_read(channel, timeout_ms, tilt_count, 0, "tilt_count"@);
    law_numbers_are_read(channel, timeout_ms, tol_count, 0, "tol_count"@);
    law_numbers_are_read(channel, timeout_ms, tol_count, 0, "timeout_ms"@);
    law_numbers_are_read(channel, timeout_ms, tol_count, 0, "channel"@);
    reveal_with_fuel(absolute_options, 5);
    let counts = seq![dec_int(pan_count as int), dec_int(tilt_count as int)];
    let options = counts + seq![
        "--tol-count"@,
        dec_int(tol_count as int),
        "--timeout-ms"@,
        dec(timeout_ms as nat),
        "--channel"@,
        dec(channel as nat),
    ];
    let short = seq![
        "ptz"@,
        "set-absolute"@,
        dec_int(pan_count as int),
        dec_int(tilt_count as int),
    ];
    let long = seq![
        "ptz"@,
        "set-absolute"@,
        dec_int(pan_count as int),
        dec_int(tilt_count as int),
        "--tol-count"@,
        dec_int(tol_count as int),
        "--timeout-ms"@,
        dec(timeout_ms as nat),
        "--channel"@,
        dec(channel as nat),
    ];
    assert(short.skip(1)[0] == "set-absolute"@);
    assert(short.skip(1).skip(1) =~= counts);
    assert(long.skip(1)[0] == "set-absolute"@);
    assert(long.skip(1).skip(1) =~= options);
}

/// The other words after `ptz`, with the channel that is named, or the first.
pub proof fn law_other_ptz_words(channel: u8, preset_id: u8)
    ensures
        cli_meaning(seq!["ptz"@, "stop"@]) == Ok::<CliModel, ErrorModel>(
            CliModel::PtzStop { channel: 0 },
        ),
        cli_meaning(seq!["ptz"@, "stop"@, "--channel"@, dec(channel as nat)]) == Ok::<
            CliModel,
            ErrorModel,
        >(CliModel::PtzStop { channel }),
        cli_meaning(seq!["ptz"@, "get-absolute"@, "--channel"@, dec(channel as nat)]) == Ok::<
            CliModel,
            ErrorModel,
        >(CliModel::PtzGetAbsolute { channel }),
        cli_meaning(seq!["ptz"@, "calibrate"@, "auto"@, "--channel"@, dec(channel as nat)]) == Ok::<
            CliModel,
            ErrorModel,
        >(CliModel::PtzCalibrateAuto { channel }),
        cli_meaning(seq!["ptz"@, "preset"@, "list"@, "--channel"@, dec(channel as nat)]) == Ok::<
            CliModel,
            ErrorModel,
        >(CliModel::PtzPresetList { channel }),
        cli_meaning(
            seq![
                "ptz"@,
                "preset"@,
                "goto"@,
                dec(preset_id as nat),
                "--channel"@,
                dec(channel as nat),
            ],
        ) == Ok::<CliModel, ErrorModel>(CliModel::PtzPresetGoto { channel, preset_id }),
        cli_meaning(seq!["ptz"@, "preset"@, "goto"@, dec(preset_id as nat)]) == Ok::<
            CliModel,
            ErrorModel,
        >(CliModel::PtzPresetGoto { channel: 0, preset_id }),
{
    lemma_commands_differ();
    lemma_ptz_actions_differ();
    lemma_other_words_differ();
    law_numbers_are_read(channel, 0, 0, 0, "channel"@);
    law_numbers_are_read(preset_id, 0, 0, 0, "preset_id"@);
    let flag = seq!["--channel"@, dec(channel as nat)];
    let stop = seq!["ptz"@, "stop"@];
    assert(stop.skip(1)[0] == "stop"@ && stop.skip(1).skip(1).len() == 0);
    let stop_on = seq!["ptz"@, "stop"@, "--channel"@, dec(channel as nat)];
    assert(stop_on.skip(1)[0] == "stop"@ && stop_on.skip(1).skip(1) =~= flag);
    let get = seq!["ptz"@, "get-absolute"@, "--channel"@, dec(channel as nat)];
    assert(get.skip(1)[0] == "get-absolute"@ && get.skip(1).skip(1) =~= flag);
    let auto = seq!["ptz"@, "calibrate"@, "auto"@, "--channel"@, dec(channel as nat)];
    assert(auto.skip(1)[0] == "calibrate"@);
    assert(auto.skip(1).skip(1)[0] == "auto"@);
    assert(auto.skip(1).skip(1).skip(1) =~= flag);
    let list = seq!["ptz"@, "preset"@, "list"@, "--channel"@, dec(channel as nat)];
    assert(list.skip(1)[0] == "preset"@);
    assert(list.skip(1).skip(1)[0] == "list"@);
    assert(list.skip(1).skip(1).skip(1) =~= flag);
    let goto = seq![
        "ptz"@,
        "preset"@,
        "goto"@,
        dec(preset_id as nat),
        "--channel"@,
        dec(channel as nat),
    ];
    assert(goto.skip(1)[0] == "preset"@);
    assert(goto.skip(1).skip(1)[0] == "goto"@);
    assert(goto.skip(1).skip(1)[1] == dec(preset_id as nat));
    assert(goto.skip(1).skip(1).skip(2) =~= flag);
    let short = seq!["ptz"@, "preset"@, "goto"@, dec(preset_id as nat)];
    assert(short.skip(1)[0] == "preset"@);
    assert(short.skip(1).skip(1)[0] == "goto"@);
    assert(short.skip(1).skip(1)[1] == dec(preset_id as nat));
    assert(short.skip(1).skip(1).skip(2).len() == 0);
}

/// Moving by a distance over ONVIF: pan before tilt.
pub proof fn law_moving_by_distances_by_words(pan: i64, tilt: i64)
    ensures
        cli_meaning(
            seq!["ptz"@, "onvif"@, "relative-move"@, dec_int(pan as int), dec_int(tilt as int)],
        ) == Ok::<CliModel, ErrorModel>(
            CliModel::PtzOnvifRelativeMove {
                channel: 0,
                pan_delta_count: pan,
                tilt_delta_count: tilt,
            },
        ),
        cli_meaning(seq!["ptz"@, "onvif"@, "status"@]) == Ok::<CliModel, ErrorModel>(
            CliModel::PtzOnvifStatus { channel: 0 },
        ),
        cli_meaning(seq!["ptz"@, "onvif"@, "options"@]) == Ok::<CliModel, ErrorModel>(
            CliModel::PtzOnvifOptions { channel: 0 },
        ),
{
    lemma_commands_differ();
    lemma_ptz_actions_differ();
    lemma_other_words_differ();
    lemma_onvif_words_differ();
    law_numbers_are_read(0, 0, pan, 0, "pan_delta_count"@);
    law_numbers_are_read(0, 0, tilt, 0, "tilt_delta_count"@);
    let by = seq!["ptz"@, "onvif"@, "relative-move"@, dec_int(pan as int), dec_int(tilt as int)];
    assert(by.skip(1)[0] == "onvif"@);
    assert(by.skip(1).skip(1)[0] == "relative-move"@);
    assert(by.skip(1).skip(1)[1] == dec_int(pan as int));
    assert(by.skip(1).skip(1)[2] == dec_int(tilt as int));
    assert(by.skip(1).skip(1).skip(3).len() == 0);
    let status = seq!["ptz"@, "onvif"@, "status"@];
    assert(status.skip(1)[0] == "onvif"@);
    assert(status.skip(1).skip(1)[0] == "status"@);
    assert(status.skip(1).skip(1).skip(1).len() == 0);
    let options = seq!["ptz"@, "onvif"@, "options"@];
    assert(options.skip(1)[0] == "onvif"@);
    assert(options.skip(1).skip(1)[0] == "options"@);
    assert(options.skip(1).skip(1).skip(1).len() == 0);
}

/// The words after `onvif` differ.
proof fn lemma_onvif_words_differ()
    ensures
        "options"@ != "status"@,
        "relative-move"@ != "status"@,
        "relative-move"@ != "options"@,
        "onvif"@ != "status"@,
        "onvif"@ != "options"@,
        "onvif"@ != "relative-move"@,
        "move"@ != "status"@,
        "move"@ != "options"@,
        "move"@ != "relative-move"@,
        "move"@ != "onvif"@,
        "stop"@ != "status"@,
        "stop"@ != "options"@,
        "stop"@ != "relative-move"@,
        "stop"@ != "onvif"@,
        "stop"@ != "move"@,
        "preset"@ != "status"@,
        "preset"@ != "options"@,
        "preset"@ != "relative-move"@,
        "preset"@ != "onvif"@,
        "preset"@ != "move"@,
        "preset"@ != "stop"@,
        "calibrate"@ != "status"@,
        "calibrate"@ != "options"@,
        "calibrate"@ != "relative-move"@,
        "calibrate"@ != "onvif"@,
        "calibrate"@ != "move"@,
        "calibrate"@ != "stop"@,
        "calibrate"@ != "preset"@,
        "set-absolute"@ != "status"@,
        "set-absolute"@ != "options"@,
        "set-absolute"@ != "relative-move"@,
        "set-absolute"@ != "onvif"@,
        "set-absolute"@ != "move"@,
        "set-absolute"@ != "stop"@,
        "set-absolute"@ != "preset"@,
        "set-absolute"@ != "calibrate"@,
        "get-absolute"@ != "status"@,
        "get-absolute"@ != "options"@,
        "get-absolute"@ != "relative-move"@,
        "get-absolute"@ != "onvif"@,
        "get-absolute"@ != "move"@,
        "get-absolute"@ != "stop"@,
        "get-absolute"@ != "preset"@,
        "get-absolute"@ != "calibrate"@,
        "get-absolute"@ != "set-absolute"@,
{
    reveal_strlit("status");
    reveal_strlit("options");
    reveal_strlit("relative-move");
    reveal_strlit("onvif");
    reveal_strlit("move");
    reveal_strlit("stop");
    reveal_strlit("preset");
    reveal_strlit("calibrate");
    reveal_strlit("set-absolute");
    reveal_strlit("get-absolute");
    assert("options"@.len() != "status"@.len());
    assert("relative-move"@.len() != "status"@.len());
    assert("relative-move"@.len() != "options"@.len());
    assert("onvif"@.len() != "status"@.len());
    assert("onvif"@.len() != "options"@.len());
    assert("onvif"@.len() != "relative-move"@.len());
    assert("move"@.len() != "status"@.len());
    assert("move"@.len() != "options"@.len());
    assert("move"@.len() != "relative-move"@.len());
    assert("move"@.len() != "onvif"@.len());
    assert("stop"@.len() != "status"@.len());
    assert("stop"@.len() != "options"@.len());
    assert("stop"@.len() != "relative-move"@.len());
    assert("stop"@.len() != "onvif"@.len());
    assert("stop"@[0] != "move"@[0]);
    assert("preset"@[0] != "status"@[0]);
    assert("preset"@.len() != "options"@.len());
    assert("preset"@.len() != "relative-move"@.len());
    assert("preset"@.len() != "onvif"@.len());
    assert("preset"@.len() != "move"@.len());
    assert("preset"@.len() != "stop"@.len());
    assert("calibrate"@.len() != "status"@.len());
    assert("calibrate"@.len() != "options"@.len());
    assert("calibrate"@.len() != "relative-move"@.len());
    assert("calibrate"@.len() != "onvif"@.len());
    assert("calibrate"@.len() != "move"@.len());
    assert("calibrate"@.len() != "stop"@.len());
    assert("calibrate"@.len() != "preset"@.len());
    assert("set-absolute"@.len() != "status"@.len());
    assert("set-absolute"@.len() != "options"@.len());
    assert("set-absolute"@.len() != "relative-move"@.len());
    assert("set-absolute"@.len() != "onvif"@.len());
    assert("set-absolute"@.len() != "move"@.len());
    assert("set-absolute"@.len() != "stop"@.len());
    assert("set-absolute"@.len() != "preset"@.len());
    assert("set-absolute"@.len() != "calibrate"@.len());
    assert("get-absolute"@.len() != "status"@.len());
    assert("get-absolute"@.len() != "options"@.len());
    assert("get-absolute"@.len() != "relative-move"@.len());
    assert("get-absolute"@.len() != "onvif"@.len());
    assert("get-absolute"@.len() != "move"@.len());
    assert("get-absolute"@.len() != "stop"@.len());
    assert("get-absolute"@.len() != "preset"@.len());
    assert("get-absolute"@.len() != "calibrate"@.len());
    assert("get-absolute"@[0] != "set-absolute"@[0]);
}


// ---------------------------------------------------------------- tools

/// What the tools ask for.
pub proof fn law_tools_ask_for(args: Seq<Seq<char>>)
    ensures
        tool_meaning("reolink.get_dev_info"@, args) == Some(
            Ok::<CliModel, ErrorModel>(CliModel::GetDevInfo),
        ),
        tool_meaning("reolink.get_time"@, args) == Some(
            Ok::<CliModel, ErrorModel>(CliModel::GetTime),
        ),
        tool_meaning("reolink.get_net_port"@, args) == Some(
            Ok::<CliModel, ErrorModel>(CliModel::GetNetPort),
        ),
        args.len() > 0 ==> tool_meaning("reolink.get_ability"@, args) == Some(
            Ok::<CliModel, ErrorModel>(CliModel::GetAbility { user_name: args[0] }),
        ),
        args.len() > 0 ==> tool_meaning("reolink.set_time"@, args) == Some(
            Ok::<CliModel, ErrorModel>(CliModel::SetTime { iso8601: args[0] }),
        ),
        args.len() > 1 ==> tool_meaning("reolink.get_user_auth"@, args) == Some(
            Ok::<CliModel, ErrorModel>(
                CliModel::GetUserAuth { user_name: args[0], password: args[1] },
            ),
        ),
{
    lemma_tools_differ();
}

/// The tools of a channel: the one that is named, or the first.
pub proof fn law_tools_of_a_channel(channel: u8)
    ensures
        tool_meaning("reolink.get_channel_status"@, seq![dec(channel as nat)]) == Some(
            Ok::<CliModel, ErrorModel>(CliModel::GetChannelStatus { channel }),
        ),
        tool_meaning("reolink.get_ptz_status"@, seq![dec(channel as nat)]) == Some(
            Ok::<CliModel, ErrorModel>(CliModel::GetPtzStatus { channel }),
        ),
        tool_meaning("reolink.ptz_stop"@, seq![dec(channel as nat)]) == Some(
            Ok::<CliModel, ErrorModel>(CliModel::PtzStop { channel }),
        ),
        tool_meaning("reolink.ptz_preset_list"@, seq![dec(channel as nat)]) == Some(
            Ok::<CliModel, ErrorModel>(CliModel::PtzPresetList { channel }),
        ),
        tool_meaning("reolink.ptz_calibrate_auto"@, seq![dec(channel as nat)]) == Some(
            Ok::<CliModel, ErrorModel>(CliModel::PtzCalibrateAuto { channel }),
        ),
        tool_meaning("reolink.ptz_get_absolute"@, seq![dec(channel as nat)]) == Some(
            Ok::<CliModel, ErrorModel>(CliModel::PtzGetAbsolute { channel }),
        ),
        tool_meaning("reolink.ptz_stop"@, Seq::empty()) == Some(
            Ok::<CliModel, ErrorModel>(CliModel::PtzStop { channel: 0 }),
        ),
        tool_meaning("reolink.snap"@, seq![dec(channel as nat)]) == Some(
            Ok::<CliModel, ErrorModel>(CliModel::Snap { channel, out: None }),
        ),
{
    lemma_tools_differ();
    law_numbers_are_read(channel, 0, 0, 0, "channel"@);
}

/// The tools that move: the direction, the speed and the duration, or the counts, pan before
/// tilt, each in its place, after the channel.
pub proof fn law_tools_that_move(
    word: Seq<char>,
    direction: PtzDirection,
    channel: u8,
    speed: u8,
    duration_ms: u64,
    pan_count: i64,
    tilt_count: i64,
    tol_count: i64,
)
    requires
        direction_named(word) == Some(direction),
    ensures
        tool_meaning(
            "reolink.ptz_move"@,
            seq![dec(channel as nat), word, dec(speed as nat), dec(duration_ms as nat)],
        ) == Some(
            Ok::<CliModel, ErrorModel>(
                CliModel::PtzMove { channel, direction, speed, duration_ms: Some(duration_ms) },
            ),
        ),
        tool_meaning("reolink.ptz_move"@, seq![dec(channel as nat), word]) == Some(
            Ok::<CliModel, ErrorModel>(
                CliModel::PtzMove { channel, direction, speed: 32, duration_ms: None },
            ),
        ),
        tool_meaning(
            "reolink.ptz_set_absolute"@,
            seq![
                dec(channel as nat),
                dec_int(pan_count as int),
                dec_int(tilt_count as int),
                dec_int(tol_count as int),
                dec(duration_ms as nat),
            ],
        ) == Some(
            Ok::<CliModel, ErrorModel>(
                CliModel::PtzSetAbsolute {
                    channel,
                    pan_count,
                    tilt_count,
                    tol_count,
                    timeout_ms: duration_ms,
                },
            ),
        ),
        tool_meaning("reolink.ptz_preset_goto"@, seq![dec(channel as nat), dec(speed as nat)])
            == Some(
            Ok::<CliModel, ErrorModel>(CliModel::PtzPresetGoto { channel, preset_id: speed }),
        ),
{
    lemma_tools_differ();
    law_numbers_are_read(channel, duration_ms, pan_count, 0, "channel"@);
    law_numbers_are_read(speed, duration_ms, pan_count, 0, "speed"@);
    law_numbers_are_read(speed, duration_ms, pan_count, 0, "preset_id"@);
    law_numbers_are_read(speed, duration_ms, pan_count, 0, "duration_ms"@);
    law_numbers_are_read(speed, duration_ms, pan_count, 0, "pan_count"@);
    law_numbers_are_read(speed, duration_ms, tilt_count, 0, "tilt_count"@);
    law_numbers_are_read(speed, duration_ms, tol_count, 0, "tol_count"@);
    law_numbers_are_read(speed, duration_ms, tol_count, 0, "timeout_ms"@);
}

/// Switching ONVIF by a tool.
pub proof fn law_tool_that_switches(word: Seq<char>, enabled: bool, port: u16)
    requires
        on_off_word(word) == Some(enabled),
        port > 0,
    ensures
        tool_meaning("reolink.set_onvif_enabled"@, seq![word]) == Some(
            Ok::<CliModel, ErrorModel>(CliModel::SetOnvif { enabled, onvif_port: None }),
        ),
        tool_meaning("reolink.set_onvif_enabled"@, seq![word, dec(port as nat)]) == Some(
            Ok::<CliModel, ErrorModel>(CliModel::SetOnvif { enabled, onvif_port: Some(port) }),
        ),
{
    lemma_tools_differ();
    law_numbers_are_read(0, 0, 0, port, "onvif_port"@);
}

// ---------------------------------------------------------------- what a command needs

/// A command is carried out only where the camera supports what it needs: movements need the
/// control of the camera, and the others the command that they send.
pub proof fn law_commands_need(channel: u8, preset_id: u8)
    ensures
        needed_command(CliModel::GetDevInfo) == Some(CgiCommand::GetDevInfo),
        needed_command(CliModel::GetTime) == Some(CgiCommand::GetTime),
        needed_command(CliModel::GetChannelStatus { channel }) == Some(
            CgiCommand::GetChannelStatus,
        ),
        needed_command(CliModel::Snap { channel, out: None }) == Some(CgiCommand::Snap),
        needed_command(CliModel::PtzStop { channel }) == Some(CgiCommand::PtzCtrl),
        needed_command(CliModel::PtzPresetList { channel }) == Some(CgiCommand::GetPtzPreset),
        needed_command(CliModel::PtzPresetGoto { channel, preset_id }) == Some(CgiCommand::PtzCtrl),
        needed_command(CliModel::PtzCalibrateAuto { channel }) == Some(CgiCommand::PtzCtrl),
        tool_need("reolink.get_dev_info"@) == Some(CgiCommand::GetDevInfo),
        tool_need("reolink.get_channel_status"@) == Some(CgiCommand::GetChannelStatus),
        tool_need("reolink.get_time"@) == Some(CgiCommand::GetTime),
        tool_need("reolink.set_time"@) == Some(CgiCommand::SetTime),
        tool_need("reolink.snap"@) == Some(CgiCommand::Snap),
        tool_need("reolink.ptz_preset_list"@) == Some(CgiCommand::GetPtzPreset),
        tool_need("reolink.ptz_move"@) == Some(CgiCommand::PtzCtrl),
        tool_need("reolink.ptz_stop"@) == Some(CgiCommand::PtzCtrl),
{
    lemma_tools_differ();
}

/// What the camera supports decides: a command that is not listed is refused, and one that is
/// listed, or that needs nothing, is not.
pub proof fn law_support_decides(command: CgiCommand, known: AbilityModel)
    ensures
        support_of(Some(command), Some(Ok(known))) is Supported <==> known.supported_commands.contains(
            command,
        ),
        !known.supported_commands.contains(command) ==> (support_of(
            Some(command),
            Some(Ok(known)),
        ) matches SupportModel::Refused(error) && error.kind == ErrorKind::UnsupportedCommand),
        support_of(None, Some(Ok(known))) is Supported,
        support_of(Some(command), None) is Unknown,
{
}

// ---------------------------------------------------------------- running

/// A command is checked, carried out and reported: what is printed is its report, and an error
/// is passed on.
pub proof fn law_commands_are_carried_out(
    args: Seq<Seq<char>>,
    command: CliModel,
    user_name: Seq<char>,
    ability: AbilityModel,
    report: crate::interfaces::report::ReportModel,
    error: ErrorModel,
)
    requires
        cli_meaning(args) == Ok::<CliModel, ErrorModel>(command),
        !(command is Help),
        needed_command(command) matches Some(needed) ==> ability.supported_commands.contains(needed),
        crate::interfaces::report::fits(command, report),
    ensures
        needed_command(command) is Some ==> crate::interfaces::cli_handlers::run_step(
            args,
            user_name,
            None,
            None,
        ) == (crate::interfaces::report::ProgramModel::CheckAbility { user_name }),
        crate::interfaces::cli_handlers::run_step(args, user_name, Some(Ok(ability)), None)
            == crate::interfaces::report::ProgramModel::Perform(command),
        crate::interfaces::cli_handlers::run_step(
            args,
            user_name,
            Some(Ok(ability)),
            Some(Ok(report)),
        ) == crate::interfaces::report::ProgramModel::Done(
            Ok::<Seq<char>, ErrorModel>(
                crate::interfaces::cli_handlers::printed(command, report),
            ),
        ),
        crate::interfaces::cli_handlers::run_step(
            args,
            user_name,
            Some(Ok(ability)),
            Some(Err(error)),
        ) == crate::interfaces::report::ProgramModel::Done(Err::<Seq<char>, ErrorModel>(error)),
{
}

/// The same of a tool's request, whose answer is an object.
pub proof fn law_requests_are_carried_out(
    tool: Seq<char>,
    args: Seq<Seq<char>>,
    command: CliModel,
    user_name: Seq<char>,
    ability: AbilityModel,
    report: crate::interfaces::report::ReportModel,
    text: Seq<char>,
    error: ErrorModel,
)
    requires
        tool != "mcp.list_tools"@,
        tool_meaning(tool, args) == Some(Ok::<CliModel, ErrorModel>(command)),
        tool_need(tool) matches Some(needed) ==> ability.supported_commands.contains(needed),
        crate::interfaces::report::fits(command, report),
        crate::json::text_of_json(
            crate::interfaces::mcp_handlers::answer_tree(command, report),
        ) == Ok::<Seq<char>, Seq<char>>(text),
    ensures
        crate::interfaces::mcp_handlers::request_step(
            tool,
            args,
            user_name,
            Some(Ok(ability)),
            None,
        ) == crate::interfaces::report::ProgramModel::Perform(command),
        crate::interfaces::mcp_handlers::request_step(
            tool,
            args,
            user_name,
            Some(Ok(ability)),
            Some(Ok(report)),
        ) == crate::interfaces::report::ProgramModel::Done(Ok::<Seq<char>, ErrorModel>(text)),
        crate::interfaces::mcp_handlers::request_step(
            tool,
            args,
            user_name,
            Some(Ok(ability)),
            Some(Err(error)),
        ) == crate::interfaces::report::ProgramModel::Done(Err::<Seq<char>, ErrorModel>(error)),
{
}

/// Every tool is listed, in order, by its name.
pub proof fn law_tools_are_listed(k: int)
    requires
        0 <= k < crate::interfaces::mcp_tools::all_tools().len(),
    ensures
        crate::json::tree_get(crate::interfaces::mcp_handlers::tools_tree(), "tools"@)
            matches Some(crate::json::JsonTree::Array(items)) && items.len()
            == crate::interfaces::mcp_tools::all_tools().len() && items[k]
            == crate::json::JsonTree::Text(crate::interfaces::mcp_tools::all_tools()[k].0),
{
    let tools = crate::interfaces::mcp_tools::all_tools();
    let list = crate::json::JsonTree::Array(
        Seq::new(tools.len(), |i: int| crate::json::JsonTree::Text(tools[i].0)),
    );
    crate::laws::answers::law_members_are_found(
        crate::json::empty_tree(),
        "tools"@,
        list,
        "tools"@,
    );
}

/// Words that are not understood are refused.
pub proof fn law_other_words_are_refused(
    word: Seq<char>,
    args: Seq<Seq<char>>,
    number: Seq<char>,
)
    requires
        direction_named(word) is None,
        on_off_word(word) is None,
        u8_arg(number, "channel"@) is Err,
    ensures
        cli_meaning(seq!["ptz"@, "move"@, word]) matches Err(error) && error.kind
            == ErrorKind::InvalidInput,
        cli_meaning(seq!["set-onvif"@, word]) matches Err(error) && error.kind
            == ErrorKind::InvalidInput,
        cli_meaning(seq!["get-channel-status"@, number]) matches Err(error) && error.kind
            == ErrorKind::InvalidInput,
        tool_meaning("reolink.ptz_stop"@, seq![number]) matches Some(Err(error)) && error.kind
            == ErrorKind::InvalidInput,
        tool_meaning("reolink.set_onvif_enabled"@, seq![word]) matches Some(Err(error))
            && error.kind == ErrorKind::InvalidInput,
{
    lemma_commands_differ();
    lemma_ptz_actions_differ();
    lemma_tools_differ();
    let moved = seq!["ptz"@, "move"@, word];
    assert(moved.skip(1)[0] == "move"@);
    assert(moved.skip(1).skip(1)[0] == word);
    assert(seq!["set-onvif"@, word].skip(1)[0] == word);
}

/// A report fits the command that asks for it, and no other kind of report does.
pub proof fn law_reports_fit(channel: u8, time: Seq<char>, status: crate::model::ChannelStatus)
    ensures
        crate::interfaces::report::fits(
            CliModel::GetTime,
            crate::interfaces::report::ReportModel::Time(time),
        ),
        crate::interfaces::report::fits(
            CliModel::GetChannelStatus { channel },
            crate::interfaces::report::ReportModel::Channel(status),
        ),
        crate::interfaces::report::fits(
            CliModel::PtzStop { channel },
            crate::interfaces::report::ReportModel::Moved,
        ),
        !crate::interfaces::report::fits(
            CliModel::GetTime,
            crate::interfaces::report::ReportModel::Moved,
        ),
        !crate::interfaces::report::fits(
            CliModel::PtzStop { channel },
            crate::interfaces::report::ReportModel::Time(time),
        ),
{
}

} // verus!
