//! What the command line and the tool protocol have in common: the operations of the program.
pub mod failure_modes;
pub mod get_ability;
pub mod get_channel_status;
pub mod get_dev_info;
pub mod get_ptz_status;
pub mod get_time;
pub mod get_user_auth;
pub mod net_port;
pub mod preflight;
pub mod ptz_calibrate_auto;
pub mod ptz_calibration;
pub mod ptz_control_limits;
pub mod ptz_control_loop;
pub mod ptz_deadband;
pub mod ptz_get_absolute_raw;
pub mod ptz_loop_state;
pub mod ptz_move;
pub mod ptz_preset_goto;
pub mod ptz_preset_list;
pub mod ptz_set_absolute_raw;
pub mod ptz_settle_gate;
pub mod ptz_stop;
pub mod ptz_transport;
pub mod seconds_text;
pub mod set_time;
pub mod snap;
