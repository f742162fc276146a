//! The lines of the help text, and what they stand for.
use crate::error::ErrorKind;
use crate::interfaces::arguments::{i64_arg, on_off_word, port_arg, u64_arg, u8_arg};
use crate::interfaces::cli_args::{
    absolute_options, cli_meaning, help_of, move_options, ptz_meaning, set_onvif_options,
    snap_arguments, snap_meaning, usage, CliModel, DEFAULT_ABSOLUTE_RAW_TOL_COUNT,
    DEFAULT_ABSOLUTE_TIMEOUT_MS, DEFAULT_SPEED,
};
use crate::model::direction_named;
use crate::text::{is_digit, parse_unsigned, starts_with, trim};
use vstd::prelude::*;

verus! {

// ---------------------------------------------------------------- lines

/// A text has a line, indented by two blanks.
pub open spec fn has_line(text: Seq<char>, line: Seq<char>) -> bool {
    exists|before: Seq<char>, after: Seq<char>|
        #![trigger before + "\n  "@ + line + after]
        text == before + "\n  "@ + line + after && (after.len() == 0 || after[0] == '\n')
}

// ---------------------------------------------------------------- what lines stand for

/// `[channel]` after the command.
pub open spec fn takes_channel_word(args: Seq<Seq<char>>) -> bool {
    args.len() == 1 || (args.len() == 2 && u8_arg(args[1], "channel"@) is Ok)
}

/// `[--channel <0-255>]` at the end.
pub open spec fn takes_channel_flag(args: Seq<Seq<char>>, at: int) -> bool {
    args.len() == at || (args.len() == at + 2 && args[at] == "--channel"@ && u8_arg(
        args[at + 1],
        "channel"@,
    ) is Ok)
}

/// `--out path`, with a path that is not blank.
pub open spec fn takes_out(args: Seq<Seq<char>>, at: int) -> bool {
    args.len() == at + 2 && args[at] == "--out"@ && trim(args[at + 1]).len() > 0
}

/// `[channel] [--out path]` after the command.
pub open spec fn takes_snap_words(args: Seq<Seq<char>>) -> bool {
    ||| args.len() == 1
    ||| takes_out(args, 1)
    ||| args.len() >= 2 && u8_arg(args[1], "channel"@) is Ok && (args.len() == 2 || takes_out(
        args,
        2,
    ))
}

/// `[--speed <1-64>] [--duration <ms>] [--channel <0-255>]`, in any order.
pub open spec fn takes_move_options(args: Seq<Seq<char>>, at: int) -> bool
    decreases args.len() - at,
{
    if at < 0 || at >= args.len() {
        at == args.len()
    } else {
        &&& at + 1 < args.len()
        &&& {
            ||| args[at] == "--speed"@ && u8_arg(args[at + 1], "speed"@) is Ok
            ||| args[at] == "--duration"@ && u64_arg(args[at + 1], "duration"@) is Ok
            ||| args[at] == "--channel"@ && u8_arg(args[at + 1], "channel"@) is Ok
        }
        &&& takes_move_options(args, at + 2)
    }
}

/// `[--tol-count <i64>] [--timeout-ms <u64>] [--channel <0-255>]`, in any order.
pub open spec fn takes_absolute_options(args: Seq<Seq<char>>, at: int) -> bool
    decreases args.len() - at,
{
    if at < 0 || at >= args.len() {
        at == args.len()
    } else {
        &&& at + 1 < args.len()
        &&& {
            ||| args[at] == "--tol-count"@ && i64_arg(args[at + 1], "tol_count"@) is Ok
            ||| args[at] == "--timeout-ms"@ && u64_arg(args[at + 1], "timeout_ms"@) is Ok
            ||| args[at] == "--channel"@ && u8_arg(args[at + 1], "channel"@) is Ok
        }
        &&& takes_absolute_options(args, at + 2)
    }
}

/// The arguments are what a line of the help text describes, with valid values in place of
/// its placeholders, and with or without its optional parts.
pub open spec fn is_use_of(line: Seq<char>, args: Seq<Seq<char>>) -> bool {
    args.len() >= 1 && (
    if line == "reocli help"@ {
        args.len() == 1 && args[0] == "help"@
    } else if line == "reocli get-user-auth <user> <password>"@ {
        args.len() == 3 && args[0] == "get-user-auth"@
    } else if line == "reocli get-ability [user]"@ {
        1 <= args.len() <= 2 && args[0] == "get-ability"@
    } else if line == "reocli get-dev-info"@ {
        args.len() == 1 && args[0] == "get-dev-info"@
    } else if line == "reocli get-channel-status [channel]"@ {
        args[0] == "get-channel-status"@ && takes_channel_word(args)
    } else if line == "reocli get-ptz-status [channel]"@ {
        args[0] == "get-ptz-status"@ && takes_channel_word(args)
    } else if line == "reocli get-time"@ {
        args.len() == 1 && args[0] == "get-time"@
    } else if line == "reocli get-net-port"@ {
        args.len() == 1 && args[0] == "get-net-port"@
    } else if line == "reocli set-time <iso8601>"@ {
        args.len() == 2 && args[0] == "set-time"@
    } else if line == "reocli set-onvif <on|off> [--port <1-65535>]"@ {
        args.len() >= 2 && args[0] == "set-onvif"@ && on_off_word(args[1]) is Some && (args.len() == 2 || (args.len() == 4 && args[2] == "--port"@ && port_arg(args[3], "onvif_port"@) is Ok))
    } else if line == "reocli snap [channel] [--out path]"@ {
        args.len() >= 1 && args[0] == "snap"@ && takes_snap_words(args)
    } else if line == "reocli ptz move <direction> [--speed <1-64>] [--duration <ms>] [--channel <0-255>]"@ {
        args.len() >= 3 && args[0] == "ptz"@ && args[1] == "move"@ && direction_named(args[2]) is Some && takes_move_options(args, 3)
    } else if line == "reocli ptz stop [--channel <0-255>]"@ {
        args.len() >= 2 && args[0] == "ptz"@ && args[1] == "stop"@ && takes_channel_flag(args, 2)
    } else if line == "reocli ptz preset list [--channel <0-255>]"@ {
        args.len() >= 3 && args[0] == "ptz"@ && args[1] == "preset"@ && args[2] == "list"@ && takes_channel_flag(args, 3)
    } else if line == "reocli ptz preset goto <preset_id> [--channel <0-255>]"@ {
        args.len() >= 4 && args[0] == "ptz"@ && args[1] == "preset"@ && args[2] == "goto"@ && u8_arg(args[3], "preset_id"@) is Ok && takes_channel_flag(args, 4)
    } else if line == "reocli ptz calibrate auto [--channel <0-255>]"@ {
        args.len() >= 3 && args[0] == "ptz"@ && args[1] == "calibrate"@ && args[2] == "auto"@ && takes_channel_flag(args, 3)
    } else if line == "reocli ptz set-absolute <pan_count> <tilt_count> [--tol-count <i64>] [--timeout-ms <u64>] [--channel <0-255>]"@ {
        args.len() >= 4 && args[0] == "ptz"@ && args[1] == "set-absolute"@ && i64_arg(args[2], "pan_count"@) is Ok && i64_arg(args[3], "tilt_count"@) is Ok && takes_absolute_options(args, 4)
    } else if line == "reocli ptz get-absolute [--channel <0-255>]"@ {
        args.len() >= 2 && args[0] == "ptz"@ && args[1] == "get-absolute"@ && takes_channel_flag(args, 2)
    } else if line == "reocli preflight [user]"@ {
        1 <= args.len() <= 2 && args[0] == "preflight"@
    } else {
        false
    })
}

// ---------------------------------------------------------------- words

/// The commands differ from each other.
pub(crate) proof fn lemma_commands_differ()
    ensures
        "--help"@ != "help"@,
        "-h"@ != "help"@,
        "-h"@ != "--help"@,
        "get-ability"@ != "help"@,
        "get-ability"@ != "--help"@,
        "get-ability"@ != "-h"@,
        "get-dev-info"@ != "help"@,
        "get-dev-info"@ != "--help"@,
        "get-dev-info"@ != "-h"@,
        "get-dev-info"@ != "get-ability"@,
        "get-user-auth"@ != "help"@,
        "get-user-auth"@ != "--help"@,
        "get-user-auth"@ != "-h"@,
        "get-user-auth"@ != "get-ability"@,
        "get-user-auth"@ != "get-dev-info"@,
        "get-channel-status"@ != "help"@,
        "get-channel-status"@ != "--help"@,
        "get-channel-status"@ != "-h"@,
        "get-channel-status"@ != "get-ability"@,
        "get-channel-status"@ != "get-dev-info"@,
        "get-channel-status"@ != "get-user-auth"@,
        "get-ptz-status"@ != "help"@,
        "get-ptz-status"@ != "--help"@,
        "get-ptz-status"@ != "-h"@,
        "get-ptz-status"@ != "get-ability"@,
        "get-ptz-status"@ != "get-dev-info"@,
        "get-ptz-status"@ != "get-user-auth"@,
        "get-ptz-status"@ != "get-channel-status"@,
        "get-time"@ != "help"@,
        "get-time"@ != "--help"@,
        "get-time"@ != "-h"@,
        "get-time"@ != "get-ability"@,
        "get-time"@ != "get-dev-info"@,
        "get-time"@ != "get-user-auth"@,
        "get-time"@ != "get-channel-status"@,
        "get-time"@ != "get-ptz-status"@,
        "get-net-port"@ != "help"@,
        "get-net-port"@ != "--help"@,
        "get-net-port"@ != "-h"@,
        "get-net-port"@ != "get-ability"@,
        "get-net-port"@ != "get-dev-info"@,
        "get-net-port"@ != "get-user-auth"@,
        "get-net-port"@ != "get-channel-status"@,
        "get-net-port"@ != "get-ptz-status"@,
        "get-net-port"@ != "get-time"@,
        "set-time"@ != "help"@,
        "set-time"@ != "--help"@,
        "set-time"@ != "-h"@,
        "set-time"@ != "get-ability"@,
        "set-time"@ != "get-dev-info"@,
        "set-time"@ != "get-user-auth"@,
        "set-time"@ != "get-channel-status"@,
        "set-time"@ != "get-ptz-status"@,
        "set-time"@ != "get-time"@,
        "set-time"@ != "get-net-port"@,
        "set-onvif"@ != "help"@,
        "set-onvif"@ != "--help"@,
        "set-onvif"@ != "-h"@,
        "set-onvif"@ != "get-ability"@,
        "set-onvif"@ != "get-dev-info"@,
        "set-onvif"@ != "get-user-auth"@,
        "set-onvif"@ != "get-channel-status"@,
        "set-onvif"@ != "get-ptz-status"@,
        "set-onvif"@ != "get-time"@,
        "set-onvif"@ != "get-net-port"@,
        "set-onvif"@ != "set-time"@,
        "snap"@ != "help"@,
        "snap"@ != "--help"@,
        "snap"@ != "-h"@,
        "snap"@ != "get-ability"@,
        "snap"@ != "get-dev-info"@,
        "snap"@ != "get-user-auth"@,
        "snap"@ != "get-channel-status"@,
        "snap"@ != "get-ptz-status"@,
        "snap"@ != "get-time"@,
        "snap"@ != "get-net-port"@,
        "snap"@ != "set-time"@,
        "snap"@ != "set-onvif"@,
        "ptz"@ != "help"@,
        "ptz"@ != "--help"@,
        "ptz"@ != "-h"@,
        "ptz"@ != "get-ability"@,
        "ptz"@ != "get-dev-info"@,
        "ptz"@ != "get-user-auth"@,
        "ptz"@ != "get-channel-status"@,
        "ptz"@ != "get-ptz-status"@,
        "ptz"@ != "get-time"@,
        "ptz"@ != "get-net-port"@,
        "ptz"@ != "set-time"@,
        "ptz"@ != "set-onvif"@,
        "ptz"@ != "snap"@,
        "preflight"@ != "help"@,
        "preflight"@ != "--help"@,
        "preflight"@ != "-h"@,
        "preflight"@ != "get-ability"@,
        "preflight"@ != "get-dev-info"@,
        "preflight"@ != "get-user-auth"@,
        "preflight"@ != "get-channel-status"@,
        "preflight"@ != "get-ptz-status"@,
        "preflight"@ != "get-time"@,
        "preflight"@ != "get-net-port"@,
        "preflight"@ != "set-time"@,
        "preflight"@ != "set-onvif"@,
        "preflight"@ != "snap"@,
        "preflight"@ != "ptz"@,
{
    reveal_strlit("help");
    reveal_strlit("--help");
    reveal_strlit("-h");
    reveal_strlit("get-ability");
    reveal_strlit("get-dev-info");
    reveal_strlit("get-user-auth");
    reveal_strlit("get-channel-status");
    reveal_strlit("get-ptz-status");
    reveal_strlit("get-time");
    reveal_strlit("get-net-port");
    reveal_strlit("set-time");
    reveal_strlit("set-onvif");
    reveal_strlit("snap");
    reveal_strlit("ptz");
    reveal_strlit("preflight");
    assert("--help"@.len() != "help"@.len());
    assert("-h"@.len() != "help"@.len());
    assert("-h"@.len() != "--help"@.len());
    assert("get-ability"@.len() != "help"@.len());
    assert("get-ability"@.len() != "--help"@.len());
    assert("get-ability"@.len() != "-h"@.len());
    assert("get-dev-info"@.len() != "help"@.len());
    assert("get-dev-info"@.len() != "--help"@.len());
    assert("get-dev-info"@.len() != "-h"@.len());
    assert("get-dev-info"@.len() != "get-ability"@.len());
    assert("get-user-auth"@.len() != "help"@.len());
    assert("get-user-auth"@.len() != "--help"@.len());
    assert("get-user-auth"@.len() != "-h"@.len());
    assert("get-user-auth"@.len() != "get-ability"@.len());
    assert("get-user-auth"@.len() != "get-dev-info"@.len());
    assert("get-channel-status"@.len() != "help"@.len());
    assert("get-channel-status"@.len() != "--help"@.len());
    assert("get-channel-status"@.len() != "-h"@.len());
    assert("get-channel-status"@.len() != "get-ability"@.len());
    assert("get-channel-status"@.len() != "get-dev-info"@.len());
    assert("get-channel-status"@.len() != "get-user-auth"@.len());
    assert("get-ptz-status"@.len() != "help"@.len());
    assert("get-ptz-status"@.len() != "--help"@.len());
    assert("get-ptz-status"@.len() != "-h"@.len());
    assert("get-ptz-status"@.len() != "get-ability"@.len());
    assert("get-ptz-status"@.len() != "get-dev-info"@.len());
    assert("get-ptz-status"@.len() != "get-user-auth"@.len());
    assert("get-ptz-status"@.len() != "get-channel-status"@.len());
    assert("get-time"@.len() != "help"@.len());
    assert("get-time"@.len() != "--help"@.len());
    assert("get-time"@.len() != "-h"@.len());
    assert("get-time"@.len() != "get-ability"@.len());
    assert("get-time"@.len() != "get-dev-info"@.len());
    assert("get-time"@.len() != "get-user-auth"@.len());
    assert("get-time"@.len() != "get-channel-status"@.len());
    assert("get-time"@.len() != "get-ptz-status"@.len());
    assert("get-net-port"@.len() != "help"@.len());
    assert("get-net-port"@.len() != "--help"@.len());
    assert("get-net-port"@.len() != "-h"@.len());
    assert("get-net-port"@.len() != "get-ability"@.len());
    assert("get-net-port"@[4] != "get-dev-info"@[4]);
    assert("get-net-port"@.len() != "get-user-auth"@.len());
    assert("get-net-port"@.len() != "get-channel-status"@.len());
    assert("get-net-port"@.len() != "get-ptz-status"@.len());
    assert("get-net-port"@.len() != "get-time"@.len());
    assert("set-time"@.len() != "help"@.len());
    assert("set-time"@.len() != "--help"@.len());
    assert("set-time"@.len() != "-h"@.len());
    assert("set-time"@.len() != "get-ability"@.len());
    assert("set-time"@.len() != "get-dev-info"@.len());
    assert("set-time"@.len() != "get-user-auth"@.len());
    assert("set-time"@.len() != "get-channel-status"@.len());
    assert("set-time"@.len() != "get-ptz-status"@.len());
    assert("set-time"@[0] != "get-time"@[0]);
    assert("set-time"@.len() != "get-net-port"@.len());
    assert("set-onvif"@.len() != "help"@.len());
    assert("set-onvif"@.len() != "--help"@.len());
    assert("set-onvif"@.len() != "-h"@.len());
    assert("set-onvif"@.len() != "get-ability"@.len());
    assert("set-onvif"@.len() != "get-dev-info"@.len());
    assert("set-onvif"@.len() != "get-user-auth"@.len());
    assert("set-onvif"@.len() != "get-channel-status"@.len());
    assert("set-onvif"@.len() != "get-ptz-status"@.len());
    assert("set-onvif"@.len() != "get-time"@.len());
    assert("set-onvif"@.len() != "get-net-port"@.len());
    assert("set-onvif"@.len() != "set-time"@.len());
    assert("snap"@[0] != "help"@[0]);
    assert("snap"@.len() != "--help"@.len());
    assert("snap"@.len() != "-h"@.len());
    assert("snap"@.len() != "get-ability"@.len());
    assert("snap"@.len() != "get-dev-info"@.len());
    assert("snap"@.len() != "get-user-auth"@.len());
    assert("snap"@.len() != "get-channel-status"@.len());
    assert("snap"@.len() != "get-ptz-status"@.len());
    assert("snap"@.len() != "get-time"@.len());
    assert("snap"@.len() != "get-net-port"@.len());
    assert("snap"@.len() != "set-time"@.len());
    assert("snap"@.len() != "set-onvif"@.len());
    assert("ptz"@.len() != "help"@.len());
    assert("ptz"@.len() != "--help"@.len());
    assert("ptz"@.len() != "-h"@.len());
    assert("ptz"@.len() != "get-ability"@.len());
    assert("ptz"@.len() != "get-dev-info"@.len());
    assert("ptz"@.len() != "get-user-auth"@.len());
    assert("ptz"@.len() != "get-channel-status"@.len());
    assert("ptz"@.len() != "get-ptz-status"@.len());
    assert("ptz"@.len() != "get-time"@.len());
    assert("ptz"@.len() != "get-net-port"@.len());
    assert("ptz"@.len() != "set-time"@.len());
    assert("ptz"@.len() != "set-onvif"@.len());
    assert("ptz"@.len() != "snap"@.len());
    assert("preflight"@.len() != "help"@.len());
    assert("preflight"@.len() != "--help"@.len());
    assert("preflight"@.len() != "-h"@.len());
    assert("preflight"@.len() != "get-ability"@.len());
    assert("preflight"@.len() != "get-dev-info"@.len());
    assert("preflight"@.len() != "get-user-auth"@.len());
    assert("preflight"@.len() != "get-channel-status"@.len());
    assert("preflight"@.len() != "get-ptz-status"@.len());
    assert("preflight"@.len() != "get-time"@.len());
    assert("preflight"@.len() != "get-net-port"@.len());
    assert("preflight"@.len() != "set-time"@.len());
    assert("preflight"@[0] != "set-onvif"@[0]);
    assert("preflight"@.len() != "snap"@.len());
    assert("preflight"@.len() != "ptz"@.len());
}

/// The actions of `ptz` differ from each other.
pub(crate) proof fn lemma_ptz_actions_differ()
    ensures
        "stop"@ != "move"@,
        "preset"@ != "move"@,
        "preset"@ != "stop"@,
        "calibrate"@ != "move"@,
        "calibrate"@ != "stop"@,
        "calibrate"@ != "preset"@,
        "set-absolute"@ != "move"@,
        "set-absolute"@ != "stop"@,
        "set-absolute"@ != "preset"@,
        "set-absolute"@ != "calibrate"@,
        "get-absolute"@ != "move"@,
        "get-absolute"@ != "stop"@,
        "get-absolute"@ != "preset"@,
        "get-absolute"@ != "calibrate"@,
        "get-absolute"@ != "set-absolute"@,
{
    reveal_strlit("move");
    reveal_strlit("stop");
    reveal_strlit("preset");
    reveal_strlit("calibrate");
    reveal_strlit("set-absolute");
    reveal_strlit("get-absolute");
    assert("stop"@[0] != "move"@[0]);
    assert("preset"@.len() != "move"@.len());
    assert("preset"@.len() != "stop"@.len());
    assert("calibrate"@.len() != "move"@.len());
    assert("calibrate"@.len() != "stop"@.len());
    assert("calibrate"@.len() != "preset"@.len());
    assert("set-absolute"@.len() != "move"@.len());
    assert("set-absolute"@.len() != "stop"@.len());
    assert("set-absolute"@.len() != "preset"@.len());
    assert("set-absolute"@.len() != "calibrate"@.len());
    assert("get-absolute"@.len() != "move"@.len());
    assert("get-absolute"@.len() != "stop"@.len());
    assert("get-absolute"@.len() != "preset"@.len());
    assert("get-absolute"@.len() != "calibrate"@.len());
    assert("get-absolute"@[0] != "set-absolute"@[0]);
}

/// The actions of `ptz preset` differ from each other.
pub(crate) proof fn lemma_other_words_differ()
    ensures
        "goto"@ != "list"@,
{
    reveal_strlit("list");
    reveal_strlit("goto");
    assert("goto"@[0] != "list"@[0]);
}

/// The options of `ptz move` differ from each other.
pub(crate) proof fn lemma_move_options_differ()
    ensures
        "--speed"@ != "--channel"@,
        "--duration"@ != "--channel"@,
        "--duration"@ != "--speed"@,
{
    reveal_strlit("--channel");
    reveal_strlit("--speed");
    reveal_strlit("--duration");
    assert("--speed"@.len() != "--channel"@.len());
    assert("--duration"@.len() != "--channel"@.len());
    assert("--duration"@.len() != "--speed"@.len());
}

/// The options of `ptz set-absolute` differ from each other.
pub(crate) proof fn lemma_absolute_options_differ()
    ensures
        "--tol-count"@ != "--channel"@,
        "--timeout-ms"@ != "--channel"@,
        "--timeout-ms"@ != "--tol-count"@,
{
    reveal_strlit("--channel");
    reveal_strlit("--tol-count");
    reveal_strlit("--timeout-ms");
    assert("--tol-count"@.len() != "--channel"@.len());
    assert("--timeout-ms"@.len() != "--channel"@.len());
    assert("--timeout-ms"@.len() != "--tol-count"@.len());
}


proof fn lemma_move_options_are_accepted(
    args: Seq<Seq<char>>,
    from: int,
    at: int,
    channel: u8,
    speed: u8,
    duration_ms: Option<u64>,
)
    requires
        0 <= from <= at,
        from <= args.len(),
        takes_move_options(args, at),
    ensures
        move_options(args.skip(from), at - from, channel, speed, duration_ms) is Ok,
    decreases args.len() - at,
{
    lemma_move_options_differ();
    if at < args.len() {
        let rest = args.skip(from);
        assert(rest[at - from] == args[at]);
        assert(rest[at - from + 1] == args[at + 1]);
        if args[at] == "--channel"@ {
            lemma_move_options_are_accepted(
                args,
                from,
                at + 2,
                u8_arg(args[at + 1], "channel"@)->Ok_0,
                speed,
                duration_ms,
            );
        } else if args[at] == "--speed"@ {
            lemma_move_options_are_accepted(
                args,
                from,
                at + 2,
                channel,
                u8_arg(args[at + 1], "speed"@)->Ok_0,
                duration_ms,
            );
        } else {
            lemma_move_options_are_accepted(
                args,
                from,
                at + 2,
                channel,
                speed,
                Some(u64_arg(args[at + 1], "duration"@)->Ok_0),
            );
        }
    }
}

proof fn lemma_absolute_options_are_accepted(
    args: Seq<Seq<char>>,
    from: int,
    at: int,
    channel: u8,
    tol_count: i64,
    timeout_ms: u64,
)
    requires
        0 <= from <= at,
        from <= args.len(),
        takes_absolute_options(args, at),
    ensures
        absolute_options(args.skip(from), at - from, channel, tol_count, timeout_ms) is Ok,
    decreases args.len() - at,
{
    lemma_absolute_options_differ();
    if at < args.len() {
        let rest = args.skip(from);
        assert(rest[at - from] == args[at]);
        assert(rest[at - from + 1] == args[at + 1]);
        if args[at] == "--channel"@ {
            lemma_absolute_options_are_accepted(
                args,
                from,
                at + 2,
                u8_arg(args[at + 1], "channel"@)->Ok_0,
                tol_count,
                timeout_ms,
            );
        } else if args[at] == "--tol-count"@ {
            lemma_absolute_options_are_accepted(
                args,
                from,
                at + 2,
                channel,
                i64_arg(args[at + 1], "tol_count"@)->Ok_0,
                timeout_ms,
            );
        } else {
            lemma_absolute_options_are_accepted(
                args,
                from,
                at + 2,
                channel,
                tol_count,
                u64_arg(args[at + 1], "timeout_ms"@)->Ok_0,
            );
        }
    }
}

proof fn lemma_snap_words_are_accepted(args: Seq<Seq<char>>)
    requires
        args.len() >= 1,
        takes_snap_words(args),
    ensures
        snap_meaning(args.skip(1)) is Ok,
{
    let rest = args.skip(1);
    reveal_with_fuel(snap_arguments, 4);
    reveal_strlit("--out");
    reveal_strlit("--");
    assert(forall|i: int| 0 <= i < rest.len() ==> rest[i] == args[i + 1]);
    if args.len() >= 2 && u8_arg(args[1], "channel"@) is Ok {
        lemma_numbers_are_no_options(args[1]);
    }
}

/// A number is not an option.
proof fn lemma_numbers_are_no_options(word: Seq<char>)
    requires
        u8_arg(word, "channel"@) is Ok,
    ensures
        word != "--out"@,
        !starts_with(word, "--"@),
{
    reveal_strlit("--out");
    reveal_strlit("--");
    let digits = if word.len() > 0 && word[0] == '+' {
        word.drop_first()
    } else {
        word
    };
    assert(is_digit(digits[0]));
    assert(word[0] != '-');
    if starts_with(word, "--"@) {
        assert(word.subrange(0, 2)[0] == word[0]);
        assert("--"@[0] == '-');
    }
}

proof fn lemma_ptz_lines_are_accepted(line: Seq<char>, args: Seq<Seq<char>>)
    requires
        is_use_of(line, args),
        args[0] == "ptz"@,
    ensures
        ptz_meaning(args.skip(1)) is Ok,
{
    lemma_commands_differ();
    lemma_ptz_actions_differ();
    lemma_other_words_differ();
    let rest = args.skip(1);
    assert(rest[0] == args[1]);
    assert(rest.skip(1) =~= args.skip(2));
    if args.len() >= 3 {
        assert(args.skip(2).skip(1) =~= args.skip(3));
    }
    if args[1] == "move"@ {
        assert(args.skip(2)[0] == args[2]);
        lemma_move_options_are_accepted(args, 2, 3, 0, DEFAULT_SPEED, None);
    } else if args[1] == "set-absolute"@ {
        assert(args.skip(2)[0] == args[2]);
        assert(args.skip(2)[1] == args[3]);
        lemma_absolute_options_are_accepted(
            args,
            2,
            4,
            0,
            DEFAULT_ABSOLUTE_RAW_TOL_COUNT,
            DEFAULT_ABSOLUTE_TIMEOUT_MS,
        );
    } else if args[1] == "preset"@ {
        assert(args.skip(2)[0] == args[2]);
        if args[2] == "goto"@ {
            assert(args.skip(2)[1] == args[3]);
            assert(args.skip(2).skip(2) =~= args.skip(4));
        }
    } else if args[1] == "calibrate"@ {
        assert(args.skip(2)[0] == args[2]);
    }
}

// ---------------------------------------------------------------- laws

/// Every command that the help text lists is one that the command line accepts, once valid
/// values stand in place of its placeholders, with and without its optional parts.
pub proof fn law_listed_commands_are_accepted(line: Seq<char>, args: Seq<Seq<char>>)
    requires
        usage().contains(line),
        is_use_of(line, args),
    ensures
        cli_meaning(args) is Ok,
{
    lemma_commands_differ();
    if args[0] == "ptz"@ {
        lemma_ptz_lines_are_accepted(line, args);
    } else if args[0] == "snap"@ {
        lemma_snap_words_are_accepted(args);
    } else if args[0] == "set-onvif"@ {
        let rest = args.skip(1);
        assert(rest[0] == args[1]);
        reveal_with_fuel(set_onvif_options, 3);
        if args.len() == 4 {
            assert(rest[1] == args[2]);
            assert(rest[2] == args[3]);
        }
    }
}

/// The port that `set-onvif` is given, where it is accepted, is from 1 to 65535. A port of 0
/// is input that is not valid.
pub proof fn law_ports_are_in_range(args: Seq<Seq<char>>)
    ensures
        cli_meaning(args) matches Ok(CliModel::SetOnvif { onvif_port: Some(port), .. }) ==> 1
            <= port <= 65535,
        args.len() == 4 && args[0] == "set-onvif"@ && args[2] == "--port"@ && parse_unsigned(
            args[3],
            65535,
        ) == Some(0nat) ==> (cli_meaning(args) matches Err(error) && error.kind
            == ErrorKind::InvalidInput),
{
    lemma_commands_differ();
    if args.len() == 4 {
        let rest = args.skip(1);
        assert(rest[0] == args[1] && rest[1] == args[2] && rest[2] == args[3]);
    }
    if args.len() > 0 {
        lemma_onvif_ports(args.skip(1), 1, None);
    }
}

proof fn lemma_onvif_ports(args: Seq<Seq<char>>, at: int, port: Option<u16>)
    requires
        port matches Some(n) ==> n >= 1,
    ensures
        set_onvif_options(args, at, port) matches Ok(Some(n)) ==> n >= 1,
    decreases args.len() - at,
{
    if 0 <= at && at + 1 < args.len() {
        if let Ok(n) = port_arg(args[at + 1], "onvif_port"@) {
            lemma_onvif_ports(args, at + 2, Some(n));
        }
    }
}

/// Every line of the usage is a line of the help text.
pub proof fn law_help_lists_every_line(lines: Seq<Seq<char>>, k: int)
    requires
        0 <= k < lines.len(),
    ensures
        has_line(help_of(lines), lines[k]),
    decreases lines.len(),
{
    reveal_strlit("\n  ");
    let rest = lines.drop_last();
    if k == lines.len() - 1 {
        assert(help_of(lines) =~= help_of(rest) + "\n  "@ + lines[k] + Seq::<char>::empty());
    } else {
        law_help_lists_every_line(rest, k);
        assert(rest[k] == lines[k]);
        let (before, after) = choose|before: Seq<char>, after: Seq<char>|
            #![trigger before + "\n  "@ + lines[k] + after]
            help_of(rest) == before + "\n  "@ + lines[k] + after && (after.len() == 0 || after[0]
                == '\n');
        let longer = after + "\n  "@ + lines.last();
        assert(help_of(lines) =~= before + "\n  "@ + lines[k] + longer);
        assert(longer[0] == '\n');
    }
}

} // verus!
