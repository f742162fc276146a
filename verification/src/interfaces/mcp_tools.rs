//! The tools of the tool protocol.
use vstd::prelude::*;

verus! {

#[derive(Debug, Clone, Copy, PartialEq, Eq)]
pub struct McpTool {
    pub name: &'static str,
    pub description: &'static str,
}

/// A tool: its name and what it is for.
pub open spec fn tool_model(tool: McpTool) -> (Seq<char>, Seq<char>) {
    (tool.name@, tool.description@)
}

pub open spec fn tool_models(tools: Seq<McpTool>) -> Seq<(Seq<char>, Seq<char>)> {
    Seq::new(tools.len(), |i: int| tool_model(tools[i]))
}

/// The tools that there are.
pub open spec fn all_tools() -> Seq<(Seq<char>, Seq<char>)> {
    seq![
        ("mcp.list_tools"@, "List supported MCP tools."@),
        ("reolink.get_ability"@, "Get command availability for the current camera model."@),
        ("reolink.get_user_auth"@, "Exchange user/password for API token."@),
        ("reolink.get_dev_info"@, "Fetch camera model and firmware information."@),
        ("reolink.get_channel_status"@, "Get online/offline status for a channel."@),
        (
            "reolink.get_ptz_status"@,
            "Get PTZ raw positions/ranges for a channel and calibrated degrees when available."@,
        ),
        ("reolink.get_time"@, "Get camera time."@),
        ("reolink.set_time"@, "Set camera time."@),
        ("reolink.get_net_port"@, "Get network port settings."@),
        ("reolink.set_onvif_enabled"@, "Enable or disable ONVIF and optionally set its port."@),
        ("reolink.snap"@, "Capture a snapshot for a channel and save it."@),
        ("reolink.ptz_move"@, "Move PTZ direction with speed and optional duration."@),
        ("reolink.ptz_stop"@, "Stop PTZ movement immediately."@),
        ("reolink.ptz_preset_list"@, "List enabled PTZ presets."@),
        ("reolink.ptz_preset_goto"@, "Move PTZ to a preset ID."@),
        (
            "reolink.ptz_calibrate_auto"@,
            "Run PTZ auto calibration and return calibration/report summary."@,
        ),
        ("reolink.ptz_set_absolute"@, "Move PTZ to an absolute pan/tilt target."@),
        ("reolink.ptz_get_absolute"@, "Get current PTZ absolute pan/tilt position."@),
    ]
}

pub fn supported_tools() -> (r: Vec<McpTool>)
    ensures
        tool_models(r@) == all_tools(),
{
    let tools = vec![
        McpTool { name: "mcp.list_tools", description: "List supported MCP tools." },
        McpTool {
            name: "reolink.get_ability",
            description: "Get command availability for the current camera model.",
        },
        McpTool {
            name: "reolink.get_user_auth",
            description: "Exchange user/password for API token.",
        },
        McpTool {
            name: "reolink.get_dev_info",
            description: "Fetch camera model and firmware information.",
        },
        McpTool {
            name: "reolink.get_channel_status",
            description: "Get online/offline status for a channel.",
        },
        McpTool {
            name: "reolink.get_ptz_status",
            description: "Get PTZ raw positions/ranges for a channel and calibrated degrees when available.",
        },
        McpTool { name: "reolink.get_time", description: "Get camera time." },
        McpTool { name: "reolink.set_time", description: "Set camera time." },
        McpTool { name: "reolink.get_net_port", description: "Get network port settings." },
        McpTool {
            name: "reolink.set_onvif_enabled",
            description: "Enable or disable ONVIF and optionally set its port.",
        },
        McpTool {
            name: "reolink.snap",
            description: "Capture a snapshot for a channel and save it.",
        },
        McpTool {
            name: "reolink.ptz_move",
            description: "Move PTZ direction with speed and optional duration.",
        },
        McpTool { name: "reolink.ptz_stop", description: "Stop PTZ movement immediately." },
        McpTool { name: "reolink.ptz_preset_list", description: "List enabled PTZ presets." },
        McpTool { name: "reolink.ptz_preset_goto", description: "Move PTZ to a preset ID." },
        McpTool {
            name: "reolink.ptz_calibrate_auto",
            description: "Run PTZ auto calibration and return calibration/report summary.",
        },
        McpTool {
            name: "reolink.ptz_set_absolute",
            description: "Move PTZ to an absolute pan/tilt target.",
        },
        McpTool {
            name: "reolink.ptz_get_absolute",
            description: "Get current PTZ absolute pan/tilt position.",
        },
    ];
    proof {
        assert(tool_models(tools@) =~= all_tools());
    }
    tools
}

} // verus!
