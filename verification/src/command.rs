//! The commands of the camera's CGI interface, with their requests and responses.
use vstd::prelude::*;

verus! {

#[derive(Debug, Clone, Copy, PartialEq, Eq, Structural, Hash)]
pub enum CgiCommand {
    Login,
    GetAbility,
    GetDevInfo,
    Snap,
    GetChannelStatus,
    GetPtzCurPos,
    GetPtzPreset,
    GetPtzCheckState,
    PtzCtrl,
    GetZoomFocus,
    GetTime,
    SetTime,
    GetNetwork,
    GetNetPort,
    SetNetPort,
    GetUserAuth,
}

/// The name that a command has on the wire.
pub open spec fn command_name(command: CgiCommand) -> Seq<char> {
    match command {
        CgiCommand::Login => "Login"@,
        CgiCommand::GetAbility => "GetAbility"@,
        CgiCommand::GetDevInfo => "GetDevInfo"@,
        CgiCommand::Snap => "Snap"@,
        CgiCommand::GetChannelStatus => "GetChannelStatus"@,
        CgiCommand::GetPtzCurPos => "GetPtzCurPos"@,
        CgiCommand::GetPtzPreset => "GetPtzPreset"@,
        CgiCommand::GetPtzCheckState => "GetPtzCheckState"@,
        CgiCommand::PtzCtrl => "PtzCtrl"@,
        CgiCommand::GetZoomFocus => "GetZoomFocus"@,
        CgiCommand::GetTime => "GetTime"@,
        CgiCommand::SetTime => "SetTime"@,
        CgiCommand::GetNetwork => "GetNetwork"@,
        CgiCommand::GetNetPort => "GetNetPort"@,
        CgiCommand::SetNetPort => "SetNetPort"@,
        CgiCommand::GetUserAuth => "GetUserAuth"@,
    }
}

impl CgiCommand {
    pub fn as_str(self) -> (r: &'static str)
        ensures
            r@ == command_name(self),
    {
        match self {
            CgiCommand::Login => "Login",
            CgiCommand::GetAbility => "GetAbility",
            CgiCommand::GetDevInfo => "GetDevInfo",
            CgiCommand::Snap => "Snap",
            CgiCommand::GetChannelStatus => "GetChannelStatus",
            CgiCommand::GetPtzCurPos => "GetPtzCurPos",
            CgiCommand::GetPtzPreset => "GetPtzPreset",
            CgiCommand::GetPtzCheckState => "GetPtzCheckState",
            CgiCommand::PtzCtrl => "PtzCtrl",
            CgiCommand::GetZoomFocus => "GetZoomFocus",
            CgiCommand::GetTime => "GetTime",
            CgiCommand::SetTime => "SetTime",
            CgiCommand::GetNetwork => "GetNetwork",
            CgiCommand::GetNetPort => "GetNetPort",
            CgiCommand::SetNetPort => "SetNetPort",
            CgiCommand::GetUserAuth => "GetUserAuth",
        }
    }
}

/// An optional text, taken by its view.
pub open spec fn optional_text(text: Option<String>) -> Option<Seq<char>> {
    match text {
        Some(value) => Some(value@),
        None => None,
    }
}

#[derive(Debug, Clone, PartialEq, Eq)]
pub struct CommandParams {
    pub user_name: Option<String>,
    pub channel: Option<u8>,
    pub payload: Option<String>,
}

/// The parameters of a request.
pub ghost struct ParamsModel {
    pub user_name: Option<Seq<char>>,
    pub channel: Option<u8>,
    pub payload: Option<Seq<char>>,
}

impl View for CommandParams {
    type V = ParamsModel;

    open spec fn view(&self) -> ParamsModel {
        ParamsModel {
            user_name: optional_text(self.user_name),
            channel: self.channel,
            payload: optional_text(self.payload),
        }
    }
}

/// No parameters.
pub open spec fn no_params() -> ParamsModel {
    ParamsModel { user_name: None, channel: None, payload: None }
}

impl Default for CommandParams {
    fn default() -> (r: Self)
        ensures
            r@ == no_params(),
    {
        CommandParams { user_name: None, channel: None, payload: None }
    }
}

/// A request to the camera. `action` is 0 to read and 1 to write settings.
#[derive(Debug, Clone, PartialEq, Eq)]
pub struct CommandRequest {
    pub command: CgiCommand,
    pub action: u8,
    pub params: CommandParams,
}

pub ghost struct RequestModel {
    pub command: CgiCommand,
    pub action: u8,
    pub params: ParamsModel,
}

impl View for CommandRequest {
    type V = RequestModel;

    open spec fn view(&self) -> RequestModel {
        RequestModel { command: self.command, action: self.action, params: self.params@ }
    }
}

/// A request that reads with the given parameters.
pub open spec fn request_model(command: CgiCommand, params: ParamsModel) -> RequestModel {
    RequestModel { command, action: 0, params }
}

/// The parameters that name a user.
pub open spec fn user_params(user_name: Seq<char>) -> ParamsModel {
    ParamsModel { user_name: Some(user_name), channel: None, payload: None }
}

/// The parameters that name a channel.
pub open spec fn channel_params(channel: u8) -> ParamsModel {
    ParamsModel { user_name: None, channel: Some(channel), payload: None }
}

/// The parameters that carry a payload.
pub open spec fn payload_params(payload: Seq<char>) -> ParamsModel {
    ParamsModel { user_name: None, channel: None, payload: Some(payload) }
}

impl CommandRequest {
    pub fn new(command: CgiCommand) -> (r: Self)
        ensures
            r@ == request_model(command, no_params()),
    {
        CommandRequest { command, action: 0, params: CommandParams::default() }
    }

    /// A request on behalf of a user.
    pub fn for_user(command: CgiCommand, user_name: &str) -> (r: Self)
        ensures
            r@ == request_model(command, user_params(user_name@)),
    {
        CommandRequest {
            command,
            action: 0,
            params: CommandParams {
                user_name: Some(user_name.to_owned()),
                channel: None,
                payload: None,
            },
        }
    }

    /// A request on a channel.
    pub fn for_channel(command: CgiCommand, channel: u8) -> (r: Self)
        ensures
            r@ == request_model(command, channel_params(channel)),
    {
        CommandRequest {
            command,
            action: 0,
            params: CommandParams { user_name: None, channel: Some(channel), payload: None },
        }
    }

    /// A request with a payload.
    pub fn with_payload(command: CgiCommand, payload: String) -> (r: Self)
        ensures
            r@ == request_model(command, payload_params(payload@)),
    {
        CommandRequest {
            command,
            action: 0,
            params: CommandParams { user_name: None, channel: None, payload: Some(payload) },
        }
    }
}

#[derive(Debug, Clone, PartialEq, Eq)]
pub struct CommandResponse {
    pub command: CgiCommand,
    pub raw_json: String,
}

pub ghost struct ResponseModel {
    pub command: CgiCommand,
    pub raw_json: Seq<char>,
}

impl View for CommandResponse {
    type V = ResponseModel;

    open spec fn view(&self) -> ResponseModel {
        ResponseModel { command: self.command, raw_json: self.raw_json@ }
    }
}

impl CommandResponse {
    pub fn new(command: CgiCommand, raw_json: String) -> (r: Self)
        ensures
            r@ == (ResponseModel { command, raw_json: raw_json@ }),
    {
        CommandResponse { command, raw_json }
    }
}

} // verus!
