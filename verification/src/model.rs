//! The values that the camera reports and accepts.
use crate::command::CgiCommand;
use crate::error::{error_model, AppError, AppResult, ErrorKind};
use crate::json::{copy_value, value_tree, JsonTree};
use crate::text::{dec, dec_u64, join2, lower, lower_text, same_text};
use vstd::prelude::*;

verus! {

#[derive(Debug, Clone, PartialEq, Eq)]
pub struct Ability {
    pub user_name: String,
    pub supported_commands: Vec<CgiCommand>,
}

pub ghost struct AbilityModel {
    pub user_name: Seq<char>,
    pub supported_commands: Seq<CgiCommand>,
}

impl View for Ability {
    type V = AbilityModel;

    open spec fn view(&self) -> AbilityModel {
        AbilityModel {
            user_name: self.user_name@,
            supported_commands: self.supported_commands@,
        }
    }
}

impl Default for Ability {
    fn default() -> (r: Self)
        ensures
            r@ == (AbilityModel { user_name: Seq::empty(), supported_commands: Seq::empty() }),
    {
        Ability { user_name: String::new(), supported_commands: Vec::new() }
    }
}

impl Ability {
    /// The camera lets the user run `cmd`.
    pub fn supports(&self, cmd: CgiCommand) -> (r: bool)
        ensures
            r == self@.supported_commands.contains(cmd),
    {
        let mut i: usize = 0;
        while i < self.supported_commands.len()
            invariant
                i <= self.supported_commands.len(),
                forall|j: int| 0 <= j < i ==> self.supported_commands@[j] != cmd,
            decreases self.supported_commands.len() - i,
        {
            if self.supported_commands[i] == cmd {
                return true;
            }
            i = i + 1;
        }
        false
    }
}

#[derive(Debug, Clone, PartialEq, Eq)]
pub struct DeviceInfo {
    pub model: String,
    pub firmware: String,
    pub serial_number: String,
}

pub ghost struct DeviceModel {
    pub model: Seq<char>,
    pub firmware: Seq<char>,
    pub serial_number: Seq<char>,
}

impl View for DeviceInfo {
    type V = DeviceModel;

    open spec fn view(&self) -> DeviceModel {
        DeviceModel {
            model: self.model@,
            firmware: self.firmware@,
            serial_number: self.serial_number@,
        }
    }
}

impl Default for DeviceInfo {
    fn default() -> (r: Self)
        ensures
            r@ == (DeviceModel {
                model: Seq::empty(),
                firmware: Seq::empty(),
                serial_number: Seq::empty(),
            }),
    {
        DeviceInfo { model: String::new(), firmware: String::new(), serial_number: String::new() }
    }
}

#[derive(Debug, Clone, PartialEq, Eq, Structural)]
pub struct ChannelStatus {
    pub channel: u8,
    pub online: bool,
}

impl View for ChannelStatus {
    type V = ChannelStatus;

    open spec fn view(&self) -> ChannelStatus {
        *self
    }
}

#[derive(Debug, Clone, PartialEq, Eq)]
pub struct Snapshot {
    pub channel: u8,
    pub image_path: String,
    pub bytes_written: usize,
}

pub ghost struct SnapshotModel {
    pub channel: u8,
    pub image_path: Seq<char>,
    pub bytes_written: usize,
}

impl View for Snapshot {
    type V = SnapshotModel;

    open spec fn view(&self) -> SnapshotModel {
        SnapshotModel {
            channel: self.channel,
            image_path: self.image_path@,
            bytes_written: self.bytes_written,
        }
    }
}

#[derive(Debug, Clone, PartialEq, Eq)]
pub struct SystemTime {
    pub iso8601: String,
}

impl View for SystemTime {
    type V = Seq<char>;

    open spec fn view(&self) -> Seq<char> {
        self.iso8601@
    }
}

impl Default for SystemTime {
    fn default() -> (r: Self)
        ensures
            r@ == Seq::<char>::empty(),
    {
        SystemTime { iso8601: String::new() }
    }
}

#[derive(Debug, Clone, PartialEq, Eq)]
pub struct NetworkInfo {
    pub host: String,
    pub https_port: u16,
    pub http_port: u16,
}

#[derive(Debug, Clone, Copy, PartialEq, Eq, Structural)]
pub struct NetPortSettings {
    pub http_enable: Option<bool>,
    pub http_port: Option<u16>,
    pub https_enable: Option<bool>,
    pub https_port: Option<u16>,
    pub media_port: Option<u16>,
    pub onvif_enable: Option<bool>,
    pub onvif_port: Option<u16>,
    pub rtsp_enable: Option<bool>,
    pub rtsp_port: Option<u16>,
    pub rtmp_enable: Option<bool>,
    pub rtmp_port: Option<u16>,
}

impl View for NetPortSettings {
    type V = NetPortSettings;

    open spec fn view(&self) -> NetPortSettings {
        *self
    }
}

impl Default for NetPortSettings {
    fn default() -> (r: Self)
        ensures
            r == (NetPortSettings {
                http_enable: None,
                http_port: None,
                https_enable: None,
                https_port: None,
                media_port: None,
                onvif_enable: None,
                onvif_port: None,
                rtsp_enable: None,
                rtsp_port: None,
                rtmp_enable: None,
                rtmp_port: None,
            }),
    {
        NetPortSettings {
            http_enable: None,
            http_port: None,
            https_enable: None,
            https_port: None,
            media_port: None,
            onvif_enable: None,
            onvif_port: None,
            rtsp_enable: None,
            rtsp_port: None,
            rtmp_enable: None,
            rtmp_port: None,
        }
    }
}

#[derive(Debug, Clone, Copy, PartialEq, Eq, Structural)]
pub struct NumericRange {
    pub min: i64,
    pub max: i64,
}

// ---------------------------------------------------------------- directions

#[derive(Debug, Clone, Copy, PartialEq, Eq, Structural, Hash)]
pub enum PtzDirection {
    Left,
    Right,
    Up,
    Down,
    LeftUp,
    LeftDown,
    RightUp,
    RightDown,
}

/// The operation name of a direction.
pub open spec fn direction_op(direction: PtzDirection) -> Seq<char> {
    match direction {
        PtzDirection::Left => "Left"@,
        PtzDirection::Right => "Right"@,
        PtzDirection::Up => "Up"@,
        PtzDirection::Down => "Down"@,
        PtzDirection::LeftUp => "LeftUp"@,
        PtzDirection::LeftDown => "LeftDown"@,
        PtzDirection::RightUp => "RightUp"@,
        PtzDirection::RightDown => "RightDown"@,
    }
}

/// The direction that a text names. Capitals do not matter; a diagonal may have a hyphen.
pub open spec fn direction_named(raw: Seq<char>) -> Option<PtzDirection> {
    let name = lower(raw);
    if name == "left"@ {
        Some(PtzDirection::Left)
    } else if name == "right"@ {
        Some(PtzDirection::Right)
    } else if name == "up"@ {
        Some(PtzDirection::Up)
    } else if name == "down"@ {
        Some(PtzDirection::Down)
    } else if name == "leftup"@ || name == "left-up"@ {
        Some(PtzDirection::LeftUp)
    } else if name == "leftdown"@ || name == "left-down"@ {
        Some(PtzDirection::LeftDown)
    } else if name == "rightup"@ || name == "right-up"@ {
        Some(PtzDirection::RightUp)
    } else if name == "rightdown"@ || name == "right-down"@ {
        Some(PtzDirection::RightDown)
    } else {
        None
    }
}

impl PtzDirection {
    pub fn as_op(self) -> (r: &'static str)
        ensures
            r@ == direction_op(self),
    {
        match self {
            PtzDirection::Left => "Left",
            PtzDirection::Right => "Right",
            PtzDirection::Up => "Up",
            PtzDirection::Down => "Down",
            PtzDirection::LeftUp => "LeftUp",
            PtzDirection::LeftDown => "LeftDown",
            PtzDirection::RightUp => "RightUp",
            PtzDirection::RightDown => "RightDown",
        }
    }

    pub fn parse(raw: &str) -> (r: Option<Self>)
        ensures
            r == direction_named(raw@),
    {
        let lowered = lower_text(raw);
        let name = lowered.as_str();
        if same_text(name, "left") {
            Some(PtzDirection::Left)
        } else if same_text(name, "right") {
            Some(PtzDirection::Right)
        } else if same_text(name, "up") {
            Some(PtzDirection::Up)
        } else if same_text(name, "down") {
            Some(PtzDirection::Down)
        } else if same_text(name, "leftup") || same_text(name, "left-up") {
            Some(PtzDirection::LeftUp)
        } else if same_text(name, "leftdown") || same_text(name, "left-down") {
            Some(PtzDirection::LeftDown)
        } else if same_text(name, "rightup") || same_text(name, "right-up") {
            Some(PtzDirection::RightUp)
        } else if same_text(name, "rightdown") || same_text(name, "right-down") {
            Some(PtzDirection::RightDown)
        } else {
            None
        }
    }
}

proof fn lemma_direction_words()
    ensures
        "left"@ =~= seq!['l', 'e', 'f', 't'],
        "right"@ =~= seq!['r', 'i', 'g', 'h', 't'],
        "up"@ =~= seq!['u', 'p'],
        "down"@ =~= seq!['d', 'o', 'w', 'n'],
        "leftup"@ =~= seq!['l', 'e', 'f', 't', 'u', 'p'],
        "leftdown"@ =~= seq!['l', 'e', 'f', 't', 'd', 'o', 'w', 'n'],
        "rightup"@ =~= seq!['r', 'i', 'g', 'h', 't', 'u', 'p'],
        "rightdown"@ =~= seq!['r', 'i', 'g', 'h', 't', 'd', 'o', 'w', 'n'],
        lower("Left"@) =~= seq!['l', 'e', 'f', 't'],
        lower("Right"@) =~= seq!['r', 'i', 'g', 'h', 't'],
        lower("Up"@) =~= seq!['u', 'p'],
        lower("Down"@) =~= seq!['d', 'o', 'w', 'n'],
        lower("LeftUp"@) =~= seq!['l', 'e', 'f', 't', 'u', 'p'],
        lower("LeftDown"@) =~= seq!['l', 'e', 'f', 't', 'd', 'o', 'w', 'n'],
        lower("RightUp"@) =~= seq!['r', 'i', 'g', 'h', 't', 'u', 'p'],
        lower("RightDown"@) =~= seq!['r', 'i', 'g', 'h', 't', 'd', 'o', 'w', 'n'],
        "left-up"@.len() == 7 && "left-up"@[4] == '-',
        "left-down"@.len() == 9 && "left-down"@[4] == '-',
        "right-up"@.len() == 8,
{
    reveal_strlit("left");
    reveal_strlit("right");
    reveal_strlit("up");
    reveal_strlit("down");
    reveal_strlit("leftup");
    reveal_strlit("leftdown");
    reveal_strlit("rightup");
    reveal_strlit("rightdown");
    reveal_strlit("Left");
    reveal_strlit("Right");
    reveal_strlit("Up");
    reveal_strlit("Down");
    reveal_strlit("LeftUp");
    reveal_strlit("LeftDown");
    reveal_strlit("RightUp");
    reveal_strlit("RightDown");
    reveal_strlit("left-up");
    reveal_strlit("left-down");
    reveal_strlit("right-up");
}

/// The operation name of a direction, read as a direction, gives the direction back.
pub proof fn law_direction_reads_back(direction: PtzDirection)
    ensures
        direction_named(direction_op(direction)) == Some(direction),
{
    lemma_direction_words();
    let name = lower(direction_op(direction));
    match direction {
        PtzDirection::Left => {},
        PtzDirection::Right => {
            assert(name[0] != "left"@[0]);
        },
        PtzDirection::Up => {
            assert(name.len() == 2);
        },
        PtzDirection::Down => {
            assert(name[0] != "left"@[0]);
        },
        PtzDirection::LeftUp => {
            assert(name.len() == 6);
        },
        PtzDirection::LeftDown => {
            assert(name.len() == 8);
        },
        PtzDirection::RightUp => {
            assert(name.len() == 7);
            assert(name[0] != "left-up"@[0] || name[4] != "left-up"@[4]);
        },
        PtzDirection::RightDown => {
            assert(name.len() == 9);
            assert(name[4] != "left-down"@[4]);
        },
    }
}

// ---------------------------------------------------------------- bounded numbers

/// A pan or tilt speed, from 1 to 64.
#[derive(Debug, Clone, Copy, PartialEq, Eq, Hash)]
pub struct PtzSpeed(u8);

impl PtzSpeed {
    #[verifier::type_invariant]
    spec fn in_range(self) -> bool {
        1 <= self.0 <= 64
    }

    pub closed spec fn view(&self) -> u8 {
        self.0
    }

    pub fn new(value: u8) -> (r: AppResult<Self>)
        ensures
            match r {
                Ok(speed) => 1 <= value <= 64 && speed@ == value,
                Err(error) => !(1 <= value <= 64) && error@ == error_model(
                    ErrorKind::InvalidInput,
                    "speed must be in range 1..=64, got "@ + dec(value as nat),
                ),
            },
    {
        if 1 <= value && value <= 64 {
            return Ok(PtzSpeed(value));
        }
        Err(
            AppError::with_message(
                ErrorKind::InvalidInput,
                join2("speed must be in range 1..=64, got ", dec_u64(value as u64).as_str()),
            ),
        )
    }

    pub fn value(self) -> (r: u8)
        ensures
            r == self@,
            1 <= r <= 64,
    {
        proof {
            use_type_invariant(&self);
        }
        self.0
    }
}

/// The number of a stored camera position, from 1 to 255.
#[derive(Debug, Clone, Copy, PartialEq, Eq, Hash)]
pub struct PresetId(u8);

impl PresetId {
    #[verifier::type_invariant]
    spec fn in_range(self) -> bool {
        1 <= self.0
    }

    pub closed spec fn view(&self) -> u8 {
        self.0
    }

    pub fn new(value: u8) -> (r: AppResult<Self>)
        ensures
            match r {
                Ok(id) => 1 <= value && id@ == value,
                Err(error) => value == 0 && error@ == error_model(
                    ErrorKind::InvalidInput,
                    "preset_id must be in range 1..=255, got "@ + dec(value as nat),
                ),
            },
    {
        if 1 <= value {
            return Ok(PresetId(value));
        }
        Err(
            AppError::with_message(
                ErrorKind::InvalidInput,
                join2("preset_id must be in range 1..=255, got ", dec_u64(value as u64).as_str()),
            ),
        )
    }

    pub fn value(self) -> (r: u8)
        ensures
            r == self@,
            1 <= r,
    {
        proof {
            use_type_invariant(&self);
        }
        self.0
    }
}

#[derive(Debug, Clone, PartialEq, Eq)]
pub struct PtzPreset {
    pub id: PresetId,
    pub name: Option<String>,
}

// ---------------------------------------------------------------- status

/// What the camera says of its position. A field is `None` where it said nothing.
#[derive(Debug, Clone, PartialEq, Eq)]
pub struct PtzStatus {
    pub channel: u8,
    pub pan_position: Option<i64>,
    pub tilt_position: Option<i64>,
    pub zoom_position: Option<i64>,
    pub focus_position: Option<i64>,
    pub pan_range: Option<NumericRange>,
    pub tilt_range: Option<NumericRange>,
    pub zoom_range: Option<NumericRange>,
    pub focus_range: Option<NumericRange>,
    pub preset_range: Option<NumericRange>,
    pub enabled_presets: Vec<u8>,
    pub calibration_state: Option<i64>,
}

pub ghost struct StatusModel {
    pub channel: u8,
    pub pan_position: Option<i64>,
    pub tilt_position: Option<i64>,
    pub zoom_position: Option<i64>,
    pub focus_position: Option<i64>,
    pub pan_range: Option<NumericRange>,
    pub tilt_range: Option<NumericRange>,
    pub zoom_range: Option<NumericRange>,
    pub focus_range: Option<NumericRange>,
    pub preset_range: Option<NumericRange>,
    pub enabled_presets: Seq<u8>,
    pub calibration_state: Option<i64>,
}

impl View for PtzStatus {
    type V = StatusModel;

    open spec fn view(&self) -> StatusModel {
        StatusModel {
            channel: self.channel,
            pan_position: self.pan_position,
            tilt_position: self.tilt_position,
            zoom_position: self.zoom_position,
            focus_position: self.focus_position,
            pan_range: self.pan_range,
            tilt_range: self.tilt_range,
            zoom_range: self.zoom_range,
            focus_range: self.focus_range,
            preset_range: self.preset_range,
            enabled_presets: self.enabled_presets@,
            calibration_state: self.calibration_state,
        }
    }
}

/// The status of a channel of which nothing is known.
pub open spec fn blank_status(channel: u8) -> StatusModel {
    StatusModel {
        channel,
        pan_position: None,
        tilt_position: None,
        zoom_position: None,
        focus_position: None,
        pan_range: None,
        tilt_range: None,
        zoom_range: None,
        focus_range: None,
        preset_range: None,
        enabled_presets: Seq::empty(),
        calibration_state: None,
    }
}

/// The calibration state that stands for a calibrated camera is 2.
pub open spec fn calibrated_state(status: StatusModel) -> Option<bool> {
    match status.calibration_state {
        Some(state) => Some(state == 2),
        None => None,
    }
}

impl Default for PtzStatus {
    fn default() -> (r: Self)
        ensures
            r@ == blank_status(0),
    {
        PtzStatus::blank(0)
    }
}

impl PtzStatus {
    /// The status of a channel of which nothing is known.
    pub fn blank(channel: u8) -> (r: Self)
        ensures
            r@ == blank_status(channel),
    {
        PtzStatus {
            channel,
            pan_position: None,
            tilt_position: None,
            zoom_position: None,
            focus_position: None,
            pan_range: None,
            tilt_range: None,
            zoom_range: None,
            focus_range: None,
            preset_range: None,
            enabled_presets: Vec::new(),
            calibration_state: None,
        }
    }

    pub fn calibrated(&self) -> (r: Option<bool>)
        ensures
            r == calibrated_state(self@),
    {
        match self.calibration_state {
            Some(state) => Some(state == 2),
            None => None,
        }
    }

    /// The camera said something.
    pub fn has_data(&self) -> (r: bool)
        ensures
            r == (self@ != blank_status(self.channel)),
    {
        let empty = self.enabled_presets.is_empty();
        proof {
            if empty {
                assert(self.enabled_presets@ =~= Seq::<u8>::empty());
            }
        }
        self.pan_position.is_some() || self.tilt_position.is_some() || self.zoom_position.is_some()
            || self.focus_position.is_some() || self.pan_range.is_some()
            || self.tilt_range.is_some() || self.zoom_range.is_some() || self.focus_range.is_some()
            || self.preset_range.is_some() || !empty || self.calibration_state.is_some()
    }
}

/// How well a calibration fits the movements it was made from.
#[derive(Debug, Clone, PartialEq, Eq)]
pub struct CalibrationReport {
    pub samples: usize,
    pub pan_error_p95_count: i64,
    pub tilt_error_p95_count: i64,
    pub notes: String,
}

pub ghost struct CalibrationReportModel {
    pub samples: usize,
    pub pan_error_p95_count: i64,
    pub tilt_error_p95_count: i64,
    pub notes: Seq<char>,
}

impl View for CalibrationReport {
    type V = CalibrationReportModel;

    open spec fn view(&self) -> CalibrationReportModel {
        CalibrationReportModel {
            samples: self.samples,
            pan_error_p95_count: self.pan_error_p95_count,
            tilt_error_p95_count: self.tilt_error_p95_count,
            notes: self.notes@,
        }
    }
}

impl CalibrationReport {
    /// A copy of the report.
    pub fn duplicate(&self) -> (r: Self)
        ensures
            r@ == self@,
    {
        CalibrationReport {
            samples: self.samples,
            pan_error_p95_count: self.pan_error_p95_count,
            tilt_error_p95_count: self.tilt_error_p95_count,
            notes: self.notes.clone(),
        }
    }
}

/// How an axis moves: what it keeps of its speed, and what a push adds to it. The two
/// numbers are kept as JSON values.
#[derive(Debug)]
pub struct AxisModelParams {
    pub alpha: serde_json::Value,
    pub beta: serde_json::Value,
}

pub ghost struct AxisModel {
    pub alpha: JsonTree,
    pub beta: JsonTree,
}

impl View for AxisModelParams {
    type V = AxisModel;

    open spec fn view(&self) -> AxisModel {
        AxisModel { alpha: value_tree(self.alpha), beta: value_tree(self.beta) }
    }
}

impl AxisModelParams {
    /// A copy of the numbers.
    pub fn duplicate(&self) -> (r: Self)
        ensures
            r@ == self@,
    {
        AxisModelParams { alpha: copy_value(&self.alpha), beta: copy_value(&self.beta) }
    }
}

/// The ends of the axes of a camera, its smallest movements, and how it moves.
#[derive(Debug)]
pub struct CalibrationParams {
    pub serial_number: String,
    pub model: String,
    pub firmware: String,
    pub pan_min_count: i64,
    pub pan_max_count: i64,
    pub pan_deadband_count: i64,
    pub pan_deadband_increase_count: Option<i64>,
    pub pan_deadband_decrease_count: Option<i64>,
    pub tilt_min_count: i64,
    pub tilt_max_count: i64,
    pub tilt_deadband_count: i64,
    pub tilt_deadband_increase_count: Option<i64>,
    pub tilt_deadband_decrease_count: Option<i64>,
    pub pan_model: AxisModelParams,
    pub tilt_model: AxisModelParams,
    pub created_at: String,
}

pub ghost struct CalibrationParamsModel {
    pub serial_number: Seq<char>,
    pub model: Seq<char>,
    pub firmware: Seq<char>,
    pub pan_min_count: i64,
    pub pan_max_count: i64,
    pub pan_deadband_count: i64,
    pub pan_deadband_increase_count: Option<i64>,
    pub pan_deadband_decrease_count: Option<i64>,
    pub tilt_min_count: i64,
    pub tilt_max_count: i64,
    pub tilt_deadband_count: i64,
    pub tilt_deadband_increase_count: Option<i64>,
    pub tilt_deadband_decrease_count: Option<i64>,
    pub pan_model: AxisModel,
    pub tilt_model: AxisModel,
    pub created_at: Seq<char>,
}

impl View for CalibrationParams {
    type V = CalibrationParamsModel;

    open spec fn view(&self) -> CalibrationParamsModel {
        CalibrationParamsModel {
            serial_number: self.serial_number@,
            model: self.model@,
            firmware: self.firmware@,
            pan_min_count: self.pan_min_count,
            pan_max_count: self.pan_max_count,
            pan_deadband_count: self.pan_deadband_count,
            pan_deadband_increase_count: self.pan_deadband_increase_count,
            pan_deadband_decrease_count: self.pan_deadband_decrease_count,
            tilt_min_count: self.tilt_min_count,
            tilt_max_count: self.tilt_max_count,
            tilt_deadband_count: self.tilt_deadband_count,
            tilt_deadband_increase_count: self.tilt_deadband_increase_count,
            tilt_deadband_decrease_count: self.tilt_deadband_decrease_count,
            pan_model: self.pan_model@,
            tilt_model: self.tilt_model@,
            created_at: self.created_at@,
        }
    }
}

impl CalibrationParams {
    /// A copy of the calibration.
    pub fn duplicate(&self) -> (r: Self)
        ensures
            r@ == self@,
    {
        CalibrationParams {
            serial_number: self.serial_number.clone(),
            model: self.model.clone(),
            firmware: self.firmware.clone(),
            pan_min_count: self.pan_min_count,
            pan_max_count: self.pan_max_count,
            pan_deadband_count: self.pan_deadband_count,
            pan_deadband_increase_count: self.pan_deadband_increase_count,
            pan_deadband_decrease_count: self.pan_deadband_decrease_count,
            tilt_min_count: self.tilt_min_count,
            tilt_max_count: self.tilt_max_count,
            tilt_deadband_count: self.tilt_deadband_count,
            tilt_deadband_increase_count: self.tilt_deadband_increase_count,
            tilt_deadband_decrease_count: self.tilt_deadband_decrease_count,
            pan_model: self.pan_model.duplicate(),
            tilt_model: self.tilt_model.duplicate(),
            created_at: self.created_at.clone(),
        }
    }
}

} // verus!
