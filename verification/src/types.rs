//! The typed command/response vocabulary: battery readings, ANC levels,
//! equalizer state, gestures, LED case colors and the identity records.

use vstd::prelude::*;

use crate::models::ModelBase;

verus! {

/// The state of one battery: absent from a response, or a level with a
/// charging flag.
#[derive(Debug, Clone, PartialEq, Eq, Structural)]
pub enum BatteryReading {
    Disconnected,
    Level { percent: u8, charging: bool },
}

/// The batteries of the left bud, the right bud, and the case.
#[derive(Debug, Clone, PartialEq, Eq, Structural)]
pub struct BatteryStatus {
    pub left: BatteryReading,
    pub right: BatteryReading,
    pub case: BatteryReading,
}

impl BatteryStatus {
    /// The all-disconnected status.
    pub fn empty() -> (status: Self)
        ensures
            status == (BatteryStatus {
                left: BatteryReading::Disconnected,
                right: BatteryReading::Disconnected,
                case: BatteryReading::Disconnected,
            }),
    {
        BatteryStatus {
            left: BatteryReading::Disconnected,
            right: BatteryReading::Disconnected,
            case: BatteryReading::Disconnected,
        }
    }
}

/// A side of the product.
#[derive(Debug, Clone, Copy, PartialEq, Eq, Structural)]
pub enum EarSide {
    Left,
    Right,
    Case,
}

/// An active-noise-cancellation setting.
#[derive(Debug, Clone, Copy, PartialEq, Eq, Structural)]
pub enum AncLevel {
    Off,
    Transparency,
    NoiseCancellationLow,
    NoiseCancellationHigh,
    NoiseCancellationMid,
    NoiseCancellationAdaptive,
}

/// The device byte for an ANC setting.
pub open spec fn spec_anc_to_device(level: AncLevel) -> u8 {
    match level {
        AncLevel::Off => 0x05,
        AncLevel::Transparency => 0x07,
        AncLevel::NoiseCancellationLow => 0x03,
        AncLevel::NoiseCancellationHigh => 0x01,
        AncLevel::NoiseCancellationMid => 0x02,
        AncLevel::NoiseCancellationAdaptive => 0x04,
    }
}

/// The ANC setting a device byte names; bytes outside the table decode to
/// `None`.
pub open spec fn spec_anc_from_device(value: u8) -> Option<AncLevel> {
    match value {
        0x05 => Some(AncLevel::Off),
        0x07 => Some(AncLevel::Transparency),
        0x03 => Some(AncLevel::NoiseCancellationLow),
        0x01 => Some(AncLevel::NoiseCancellationHigh),
        0x02 => Some(AncLevel::NoiseCancellationMid),
        0x04 => Some(AncLevel::NoiseCancellationAdaptive),
        _ => None,
    }
}

impl AncLevel {
    /// Decodes a device byte.
    pub fn from_device(value: u8) -> (r: Option<Self>)
        ensures
            r == spec_anc_from_device(value),
    {
        match value {
            0x05 => Some(Self::Off),
            0x07 => Some(Self::Transparency),
            0x03 => Some(Self::NoiseCancellationLow),
            0x01 => Some(Self::NoiseCancellationHigh),
            0x02 => Some(Self::NoiseCancellationMid),
            0x04 => Some(Self::NoiseCancellationAdaptive),
            _ => None,
        }
    }

    /// Encodes this setting as its device byte.
    pub fn to_device(self) -> (r: u8)
        ensures
            r == spec_anc_to_device(self),
    {
        match self {
            AncLevel::Off => 0x05,
            AncLevel::Transparency => 0x07,
            AncLevel::NoiseCancellationLow => 0x03,
            AncLevel::NoiseCancellationHigh => 0x01,
            AncLevel::NoiseCancellationMid => 0x02,
            AncLevel::NoiseCancellationAdaptive => 0x04,
        }
    }
}

/// The display label of an ANC setting.
pub open spec fn spec_anc_label(level: AncLevel) -> Seq<char> {
    match level {
        AncLevel::Off => "off"@,
        AncLevel::Transparency => "transparency"@,
        AncLevel::NoiseCancellationLow => "nc-low"@,
        AncLevel::NoiseCancellationHigh => "nc-high"@,
        AncLevel::NoiseCancellationMid => "nc-mid"@,
        AncLevel::NoiseCancellationAdaptive => "adaptive"@,
    }
}

impl AncLevel {
    /// The display label of this setting.
    pub fn label(self) -> (r: &'static str)
        ensures
            r@ == spec_anc_label(self),
    {
        match self {
            AncLevel::Off => "off",
            AncLevel::Transparency => "transparency",
            AncLevel::NoiseCancellationLow => "nc-low",
            AncLevel::NoiseCancellationHigh => "nc-high",
            AncLevel::NoiseCancellationMid => "nc-mid",
            AncLevel::NoiseCancellationAdaptive => "adaptive",
        }
    }
}

/// The display label of a side.
pub open spec fn spec_side_label(side: EarSide) -> Seq<char> {
    match side {
        EarSide::Left => "left"@,
        EarSide::Right => "right"@,
        EarSide::Case => "case"@,
    }
}

impl EarSide {
    /// The display label of this side.
    pub fn label(self) -> (r: &'static str)
        ensures
            r@ == spec_side_label(self),
    {
        match self {
            EarSide::Left => "left",
            EarSide::Right => "right",
            EarSide::Case => "case",
        }
    }
}

/// Law: decoding the device byte of any ANC setting yields that setting
/// back.
pub proof fn lemma_anc_level_round_trip(level: AncLevel)
    ensures
        spec_anc_from_device(spec_anc_to_device(level)) == Some(level),
{
}

/// A preset equalizer mode byte.
#[derive(Debug, Clone, PartialEq, Eq, Structural)]
pub struct EqMode {
    pub mode: u8,
}

/// The three-band custom equalizer. Each band gain is held as the bit
/// pattern of an IEEE 754 single-precision value, which is what the wire
/// codec works on.
#[derive(Debug, Clone, Copy, PartialEq, Eq, Structural)]
pub struct CustomEq {
    pub bass: u32,
    pub mid: u32,
    pub treble: u32,
}

/// The enhanced-bass state.
#[derive(Debug, Clone, PartialEq, Eq, Structural)]
pub struct EnhancedBassState {
    pub enabled: bool,
    pub level: u8,
}

/// The personalized-ANC state.
#[derive(Debug, Clone, PartialEq, Eq, Structural)]
pub struct PersonalizedAncState {
    pub enabled: bool,
}

/// The low-latency state.
#[derive(Debug, Clone, PartialEq, Eq, Structural)]
pub struct LatencyState {
    pub low_latency_enabled: bool,
}

/// The in-ear-detection state.
#[derive(Debug, Clone, PartialEq, Eq, Structural)]
pub struct InEarState {
    pub detection_enabled: bool,
}

/// The firmware version string reported by the device.
#[derive(Debug, Clone)]
pub struct FirmwareInfo {
    pub version: String,
}

/// The outcome of an ear-fit test, one byte per side.
#[derive(Debug, Clone, PartialEq, Eq, Structural)]
pub struct EarFitResult {
    pub left: u8,
    pub right: u8,
}

/// One gesture table entry.
#[derive(Debug, Clone, PartialEq, Eq, Structural)]
pub struct GestureSlot {
    pub device: u8,
    pub common: u8,
    pub gesture_type: u8,
    pub action: u8,
}

/// One case LED pixel as red, green, blue.
#[derive(Debug, Clone)]
pub struct LedColor(pub [u8; 3]);

/// The case LED pixel table.
#[derive(Debug, Clone)]
pub struct LedColorSet {
    pub pixels: Vec<LedColor>,
}

/// What serial detection learned: any of the three may be absent.
#[derive(Debug, Clone)]
pub struct SerialIdentity {
    pub serial_number: Option<String>,
    pub sku: Option<String>,
    pub model_id: Option<String>,
}

/// A snapshot of the model descriptor of a session.
#[derive(Debug, Clone)]
pub struct ModelSummary {
    pub id: Option<String>,
    pub name: Option<String>,
    pub sku: Option<String>,
    pub serial_number: Option<String>,
    pub base: ModelBase,
}

} // verus!
