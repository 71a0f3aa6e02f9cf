//! The session state machine, as pure logic: the per-session model
//! descriptor, capability gating, and for every typed operation the
//! outgoing command with its payload and the decoder for its replies.
//!
//! The transport around this module writes `CommandRequest`s to the wire
//! and feeds every parsed reply packet to the operation's matcher until
//! one is accepted or the deadline passes.

use vstd::prelude::*;

use crate::error::EarError;
use crate::models::{model_from_sku, spec_model_from_id, spec_model_from_sku, ModelBase};
use crate::models::{derive_sku_from_serial, model_from_id, spec_derive_sku};
use crate::payloads::{decode_custom_eq, led_pixel_is, parse_battery_payload, parse_gestures,
    parse_led_colors, spec_decode_custom_eq, spec_parse_battery, spec_parse_gestures,
    spec_parse_led_colors};
use crate::payloads::encode_custom_eq;
use crate::payloads::spec_encode_custom_eq;
use crate::protocol::{CMD_RING, CMD_SET_ANC, CMD_SET_CUSTOM_EQ, CMD_SET_ENHANCED_BASS,
    CMD_SET_EQ, CMD_SET_GESTURE, CMD_SET_IN_EAR, CMD_SET_LATENCY, CMD_SET_LED_CASE_COLORS,
    CMD_SET_PERSONALIZED_ANC, CMD_START_EAR_FIT_TEST};
use crate::protocol::{EarPacket, REQUEST_ANC, REQUEST_BATTERY, REQUEST_CUSTOM_EQ,
    REQUEST_ENHANCED_BASS, REQUEST_EQ, REQUEST_FIRMWARE, REQUEST_GESTURES,
    REQUEST_IN_EAR_STATUS, REQUEST_LATENCY_STATUS, REQUEST_LED_CASE_COLORS,
    REQUEST_PERSONALIZED_ANC, REQUEST_SERIAL};
use crate::protocol::{RESPONSE_ANC_PRIMARY, RESPONSE_ANC_SECONDARY, RESPONSE_BATTERY_PRIMARY,
    RESPONSE_BATTERY_SECONDARY, RESPONSE_CUSTOM_EQ, RESPONSE_EAR_FIT_RESULT,
    RESPONSE_ENHANCED_BASS, RESPONSE_EQ_LISTENING_MODE, RESPONSE_EQ_PRIMARY, RESPONSE_FIRMWARE,
    RESPONSE_GESTURES, RESPONSE_IN_EAR, RESPONSE_LATENCY, RESPONSE_LED_CASE_COLORS,
    RESPONSE_PERSONALIZED_ANC, RESPONSE_SERIAL};
use crate::serial::{parse_serial_number, spec_parse_serial};
use crate::text::{spec_trim, trim, utf8_lossy, utf8_lossy_of};
use crate::types::{AncLevel, BatteryStatus, CustomEq, EarFitResult, EarSide, EnhancedBassState,
    EqMode, FirmwareInfo, GestureSlot, InEarState, LatencyState, LedColor, LedColorSet,
    ModelSummary, PersonalizedAncState, SerialIdentity};
use crate::types::{spec_anc_from_device, spec_anc_to_device};

verus! {

/// An outgoing command: the 16-bit command code and its payload.
#[derive(Debug, Clone)]
pub struct CommandRequest {
    pub command: u16,
    pub payload: Vec<u8>,
}

/// The characters of an optional string.
pub open spec fn view_opt_string(o: Option<String>) -> Option<Seq<char>> {
    match o {
        Some(s) => Some(s@),
        None => None,
    }
}

fn clone_opt_string(o: &Option<String>) -> (r: Option<String>)
    ensures
        view_opt_string(r) == view_opt_string(*o),
{
    match o {
        Some(s) => Some(s.clone()),
        None => None,
    }
}

/// What a session knows about the connected model. Starts all-unknown
/// and is filled in by explicit selection or serial detection.
#[derive(Debug, Clone)]
pub struct ModelDescriptor {
    pub base: ModelBase,
    pub model_id: Option<String>,
    pub name: Option<String>,
    pub sku: Option<String>,
    pub serial: Option<String>,
}

impl Default for ModelDescriptor {
    /// The initial, all-unknown descriptor.
    fn default() -> (d: Self)
        ensures
            d.base is Unknown,
            d.model_id is None,
            d.name is None,
            d.sku is None,
            d.serial is None,
    {
        ModelDescriptor {
            base: ModelBase::Unknown,
            model_id: None,
            name: None,
            sku: None,
            serial: None,
        }
    }
}

impl ModelDescriptor {
    /// A snapshot of this descriptor.
    pub fn summary(&self) -> (s: ModelSummary)
        ensures
            s.base == self.base,
            view_opt_string(s.id) == view_opt_string(self.model_id),
            view_opt_string(s.name) == view_opt_string(self.name),
            view_opt_string(s.sku) == view_opt_string(self.sku),
            view_opt_string(s.serial_number) == view_opt_string(self.serial),
    {
        ModelSummary {
            id: clone_opt_string(&self.model_id),
            name: clone_opt_string(&self.name),
            sku: clone_opt_string(&self.sku),
            serial_number: clone_opt_string(&self.serial),
            base: self.base,
        }
    }
}

/// The descriptor for an explicitly selected catalog id; unknown ids are
/// rejected.
pub fn model_descriptor_from_id(id: &str) -> (r: Result<ModelDescriptor, EarError>)
    ensures
        match r {
            Ok(d) => {
                &&& spec_model_from_id(id@) matches Some(info)
                &&& d.base == info.base
                &&& view_opt_string(d.model_id) == Some(info.id)
                &&& view_opt_string(d.name) == Some(info.name)
                &&& d.sku is None
                &&& d.serial is None
            },
            Err(e) => spec_model_from_id(id@) is None && e is UnknownModel,
        },
{
    match model_from_id(id) {
        Some(info) => Ok(
            ModelDescriptor {
                base: info.base,
                model_id: Some(String::from_str(info.id)),
                name: Some(String::from_str(info.name)),
                sku: None,
                serial: None,
            },
        ),
        None => Err(EarError::UnknownModel),
    }
}

/// The descriptor for an explicitly selected SKU; SKUs outside the table
/// are rejected.
pub fn model_descriptor_from_sku(sku: &str, serial: Option<String>) -> (r: Result<
    ModelDescriptor,
    EarError,
>)
    ensures
        match r {
            Ok(d) => {
                &&& spec_model_from_sku(sku@) matches Some(info)
                &&& d.base == info.base
                &&& view_opt_string(d.model_id) == Some(info.id)
                &&& view_opt_string(d.name) == Some(info.name)
                &&& view_opt_string(d.sku) == Some(sku@)
                &&& view_opt_string(d.serial) == view_opt_string(serial)
            },
            Err(e) => spec_model_from_sku(sku@) is None && e is UnknownModel,
        },
{
    match model_from_sku(sku) {
        Some(info) => Ok(
            ModelDescriptor {
                base: info.base,
                model_id: Some(String::from_str(info.id)),
                name: Some(String::from_str(info.name)),
                sku: Some(String::from_str(sku)),
                serial,
            },
        ),
        None => Err(EarError::UnknownModel),
    }
}

/// The descriptor for an explicitly selected family, with everything
/// else unknown.
pub fn model_descriptor_from_base(base: ModelBase) -> (d: ModelDescriptor)
    ensures
        d.base == base,
        d.model_id is None,
        d.name is None,
        d.sku is None,
        d.serial is None,
{
    ModelDescriptor { base, model_id: None, name: None, sku: None, serial: None }
}

/// The family a session gates against: the descriptor's family, or
/// `Unknown` before any model was learned.
pub open spec fn spec_session_base(model: Option<ModelDescriptor>) -> ModelBase {
    match model {
        Some(d) => d.base,
        None => ModelBase::Unknown,
    }
}

/// Reads the family out of the session's descriptor slot.
pub fn session_base(model: &Option<ModelDescriptor>) -> (base: ModelBase)
    ensures
        base == spec_session_base(*model),
{
    match model {
        Some(d) => d.base,
        None => ModelBase::Unknown,
    }
}

fn empty_payload() -> (p: Vec<u8>)
    ensures
        p@ == Seq::<u8>::empty(),
{
    Vec::new()
}

fn payload1(a: u8) -> (p: Vec<u8>)
    ensures
        p@ == seq![a],
{
    let mut p: Vec<u8> = Vec::new();
    p.push(a);
    proof {
        assert(p@ =~= seq![a]);
    }
    p
}

fn payload2(a: u8, b: u8) -> (p: Vec<u8>)
    ensures
        p@ == seq![a, b],
{
    let mut p: Vec<u8> = Vec::new();
    p.push(a);
    p.push(b);
    proof {
        assert(p@ =~= seq![a, b]);
    }
    p
}

fn payload3(a: u8, b: u8, c: u8) -> (p: Vec<u8>)
    ensures
        p@ == seq![a, b, c],
{
    let mut p: Vec<u8> = Vec::new();
    p.push(a);
    p.push(b);
    p.push(c);
    proof {
        assert(p@ =~= seq![a, b, c]);
    }
    p
}

fn payload5(a: u8, b: u8, c: u8, d: u8, e: u8) -> (p: Vec<u8>)
    ensures
        p@ == seq![a, b, c, d, e],
{
    let mut p: Vec<u8> = Vec::new();
    p.push(a);
    p.push(b);
    p.push(c);
    p.push(d);
    p.push(e);
    proof {
        assert(p@ =~= seq![a, b, c, d, e]);
    }
    p
}

/// The serial-identification request.
pub fn detect_serial_request() -> (r: CommandRequest)
    ensures
        r.command == REQUEST_SERIAL,
        r.payload@ == Seq::<u8>::empty(),
{
    CommandRequest { command: REQUEST_SERIAL, payload: empty_payload() }
}

/// Accepts a serial-identification reply and hands its payload on.
pub fn match_serial_reply(packet: &EarPacket) -> (r: Option<Vec<u8>>)
    ensures
        packet.command == RESPONSE_SERIAL ==> (r matches Some(p) && p@ == packet.payload@),
        packet.command != RESPONSE_SERIAL ==> r is None,
{
    if packet.command == RESPONSE_SERIAL {
        Some(packet.payload.clone())
    } else {
        None
    }
}

/// The SKU that serial detection derives from a reply payload, if any.
pub open spec fn spec_detected_sku(payload: Seq<u8>) -> Option<Seq<char>> {
    match spec_parse_serial(payload) {
        Some(serial) => spec_derive_sku(serial),
        None => None,
    }
}

/// The catalog entry that serial detection resolves, if any.
pub open spec fn spec_detected_model(payload: Seq<u8>) -> Option<crate::models::ModelInfoView> {
    match spec_detected_sku(payload) {
        Some(sku) => spec_model_from_sku(sku),
        None => None,
    }
}

/// Applies a serial-identification reply to the session's descriptor
/// slot: parses the serial, derives the SKU, resolves the model, and -
/// only when a catalog entry was found - replaces the descriptor with
/// the detected model. Returns what was learned.
pub fn apply_serial_detection(model: &mut Option<ModelDescriptor>, payload: &[u8]) -> (r:
    SerialIdentity)
    ensures
        view_opt_string(r.serial_number) == spec_parse_serial(payload@),
        view_opt_string(r.sku) == spec_detected_sku(payload@),
        match spec_detected_model(payload@) {
            Some(info) => {
                &&& view_opt_string(r.model_id) == Some(info.id)
                &&& *final(model) matches Some(d)
                &&& d.base == info.base
                &&& view_opt_string(d.model_id) == Some(info.id)
                &&& view_opt_string(d.name) == Some(info.name)
                &&& view_opt_string(d.sku) == spec_detected_sku(payload@)
                &&& view_opt_string(d.serial) == spec_parse_serial(payload@)
            },
            None => r.model_id is None && *final(model) == *old(model),
        },
{
    let serial = parse_serial_number(payload);
    let mut sku: Option<String> = None;
    let mut model_id: Option<String> = None;
    if let Some(serial_number) = &serial {
        if let Some(detected) = derive_sku_from_serial(serial_number.as_str()) {
            if let Some(info) = model_from_sku(detected.as_str()) {
                let descriptor = ModelDescriptor {
                    base: info.base,
                    model_id: Some(String::from_str(info.id)),
                    name: Some(String::from_str(info.name)),
                    sku: Some(detected.clone()),
                    serial: Some(serial_number.clone()),
                };
                *model = Some(descriptor);
                model_id = Some(String::from_str(info.id));
            }
            sku = Some(detected);
        }
    }
    SerialIdentity { serial_number: serial, sku, model_id }
}

/// The battery request.
pub fn read_battery_request() -> (r: CommandRequest)
    ensures
        r.command == REQUEST_BATTERY,
        r.payload@ == Seq::<u8>::empty(),
{
    CommandRequest { command: REQUEST_BATTERY, payload: empty_payload() }
}

/// Accepts either battery reply and decodes its payload.
pub fn match_battery_reply(packet: &EarPacket) -> (r: Option<BatteryStatus>)
    ensures
        packet.command == RESPONSE_BATTERY_PRIMARY || packet.command == RESPONSE_BATTERY_SECONDARY
            ==> r == Some(spec_parse_battery(packet.payload@)),
        !(packet.command == RESPONSE_BATTERY_PRIMARY || packet.command
            == RESPONSE_BATTERY_SECONDARY) ==> r is None,
{
    if packet.command == RESPONSE_BATTERY_PRIMARY || packet.command == RESPONSE_BATTERY_SECONDARY {
        Some(parse_battery_payload(packet.payload.as_slice()))
    } else {
        None
    }
}

/// The ANC read request; not available on the B157 family.
pub fn read_anc_request(base: ModelBase) -> (r: Result<CommandRequest, EarError>)
    ensures
        base is B157 ==> (r matches Err(EarError::Unsupported(label)) && label@ == "ANC read"@),
        !(base is B157) ==> (r matches Ok(q) && q.command == REQUEST_ANC && q.payload@
            == Seq::<u8>::empty()),
{
    if matches!(base, ModelBase::B157) {
        Err(EarError::Unsupported("ANC read"))
    } else {
        Ok(CommandRequest { command: REQUEST_ANC, payload: empty_payload() })
    }
}

/// Accepts either ANC reply: its second payload byte is the device code
/// of the level; missing or unknown codes are not accepted.
pub fn match_anc_reply(packet: &EarPacket) -> (r: Option<AncLevel>)
    ensures
        packet.command == RESPONSE_ANC_PRIMARY || packet.command == RESPONSE_ANC_SECONDARY ==> r
            == (if packet.payload@.len() > 1 {
            spec_anc_from_device(packet.payload@[1])
        } else {
            None
        }),
        !(packet.command == RESPONSE_ANC_PRIMARY || packet.command == RESPONSE_ANC_SECONDARY)
            ==> r is None,
{
    if packet.command == RESPONSE_ANC_PRIMARY || packet.command == RESPONSE_ANC_SECONDARY {
        if packet.payload.len() > 1 {
            AncLevel::from_device(packet.payload[1])
        } else {
            None
        }
    } else {
        None
    }
}

/// The ANC write command `[0x01, device code, 0x00]`; not available on
/// the B157 family.
pub fn set_anc_command(base: ModelBase, level: AncLevel) -> (r: Result<CommandRequest, EarError>)
    ensures
        base is B157 ==> (r matches Err(EarError::Unsupported(label)) && label@ == "ANC write"@),
        !(base is B157) ==> (r matches Ok(q) && q.command == CMD_SET_ANC && q.payload@ == seq![
            0x01u8,
            spec_anc_to_device(level),
            0x00u8,
        ]),
{
    if matches!(base, ModelBase::B157) {
        Err(EarError::Unsupported("ANC write"))
    } else {
        Ok(
            CommandRequest {
                command: CMD_SET_ANC,
                payload: payload3(0x01, level.to_device(), 0x00),
            },
        )
    }
}

/// The preset-equalizer read request.
pub fn read_eq_request() -> (r: CommandRequest)
    ensures
        r.command == REQUEST_EQ,
        r.payload@ == Seq::<u8>::empty(),
{
    CommandRequest { command: REQUEST_EQ, payload: empty_payload() }
}

/// Accepts either equalizer reply: its first payload byte is the mode.
pub fn match_eq_reply(packet: &EarPacket) -> (r: Option<EqMode>)
    ensures
        packet.command == RESPONSE_EQ_PRIMARY || packet.command == RESPONSE_EQ_LISTENING_MODE
            ==> r == (if packet.payload@.len() > 0 {
            Some(EqMode { mode: packet.payload@[0] })
        } else {
            None
        }),
        !(packet.command == RESPONSE_EQ_PRIMARY || packet.command == RESPONSE_EQ_LISTENING_MODE)
            ==> r is None,
{
    if packet.command == RESPONSE_EQ_PRIMARY || packet.command == RESPONSE_EQ_LISTENING_MODE {
        if packet.payload.len() > 0 {
            Some(EqMode { mode: packet.payload[0] })
        } else {
            None
        }
    } else {
        None
    }
}

/// The preset-equalizer write command `[mode, 0x00]`.
pub fn set_eq_mode_command(mode: u8) -> (r: CommandRequest)
    ensures
        r.command == CMD_SET_EQ,
        r.payload@ == seq![mode, 0x00u8],
{
    CommandRequest { command: CMD_SET_EQ, payload: payload2(mode, 0x00) }
}

/// The custom-equalizer read request; not available on the B181 family.
pub fn get_custom_eq_request(base: ModelBase) -> (r: Result<CommandRequest, EarError>)
    ensures
        base is B181 ==> (r matches Err(EarError::Unsupported(label)) && label@ == "custom EQ"@),
        !(base is B181) ==> (r matches Ok(q) && q.command == REQUEST_CUSTOM_EQ && q.payload@
            == Seq::<u8>::empty()),
{
    if !base.supports_custom_eq() {
        Err(EarError::Unsupported("custom EQ"))
    } else {
        Ok(CommandRequest { command: REQUEST_CUSTOM_EQ, payload: empty_payload() })
    }
}

/// Accepts a custom-equalizer reply and decodes its band slots.
pub fn match_custom_eq_reply(packet: &EarPacket) -> (r: Option<CustomEq>)
    ensures
        packet.command == RESPONSE_CUSTOM_EQ ==> r == spec_decode_custom_eq(packet.payload@),
        packet.command != RESPONSE_CUSTOM_EQ ==> r is None,
{
    if packet.command == RESPONSE_CUSTOM_EQ {
        decode_custom_eq(packet.payload.as_slice())
    } else {
        None
    }
}

/// The custom-equalizer write command; not available on the B181 family.
pub fn set_custom_eq_command(base: ModelBase, eq: CustomEq) -> (r: Result<
    CommandRequest,
    EarError,
>)
    ensures
        base is B181 ==> (r matches Err(EarError::Unsupported(label)) && label@ == "custom EQ"@),
        !(base is B181) ==> (r matches Ok(q) && q.command == CMD_SET_CUSTOM_EQ && q.payload@
            == spec_encode_custom_eq(eq)),
{
    if !base.supports_custom_eq() {
        Err(EarError::Unsupported("custom EQ"))
    } else {
        Ok(CommandRequest { command: CMD_SET_CUSTOM_EQ, payload: encode_custom_eq(eq) })
    }
}

/// Whether a family takes enhanced-bass commands.
pub open spec fn spec_supports_enhanced_bass(base: ModelBase) -> bool {
    base is B171 || base is B172 || base is B168 || base is B162
}

/// The enhanced-bass read request; only the B171, B172, B168 and B162
/// families take it.
pub fn read_enhanced_bass_request(base: ModelBase) -> (r: Result<CommandRequest, EarError>)
    ensures
        !spec_supports_enhanced_bass(base) ==> (r matches Err(EarError::Unsupported(label))
            && label@ == "enhanced bass"@),
        spec_supports_enhanced_bass(base) ==> (r matches Ok(q) && q.command
            == REQUEST_ENHANCED_BASS && q.payload@ == Seq::<u8>::empty()),
{
    if !base.supports_enhanced_bass() {
        Err(EarError::Unsupported("enhanced bass"))
    } else {
        Ok(CommandRequest { command: REQUEST_ENHANCED_BASS, payload: empty_payload() })
    }
}

/// Accepts an enhanced-bass reply: byte 0 non-zero means enabled, byte 1
/// holds twice the level; missing bytes read as zero.
pub fn match_enhanced_bass_reply(packet: &EarPacket) -> (r: Option<EnhancedBassState>)
    ensures
        packet.command == RESPONSE_ENHANCED_BASS ==> r == Some(
            EnhancedBassState {
                enabled: (if packet.payload@.len() > 0 {
                    packet.payload@[0]
                } else {
                    0
                }) > 0,
                level: ((if packet.payload@.len() > 1 {
                    packet.payload@[1]
                } else {
                    0
                }) / 2) as u8,
            },
        ),
        packet.command != RESPONSE_ENHANCED_BASS ==> r is None,
{
    if packet.command == RESPONSE_ENHANCED_BASS {
        let byte0: u8 = if packet.payload.len() > 0 {
            packet.payload[0]
        } else {
            0
        };
        let byte1: u8 = if packet.payload.len() > 1 {
            packet.payload[1]
        } else {
            0
        };
        Some(EnhancedBassState { enabled: byte0 > 0, level: byte1 / 2 })
    } else {
        None
    }
}

/// `level` doubled, saturating at 255.
pub open spec fn spec_doubled_level(level: u8) -> u8 {
    if level >= 128 {
        255
    } else {
        (2 * level) as u8
    }
}

/// The enhanced-bass write command `[enabled, 2 * level]` (saturating);
/// only the B171, B172, B168 and B162 families take it.
pub fn set_enhanced_bass_command(base: ModelBase, enabled: bool, level: u8) -> (r: Result<
    CommandRequest,
    EarError,
>)
    ensures
        !spec_supports_enhanced_bass(base) ==> (r matches Err(EarError::Unsupported(label))
            && label@ == "enhanced bass"@),
        spec_supports_enhanced_bass(base) ==> (r matches Ok(q) && q.command
            == CMD_SET_ENHANCED_BASS && q.payload@ == seq![
            if enabled {
                1u8
            } else {
                0u8
            },
            spec_doubled_level(level),
        ]),
{
    if !base.supports_enhanced_bass() {
        Err(EarError::Unsupported("enhanced bass"))
    } else {
        let doubled: u8 = if level >= 128 {
            255
        } else {
            2 * level
        };
        let flag: u8 = if enabled {
            1
        } else {
            0
        };
        Ok(CommandRequest { command: CMD_SET_ENHANCED_BASS, payload: payload2(flag, doubled) })
    }
}

/// The personalized-ANC read request; only the B155 family takes it.
pub fn get_personalized_anc_request(base: ModelBase) -> (r: Result<CommandRequest, EarError>)
    ensures
        !(base is B155) ==> (r matches Err(EarError::Unsupported(label)) && label@
            == "personalized ANC"@),
        base is B155 ==> (r matches Ok(q) && q.command == REQUEST_PERSONALIZED_ANC && q.payload@
            == Seq::<u8>::empty()),
{
    if !base.supports_personalized_anc() {
        Err(EarError::Unsupported("personalized ANC"))
    } else {
        Ok(CommandRequest { command: REQUEST_PERSONALIZED_ANC, payload: empty_payload() })
    }
}

/// Accepts a personalized-ANC reply: byte 0 equal to one means enabled.
pub fn match_personalized_anc_reply(packet: &EarPacket) -> (r: Option<PersonalizedAncState>)
    ensures
        packet.command == RESPONSE_PERSONALIZED_ANC ==> r == (if packet.payload@.len() > 0 {
            Some(PersonalizedAncState { enabled: packet.payload@[0] == 1 })
        } else {
            None
        }),
        packet.command != RESPONSE_PERSONALIZED_ANC ==> r is None,
{
    if packet.command == RESPONSE_PERSONALIZED_ANC {
        if packet.payload.len() > 0 {
            Some(PersonalizedAncState { enabled: packet.payload[0] == 1 })
        } else {
            None
        }
    } else {
        None
    }
}

/// The personalized-ANC write command `[enabled]`; only the B155 family
/// takes it.
pub fn set_personalized_anc_command(base: ModelBase, enabled: bool) -> (r: Result<
    CommandRequest,
    EarError,
>)
    ensures
        !(base is B155) ==> (r matches Err(EarError::Unsupported(label)) && label@
            == "personalized ANC"@),
        base is B155 ==> (r matches Ok(q) && q.command == CMD_SET_PERSONALIZED_ANC && q.payload@
            == seq![
            if enabled {
                1u8
            } else {
                0u8
            },
        ]),
{
    if !base.supports_personalized_anc() {
        Err(EarError::Unsupported("personalized ANC"))
    } else {
        let flag: u8 = if enabled {
            1
        } else {
            0
        };
        Ok(CommandRequest { command: CMD_SET_PERSONALIZED_ANC, payload: payload1(flag) })
    }
}

/// The in-ear-detection read request; not available on the B174 family.
pub fn read_in_ear_request(base: ModelBase) -> (r: Result<CommandRequest, EarError>)
    ensures
        base is B174 ==> (r matches Err(EarError::Unsupported(label)) && label@
            == "in-ear detection"@),
        !(base is B174) ==> (r matches Ok(q) && q.command == REQUEST_IN_EAR_STATUS && q.payload@
            == Seq::<u8>::empty()),
{
    if !base.supports_in_ear_detection() {
        Err(EarError::Unsupported("in-ear detection"))
    } else {
        Ok(CommandRequest { command: REQUEST_IN_EAR_STATUS, payload: empty_payload() })
    }
}

/// Accepts an in-ear-status reply: byte 2 equal to one means detection
/// is enabled.
pub fn match_in_ear_reply(packet: &EarPacket) -> (r: Option<InEarState>)
    ensures
        packet.command == RESPONSE_IN_EAR ==> r == (if packet.payload@.len() > 2 {
            Some(InEarState { detection_enabled: packet.payload@[2] == 1 })
        } else {
            None
        }),
        packet.command != RESPONSE_IN_EAR ==> r is None,
{
    if packet.command == RESPONSE_IN_EAR {
        if packet.payload.len() > 2 {
            Some(InEarState { detection_enabled: packet.payload[2] == 1 })
        } else {
            None
        }
    } else {
        None
    }
}

/// The in-ear-detection write command `[0x01, 0x01, enabled]`; not
/// available on the B174 family.
pub fn set_in_ear_detection_command(base: ModelBase, enabled: bool) -> (r: Result<
    CommandRequest,
    EarError,
>)
    ensures
        base is B174 ==> (r matches Err(EarError::Unsupported(label)) && label@
            == "in-ear detection"@),
        !(base is B174) ==> (r matches Ok(q) && q.command == CMD_SET_IN_EAR && q.payload@ == seq![
            0x01u8,
            0x01u8,
            if enabled {
                1u8
            } else {
                0u8
            },
        ]),
{
    if !base.supports_in_ear_detection() {
        Err(EarError::Unsupported("in-ear detection"))
    } else {
        let flag: u8 = if enabled {
            1
        } else {
            0
        };
        Ok(CommandRequest { command: CMD_SET_IN_EAR, payload: payload3(0x01, 0x01, flag) })
    }
}

/// The latency read request.
pub fn read_latency_request() -> (r: CommandRequest)
    ensures
        r.command == REQUEST_LATENCY_STATUS,
        r.payload@ == Seq::<u8>::empty(),
{
    CommandRequest { command: REQUEST_LATENCY_STATUS, payload: empty_payload() }
}

/// Accepts a latency reply: byte 0 equal to one means low latency is on.
pub fn match_latency_reply(packet: &EarPacket) -> (r: Option<LatencyState>)
    ensures
        packet.command == RESPONSE_LATENCY ==> r == (if packet.payload@.len() > 0 {
            Some(LatencyState { low_latency_enabled: packet.payload@[0] == 1 })
        } else {
            None
        }),
        packet.command != RESPONSE_LATENCY ==> r is None,
{
    if packet.command == RESPONSE_LATENCY {
        if packet.payload.len() > 0 {
            Some(LatencyState { low_latency_enabled: packet.payload[0] == 1 })
        } else {
            None
        }
    } else {
        None
    }
}

/// The latency write command: `[0x01, 0x00]` to enable low latency,
/// `[0x02, 0x00]` to disable it.
pub fn set_latency_command(enabled: bool) -> (r: CommandRequest)
    ensures
        r.command == CMD_SET_LATENCY,
        enabled ==> r.payload@ == seq![0x01u8, 0x00u8],
        !enabled ==> r.payload@ == seq![0x02u8, 0x00u8],
{
    let selector: u8 = if enabled {
        0x01
    } else {
        0x02
    };
    CommandRequest { command: CMD_SET_LATENCY, payload: payload2(selector, 0x00) }
}

/// The firmware read request.
pub fn read_firmware_request() -> (r: CommandRequest)
    ensures
        r.command == REQUEST_FIRMWARE,
        r.payload@ == Seq::<u8>::empty(),
{
    CommandRequest { command: REQUEST_FIRMWARE, payload: empty_payload() }
}

/// Accepts a firmware reply: the payload is the version text, decoded as
/// lossy UTF-8 and trimmed.
pub fn match_firmware_reply(packet: &EarPacket) -> (r: Option<FirmwareInfo>)
    ensures
        packet.command == RESPONSE_FIRMWARE ==> (r matches Some(info) && info.version@
            == spec_trim(utf8_lossy_of(packet.payload@))),
        packet.command != RESPONSE_FIRMWARE ==> r is None,
{
    if packet.command == RESPONSE_FIRMWARE {
        let text = utf8_lossy(packet.payload.as_slice());
        let version = String::from_str(trim(text.as_str()));
        Some(FirmwareInfo { version })
    } else {
        None
    }
}

/// The command that starts an ear-fit test: `[0x01]`.
pub fn launch_ear_fit_command() -> (r: CommandRequest)
    ensures
        r.command == CMD_START_EAR_FIT_TEST,
        r.payload@ == seq![0x01u8],
{
    CommandRequest { command: CMD_START_EAR_FIT_TEST, payload: payload1(0x01) }
}

/// The request that reads an ear-fit result: `[0x00]`.
pub fn read_ear_fit_request() -> (r: CommandRequest)
    ensures
        r.command == CMD_START_EAR_FIT_TEST,
        r.payload@ == seq![0x00u8],
{
    CommandRequest { command: CMD_START_EAR_FIT_TEST, payload: payload1(0x00) }
}

/// Accepts an ear-fit result: one byte per side; missing bytes read as
/// zero.
pub fn match_ear_fit_reply(packet: &EarPacket) -> (r: Option<EarFitResult>)
    ensures
        packet.command == RESPONSE_EAR_FIT_RESULT ==> r == Some(
            EarFitResult {
                left: if packet.payload@.len() > 0 {
                    packet.payload@[0]
                } else {
                    0
                },
                right: if packet.payload@.len() > 1 {
                    packet.payload@[1]
                } else {
                    0
                },
            },
        ),
        packet.command != RESPONSE_EAR_FIT_RESULT ==> r is None,
{
    if packet.command == RESPONSE_EAR_FIT_RESULT {
        let left: u8 = if packet.payload.len() > 0 {
            packet.payload[0]
        } else {
            0
        };
        let right: u8 = if packet.payload.len() > 1 {
            packet.payload[1]
        } else {
            0
        };
        Some(EarFitResult { left, right })
    } else {
        None
    }
}

/// The gesture-table read request.
pub fn read_gestures_request() -> (r: CommandRequest)
    ensures
        r.command == REQUEST_GESTURES,
        r.payload@ == Seq::<u8>::empty(),
{
    CommandRequest { command: REQUEST_GESTURES, payload: empty_payload() }
}

/// Accepts a gesture-table reply and decodes the slots.
pub fn match_gestures_reply(packet: &EarPacket) -> (r: Option<Vec<GestureSlot>>)
    ensures
        packet.command == RESPONSE_GESTURES ==> (r matches Some(gestures) && gestures@
            == spec_parse_gestures(packet.payload@)),
        packet.command != RESPONSE_GESTURES ==> r is None,
{
    if packet.command == RESPONSE_GESTURES {
        Some(parse_gestures(packet.payload.as_slice()))
    } else {
        None
    }
}

/// The gesture write command `[0x01, device, common, type, action]`.
pub fn set_gesture_command(slot: &GestureSlot) -> (r: CommandRequest)
    ensures
        r.command == CMD_SET_GESTURE,
        r.payload@ == seq![0x01u8, slot.device, slot.common, slot.gesture_type, slot.action],
{
    CommandRequest {
        command: CMD_SET_GESTURE,
        payload: payload5(0x01, slot.device, slot.common, slot.gesture_type, slot.action),
    }
}

/// The case-LED read request; only the B181 family takes it.
pub fn read_led_case_request(base: ModelBase) -> (r: Result<CommandRequest, EarError>)
    ensures
        !(base is B181) ==> (r matches Err(EarError::Unsupported(label)) && label@
            == "case led color"@),
        base is B181 ==> (r matches Ok(q) && q.command == REQUEST_LED_CASE_COLORS && q.payload@
            == Seq::<u8>::empty()),
{
    if !base.supports_case_led() {
        Err(EarError::Unsupported("case led color"))
    } else {
        Ok(CommandRequest { command: REQUEST_LED_CASE_COLORS, payload: empty_payload() })
    }
}

/// Accepts a case-LED reply and decodes the pixel table.
pub fn match_led_case_reply(packet: &EarPacket) -> (r: Option<LedColorSet>)
    ensures
        packet.command == RESPONSE_LED_CASE_COLORS ==> (r matches Some(colors) && {
            &&& colors.pixels@.len() == spec_parse_led_colors(packet.payload@).len()
            &&& forall|i: int|
                0 <= i < colors.pixels@.len() ==> led_pixel_is(
                    #[trigger] colors.pixels@[i],
                    spec_parse_led_colors(packet.payload@)[i],
                )
        }),
        packet.command != RESPONSE_LED_CASE_COLORS ==> r is None,
{
    if packet.command == RESPONSE_LED_CASE_COLORS {
        Some(parse_led_colors(packet.payload.as_slice()))
    } else {
        None
    }
}

/// The case-LED payload for the first `n` pixels: the pixel count, then
/// for each pixel its 1-based index and its three color bytes.
pub open spec fn spec_led_payload_after(pixels: Seq<LedColor>, n: int) -> Seq<u8>
    decreases n,
{
    if n <= 0 {
        seq![pixels.len() as u8]
    } else {
        spec_led_payload_after(pixels, n - 1) + seq![
            n as u8,
            pixels[n - 1].0@[0],
            pixels[n - 1].0@[1],
            pixels[n - 1].0@[2],
        ]
    }
}

/// The case-LED write command; only the B181 family takes it. The pixel
/// count must fit in the single count byte.
pub fn set_led_case_command(base: ModelBase, colors: &LedColorSet) -> (r: Result<
    CommandRequest,
    EarError,
>)
    requires
        colors.pixels@.len() <= 255,
    ensures
        !(base is B181) ==> (r matches Err(EarError::Unsupported(label)) && label@
            == "case led color"@),
        base is B181 ==> (r matches Ok(q) && q.command == CMD_SET_LED_CASE_COLORS && q.payload@
            == spec_led_payload_after(colors.pixels@, colors.pixels@.len() as int)),
{
    if !base.supports_case_led() {
        return Err(EarError::Unsupported("case led color"));
    }
    let count = colors.pixels.len();
    let mut payload: Vec<u8> = Vec::new();
    payload.push(count as u8);
    proof {
        assert(payload@ =~= spec_led_payload_after(colors.pixels@, 0));
    }
    let mut i: usize = 0;
    while i < count
        invariant
            i <= count,
            count == colors.pixels@.len(),
            count <= 255,
            payload@ == spec_led_payload_after(colors.pixels@, i as int),
        decreases count - i,
    {
        let pixel = &colors.pixels[i];
        payload.push((i + 1) as u8);
        payload.push(pixel.0[0]);
        payload.push(pixel.0[1]);
        payload.push(pixel.0[2]);
        proof {
            assert(payload@ =~= spec_led_payload_after(colors.pixels@, i + 1));
        }
        i = i + 1;
    }
    Ok(CommandRequest { command: CMD_SET_LED_CASE_COLORS, payload })
}

/// The device byte that names a side in a ring command: 0x02 for the
/// left bud, 0x03 for the right bud or when no side is given.
pub open spec fn spec_ring_side_byte(side: Option<EarSide>) -> u8 {
    match side {
        Some(EarSide::Left) => 0x02,
        _ => 0x03,
    }
}

/// The ring command. On the B181 family the payload is the single
/// enable byte; on every other family it is the side byte followed by
/// the enable byte.
pub fn ring_command(base: ModelBase, enable: bool, side: Option<EarSide>) -> (r: CommandRequest)
    ensures
        r.command == CMD_RING,
        base is B181 ==> r.payload@ == seq![
            if enable {
                1u8
            } else {
                0u8
            },
        ],
        !(base is B181) ==> r.payload@ == seq![
            spec_ring_side_byte(side),
            if enable {
                1u8
            } else {
                0u8
            },
        ],
{
    let flag: u8 = if enable {
        1
    } else {
        0
    };
    if matches!(base, ModelBase::B181) {
        CommandRequest { command: CMD_RING, payload: payload1(flag) }
    } else {
        let device: u8 = match side {
            Some(EarSide::Left) => 0x02,
            _ => 0x03,
        };
        CommandRequest { command: CMD_RING, payload: payload2(device, flag) }
    }
}

} // verus!
