//! Bit-level payload codecs: the battery, gesture and LED-table parsers
//! and the custom-equalizer float encoding.

use vstd::prelude::*;

use crate::types::{BatteryReading, BatteryStatus, CustomEq, GestureSlot, LedColor, LedColorSet};

verus! {

/// The battery reading encoded by a level byte: low seven bits are the
/// percentage, the high bit is the charging flag.
pub open spec fn spec_battery_reading(level_byte: u8) -> BatteryReading {
    BatteryReading::Level { percent: level_byte & 0x7F, charging: level_byte & 0x80 == 0x80 }
}

/// The battery status after the first `n` entries of payload `p` have
/// been applied. Entry `i` sits at bytes `1 + 2i` (device id) and
/// `2 + 2i` (level); entries that would run past the payload are
/// ignored, as are unknown device ids.
pub open spec fn spec_battery_after(p: Seq<u8>, n: int) -> BatteryStatus
    decreases n,
{
    if n <= 0 {
        BatteryStatus {
            left: BatteryReading::Disconnected,
            right: BatteryReading::Disconnected,
            case: BatteryReading::Disconnected,
        }
    } else {
        let prev = spec_battery_after(p, n - 1);
        let idx = 1 + 2 * (n - 1);
        if idx + 1 >= p.len() {
            prev
        } else {
            let reading = spec_battery_reading(p[idx + 1]);
            if p[idx] == 0x02 {
                BatteryStatus { left: reading, ..prev }
            } else if p[idx] == 0x03 {
                BatteryStatus { right: reading, ..prev }
            } else if p[idx] == 0x04 {
                BatteryStatus { case: reading, ..prev }
            } else {
                prev
            }
        }
    }
}

/// The battery status a payload decodes to: byte 0 is the entry count.
pub open spec fn spec_parse_battery(p: Seq<u8>) -> BatteryStatus {
    if p.len() == 0 {
        spec_battery_after(p, 0)
    } else {
        spec_battery_after(p, p[0] as int)
    }
}

proof fn lemma_battery_stops(p: Seq<u8>, i: int, n: int)
    requires
        0 <= i <= n,
        2 * i + 2 >= p.len(),
    ensures
        spec_battery_after(p, n) == spec_battery_after(p, i),
    decreases n,
{
    if n > i {
        lemma_battery_stops(p, i, n - 1);
    }
}

/// Decodes a battery payload. Fields absent from the response stay
/// `Disconnected`; entries that would run past the payload are ignored.
pub fn parse_battery_payload(payload: &[u8]) -> (status: BatteryStatus)
    ensures
        status == spec_parse_battery(payload@),
{
    let mut status = BatteryStatus::empty();
    if payload.len() == 0 {
        return status;
    }
    let count: usize = payload[0] as usize;
    let mut i: usize = 0;
    while i < count
        invariant
            i <= count,
            payload@.len() > 0,
            count == payload@[0],
            status == spec_battery_after(payload@, i as int),
        decreases count - i,
    {
        let idx: usize = 1 + i * 2;
        if idx + 1 >= payload.len() {
            proof {
                lemma_battery_stops(payload@, i as int, count as int);
            }
            return status;
        }
        let device_id = payload[idx];
        let level_byte = payload[idx + 1];
        let reading = BatteryReading::Level {
            percent: level_byte & 0x7F,
            charging: level_byte & 0x80 == 0x80,
        };
        if device_id == 0x02 {
            status.left = reading;
        } else if device_id == 0x03 {
            status.right = reading;
        } else if device_id == 0x04 {
            status.case = reading;
        }
        i = i + 1;
    }
    status
}

/// The level byte that encodes `percent` with charging flag `charging`.
pub open spec fn spec_battery_level_byte(percent: u8, charging: bool) -> u8 {
    if charging {
        percent | 0x80
    } else {
        percent
    }
}

/// A battery payload carrying all three readings, packed as the device
/// packs them: a count of three, then (device id, level byte) pairs for
/// left, right and case.
pub open spec fn spec_pack_battery(
    left_percent: u8,
    left_charging: bool,
    right_percent: u8,
    right_charging: bool,
    case_percent: u8,
    case_charging: bool,
) -> Seq<u8> {
    seq![
        3u8,
        0x02u8,
        spec_battery_level_byte(left_percent, left_charging),
        0x03u8,
        spec_battery_level_byte(right_percent, right_charging),
        0x04u8,
        spec_battery_level_byte(case_percent, case_charging),
    ]
}

/// Law: packing any three readings whose percentages fit in seven bits
/// and parsing the result yields the readings back.
pub proof fn lemma_battery_round_trip(
    left_percent: u8,
    left_charging: bool,
    right_percent: u8,
    right_charging: bool,
    case_percent: u8,
    case_charging: bool,
)
    requires
        left_percent < 128,
        right_percent < 128,
        case_percent < 128,
    ensures
        spec_parse_battery(
            spec_pack_battery(
                left_percent,
                left_charging,
                right_percent,
                right_charging,
                case_percent,
                case_charging,
            ),
        ) == (BatteryStatus {
            left: BatteryReading::Level { percent: left_percent, charging: left_charging },
            right: BatteryReading::Level { percent: right_percent, charging: right_charging },
            case: BatteryReading::Level { percent: case_percent, charging: case_charging },
        }),
{
    reveal_with_fuel(spec_battery_after, 5);
    lemma_battery_level_byte_round_trip(left_percent, left_charging);
    lemma_battery_level_byte_round_trip(right_percent, right_charging);
    lemma_battery_level_byte_round_trip(case_percent, case_charging);
}

proof fn lemma_battery_level_byte_round_trip(percent: u8, charging: bool)
    requires
        percent < 128,
    ensures
        spec_battery_reading(spec_battery_level_byte(percent, charging))
            == (BatteryReading::Level { percent, charging }),
{
    if charging {
        assert((percent | 0x80) & 0x7F == percent && (percent | 0x80) & 0x80 == 0x80)
            by (bit_vector)
            requires
                percent < 128,
        ;
    } else {
        assert(percent & 0x7F == percent && percent & 0x80 != 0x80) by (bit_vector)
            requires
                percent < 128,
        ;
    }
}

/// The gesture slots among the first `n` entries of payload `p`. Entry
/// `i` is the four bytes at `1 + 4i`; entries that would run past the
/// payload are dropped.
pub open spec fn spec_gestures_after(p: Seq<u8>, n: int) -> Seq<GestureSlot>
    decreases n,
{
    if n <= 0 {
        Seq::empty()
    } else {
        let prev = spec_gestures_after(p, n - 1);
        let base = 1 + 4 * (n - 1);
        if base + 3 >= p.len() {
            prev
        } else {
            prev.push(
                GestureSlot {
                    device: p[base],
                    common: p[base + 1],
                    gesture_type: p[base + 2],
                    action: p[base + 3],
                },
            )
        }
    }
}

/// The gesture table a payload decodes to: byte 0 is the entry count.
pub open spec fn spec_parse_gestures(p: Seq<u8>) -> Seq<GestureSlot> {
    if p.len() == 0 {
        Seq::empty()
    } else {
        spec_gestures_after(p, p[0] as int)
    }
}

proof fn lemma_gestures_stop(p: Seq<u8>, i: int, n: int)
    requires
        0 <= i <= n,
        4 * i + 4 >= p.len(),
    ensures
        spec_gestures_after(p, n) == spec_gestures_after(p, i),
    decreases n,
{
    if n > i {
        lemma_gestures_stop(p, i, n - 1);
    }
}

/// Decodes a gesture table payload.
pub fn parse_gestures(payload: &[u8]) -> (gestures: Vec<GestureSlot>)
    ensures
        gestures@ == spec_parse_gestures(payload@),
{
    let mut gestures: Vec<GestureSlot> = Vec::new();
    if payload.len() == 0 {
        return gestures;
    }
    let count: usize = payload[0] as usize;
    let mut i: usize = 0;
    while i < count
        invariant
            i <= count,
            payload@.len() > 0,
            count == payload@[0],
            gestures@ == spec_gestures_after(payload@, i as int),
        decreases count - i,
    {
        let base: usize = 1 + i * 4;
        if base + 3 >= payload.len() {
            proof {
                lemma_gestures_stop(payload@, i as int, count as int);
            }
            return gestures;
        }
        gestures.push(
            GestureSlot {
                device: payload[base],
                common: payload[base + 1],
                gesture_type: payload[base + 2],
                action: payload[base + 3],
            },
        );
        i = i + 1;
    }
    gestures
}

/// Whether LED pixel `c` holds exactly the color channels `px`.
pub open spec fn led_pixel_is(c: LedColor, px: (u8, u8, u8)) -> bool {
    c.0@ == seq![px.0, px.1, px.2]
}

/// The pixels among the first `n` entries of payload `p`, as
/// (red, green, blue). Entry `i` occupies four bytes; its color bytes sit
/// at `2 + 4i` (the byte before them is the 1-based pixel index, ignored
/// on read); entries that would run past the payload are dropped.
pub open spec fn spec_led_after(p: Seq<u8>, n: int) -> Seq<(u8, u8, u8)>
    decreases n,
{
    if n <= 0 {
        Seq::empty()
    } else {
        let prev = spec_led_after(p, n - 1);
        let base = 2 + 4 * (n - 1);
        if base + 2 >= p.len() {
            prev
        } else {
            prev.push((p[base], p[base + 1], p[base + 2]))
        }
    }
}

/// The pixel table a payload decodes to: byte 0 is the pixel count.
pub open spec fn spec_parse_led_colors(p: Seq<u8>) -> Seq<(u8, u8, u8)> {
    if p.len() == 0 {
        Seq::empty()
    } else {
        spec_led_after(p, p[0] as int)
    }
}

proof fn lemma_led_stop(p: Seq<u8>, i: int, n: int)
    requires
        0 <= i <= n,
        4 * i + 4 >= p.len(),
    ensures
        spec_led_after(p, n) == spec_led_after(p, i),
    decreases n,
{
    if n > i {
        lemma_led_stop(p, i, n - 1);
    }
}

/// Decodes a case LED color table payload.
pub fn parse_led_colors(payload: &[u8]) -> (colors: LedColorSet)
    ensures
        colors.pixels@.len() == spec_parse_led_colors(payload@).len(),
        forall|i: int|
            0 <= i < colors.pixels@.len() ==> led_pixel_is(
                #[trigger] colors.pixels@[i],
                spec_parse_led_colors(payload@)[i],
            ),
{
    let mut pixels: Vec<LedColor> = Vec::new();
    if payload.len() == 0 {
        return LedColorSet { pixels };
    }
    let count: usize = payload[0] as usize;
    let mut i: usize = 0;
    while i < count
        invariant
            i <= count,
            payload@.len() > 0,
            count == payload@[0],
            pixels@.len() == spec_led_after(payload@, i as int).len(),
            forall|k: int|
                0 <= k < pixels@.len() ==> led_pixel_is(
                    #[trigger] pixels@[k],
                    spec_led_after(payload@, i as int)[k],
                ),
        decreases count - i,
    {
        let base: usize = 2 + i * 4;
        if base + 2 >= payload.len() {
            proof {
                lemma_led_stop(payload@, i as int, count as int);
            }
            return LedColorSet { pixels };
        }
        pixels.push(LedColor([payload[base], payload[base + 1], payload[base + 2]]));
        i = i + 1;
    }
    LedColorSet { pixels }
}

/// Whether bit pattern `v` is an IEEE 754 single-precision NaN.
pub open spec fn f32_is_nan_bits(v: u32) -> bool {
    v & 0x7F80_0000 == 0x7F80_0000 && v & 0x007F_FFFF != 0
}

/// Whether the single-precision value with bit pattern `v` compares
/// greater than or equal to zero (positive values, both zeros; never a
/// NaN).
pub open spec fn f32_ge_zero_bits(v: u32) -> bool {
    (v & 0x8000_0000 == 0 && !f32_is_nan_bits(v)) || v == 0x8000_0000
}

/// Whether the single-precision value with bit pattern `v` compares
/// unequal to zero (anything but the two zeros; NaN included).
pub open spec fn f32_nonzero_bits(v: u32) -> bool {
    v & 0x7FFF_FFFF != 0
}

/// The wire form of one equalizer gain, from the bit pattern `v` of the
/// single-precision value. A "total" slot whose value is at least zero
/// collapses to the fixed marker `[0, 0, 0, 0x80]`. Otherwise: take the
/// big-endian bytes of `v`; if the value is non-zero but its first three
/// big-endian bytes are all zero, set the high bit of the fourth as a
/// marker; then reverse the byte order.
pub open spec fn spec_encode_eq_float(v: u32, total: bool) -> Seq<u8> {
    if total && f32_ge_zero_bits(v) {
        seq![0u8, 0u8, 0u8, 0x80u8]
    } else {
        let b0 = ((v >> 24) & 0xFF) as u8;
        let b1 = ((v >> 16) & 0xFF) as u8;
        let b2 = ((v >> 8) & 0xFF) as u8;
        let b3 = (v & 0xFF) as u8;
        let b3m = if f32_nonzero_bits(v) && b0 == 0 && b1 == 0 && b2 == 0 {
            b3 | 0x80
        } else {
            b3
        };
        seq![b3m, b2, b1, b0]
    }
}

/// The bit pattern one equalizer gain slot decodes to: reverse the byte
/// order back; if the first three big-endian bytes are zero and the high
/// bit of the fourth is set, clear that bit and negate the value (set the
/// sign bit). Input shorter than four bytes decodes to zero.
pub open spec fn spec_decode_eq_float(bytes: Seq<u8>) -> u32 {
    if bytes.len() < 4 {
        0
    } else {
        let s0 = bytes[3];
        let s1 = bytes[2];
        let s2 = bytes[1];
        let s3 = bytes[0];
        if s0 == 0 && s1 == 0 && s2 == 0 && s3 & 0x80 == 0x80 {
            ((s3 & 0x7F) as u32) | 0x8000_0000
        } else {
            ((s0 as u32) << 24) | ((s1 as u32) << 16) | ((s2 as u32) << 8) | (s3 as u32)
        }
    }
}

/// Encodes one equalizer gain slot from the bit pattern of its value.
pub fn encode_eq_float(value: u32, total: bool) -> (bytes: [u8; 4])
    ensures
        bytes@ == spec_encode_eq_float(value, total),
{
    let is_nan = value & 0x7F80_0000 == 0x7F80_0000 && value & 0x007F_FFFF != 0;
    let ge_zero = (value & 0x8000_0000 == 0 && !is_nan) || value == 0x8000_0000;
    if total && ge_zero {
        let bytes: [u8; 4] = [0u8, 0u8, 0u8, 0x80u8];
        proof {
            assert(bytes@ =~= spec_encode_eq_float(value, total));
        }
        return bytes;
    }
    let b0 = ((value >> 24) & 0xFF) as u8;
    let b1 = ((value >> 16) & 0xFF) as u8;
    let b2 = ((value >> 8) & 0xFF) as u8;
    let b3 = (value & 0xFF) as u8;
    let b3m = if value & 0x7FFF_FFFF != 0 && b0 == 0 && b1 == 0 && b2 == 0 {
        b3 | 0x80
    } else {
        b3
    };
    let bytes: [u8; 4] = [b3m, b2, b1, b0];
    proof {
        assert(bytes@ =~= spec_encode_eq_float(value, total));
    }
    bytes
}

/// Decodes one equalizer gain slot to the bit pattern of its value.
pub fn decode_eq_float(bytes: &[u8]) -> (value: u32)
    ensures
        value == spec_decode_eq_float(bytes@),
{
    if bytes.len() < 4 {
        return 0;
    }
    let s0 = bytes[3];
    let s1 = bytes[2];
    let s2 = bytes[1];
    let s3 = bytes[0];
    if s0 == 0 && s1 == 0 && s2 == 0 && s3 & 0x80 == 0x80 {
        ((s3 & 0x7F) as u32) | 0x8000_0000
    } else {
        ((s0 as u32) << 24) | ((s1 as u32) << 16) | ((s2 as u32) << 8) | (s3 as u32)
    }
}

/// Law: for a gain whose bit pattern is zero or above 0xFF - every
/// normal value, every negative value, and zero - decoding the encoded
/// slot yields the bit pattern back. (The positive subnormals with bit
/// patterns 1 through 0xFF collide with the marker bit and do not round
/// trip.)
pub proof fn lemma_eq_float_round_trip(v: u32)
    requires
        v == 0 || v > 0xFF,
    ensures
        spec_decode_eq_float(spec_encode_eq_float(v, false)) == v,
{
    let b0 = ((v >> 24) & 0xFF) as u8;
    let b1 = ((v >> 16) & 0xFF) as u8;
    let b2 = ((v >> 8) & 0xFF) as u8;
    let b3 = (v & 0xFF) as u8;
    if v == 0 {
        assert(b0 == 0 && b1 == 0 && b2 == 0 && b3 == 0) by (bit_vector)
            requires
                v == 0u32,
                b0 == ((v >> 24) & 0xFF) as u8,
                b1 == ((v >> 16) & 0xFF) as u8,
                b2 == ((v >> 8) & 0xFF) as u8,
                b3 == (v & 0xFF) as u8,
        ;
        assert(!f32_nonzero_bits(v)) by (bit_vector)
            requires
                v == 0u32,
        ;
        assert(0u8 & 0x80 != 0x80) by (bit_vector);
        assert((((0u8 as u32) << 24) | ((0u8 as u32) << 16) | ((0u8 as u32) << 8) | (0u8 as u32))
            == 0u32) by (bit_vector);
    } else {
        assert(!(b0 == 0 && b1 == 0 && b2 == 0)) by (bit_vector)
            requires
                v > 0xFFu32,
                b0 == ((v >> 24) & 0xFF) as u8,
                b1 == ((v >> 16) & 0xFF) as u8,
                b2 == ((v >> 8) & 0xFF) as u8,
        ;
        assert((((b0 as u32) << 24) | ((b1 as u32) << 16) | ((b2 as u32) << 8) | (b3 as u32))
            == v) by (bit_vector)
            requires
                b0 == ((v >> 24) & 0xFF) as u8,
                b1 == ((v >> 16) & 0xFF) as u8,
                b2 == ((v >> 8) & 0xFF) as u8,
                b3 == (v & 0xFF) as u8,
        ;
    }
}

/// The fixed 55-byte custom-equalizer payload template. The encoder
/// overwrites the total slot at 1..5 and the band slots at 6..10 (mid),
/// 19..23 (treble) and 32..36 (bass).
pub open spec fn spec_eq_template() -> Seq<u8> {
    seq![
        0x03u8, 0x00u8, 0x00u8, 0x00u8, 0x00u8, 0x01u8, 0x00u8, 0x00u8, 0x00u8, 0x00u8, 0x00u8,
        0x00u8, 0x75u8, 0x44u8, 0xc3u8, 0xf5u8, 0x28u8, 0x3fu8, 0x02u8, 0x00u8, 0x00u8, 0x00u8,
        0x00u8, 0x00u8, 0xc0u8, 0x5au8, 0x45u8, 0x00u8, 0x00u8, 0x80u8, 0x3fu8, 0x00u8, 0x00u8,
        0x00u8, 0x00u8, 0x00u8, 0x00u8, 0x00u8, 0x0cu8, 0x43u8, 0xcdu8, 0xccu8, 0x4cu8, 0x3fu8,
        0x00u8, 0x00u8, 0x00u8, 0x00u8, 0x00u8, 0x00u8, 0x00u8, 0x00u8, 0x00u8, 0x00u8, 0x00u8,
    ]
}

/// `s` with `w` written over the bytes starting at `at`.
pub open spec fn spec_splice(s: Seq<u8>, at: int, w: Seq<u8>) -> Seq<u8> {
    s.take(at) + w + s.skip(at + w.len())
}

/// The bit pattern of the absolute largest band gain, as the sign-bit
/// order on absolute bit patterns: for every pair of non-NaN values this
/// is the bit pattern of the gain with the greatest magnitude.
pub open spec fn spec_eq_abs_max_bits(eq: CustomEq) -> u32 {
    let m = eq.mid & 0x7FFF_FFFF;
    let t = eq.treble & 0x7FFF_FFFF;
    let b = eq.bass & 0x7FFF_FFFF;
    let mt = if t > m { t } else { m };
    if b > mt { b } else { mt }
}

/// The custom-equalizer payload for `eq`: the template with the total
/// slot set to the encoding of the negated maximum gain magnitude and
/// the three band slots set to the encodings of mid, treble and bass.
pub open spec fn spec_encode_custom_eq(eq: CustomEq) -> Seq<u8> {
    let with_total = spec_splice(
        spec_eq_template(),
        1,
        spec_encode_eq_float(spec_eq_abs_max_bits(eq) | 0x8000_0000, true),
    );
    let with_mid = spec_splice(with_total, 6, spec_encode_eq_float(eq.mid, false));
    let with_treble = spec_splice(with_mid, 19, spec_encode_eq_float(eq.treble, false));
    spec_splice(with_treble, 32, spec_encode_eq_float(eq.bass, false))
}

/// Encodes the custom-equalizer payload for `eq`.
pub fn encode_custom_eq(eq: CustomEq) -> (payload: Vec<u8>)
    ensures
        payload@ == spec_encode_custom_eq(eq),
        payload@.len() == 55,
{
    let mut payload: Vec<u8> = vec![
        0x03, 0x00, 0x00, 0x00, 0x00, 0x01, 0x00, 0x00, 0x00, 0x00, 0x00,
        0x00, 0x75, 0x44, 0xc3, 0xf5, 0x28, 0x3f, 0x02, 0x00, 0x00, 0x00,
        0x00, 0x00, 0xc0, 0x5a, 0x45, 0x00, 0x00, 0x80, 0x3f, 0x00, 0x00,
        0x00, 0x00, 0x00, 0x00, 0x00, 0x0c, 0x43, 0xcd, 0xcc, 0x4c, 0x3f,
        0x00, 0x00, 0x00, 0x00, 0x00, 0x00, 0x00, 0x00, 0x00, 0x00, 0x00,
    ];
    let abs_mid = eq.mid & 0x7FFF_FFFF;
    let abs_treble = eq.treble & 0x7FFF_FFFF;
    let abs_bass = eq.bass & 0x7FFF_FFFF;
    let mid_or_treble = if abs_treble > abs_mid { abs_treble } else { abs_mid };
    let highest = if abs_bass > mid_or_treble { abs_bass } else { mid_or_treble };
    let total = encode_eq_float(highest | 0x8000_0000, true);
    payload.set(1, total[0]);
    payload.set(2, total[1]);
    payload.set(3, total[2]);
    payload.set(4, total[3]);
    let mid = encode_eq_float(eq.mid, false);
    payload.set(6, mid[0]);
    payload.set(7, mid[1]);
    payload.set(8, mid[2]);
    payload.set(9, mid[3]);
    let treble = encode_eq_float(eq.treble, false);
    payload.set(19, treble[0]);
    payload.set(20, treble[1]);
    payload.set(21, treble[2]);
    payload.set(22, treble[3]);
    let bass = encode_eq_float(eq.bass, false);
    payload.set(32, bass[0]);
    payload.set(33, bass[1]);
    payload.set(34, bass[2]);
    payload.set(35, bass[3]);
    proof {
        assert(payload@ =~= spec_encode_custom_eq(eq));
    }
    payload
}

/// The custom equalizer a reply payload decodes to: band slots of four
/// bytes at 6 (mid), 19 (treble) and 32 (bass); payloads shorter than 45
/// bytes fail.
pub open spec fn spec_decode_custom_eq(p: Seq<u8>) -> Option<CustomEq> {
    if p.len() < 45 {
        None
    } else {
        Some(
            CustomEq {
                bass: spec_decode_eq_float(p.subrange(32, 36)),
                mid: spec_decode_eq_float(p.subrange(6, 10)),
                treble: spec_decode_eq_float(p.subrange(19, 23)),
            },
        )
    }
}

/// Decodes a custom-equalizer reply payload.
pub fn decode_custom_eq(payload: &[u8]) -> (r: Option<CustomEq>)
    ensures
        r == spec_decode_custom_eq(payload@),
{
    if payload.len() < 45 {
        return None;
    }
    let mid = decode_eq_float(vstd::slice::slice_subrange(payload, 6, 10));
    let treble = decode_eq_float(vstd::slice::slice_subrange(payload, 19, 23));
    let bass = decode_eq_float(vstd::slice::slice_subrange(payload, 32, 36));
    Some(CustomEq { bass, mid, treble })
}

/// Law: encoding a custom equalizer and decoding the payload yields the
/// band gains back, whenever each band's bit pattern is zero or above
/// 0xFF (every normal value, every negative value, and zero).
pub proof fn lemma_custom_eq_round_trip(eq: CustomEq)
    requires
        eq.bass == 0 || eq.bass > 0xFF,
        eq.mid == 0 || eq.mid > 0xFF,
        eq.treble == 0 || eq.treble > 0xFF,
    ensures
        spec_decode_custom_eq(spec_encode_custom_eq(eq)) == Some(eq),
{
    let p = spec_encode_custom_eq(eq);
    assert(p.len() == 55);
    assert(p.subrange(6, 10) =~= spec_encode_eq_float(eq.mid, false));
    assert(p.subrange(19, 23) =~= spec_encode_eq_float(eq.treble, false));
    assert(p.subrange(32, 36) =~= spec_encode_eq_float(eq.bass, false));
    lemma_eq_float_round_trip(eq.mid);
    lemma_eq_float_round_trip(eq.treble);
    lemma_eq_float_round_trip(eq.bass);
}

} // verus!
