//! Packet codec: frame encoding, CRC-16, and the incremental parser with
//! resynchronisation on corrupt input.
//!
//! A frame is `[0x55, 0x60, 0x01, cmd_lo, cmd_hi, payload_len, 0x00,
//! operation_id] ++ payload ++ [crc_lo, crc_hi]`, where the CRC covers the
//! header and the payload.

use vstd::prelude::*;

use crate::error::EarError;

verus! {

/// First byte of the frame header magic.
pub const MAGIC0: u8 = 0x55;

/// Second byte of the frame header magic.
pub const MAGIC1: u8 = 0x60;

/// Third byte of the frame header magic.
pub const MAGIC2: u8 = 0x01;

pub const REQUEST_SERIAL: u16 = 0xC006;
pub const REQUEST_BATTERY: u16 = 0xC007;
pub const REQUEST_LED_CASE_COLORS: u16 = 0xC017;
pub const REQUEST_GESTURES: u16 = 0xC018;
pub const REQUEST_ANC: u16 = 0xC01E;
pub const REQUEST_EQ: u16 = 0xC01F;
pub const REQUEST_PERSONALIZED_ANC: u16 = 0xC020;
pub const REQUEST_IN_EAR_STATUS: u16 = 0xC00E;
pub const REQUEST_LATENCY_STATUS: u16 = 0xC041;
pub const REQUEST_FIRMWARE: u16 = 0xC042;
pub const REQUEST_CUSTOM_EQ: u16 = 0xC044;
pub const REQUEST_ADVANCED_EQ: u16 = 0xC04C;
pub const REQUEST_ENHANCED_BASS: u16 = 0xC04E;
pub const REQUEST_LISTENING_MODE: u16 = 0xC050;

pub const CMD_RING: u16 = 0xF002;
pub const CMD_SET_GESTURE: u16 = 0xF003;
pub const CMD_SET_IN_EAR: u16 = 0xF004;
pub const CMD_SET_LED_CASE_COLORS: u16 = 0xF00D;
pub const CMD_SET_ANC: u16 = 0xF00F;
pub const CMD_SET_EQ: u16 = 0xF010;
pub const CMD_SET_PERSONALIZED_ANC: u16 = 0xF011;
pub const CMD_START_EAR_FIT_TEST: u16 = 0xF014;
pub const CMD_SET_LISTENING_MODE: u16 = 0xF01D;
pub const CMD_SET_LATENCY: u16 = 0xF040;
pub const CMD_SET_CUSTOM_EQ: u16 = 0xF041;
pub const CMD_SET_ADVANCED_EQ_ENABLED: u16 = 0xF04F;
pub const CMD_SET_ENHANCED_BASS: u16 = 0xF051;

pub const RESPONSE_SERIAL: u16 = 0x4006;
pub const RESPONSE_BATTERY_PRIMARY: u16 = 0xE001;
pub const RESPONSE_BATTERY_SECONDARY: u16 = 0x4007;
pub const RESPONSE_ANC_PRIMARY: u16 = 0xE003;
pub const RESPONSE_ANC_SECONDARY: u16 = 0x401E;
pub const RESPONSE_EQ_PRIMARY: u16 = 0x401F;
pub const RESPONSE_EQ_LISTENING_MODE: u16 = 0x4050;
pub const RESPONSE_FIRMWARE: u16 = 0x4042;
pub const RESPONSE_CUSTOM_EQ: u16 = 0x4044;
pub const RESPONSE_ADVANCED_EQ: u16 = 0x404C;
pub const RESPONSE_ENHANCED_BASS: u16 = 0x404E;
pub const RESPONSE_LED_CASE_COLORS: u16 = 0x4017;
pub const RESPONSE_GESTURES: u16 = 0x4018;
pub const RESPONSE_PERSONALIZED_ANC: u16 = 0x4020;
pub const RESPONSE_IN_EAR: u16 = 0x400E;
pub const RESPONSE_LATENCY: u16 = 0x4041;
pub const RESPONSE_EAR_FIT_RESULT: u16 = 0xE00D;

/// A decoded frame.
#[derive(Debug, Clone)]
pub struct EarPacket {
    pub command: u16,
    pub operation_id: u8,
    pub payload: Vec<u8>,
}

/// Mathematical model of a decoded frame.
pub struct PacketModel {
    pub command: u16,
    pub operation_id: u8,
    pub payload: Seq<u8>,
}

impl View for EarPacket {
    type V = PacketModel;

    open spec fn view(&self) -> PacketModel {
        PacketModel {
            command: self.command,
            operation_id: self.operation_id,
            payload: self.payload@,
        }
    }
}

/// One shift-and-conditional-xor step of the reflected CRC-16 with
/// polynomial 0xA001.
pub open spec fn crc_bit(c: u16) -> u16 {
    if c & 1 == 1 {
        (c >> 1) ^ 0xA001
    } else {
        c >> 1
    }
}

/// `crc_bit` applied `k` times.
pub open spec fn crc_bits(c: u16, k: nat) -> u16
    decreases k,
{
    if k == 0 {
        c
    } else {
        crc_bit(crc_bits(c, (k - 1) as nat))
    }
}

/// CRC state after absorbing one byte.
pub open spec fn crc_byte(c: u16, b: u8) -> u16 {
    crc_bits(c ^ (b as u16), 8)
}

/// CRC state after absorbing a byte sequence, starting from `c`.
pub open spec fn crc_accum(c: u16, s: Seq<u8>) -> u16
    decreases s.len(),
{
    if s.len() == 0 {
        c
    } else {
        crc_accum(crc_byte(c, s[0]), s.skip(1))
    }
}

/// The frame checksum: reflected CRC-16, initial value 0xFFFF,
/// polynomial 0xA001, no final xor.
pub open spec fn spec_crc16(s: Seq<u8>) -> u16 {
    crc_accum(0xFFFF, s)
}

proof fn lemma_crc_accum_push(c: u16, s: Seq<u8>, b: u8)
    ensures
        crc_accum(c, s.push(b)) == crc_byte(crc_accum(c, s), b),
    decreases s.len(),
{
    if s.len() == 0 {
        assert(s.push(b)[0] == b);
        assert(s.push(b).skip(1) =~= Seq::<u8>::empty());
        assert(crc_accum(c, s.push(b)) == crc_accum(crc_byte(c, b), Seq::<u8>::empty()));
    } else {
        assert(s.push(b)[0] == s[0]);
        assert(s.push(b).skip(1) =~= s.skip(1).push(b));
        lemma_crc_accum_push(crc_byte(c, s[0]), s.skip(1), b);
        assert(crc_accum(c, s.push(b)) == crc_accum(crc_byte(c, s[0]), s.skip(1).push(b)));
    }
}

/// Computes the frame checksum of `buffer`.
pub fn crc16(buffer: &[u8]) -> (crc: u16)
    ensures
        crc == spec_crc16(buffer@),
{
    let mut crc: u16 = 0xFFFF;
    let mut i: usize = 0;
    while i < buffer.len()
        invariant
            i <= buffer@.len(),
            crc == crc_accum(0xFFFF, buffer@.take(i as int)),
        decreases buffer@.len() - i,
    {
        let b: u8 = buffer[i];
        let ghost before = crc;
        crc = crc ^ (b as u16);
        let mut k: usize = 0;
        while k < 8
            invariant
                k <= 8,
                crc == crc_bits(before ^ (b as u16), k as nat),
            decreases 8 - k,
        {
            if crc & 1 == 1 {
                crc = (crc >> 1) ^ 0xA001;
            } else {
                crc = crc >> 1;
            }
            k = k + 1;
        }
        proof {
            lemma_crc_accum_push(0xFFFF, buffer@.take(i as int), b);
            assert(buffer@.take(i + 1) =~= buffer@.take(i as int).push(b));
        }
        i = i + 1;
    }
    proof {
        assert(buffer@.take(buffer@.len() as int) =~= buffer@);
    }
    crc
}

/// The 16-bit value stored little-endian as `lo`, `hi`.
pub open spec fn u16_le(lo: u8, hi: u8) -> u16 {
    (lo + 256 * hi) as u16
}

/// The eight header bytes of a frame.
pub open spec fn spec_header(command: u16, operation_id: u8, payload: Seq<u8>) -> Seq<u8> {
    seq![
        MAGIC0,
        MAGIC1,
        MAGIC2,
        (command % 256) as u8,
        (command / 256) as u8,
        payload.len() as u8,
        0u8,
        operation_id,
    ]
}

/// The encoded wire form of a frame.
pub open spec fn spec_encode(command: u16, operation_id: u8, payload: Seq<u8>) -> Seq<u8> {
    let body = spec_header(command, operation_id, payload) + payload;
    let crc = spec_crc16(body);
    body + seq![(crc % 256) as u8, (crc / 256) as u8]
}

impl EarPacket {
    /// Encodes a frame: header, payload, then the little-endian CRC over
    /// header and payload.
    pub fn encode(command: u16, operation_id: u8, payload: &[u8]) -> (packet: Vec<u8>)
        requires
            payload@.len() <= 255,
        ensures
            packet@ == spec_encode(command, operation_id, payload@),
            packet@.len() == 10 + payload@.len(),
    {
        let mut packet: Vec<u8> = Vec::new();
        packet.push(MAGIC0);
        packet.push(MAGIC1);
        packet.push(MAGIC2);
        packet.push((command % 256) as u8);
        packet.push((command / 256) as u8);
        packet.push(payload.len() as u8);
        packet.push(0u8);
        packet.push(operation_id);
        let mut i: usize = 0;
        while i < payload.len()
            invariant
                i <= payload@.len(),
                packet@.len() == 8 + i,
                packet@ =~= spec_header(command, operation_id, payload@) + payload@.take(i as int),
            decreases payload@.len() - i,
        {
            packet.push(payload[i]);
            proof {
                assert(payload@.take(i + 1) =~= payload@.take(i as int).push(payload@[i as int]));
            }
            i = i + 1;
        }
        proof {
            assert(payload@.take(payload@.len() as int) =~= payload@);
        }
        let crc = crc16(packet.as_slice());
        packet.push((crc % 256) as u8);
        packet.push((crc / 256) as u8);
        proof {
            assert(packet@ =~= spec_encode(command, operation_id, payload@));
        }
        packet
    }
}

/// What one parser step does to the accumulator.
pub enum ParseStep {
    /// No complete frame yet; more bytes are needed.
    NeedMore,
    /// A complete frame was consumed but its checksum did not match.
    Corrupt,
    /// A complete frame was consumed and decoded.
    Parsed(PacketModel),
}

/// Index of the first `0x55` in `s`, or `s.len()` if there is none.
pub open spec fn first_magic_index(s: Seq<u8>) -> nat
    decreases s.len(),
{
    if s.len() == 0 {
        0
    } else if s[0] == MAGIC0 {
        0
    } else {
        1 + first_magic_index(s.skip(1))
    }
}

pub proof fn lemma_first_magic_index(s: Seq<u8>)
    ensures
        0 <= first_magic_index(s) <= s.len(),
        first_magic_index(s) < s.len() ==> s[first_magic_index(s) as int] == MAGIC0,
        forall|j: int| 0 <= j < first_magic_index(s) ==> s[j] != MAGIC0,
    decreases s.len(),
{
    if s.len() == 0 {
    } else if s[0] == MAGIC0 {
    } else {
        lemma_first_magic_index(s.skip(1));
        assert forall|j: int| 0 <= j < first_magic_index(s) implies s[j] != MAGIC0 by {
            if j > 0 {
                assert(s.skip(1)[j - 1] == s[j]);
            }
        }
    }
}

/// If `s[m]` is the magic byte and nothing before it is, then `m` is the
/// first magic index.
pub proof fn lemma_first_magic_index_is(s: Seq<u8>, m: int)
    requires
        0 <= m < s.len(),
        s[m] == MAGIC0,
        forall|j: int| 0 <= j < m ==> s[j] != MAGIC0,
    ensures
        first_magic_index(s) == m,
{
    lemma_first_magic_index(s);
}

/// One incremental parsing attempt on accumulator `acc`: the step taken
/// and the bytes that remain in the accumulator afterwards.
///
/// Mirrors the parser: wait while fewer than 8 bytes are present, discard
/// everything before the first `0x55` (all of it if there is none), resync
/// by one byte when the second or third magic byte does not match, wait
/// until `8 + payload_len + 2` bytes are present, then consume the frame
/// and check its CRC.
pub open spec fn spec_parse(acc: Seq<u8>) -> (ParseStep, Seq<u8>)
    decreases acc.len(),
{
    if acc.len() < 8 {
        (ParseStep::NeedMore, acc)
    } else {
        let i = first_magic_index(acc);
        if i >= acc.len() {
            (ParseStep::NeedMore, Seq::empty())
        } else {
            let t = acc.skip(i as int);
            if t.len() < 8 {
                (ParseStep::NeedMore, t)
            } else if t[1] != MAGIC1 || t[2] != MAGIC2 {
                spec_parse(t.skip(1))
            } else {
                let total = 10 + t[5] as int;
                if t.len() < total {
                    (ParseStep::NeedMore, t)
                } else {
                    let rest = t.skip(total);
                    if spec_crc16(t.take(total - 2)) != u16_le(t[total - 2], t[total - 1]) {
                        (ParseStep::Corrupt, rest)
                    } else {
                        let packet = PacketModel {
                            command: u16_le(t[3], t[4]),
                            operation_id: t[7],
                            payload: t.subrange(8, total - 2),
                        };
                        (ParseStep::Parsed(packet), rest)
                    }
                }
            }
        }
    }
}

/// Copy of `v[from..to]` as a fresh vector.
fn subvec(v: &Vec<u8>, from: usize, to: usize) -> (out: Vec<u8>)
    requires
        from <= to <= v@.len(),
    ensures
        out@ == v@.subrange(from as int, to as int),
{
    vstd::slice::slice_to_vec(vstd::slice::slice_subrange(v.as_slice(), from, to))
}

impl EarPacket {
    /// Attempts to parse one frame out of `buffer`, consuming exactly the
    /// bytes that `spec_parse` consumes. Returns `Ok(None)` when more input
    /// is needed, `Err(CrcMismatch)` when a complete frame had a bad
    /// checksum (the frame stays consumed), and `Ok(Some(packet))` on
    /// success.
    pub fn try_parse(buffer: &mut Vec<u8>) -> (r: Result<Option<EarPacket>, EarError>)
        ensures
            ({
                let (step, rest) = spec_parse(old(buffer)@);
                &&& final(buffer)@ == rest
                &&& match r {
                    Ok(None) => step is NeedMore,
                    Ok(Some(packet)) => step == ParseStep::Parsed(packet@),
                    Err(e) => step is Corrupt && e is CrcMismatch,
                }
            }),
    {
        let ghost orig = buffer@;
        let mut pos: usize = 0;
        proof {
            assert(orig.skip(0) =~= orig);
        }
        loop
            invariant
                orig == old(buffer)@,
                pos <= buffer@.len(),
                buffer@ == orig,
                spec_parse(orig) == spec_parse(orig.skip(pos as int)),
            decreases buffer@.len() - pos,
        {
            let len = buffer.len();
            let ghost s = orig.skip(pos as int);
            if len - pos < 8 {
                let tail = subvec(buffer, pos, len);
                proof {
                    assert(tail@ =~= s);
                }
                *buffer = tail;
                return Ok(None);
            }
            // Find the first magic byte at or after `pos`.
            let mut j: usize = pos;
            while j < len && buffer[j] != MAGIC0
                invariant
                    pos <= j <= len,
                    len == buffer@.len(),
                    buffer@ == orig,
                    forall|k: int| pos <= k < j ==> orig[k] != MAGIC0,
                decreases len - j,
            {
                j = j + 1;
            }
            if j == len {
                proof {
                    assert forall|k: int| 0 <= k < s.len() implies s[k] != MAGIC0 by {
                        assert(s[k] == orig[pos + k]);
                    }
                    lemma_first_magic_index(s);
                }
                buffer.clear();
                return Ok(None);
            }
            proof {
                assert(s[j - pos] == orig[j as int]);
                assert forall|k: int| 0 <= k < j - pos implies s[k] != MAGIC0 by {
                    assert(s[k] == orig[pos + k]);
                }
                lemma_first_magic_index_is(s, j - pos);
                assert(s.skip(j - pos) =~= orig.skip(j as int));
            }
            let ghost t = orig.skip(j as int);
            if len - j < 8 {
                let tail = subvec(buffer, j, len);
                proof {
                    assert(tail@ =~= t);
                }
                *buffer = tail;
                return Ok(None);
            }
            if buffer[j + 1] != MAGIC1 || buffer[j + 2] != MAGIC2 {
                proof {
                    assert(t[1] == orig[j + 1] && t[2] == orig[j + 2]);
                    assert(t.skip(1) =~= orig.skip(j + 1));
                }
                pos = j + 1;
                continue;
            }
            let payload_len: usize = buffer[j + 5] as usize;
            let total: usize = 10 + payload_len;
            proof {
                assert(t[1] == orig[j + 1] && t[2] == orig[j + 2] && t[5] == orig[j + 5]);
            }
            if len - j < total {
                let tail = subvec(buffer, j, len);
                proof {
                    assert(tail@ =~= t);
                }
                *buffer = tail;
                return Ok(None);
            }
            let crc_actual = crc16(vstd::slice::slice_subrange(buffer.as_slice(), j, j + total - 2));
            let crc_lo = buffer[j + total - 2];
            let crc_hi = buffer[j + total - 1];
            let expected: u16 = crc_lo as u16 + 256 * (crc_hi as u16);
            let rest = subvec(buffer, j + total, len);
            proof {
                assert(orig.subrange(j as int, j + total - 2) =~= t.take(total - 2));
                assert(t[total - 2] == orig[j + total - 2] && t[total - 1] == orig[j + total - 1]);
                assert(rest@ =~= t.skip(total as int));
            }
            if crc_actual != expected {
                *buffer = rest;
                return Err(EarError::CrcMismatch);
            }
            let cmd_lo = buffer[j + 3];
            let cmd_hi = buffer[j + 4];
            let command: u16 = cmd_lo as u16 + 256 * (cmd_hi as u16);
            let operation_id = buffer[j + 7];
            let payload = subvec(buffer, j + 8, j + 8 + payload_len);
            proof {
                assert(t[3] == orig[j + 3] && t[4] == orig[j + 4] && t[7] == orig[j + 7]);
                assert(payload@ =~= t.subrange(8, total - 2));
            }
            *buffer = rest;
            return Ok(Some(EarPacket { command, operation_id, payload }));
        }
    }
}

/// Law: a complete frame followed by arbitrary further bytes parses to
/// exactly that frame, and the further bytes are what remains in the
/// accumulator.
pub proof fn lemma_parse_frame_then_rest(
    command: u16,
    operation_id: u8,
    payload: Seq<u8>,
    rest: Seq<u8>,
)
    requires
        payload.len() <= 255,
    ensures
        spec_parse(spec_encode(command, operation_id, payload) + rest) == (
            ParseStep::Parsed(PacketModel { command, operation_id, payload }),
            rest,
        ),
{
    let header = spec_header(command, operation_id, payload);
    let body = header + payload;
    let crc = spec_crc16(body);
    let enc = spec_encode(command, operation_id, payload);
    let acc = enc + rest;
    let total = 10 + payload.len() as int;
    assert(enc.len() == total);
    assert(acc[0] == MAGIC0);
    lemma_first_magic_index_is(acc, 0);
    assert(acc.skip(0) =~= acc);
    assert(acc[1] == MAGIC1 && acc[2] == MAGIC2);
    assert(acc[5] == payload.len() as u8);
    assert(acc[5] as int == payload.len());
    assert(acc.skip(total) =~= rest);
    assert(acc.take(total - 2) =~= body);
    assert(acc[total - 2] == (crc % 256) as u8);
    assert(acc[total - 1] == (crc / 256) as u8);
    vstd::arithmetic::div_mod::lemma_fundamental_div_mod(crc as int, 256);
    assert(u16_le(acc[total - 2], acc[total - 1]) == crc);
    vstd::arithmetic::div_mod::lemma_fundamental_div_mod(command as int, 256);
    assert(acc[3] == (command % 256) as u8 && acc[4] == (command / 256) as u8);
    assert(u16_le(acc[3], acc[4]) == command);
    assert(acc[7] == operation_id);
    assert(acc.subrange(8, total - 2) =~= payload);
}

/// Law: parsing the encoding of a frame yields that frame back and leaves
/// the accumulator empty.
pub proof fn lemma_parse_encode(command: u16, operation_id: u8, payload: Seq<u8>)
    requires
        payload.len() <= 255,
    ensures
        spec_parse(spec_encode(command, operation_id, payload)) == (
            ParseStep::Parsed(PacketModel { command, operation_id, payload }),
            Seq::<u8>::empty(),
        ),
{
    lemma_parse_frame_then_rest(command, operation_id, payload, Seq::<u8>::empty());
    assert(spec_encode(command, operation_id, payload) + Seq::<u8>::empty() =~= spec_encode(
        command,
        operation_id,
        payload,
    ));
}

/// Law: parsing is prefix-progressive. On the concatenation of two valid
/// frames the parser yields the first frame and leaves the second in the
/// accumulator; a subsequent parse yields the second.
pub proof fn lemma_parse_back_to_back(
    c1: u16,
    o1: u8,
    p1: Seq<u8>,
    c2: u16,
    o2: u8,
    p2: Seq<u8>,
)
    requires
        p1.len() <= 255,
        p2.len() <= 255,
    ensures
        spec_parse(spec_encode(c1, o1, p1) + spec_encode(c2, o2, p2)) == (
            ParseStep::Parsed(PacketModel { command: c1, operation_id: o1, payload: p1 }),
            spec_encode(c2, o2, p2),
        ),
        spec_parse(spec_encode(c2, o2, p2)) == (
            ParseStep::Parsed(PacketModel { command: c2, operation_id: o2, payload: p2 }),
            Seq::<u8>::empty(),
        ),
{
    lemma_parse_frame_then_rest(c1, o1, p1, spec_encode(c2, o2, p2));
    lemma_parse_encode(c2, o2, p2);
}

/// Law: leading garbage that contains no `0x55` is discarded without
/// affecting the parse of what follows it.
pub proof fn lemma_parse_skips_leading_garbage(garbage: Seq<u8>, tail: Seq<u8>)
    requires
        forall|j: int| 0 <= j < garbage.len() ==> garbage[j] != MAGIC0,
        tail.len() > 0,
        tail[0] == MAGIC0,
        garbage.len() + tail.len() >= 8,
    ensures
        spec_parse(garbage + tail) == spec_parse(tail),
{
    let acc = garbage + tail;
    assert(acc[garbage.len() as int] == MAGIC0);
    assert forall|j: int| 0 <= j < garbage.len() implies acc[j] != MAGIC0 by {
        assert(acc[j] == garbage[j]);
    }
    lemma_first_magic_index_is(acc, garbage.len() as int);
    assert(acc.skip(garbage.len() as int) =~= tail);
    if tail.len() >= 8 {
        lemma_first_magic_index_is(tail, 0);
        assert(tail.skip(0) =~= tail);
    }
}

/// Law: when the second or third magic byte fails to match, exactly one
/// byte is consumed and the search resumes on the remainder.
pub proof fn lemma_parse_resync_drops_one_byte(acc: Seq<u8>)
    requires
        acc.len() >= 8,
        acc[0] == MAGIC0,
        acc[1] != MAGIC1 || acc[2] != MAGIC2,
    ensures
        spec_parse(acc) == spec_parse(acc.skip(1)),
{
    lemma_first_magic_index_is(acc, 0);
    assert(acc.skip(0) =~= acc);
}

/// Law: a proper prefix of a valid frame is never consumed - the parser
/// reports that it needs more bytes and leaves the prefix untouched, so
/// that feeding the remaining bytes later still yields the frame.
pub proof fn lemma_parse_incomplete_prefix(
    command: u16,
    operation_id: u8,
    payload: Seq<u8>,
    k: int,
)
    requires
        payload.len() <= 255,
        0 <= k < spec_encode(command, operation_id, payload).len(),
    ensures
        spec_parse(spec_encode(command, operation_id, payload).take(k)) == (
            ParseStep::NeedMore,
            spec_encode(command, operation_id, payload).take(k),
        ),
        spec_parse(spec_encode(command, operation_id, payload)) == (
            ParseStep::Parsed(PacketModel { command, operation_id, payload }),
            Seq::<u8>::empty(),
        ),
{
    let enc = spec_encode(command, operation_id, payload);
    let pre = enc.take(k);
    if k >= 8 {
        assert(pre[0] == enc[0] && enc[0] == MAGIC0);
        lemma_first_magic_index_is(pre, 0);
        assert(pre.skip(0) =~= pre);
        assert(pre[1] == MAGIC1 && pre[2] == MAGIC2);
        assert(pre[5] == payload.len() as u8);
        assert(pre.len() < 10 + pre[5] as int);
    }
    lemma_parse_encode(command, operation_id, payload);
}

} // verus!
