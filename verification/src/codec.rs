//! The driver-chip register protocol: CRC-guarded frame encoding and a
//! streaming decoder.
//!
//! A register transaction travels as a fixed frame: a sync marker, the
//! device address, the register address (write bit set on a write), a
//! four-byte big-endian payload on writes and replies, and a final
//! CRC-8 over everything before it, using the driver's published
//! polynomial `x^8 + x^2 + x + 1`.  The decoder consumes bytes one at
//! a time as the serial reader hands them over, yields a [`Frame`]
//! only when a full frame with a matching CRC has arrived, and
//! silently discards anything corrupted — a CRC mismatch is never
//! fatal to the reader.

use vstd::prelude::*;

verus! {

/// First byte of every frame.
pub const SYNC: u8 = 0x05;

/// Address of the single driver chip on the link.
pub const DEVICE_ADDR: u8 = 0x00;

/// Set on the register-address byte of a write request.
pub const WRITE_FLAG: u8 = 0x80;

/// Bytes in a write request or a reply: sync, device address,
/// register, four payload bytes, CRC.
pub const FRAME_LEN: usize = 8;

/// Bytes in a read request: sync, device address, register, CRC.
pub const READ_FRAME_LEN: usize = 4;

/// A decoded register transaction: the 7-bit register address and the
/// 32-bit payload.
#[derive(Clone, Copy, PartialEq, Eq, Structural, Debug)]
pub struct Frame {
    pub addr: u8,
    pub value: u32,
}

/// One shift step of the CRC-8: multiply the running remainder by x
/// and reduce by the polynomial when a bit falls out.
pub open spec fn crc8_shift(c: u8) -> u8 {
    if c & 0x80 != 0 {
        (c << 1) ^ 0x07
    } else {
        (c << 1)
    }
}

/// Eight shift steps: what folding one byte's worth of bits does to
/// the running remainder.
pub open spec fn crc8_update(c: u8) -> u8 {
    crc8_shift(crc8_shift(crc8_shift(crc8_shift(crc8_shift(crc8_shift(crc8_shift(crc8_shift(c))))))))
}

/// Fold one byte into the running remainder.
pub open spec fn crc8_byte(c: u8, b: u8) -> u8 {
    crc8_update(c ^ b)
}

/// CRC-8 of a byte sequence, from a zero start.
pub open spec fn crc8_seq(s: Seq<u8>) -> u8
    decreases s.len(),
{
    if s.len() == 0 {
        0
    } else {
        crc8_byte(crc8_seq(s.drop_last()), s.last())
    }
}

fn crc8_shift_step(c: u8) -> (r: u8)
    ensures
        r == crc8_shift(c),
{
    if c & 0x80 != 0 {
        (c << 1) ^ 0x07
    } else {
        c << 1
    }
}

fn crc8_step(c: u8, b: u8) -> (r: u8)
    ensures
        r == crc8_byte(c, b),
{
    let mut x = c ^ b;
    x = crc8_shift_step(x);
    x = crc8_shift_step(x);
    x = crc8_shift_step(x);
    x = crc8_shift_step(x);
    x = crc8_shift_step(x);
    x = crc8_shift_step(x);
    x = crc8_shift_step(x);
    x = crc8_shift_step(x);
    x
}

/// CRC-8 of the first `n` bytes of a slice.
pub fn crc8_prefix(bytes: &[u8], n: usize) -> (r: u8)
    requires
        n <= bytes@.len(),
    ensures
        r == crc8_seq(bytes@.take(n as int)),
{
    let mut c: u8 = 0;
    let mut i: usize = 0;
    while i < n
        invariant
            i <= n <= bytes@.len(),
            c == crc8_seq(bytes@.take(i as int)),
        decreases n - i,
    {
        c = crc8_step(c, bytes[i]);
        proof {
            assert(bytes@.take(i + 1).drop_last() =~= bytes@.take(i as int));
            assert(bytes@.take(i + 1).last() == bytes@[i as int]);
        }
        i += 1;
    }
    c
}

/// CRC-8 of a whole slice.
pub fn crc8(bytes: &[u8]) -> (r: u8)
    ensures
        r == crc8_seq(bytes@),
{
    let r = crc8_prefix(bytes, bytes.len());
    proof {
        assert(bytes@.take(bytes@.len() as int) =~= bytes@);
    }
    r
}

/// The four big-endian bytes of a word.
pub open spec fn be_bytes(v: u32) -> Seq<u8> {
    seq![(v >> 24) as u8, (v >> 16) as u8, (v >> 8) as u8, v as u8]
}

/// The word the four big-endian bytes spell.
pub open spec fn word_of_be(b0: u8, b1: u8, b2: u8, b3: u8) -> u32 {
    ((b0 as u32) << 24) | ((b1 as u32) << 16) | ((b2 as u32) << 8) | (b3 as u32)
}

/// The wire form of a write request: sync, device address, register
/// with the write bit, big-endian payload, CRC over all of it.
pub open spec fn encode_write_spec(reg: u8, value: u32) -> Seq<u8> {
    let body = seq![SYNC, DEVICE_ADDR, (reg | WRITE_FLAG)] + be_bytes(value);
    body.push(crc8_seq(body))
}

/// The wire form of a read request: sync, device address, register,
/// CRC — no payload, no write bit.
pub open spec fn encode_read_spec(reg: u8) -> Seq<u8> {
    let body = seq![SYNC, DEVICE_ADDR, reg];
    body.push(crc8_seq(body))
}

/// What a complete eight-byte frame decodes to: `None` unless the
/// frame starts with the sync marker and its last byte is the CRC-8 of
/// the seven before it; otherwise the register (write bit stripped)
/// and the big-endian payload.
pub open spec fn decode_frame_spec(s: Seq<u8>) -> Option<Frame>
    recommends
        s.len() == FRAME_LEN,
{
    if s[0] != SYNC {
        None
    } else if crc8_seq(s.take(7)) != s[7] {
        None
    } else {
        Some(Frame { addr: s[2] & 0x7f, value: word_of_be(s[3], s[4], s[5], s[6]) })
    }
}

/// Encode a write of `value` to the 7-bit register `reg`.
pub fn encode_write(reg: u8, value: u32) -> (r: Vec<u8>)
    requires
        reg < 0x80,
    ensures
        r@ == encode_write_spec(reg, value),
        r@.len() == FRAME_LEN,
{
    let mut f: Vec<u8> = Vec::new();
    f.push(SYNC);
    f.push(DEVICE_ADDR);
    f.push(reg | WRITE_FLAG);
    f.push((value >> 24) as u8);
    f.push((value >> 16) as u8);
    f.push((value >> 8) as u8);
    f.push(value as u8);
    proof {
        assert(f@ =~= seq![SYNC, DEVICE_ADDR, (reg | WRITE_FLAG)] + be_bytes(value));
    }
    let c = crc8(f.as_slice());
    f.push(c);
    proof {
        assert(f@ =~= encode_write_spec(reg, value));
    }
    f
}

/// Encode a read request for the 7-bit register `reg`.
pub fn encode_read(reg: u8) -> (r: Vec<u8>)
    requires
        reg < 0x80,
    ensures
        r@ == encode_read_spec(reg),
        r@.len() == READ_FRAME_LEN,
{
    let mut f: Vec<u8> = Vec::new();
    f.push(SYNC);
    f.push(DEVICE_ADDR);
    f.push(reg);
    proof {
        assert(f@ =~= seq![SYNC, DEVICE_ADDR, reg]);
    }
    let c = crc8(f.as_slice());
    f.push(c);
    proof {
        assert(f@ =~= encode_read_spec(reg));
    }
    f
}

/// The streaming decoder: accumulates serial bytes until a full frame
/// is in hand, then validates and resets.  Bytes ahead of a sync
/// marker are discarded, so the decoder re-synchronizes on garbage.
pub struct FrameDecoder {
    buf: Vec<u8>,
}

impl View for FrameDecoder {
    type V = Seq<u8>;

    closed spec fn view(&self) -> Seq<u8> {
        self.buf@
    }
}

impl FrameDecoder {
    /// The buffer never holds a complete frame, and once non-empty it
    /// starts at a sync marker.
    pub open spec fn wf(&self) -> bool {
        &&& self@.len() < FRAME_LEN
        &&& self@.len() > 0 ==> self@[0] == SYNC
    }

    /// A decoder with an empty buffer.
    pub fn new() -> (r: FrameDecoder)
        ensures
            r@ == Seq::<u8>::empty(),
            r.wf(),
    {
        FrameDecoder { buf: Vec::new() }
    }

    /// Feed one serial byte.  A byte that cannot start a frame is
    /// discarded; a byte that completes a frame yields the decode of
    /// the full eight bytes (or `None` on a CRC mismatch) and resets
    /// the buffer either way; anything else is buffered.
    pub fn push_byte(&mut self, byte: u8) -> (r: Option<Frame>)
        requires
            old(self).wf(),
        ensures
            final(self).wf(),
            old(self)@.len() == 0 && byte != SYNC ==> r is None && final(self)@ == old(self)@,
            (old(self)@.len() > 0 || byte == SYNC) && old(self)@.len() + 1 < FRAME_LEN ==> r is None
                && final(self)@ == old(self)@.push(byte),
            old(self)@.len() + 1 == FRAME_LEN ==> final(self)@ == Seq::<u8>::empty()
                && r == decode_frame_spec(old(self)@.push(byte)),
    {
        if self.buf.len() == 0 && byte != SYNC {
            return None;
        }
        self.buf.push(byte);
        if self.buf.len() < FRAME_LEN {
            return None;
        }
        let crc = crc8_prefix(self.buf.as_slice(), FRAME_LEN - 1);
        let r = if crc == self.buf[FRAME_LEN - 1] {
            Some(
                Frame {
                    addr: self.buf[2] & 0x7f,
                    value: word_of_be_exec(self.buf[3], self.buf[4], self.buf[5], self.buf[6]),
                },
            )
        } else {
            None
        };
        self.buf.clear();
        r
    }
}

fn word_of_be_exec(b0: u8, b1: u8, b2: u8, b3: u8) -> (r: u32)
    ensures
        r == word_of_be(b0, b1, b2, b3),
{
    ((b0 as u32) << 24) | ((b1 as u32) << 16) | ((b2 as u32) << 8) | (b3 as u32)
}

proof fn lemma_crc8_update_injective(c1: u8, c2: u8)
    requires
        c1 != c2,
    ensures
        crc8_update(c1) != crc8_update(c2),
{
    assert(crc8_update(c1) != crc8_update(c2)) by (bit_vector)
        requires
            c1 != c2,
    ;
}

/// Folding different bytes from the same remainder can never collide:
/// the byte step of the CRC is injective in the byte.
pub proof fn lemma_crc8_byte_injective_in_byte(c: u8, b1: u8, b2: u8)
    requires
        b1 != b2,
    ensures
        crc8_byte(c, b1) != crc8_byte(c, b2),
{
    assert(c ^ b1 != c ^ b2) by (bit_vector)
        requires
            b1 != b2,
    ;
    lemma_crc8_update_injective(c ^ b1, c ^ b2);
}

/// Folding the same byte into different remainders keeps them
/// different: the byte step of the CRC is injective in the remainder.
pub proof fn lemma_crc8_byte_injective_in_state(c1: u8, c2: u8, b: u8)
    requires
        c1 != c2,
    ensures
        crc8_byte(c1, b) != crc8_byte(c2, b),
{
    assert(c1 ^ b != c2 ^ b) by (bit_vector)
        requires
            c1 != c2,
    ;
    lemma_crc8_update_injective(c1 ^ b, c2 ^ b);
}

/// The CRC-8 detects every single-byte corruption: two equal-length
/// sequences that differ in exactly one byte have different CRCs.
pub proof fn lemma_crc8_detects_single_byte_change(s1: Seq<u8>, s2: Seq<u8>, i: int)
    requires
        s1.len() == s2.len(),
        0 <= i < s1.len(),
        s1[i] != s2[i],
        forall|j: int| 0 <= j < s1.len() && j != i ==> s1[j] == s2[j],
    ensures
        crc8_seq(s1) != crc8_seq(s2),
    decreases s1.len(),
{
    if i == s1.len() - 1 {
        assert(s1.drop_last() =~= s2.drop_last());
        lemma_crc8_byte_injective_in_byte(crc8_seq(s1.drop_last()), s1.last(), s2.last());
    } else {
        lemma_crc8_detects_single_byte_change(s1.drop_last(), s2.drop_last(), i);
        lemma_crc8_byte_injective_in_state(
            crc8_seq(s1.drop_last()),
            crc8_seq(s2.drop_last()),
            s1.last(),
        );
    }
}

/// Round trip: a write frame that arrives uncorrupted decodes to
/// exactly the register and value it was encoded from.
pub proof fn lemma_codec_round_trip(reg: u8, value: u32)
    requires
        reg < 0x80,
    ensures
        decode_frame_spec(encode_write_spec(reg, value)) == Some(Frame { addr: reg, value }),
{
    let body = seq![SYNC, DEVICE_ADDR, (reg | WRITE_FLAG)] + be_bytes(value);
    let s = encode_write_spec(reg, value);
    assert(s.take(7) =~= body);
    assert((reg | WRITE_FLAG) & 0x7f == reg) by (bit_vector)
        requires
            reg < 0x80,
    ;
    assert(word_of_be((value >> 24) as u8, (value >> 16) as u8, (value >> 8) as u8, value as u8)
        == value) by (bit_vector);
}

/// Corrupting any single byte of a write frame makes the decoder drop
/// it: either the sync marker is gone or the CRC no longer matches.
pub proof fn lemma_single_flip_rejected(reg: u8, value: u32, i: int, b: u8)
    requires
        reg < 0x80,
        0 <= i < FRAME_LEN,
        b != encode_write_spec(reg, value)[i],
    ensures
        decode_frame_spec(encode_write_spec(reg, value).update(i, b)) is None,
{
    let s = encode_write_spec(reg, value);
    let t = s.update(i, b);
    assert(s[0] == SYNC);
    assert(s[7] == crc8_seq(s.take(7))) by {
        let body = seq![SYNC, DEVICE_ADDR, (reg | WRITE_FLAG)] + be_bytes(value);
        assert(s.take(7) =~= body);
    }
    if i == 0 {
        assert(t[0] != SYNC);
    } else if i == 7 {
        assert(t.take(7) =~= s.take(7));
        assert(crc8_seq(t.take(7)) != t[7]);
    } else {
        assert(t[0] == SYNC);
        assert(t[7] == s[7]);
        lemma_crc8_detects_single_byte_change(s.take(7), t.take(7), i);
        assert(crc8_seq(t.take(7)) != t[7]);
    }
}

} // verus!
