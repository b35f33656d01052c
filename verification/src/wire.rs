//! The peer-to-peer wire protocol: length-delimited frames, little-endian.
//!
//! A frame is `u32 length | u8 kind | payload`, where `length` counts the
//! kind byte and the payload. The kinds are the handshake (`Hello`,
//! `HelloAck`), per-tick inputs (`Input`), latency probes (`Ping`, `Pong`)
//! and match cancellation (`Cancel`).

use vstd::prelude::*;
use vstd::bytes::spec_u16_to_le_bytes;
use vstd::bytes::spec_u16_from_le_bytes;
use vstd::bytes::spec_u32_to_le_bytes;
use vstd::bytes::spec_u32_from_le_bytes;
use vstd::bytes::spec_u64_to_le_bytes;
use vstd::bytes::spec_u64_from_le_bytes;
use vstd::bytes::lemma_auto_spec_u16_to_from_le_bytes;
use vstd::bytes::lemma_auto_spec_u32_to_from_le_bytes;
use vstd::bytes::lemma_auto_spec_u64_to_from_le_bytes;
use vstd::bytes::u16_to_le_bytes;
use vstd::bytes::u16_from_le_bytes;
use vstd::bytes::u32_to_le_bytes;
use vstd::bytes::u32_from_le_bytes;
use vstd::bytes::u64_to_le_bytes;
use vstd::bytes::u64_from_le_bytes;
use vstd::slice::slice_subrange;
use vstd::slice::slice_to_vec;
use crate::lockstep::Input;
use crate::lockstep::InputV;
use crate::lockstep::copy_bytes;

verus! {

/// Frame kind bytes.
pub const KIND_HELLO: u8 = 0x01;
pub const KIND_HELLO_ACK: u8 = 0x02;
pub const KIND_INPUT: u8 = 0x03;
pub const KIND_CHUNKED_INPUT: u8 = 0x04;
pub const KIND_PING: u8 = 0x05;
pub const KIND_PONG: u8 = 0x06;
pub const KIND_CANCEL: u8 = 0x07;

/// Longest payload an `Input` frame can carry for its packet.
pub const MAX_PACKET_LEN: usize = 255;

/// Why a frame failed to decode: shorter than the fixed header, a length
/// field that does not match the bytes present, or a kind byte this protocol
/// does not define.
#[derive(PartialEq, Eq, Structural, Clone, Copy, Debug)]
pub enum WireError {
    Truncated,
    BadLength,
    UnknownKind,
}

/// The handshake message both peers exchange before a match.
pub struct Hello {
    pub protocol_version: u16,
    pub match_type_choices: (u16, u16),
    pub nonce: Vec<u8>,
    pub rng_commitment: u32,
    pub rom_code: Vec<u8>,
    pub rom_revision: u8,
    pub rom_crc32: u32,
}

/// Mathematical value of a `Hello`.
pub ghost struct HelloV {
    pub protocol_version: u16,
    pub match_type_choices: (u16, u16),
    pub nonce: Seq<u8>,
    pub rng_commitment: u32,
    pub rom_code: Seq<u8>,
    pub rom_revision: u8,
    pub rom_crc32: u32,
}

impl View for Hello {
    type V = HelloV;

    open spec fn view(&self) -> HelloV {
        HelloV {
            protocol_version: self.protocol_version,
            match_type_choices: self.match_type_choices,
            nonce: self.nonce@,
            rng_commitment: self.rng_commitment,
            rom_code: self.rom_code@,
            rom_revision: self.rom_revision,
            rom_crc32: self.rom_crc32,
        }
    }
}

impl HelloV {
    /// A handshake is well formed when its nonce is 16 bytes and its ROM
    /// code 4 bytes, as the frame layout fixes.
    pub open spec fn wf(self) -> bool {
        self.nonce.len() == 16 && self.rom_code.len() == 4
    }
}

impl Clone for Hello {
    fn clone(&self) -> (r: Self)
        ensures
            r@ == self@,
    {
        Hello {
            protocol_version: self.protocol_version,
            match_type_choices: (self.match_type_choices.0, self.match_type_choices.1),
            nonce: copy_bytes(&self.nonce),
            rng_commitment: self.rng_commitment,
            rom_code: copy_bytes(&self.rom_code),
            rom_revision: self.rom_revision,
            rom_crc32: self.rom_crc32,
        }
    }
}

/// One frame of the peer protocol.
pub enum Message {
    Hello(Hello),
    HelloAck(Hello),
    Input(Input),
    Ping(u64),
    Pong(u64),
    Cancel(u8),
}

/// Mathematical value of a `Message`.
pub ghost enum MessageV {
    Hello(HelloV),
    HelloAck(HelloV),
    Input(InputV),
    Ping(u64),
    Pong(u64),
    Cancel(u8),
}

impl View for Message {
    type V = MessageV;

    open spec fn view(&self) -> MessageV {
        match self {
            Message::Hello(h) => MessageV::Hello(h@),
            Message::HelloAck(h) => MessageV::HelloAck(h@),
            Message::Input(i) => MessageV::Input(i@),
            Message::Ping(t) => MessageV::Ping(*t),
            Message::Pong(t) => MessageV::Pong(*t),
            Message::Cancel(r) => MessageV::Cancel(*r),
        }
    }
}

impl MessageV {
    /// A message is well formed when its variable-length parts fit the frame
    /// layout: handshake fields of fixed width, packets of at most 255 bytes.
    pub open spec fn wf(self) -> bool {
        match self {
            MessageV::Hello(h) => h.wf(),
            MessageV::HelloAck(h) => h.wf(),
            MessageV::Input(i) => i.packet.len() <= MAX_PACKET_LEN,
            MessageV::Ping(_) => true,
            MessageV::Pong(_) => true,
            MessageV::Cancel(_) => true,
        }
    }
}

/// Payload bytes of a handshake message.
pub open spec fn spec_hello_payload(h: HelloV) -> Seq<u8> {
    spec_u16_to_le_bytes(h.protocol_version) + spec_u16_to_le_bytes(h.match_type_choices.0)
        + spec_u16_to_le_bytes(h.match_type_choices.1) + h.nonce + spec_u32_to_le_bytes(
        h.rng_commitment,
    ) + h.rom_code + seq![h.rom_revision] + spec_u32_to_le_bytes(h.rom_crc32)
}

/// Payload bytes of an input message: ticks, joyflags, then the packet
/// preceded by its one-byte length.
pub open spec fn spec_input_payload(i: InputV) -> Seq<u8> {
    spec_u32_to_le_bytes(i.local_tick) + spec_u32_to_le_bytes(i.remote_tick)
        + spec_u16_to_le_bytes(i.joyflags) + seq![i.packet.len() as u8] + i.packet
}

/// The kind byte of a message.
pub open spec fn spec_kind(m: MessageV) -> u8 {
    match m {
        MessageV::Hello(_) => KIND_HELLO,
        MessageV::HelloAck(_) => KIND_HELLO_ACK,
        MessageV::Input(_) => KIND_INPUT,
        MessageV::Ping(_) => KIND_PING,
        MessageV::Pong(_) => KIND_PONG,
        MessageV::Cancel(_) => KIND_CANCEL,
    }
}

/// The payload bytes of a message.
pub open spec fn spec_payload(m: MessageV) -> Seq<u8> {
    match m {
        MessageV::Hello(h) => spec_hello_payload(h),
        MessageV::HelloAck(h) => spec_hello_payload(h),
        MessageV::Input(i) => spec_input_payload(i),
        MessageV::Ping(t) => spec_u64_to_le_bytes(t),
        MessageV::Pong(t) => spec_u64_to_le_bytes(t),
        MessageV::Cancel(r) => seq![r],
    }
}

/// A whole frame: the length field counts the kind byte and the payload.
pub open spec fn spec_encode_frame(m: MessageV) -> Seq<u8> {
    spec_u32_to_le_bytes((1 + spec_payload(m).len()) as u32) + seq![spec_kind(m)]
        + spec_payload(m)
}

/// Decodes a handshake payload.
pub open spec fn spec_decode_hello(p: Seq<u8>) -> Result<HelloV, WireError> {
    if p.len() != 35 {
        Err(WireError::BadLength)
    } else {
        Ok(
            HelloV {
                protocol_version: spec_u16_from_le_bytes(p.subrange(0, 2)),
                match_type_choices: (
                    spec_u16_from_le_bytes(p.subrange(2, 4)),
                    spec_u16_from_le_bytes(p.subrange(4, 6)),
                ),
                nonce: p.subrange(6, 22),
                rng_commitment: spec_u32_from_le_bytes(p.subrange(22, 26)),
                rom_code: p.subrange(26, 30),
                rom_revision: p[30],
                rom_crc32: spec_u32_from_le_bytes(p.subrange(31, 35)),
            },
        )
    }
}

/// Decodes an input payload.
pub open spec fn spec_decode_input(p: Seq<u8>) -> Result<InputV, WireError> {
    if p.len() < 11 {
        Err(WireError::Truncated)
    } else if p.len() != 11 + p[10] {
        Err(WireError::BadLength)
    } else {
        Ok(
            InputV {
                local_tick: spec_u32_from_le_bytes(p.subrange(0, 4)),
                remote_tick: spec_u32_from_le_bytes(p.subrange(4, 8)),
                joyflags: spec_u16_from_le_bytes(p.subrange(8, 10)),
                packet: p.subrange(11, p.len() as int),
            },
        )
    }
}

/// Decodes one whole frame. The buffer must hold exactly the frame: a length
/// field that disagrees with the bytes present is refused.
pub open spec fn spec_decode_frame(s: Seq<u8>) -> Result<MessageV, WireError> {
    if s.len() < 5 {
        Err(WireError::Truncated)
    } else if s.len() != 4 + spec_u32_from_le_bytes(s.subrange(0, 4)) {
        Err(WireError::BadLength)
    } else {
        let p = s.subrange(5, s.len() as int);
        if s[4] == KIND_HELLO {
            match spec_decode_hello(p) {
                Ok(h) => Ok(MessageV::Hello(h)),
                Err(e) => Err(e),
            }
        } else if s[4] == KIND_HELLO_ACK {
            match spec_decode_hello(p) {
                Ok(h) => Ok(MessageV::HelloAck(h)),
                Err(e) => Err(e),
            }
        } else if s[4] == KIND_INPUT {
            match spec_decode_input(p) {
                Ok(i) => Ok(MessageV::Input(i)),
                Err(e) => Err(e),
            }
        } else if s[4] == KIND_PING {
            if p.len() != 8 {
                Err(WireError::BadLength)
            } else {
                Ok(MessageV::Ping(spec_u64_from_le_bytes(p)))
            }
        } else if s[4] == KIND_PONG {
            if p.len() != 8 {
                Err(WireError::BadLength)
            } else {
                Ok(MessageV::Pong(spec_u64_from_le_bytes(p)))
            }
        } else if s[4] == KIND_CANCEL {
            if p.len() != 1 {
                Err(WireError::BadLength)
            } else {
                Ok(MessageV::Cancel(p[0]))
            }
        } else {
            Err(WireError::UnknownKind)
        }
    }
}

/// Appends the little-endian bytes of a `u16`.
pub(crate) fn put_u16(out: &mut Vec<u8>, x: u16)
    ensures
        final(out)@ == old(out)@ + spec_u16_to_le_bytes(x),
{
    let mut b = u16_to_le_bytes(x);
    out.append(&mut b);
}

/// Appends the little-endian bytes of a `u32`.
pub(crate) fn put_u32(out: &mut Vec<u8>, x: u32)
    ensures
        final(out)@ == old(out)@ + spec_u32_to_le_bytes(x),
{
    let mut b = u32_to_le_bytes(x);
    out.append(&mut b);
}

/// Appends the little-endian bytes of a `u64`.
pub(crate) fn put_u64(out: &mut Vec<u8>, x: u64)
    ensures
        final(out)@ == old(out)@ + spec_u64_to_le_bytes(x),
{
    let mut b = u64_to_le_bytes(x);
    out.append(&mut b);
}

/// Appends a copy of the given bytes.
pub(crate) fn put_bytes(out: &mut Vec<u8>, src: &Vec<u8>)
    ensures
        final(out)@ == old(out)@ + src@,
{
    let mut b = copy_bytes(src);
    out.append(&mut b);
}

/// Encodes a handshake payload.
pub(crate) fn encode_hello_payload(out: &mut Vec<u8>, h: &Hello)
    requires
        h@.wf(),
    ensures
        final(out)@ == old(out)@ + spec_hello_payload(h@),
{
    put_u16(out, h.protocol_version);
    put_u16(out, h.match_type_choices.0);
    put_u16(out, h.match_type_choices.1);
    put_bytes(out, &h.nonce);
    put_u32(out, h.rng_commitment);
    put_bytes(out, &h.rom_code);
    out.push(h.rom_revision);
    put_u32(out, h.rom_crc32);
    proof {
        assert(final(out)@ =~= old(out)@ + spec_hello_payload(h@));
    }
}

/// Encodes an input payload.
pub(crate) fn encode_input_payload(out: &mut Vec<u8>, i: &Input)
    requires
        i@.packet.len() <= MAX_PACKET_LEN,
    ensures
        final(out)@ == old(out)@ + spec_input_payload(i@),
{
    put_u32(out, i.local_tick);
    put_u32(out, i.remote_tick);
    put_u16(out, i.joyflags);
    out.push(i.packet.len() as u8);
    put_bytes(out, &i.packet);
    proof {
        assert(final(out)@ =~= old(out)@ + spec_input_payload(i@));
    }
}

/// Encodes one message as a whole frame.
pub fn encode_frame(m: &Message) -> (r: Vec<u8>)
    requires
        m@.wf(),
    ensures
        r@ == spec_encode_frame(m@),
{
    let mut payload: Vec<u8> = Vec::new();
    let kind: u8;
    match m {
        Message::Hello(h) => {
            kind = KIND_HELLO;
            encode_hello_payload(&mut payload, h);
        },
        Message::HelloAck(h) => {
            kind = KIND_HELLO_ACK;
            encode_hello_payload(&mut payload, h);
        },
        Message::Input(i) => {
            kind = KIND_INPUT;
            encode_input_payload(&mut payload, i);
        },
        Message::Ping(t) => {
            kind = KIND_PING;
            put_u64(&mut payload, *t);
        },
        Message::Pong(t) => {
            kind = KIND_PONG;
            put_u64(&mut payload, *t);
        },
        Message::Cancel(reason) => {
            kind = KIND_CANCEL;
            payload.push(*reason);
        },
    }
    proof {
        assert(payload@ =~= spec_payload(m@));
        lemma_auto_spec_u16_to_from_le_bytes();
        lemma_auto_spec_u32_to_from_le_bytes();
        lemma_auto_spec_u64_to_from_le_bytes();
        assert(payload@.len() <= 266);
    }
    let mut out: Vec<u8> = Vec::new();
    put_u32(&mut out, (payload.len() + 1) as u32);
    out.push(kind);
    put_bytes(&mut out, &payload);
    proof {
        assert(out@ =~= spec_encode_frame(m@));
    }
    out
}

/// Decodes a handshake payload.
fn decode_hello_payload(p: &[u8]) -> (r: Result<Hello, WireError>)
    ensures
        match r {
            Ok(h) => spec_decode_hello(p@) == Ok::<HelloV, WireError>(h@),
            Err(e) => spec_decode_hello(p@) == Err::<HelloV, WireError>(e),
        },
{
    if p.len() != 35 {
        return Err(WireError::BadLength);
    }
    let protocol_version = u16_from_le_bytes(slice_subrange(p, 0, 2));
    let c0 = u16_from_le_bytes(slice_subrange(p, 2, 4));
    let c1 = u16_from_le_bytes(slice_subrange(p, 4, 6));
    let nonce = slice_to_vec(slice_subrange(p, 6, 22));
    let rng_commitment = u32_from_le_bytes(slice_subrange(p, 22, 26));
    let rom_code = slice_to_vec(slice_subrange(p, 26, 30));
    let rom_revision = *vstd::slice::slice_index_get(p, 30);
    let rom_crc32 = u32_from_le_bytes(slice_subrange(p, 31, 35));
    Ok(
        Hello {
            protocol_version,
            match_type_choices: (c0, c1),
            nonce,
            rng_commitment,
            rom_code,
            rom_revision,
            rom_crc32,
        },
    )
}

/// Decodes an input payload.
fn decode_input_payload(p: &[u8]) -> (r: Result<Input, WireError>)
    ensures
        match r {
            Ok(i) => spec_decode_input(p@) == Ok::<InputV, WireError>(i@),
            Err(e) => spec_decode_input(p@) == Err::<InputV, WireError>(e),
        },
{
    if p.len() < 11 {
        return Err(WireError::Truncated);
    }
    let packet_len = *vstd::slice::slice_index_get(p, 10);
    if p.len() != 11 + packet_len as usize {
        return Err(WireError::BadLength);
    }
    let local_tick = u32_from_le_bytes(slice_subrange(p, 0, 4));
    let remote_tick = u32_from_le_bytes(slice_subrange(p, 4, 8));
    let joyflags = u16_from_le_bytes(slice_subrange(p, 8, 10));
    let packet = slice_to_vec(slice_subrange(p, 11, p.len()));
    Ok(Input { local_tick, remote_tick, joyflags, packet })
}

/// Decodes one whole frame; the buffer must hold exactly the frame.
pub fn decode_frame(s: &[u8]) -> (r: Result<Message, WireError>)
    ensures
        match r {
            Ok(m) => spec_decode_frame(s@) == Ok::<MessageV, WireError>(m@),
            Err(e) => spec_decode_frame(s@) == Err::<MessageV, WireError>(e),
        },
{
    if s.len() < 5 {
        return Err(WireError::Truncated);
    }
    let len = u32_from_le_bytes(slice_subrange(s, 0, 4));
    if len as usize > usize::MAX - 4 || s.len() != 4 + len as usize {
        return Err(WireError::BadLength);
    }
    let kind = *vstd::slice::slice_index_get(s, 4);
    let p = slice_subrange(s, 5, s.len());
    if kind == KIND_HELLO {
        match decode_hello_payload(p) {
            Ok(h) => Ok(Message::Hello(h)),
            Err(e) => Err(e),
        }
    } else if kind == KIND_HELLO_ACK {
        match decode_hello_payload(p) {
            Ok(h) => Ok(Message::HelloAck(h)),
            Err(e) => Err(e),
        }
    } else if kind == KIND_INPUT {
        match decode_input_payload(p) {
            Ok(i) => Ok(Message::Input(i)),
            Err(e) => Err(e),
        }
    } else if kind == KIND_PING {
        if p.len() != 8 {
            Err(WireError::BadLength)
        } else {
            Ok(Message::Ping(u64_from_le_bytes(p)))
        }
    } else if kind == KIND_PONG {
        if p.len() != 8 {
            Err(WireError::BadLength)
        } else {
            Ok(Message::Pong(u64_from_le_bytes(p)))
        }
    } else if kind == KIND_CANCEL {
        if p.len() != 1 {
            Err(WireError::BadLength)
        } else {
            Ok(Message::Cancel(*vstd::slice::slice_index_get(p, 0)))
        }
    } else {
        Err(WireError::UnknownKind)
    }
}

/// Every well-formed message comes back unchanged from its own frame:
/// decoding what `spec_encode_frame` produced yields the original message.
pub proof fn lemma_frame_round_trip(m: MessageV)
    requires
        m.wf(),
    ensures
        spec_decode_frame(spec_encode_frame(m)) == Ok::<MessageV, WireError>(m),
{
    lemma_auto_spec_u16_to_from_le_bytes();
    lemma_auto_spec_u32_to_from_le_bytes();
    lemma_auto_spec_u64_to_from_le_bytes();
    let s = spec_encode_frame(m);
    let payload = spec_payload(m);
    assert(s.subrange(0, 4) =~= spec_u32_to_le_bytes((1 + payload.len()) as u32));
    assert(s[4] == spec_kind(m));
    assert(s.subrange(5, s.len() as int) =~= payload);
    let p = s.subrange(5, s.len() as int);
    match m {
        MessageV::Hello(h) => {
            lemma_hello_payload_round_trip(h);
        },
        MessageV::HelloAck(h) => {
            lemma_hello_payload_round_trip(h);
        },
        MessageV::Input(i) => {
            lemma_input_payload_round_trip(i);
        },
        MessageV::Ping(t) => {
            assert(p =~= spec_u64_to_le_bytes(t));
        },
        MessageV::Pong(t) => {
            assert(p =~= spec_u64_to_le_bytes(t));
        },
        MessageV::Cancel(r) => {
            assert(p =~= seq![r]);
        },
    }
}

/// A well-formed handshake payload decodes back to itself.
pub proof fn lemma_hello_payload_round_trip(h: HelloV)
    requires
        h.wf(),
    ensures
        spec_decode_hello(spec_hello_payload(h)) == Ok::<HelloV, WireError>(h),
{
    lemma_auto_spec_u16_to_from_le_bytes();
    lemma_auto_spec_u32_to_from_le_bytes();
    let p = spec_hello_payload(h);
    assert(p.subrange(0, 2) =~= spec_u16_to_le_bytes(h.protocol_version));
    assert(p.subrange(2, 4) =~= spec_u16_to_le_bytes(h.match_type_choices.0));
    assert(p.subrange(4, 6) =~= spec_u16_to_le_bytes(h.match_type_choices.1));
    assert(p.subrange(6, 22) =~= h.nonce);
    assert(p.subrange(22, 26) =~= spec_u32_to_le_bytes(h.rng_commitment));
    assert(p.subrange(26, 30) =~= h.rom_code);
    assert(p[30] == h.rom_revision);
    assert(p.subrange(31, 35) =~= spec_u32_to_le_bytes(h.rom_crc32));
}

/// A well-formed input payload decodes back to itself.
pub proof fn lemma_input_payload_round_trip(i: InputV)
    requires
        i.packet.len() <= MAX_PACKET_LEN,
    ensures
        spec_decode_input(spec_input_payload(i)) == Ok::<InputV, WireError>(i),
{
    lemma_auto_spec_u16_to_from_le_bytes();
    lemma_auto_spec_u32_to_from_le_bytes();
    let p = spec_input_payload(i);
    assert(p.subrange(0, 4) =~= spec_u32_to_le_bytes(i.local_tick));
    assert(p.subrange(4, 8) =~= spec_u32_to_le_bytes(i.remote_tick));
    assert(p.subrange(8, 10) =~= spec_u16_to_le_bytes(i.joyflags));
    assert(p[10] == i.packet.len() as u8);
    assert(p.subrange(11, p.len() as int) =~= i.packet);
}

/// The reason byte a peer sends in `Cancel` when the handshakes disagree.
pub const CANCEL_REASON_INCOMPATIBLE: u8 = 0x01;

/// Whether two handshakes let a match proceed: the same protocol version,
/// at least one series format offered by both, and the same ROM identity.
/// A mismatch makes one peer send `Cancel` and both sides stop.
pub open spec fn spec_hello_compatible(a: HelloV, b: HelloV) -> bool {
    &&& a.protocol_version == b.protocol_version
    &&& {
        ||| a.match_type_choices.0 == b.match_type_choices.0
        ||| a.match_type_choices.0 == b.match_type_choices.1
        ||| a.match_type_choices.1 == b.match_type_choices.0
        ||| a.match_type_choices.1 == b.match_type_choices.1
    }
    &&& a.rom_code == b.rom_code
    &&& a.rom_revision == b.rom_revision
    &&& a.rom_crc32 == b.rom_crc32
}

/// Whether two handshakes let a match proceed.
pub fn hello_compatible(a: &Hello, b: &Hello) -> (r: bool)
    ensures
        r == spec_hello_compatible(a@, b@),
{
    a.protocol_version == b.protocol_version && (a.match_type_choices.0 == b.match_type_choices.0
        || a.match_type_choices.0 == b.match_type_choices.1 || a.match_type_choices.1
        == b.match_type_choices.0 || a.match_type_choices.1 == b.match_type_choices.1)
        && crate::lockstep::bytes_eq(a.rom_code.as_slice(), b.rom_code.as_slice())
        && a.rom_revision == b.rom_revision && a.rom_crc32 == b.rom_crc32
}

/// The bytes of a chunk list, in order.
pub open spec fn spec_concat_chunks(chunks: Seq<Seq<u8>>) -> Seq<u8>
    decreases chunks.len(),
{
    if chunks.len() == 0 {
        Seq::<u8>::empty()
    } else {
        chunks[0] + spec_concat_chunks(chunks.drop_first())
    }
}

/// Appending one more chunk appends its bytes.
pub proof fn lemma_concat_chunks_push(chunks: Seq<Seq<u8>>, c: Seq<u8>)
    ensures
        spec_concat_chunks(chunks.push(c)) == spec_concat_chunks(chunks) + c,
    decreases chunks.len(),
{
    if chunks.len() == 0 {
        assert(spec_concat_chunks(Seq::<Seq<u8>>::empty()) == Seq::<u8>::empty());
        assert(chunks.push(c).drop_first() =~= Seq::<Seq<u8>>::empty());
        assert(chunks.push(c)[0] == c);
        assert(spec_concat_chunks(chunks.push(c)) =~= spec_concat_chunks(chunks) + c);
    } else {
        assert(chunks.push(c).drop_first() =~= chunks.drop_first().push(c));
        lemma_concat_chunks_push(chunks.drop_first(), c);
        assert(spec_concat_chunks(chunks.push(c)) =~= spec_concat_chunks(chunks) + c);
    }
}

/// Splits a packet too large for one `Input` frame into chunks that each
/// fit a frame's one-byte length field, for sending as `ChunkedInput`
/// frames. The chunks concatenate back to the packet, and every chunk but
/// the last is full.
pub fn split_packet(packet: &Vec<u8>) -> (r: Vec<Vec<u8>>)
    ensures
        spec_concat_chunks(r@.map_values(|c: Vec<u8>| c@)) =~= packet@,
        forall|i: int| 0 <= i < r@.len() ==> #[trigger] r@[i]@.len() <= MAX_PACKET_LEN,
        forall|i: int| 0 <= i < r@.len() - 1 ==> #[trigger] r@[i]@.len() == MAX_PACKET_LEN,
{
    let mut r: Vec<Vec<u8>> = Vec::new();
    let mut pos: usize = 0;
    while pos < packet.len()
        invariant
            pos <= packet@.len(),
            spec_concat_chunks(r@.map_values(|c: Vec<u8>| c@)) =~= packet@.subrange(
                0,
                pos as int,
            ),
            forall|i: int| 0 <= i < r@.len() ==> #[trigger] r@[i]@.len() <= MAX_PACKET_LEN,
            forall|i: int| 0 <= i < r@.len() - 1 ==> #[trigger] r@[i]@.len() == MAX_PACKET_LEN,
            pos < packet@.len() ==> forall|i: int|
                0 <= i < r@.len() ==> #[trigger] r@[i]@.len() == MAX_PACKET_LEN,
        decreases packet@.len() - pos,
    {
        let end: usize = if packet.len() - pos > MAX_PACKET_LEN {
            pos + MAX_PACKET_LEN
        } else {
            packet.len()
        };
        let chunk = vstd::slice::slice_to_vec(vstd::slice::slice_subrange(
            packet.as_slice(),
            pos,
            end,
        ));
        proof {
            let ghost old_chunks = r@.map_values(|c: Vec<u8>| c@);
            lemma_concat_chunks_push(old_chunks, chunk@);
        }
        let ghost old_map = r@.map_values(|c: Vec<u8>| c@);
        r.push(chunk);
        proof {
            assert(r@.map_values(|c: Vec<u8>| c@) =~= old_map.push(packet@.subrange(
                pos as int,
                end as int,
            )));
            assert(spec_concat_chunks(r@.map_values(|c: Vec<u8>| c@)) =~= packet@.subrange(
                0,
                end as int,
            ));
        }
        pos = end;
    }
    proof {
        assert(packet@.subrange(0, packet@.len() as int) =~= packet@);
    }
    r
}

/// Joins the chunks of a `ChunkedInput` stream back into the packet they
/// were split from.
pub fn join_chunks(chunks: &Vec<Vec<u8>>) -> (r: Vec<u8>)
    ensures
        r@ =~= spec_concat_chunks(chunks@.map_values(|c: Vec<u8>| c@)),
{
    let mut r: Vec<u8> = Vec::new();
    let mut k: usize = 0;
    while k < chunks.len()
        invariant
            k <= chunks@.len(),
            r@ =~= spec_concat_chunks(chunks@.map_values(|c: Vec<u8>| c@).subrange(0, k as int)),
        decreases chunks@.len() - k,
    {
        let mut piece = copy_bytes(&chunks[k]);
        proof {
            let m = chunks@.map_values(|c: Vec<u8>| c@);
            assert(m.subrange(0, k as int).push(m[k as int]) =~= m.subrange(0, k + 1));
            lemma_concat_chunks_push(m.subrange(0, k as int), m[k as int]);
        }
        r.append(&mut piece);
        k = k + 1;
    }
    proof {
        let m = chunks@.map_values(|c: Vec<u8>| c@);
        assert(m.subrange(0, m.len() as int) =~= m);
    }
    r
}


} // verus!
