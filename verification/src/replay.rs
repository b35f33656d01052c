//! The replay file format: a round's initial save state plus the full input
//! stream, enough to re-execute the round deterministically.
//!
//! Layout, little-endian: the magic `TR01` and a version; the recording
//! side's player index, series format, and ROM identity; the initial WRAM
//! and save-state blobs, each length-prefixed, and the ROM title; then one
//! record per input pair, each opened with a marker byte and holding both
//! sides' inputs in the same layout as the wire `Input` payload; a round
//! terminator carrying the result byte; and a file terminator.

use vstd::prelude::*;
use vstd::bytes::spec_u16_to_le_bytes;
use vstd::bytes::spec_u32_to_le_bytes;
use vstd::bytes::spec_u32_from_le_bytes;
use vstd::bytes::lemma_auto_spec_u16_to_from_le_bytes;
use vstd::bytes::lemma_auto_spec_u32_to_from_le_bytes;
use vstd::bytes::u32_from_le_bytes;
use vstd::slice::slice_subrange;
use vstd::slice::slice_to_vec;
use crate::lockstep::Input;
use crate::lockstep::InputV;
use crate::lockstep::Pair;
use crate::lockstep::PairV;
use crate::lockstep::copy_bytes;
use crate::wire::spec_input_payload;
use crate::wire::MAX_PACKET_LEN;

verus! {

/// The only file version this build reads and writes.
pub const REPLAY_VERSION: u32 = 1;

/// Marker byte opening each input-pair record.
pub const MARKER_PAIR: u8 = 0x01;

/// Sentinel byte of the round terminator.
pub const SENTINEL_ROUND_END: u8 = 0xff;

/// Sentinel byte of the file terminator.
pub const SENTINEL_FILE_END: u8 = 0xfe;

/// Why a replay failed to decode: wrong magic, a version this build does not
/// read, fewer bytes than a field needs, or a record that follows none of
/// the defined shapes.
#[derive(PartialEq, Eq, Structural, Clone, Copy, Debug)]
pub enum ReplayError {
    BadMagic,
    BadVersion,
    Truncated,
    Malformed,
}

/// A decoded replay: one recorded round.
pub struct Replay {
    pub local_player_index: u8,
    pub match_type: (u32, u32),
    pub rom_code: Vec<u8>,
    pub rom_revision: u8,
    pub rom_crc32: u32,
    pub wram: Vec<u8>,
    pub save_state: Vec<u8>,
    pub rom_title: Vec<u8>,
    pub input_pairs: Vec<Pair>,
    pub result: u8,
}

/// Mathematical value of a `Replay`.
pub ghost struct ReplayV {
    pub local_player_index: u8,
    pub match_type: (u32, u32),
    pub rom_code: Seq<u8>,
    pub rom_revision: u8,
    pub rom_crc32: u32,
    pub wram: Seq<u8>,
    pub save_state: Seq<u8>,
    pub rom_title: Seq<u8>,
    pub input_pairs: Seq<PairV>,
    pub result: u8,
}

impl View for Replay {
    type V = ReplayV;

    open spec fn view(&self) -> ReplayV {
        ReplayV {
            local_player_index: self.local_player_index,
            match_type: self.match_type,
            rom_code: self.rom_code@,
            rom_revision: self.rom_revision,
            rom_crc32: self.rom_crc32,
            wram: self.wram@,
            save_state: self.save_state@,
            rom_title: self.rom_title@,
            input_pairs: self.input_pairs@.map_values(|p: Pair| p@),
            result: self.result,
        }
    }
}

impl ReplayV {
    /// Well-formedness: fixed-width fields have their widths, the blobs fit
    /// their length prefixes, the player index names one of the two seats,
    /// and every packet fits its one-byte length.
    pub open spec fn wf(self) -> bool {
        &&& self.local_player_index <= 1
        &&& self.rom_code.len() == 4
        &&& self.rom_title.len() == 20
        &&& self.wram.len() <= u32::MAX
        &&& self.save_state.len() <= u32::MAX
        &&& forall|i: int|
            0 <= i < self.input_pairs.len() ==> #[trigger] pair_wf(self.input_pairs[i])
    }
}

/// Both packets of a pair fit the record layout.
pub open spec fn pair_wf(p: PairV) -> bool {
    p.local.packet.len() <= MAX_PACKET_LEN && p.remote.packet.len() <= MAX_PACKET_LEN
}

/// The file magic.
pub open spec fn spec_magic() -> Seq<u8> {
    seq![0x54u8, 0x52u8, 0x30u8, 0x31u8]
}

/// The record bytes: one marked record per pair, then the round terminator
/// with the result byte, then the file terminator.
pub open spec fn spec_encode_records(pairs: Seq<PairV>, result: u8) -> Seq<u8>
    decreases pairs.len(),
{
    if pairs.len() == 0 {
        seq![SENTINEL_ROUND_END, result, SENTINEL_FILE_END]
    } else {
        seq![MARKER_PAIR] + spec_input_payload(pairs[0].local) + spec_input_payload(
            pairs[0].remote,
        ) + spec_encode_records(pairs.drop_first(), result)
    }
}

/// The whole file.
pub open spec fn spec_encode_replay(r: ReplayV) -> Seq<u8> {
    spec_magic() + spec_u32_to_le_bytes(REPLAY_VERSION) + seq![r.local_player_index]
        + spec_u32_to_le_bytes(r.match_type.0) + spec_u32_to_le_bytes(r.match_type.1)
        + r.rom_code + seq![r.rom_revision] + spec_u32_to_le_bytes(r.rom_crc32)
        + spec_u32_to_le_bytes(r.wram.len() as u32) + r.wram + spec_u32_to_le_bytes(
        r.save_state.len() as u32,
    ) + r.save_state + r.rom_title + spec_encode_records(r.input_pairs, r.result)
}

/// Parses one input payload from the front of `s`; yields the input and the
/// bytes consumed.
pub open spec fn spec_parse_input(s: Seq<u8>) -> Option<(InputV, int)> {
    if s.len() < 11 {
        None
    } else if s.len() < 11 + s[10] {
        None
    } else {
        Some(
            (
                InputV {
                    local_tick: spec_u32_from_le_bytes(s.subrange(0, 4)),
                    remote_tick: spec_u32_from_le_bytes(s.subrange(4, 8)),
                    joyflags: vstd::bytes::spec_u16_from_le_bytes(s.subrange(8, 10)),
                    packet: s.subrange(11, 11 + s[10]),
                },
                11 + s[10],
            ),
        )
    }
}

/// Decodes the record region: the pair records, then the two terminators.
pub open spec fn spec_decode_records(s: Seq<u8>) -> Result<(Seq<PairV>, u8), ReplayError>
    decreases s.len(),
{
    if s.len() < 1 {
        Err(ReplayError::Truncated)
    } else if s[0] == SENTINEL_ROUND_END {
        if s.len() < 3 {
            Err(ReplayError::Truncated)
        } else if s[2] != SENTINEL_FILE_END || s.len() != 3 {
            Err(ReplayError::Malformed)
        } else {
            Ok((Seq::<PairV>::empty(), s[1]))
        }
    } else if s[0] == MARKER_PAIR {
        match spec_parse_input(s.subrange(1, s.len() as int)) {
            None => Err(ReplayError::Truncated),
            Some((local, n1)) => {
                match spec_parse_input(s.subrange(1 + n1, s.len() as int)) {
                    None => Err(ReplayError::Truncated),
                    Some((remote, n2)) => {
                        match spec_decode_records(s.subrange(1 + n1 + n2, s.len() as int)) {
                            Ok((rest, result)) => Ok(
                                (seq![PairV { local, remote }] + rest, result),
                            ),
                            Err(e) => Err(e),
                        }
                    },
                }
            },
        }
    } else {
        Err(ReplayError::Malformed)
    }
}

/// Decodes a whole replay file.
pub open spec fn spec_decode_replay(s: Seq<u8>) -> Result<ReplayV, ReplayError> {
    if s.len() < 8 {
        Err(ReplayError::Truncated)
    } else if s.subrange(0, 4) != spec_magic() {
        Err(ReplayError::BadMagic)
    } else if spec_u32_from_le_bytes(s.subrange(4, 8)) != REPLAY_VERSION {
        Err(ReplayError::BadVersion)
    } else if s.len() < 30 {
        Err(ReplayError::Truncated)
    } else if s[8] > 1 {
        Err(ReplayError::Malformed)
    } else {
        let wram_len = spec_u32_from_le_bytes(s.subrange(26, 30));
        if s.len() < 34 + wram_len {
            Err(ReplayError::Truncated)
        } else {
            let save_state_len = spec_u32_from_le_bytes(
                s.subrange(30 + wram_len, 34 + wram_len),
            );
            if s.len() < 54 + wram_len + save_state_len {
                Err(ReplayError::Truncated)
            } else {
                let records = s.subrange(54 + wram_len + save_state_len, s.len() as int);
                match spec_decode_records(records) {
                    Ok((pairs, result)) => Ok(
                        ReplayV {
                            local_player_index: s[8],
                            match_type: (
                                spec_u32_from_le_bytes(s.subrange(9, 13)),
                                spec_u32_from_le_bytes(s.subrange(13, 17)),
                            ),
                            rom_code: s.subrange(17, 21),
                            rom_revision: s[21],
                            rom_crc32: spec_u32_from_le_bytes(s.subrange(22, 26)),
                            wram: s.subrange(30, 30 + wram_len),
                            save_state: s.subrange(34 + wram_len, 34 + wram_len + save_state_len),
                            rom_title: s.subrange(
                                34 + wram_len + save_state_len,
                                54 + wram_len + save_state_len,
                            ),
                            input_pairs: pairs,
                            result,
                        },
                    ),
                    Err(e) => Err(e),
                }
            }
        }
    }
}

/// One pair record's bytes.
pub open spec fn spec_pair_record(p: PairV) -> Seq<u8> {
    seq![MARKER_PAIR] + spec_input_payload(p.local) + spec_input_payload(p.remote)
}

/// The pair records alone, without the terminators.
pub open spec fn spec_encode_pairs(pairs: Seq<PairV>) -> Seq<u8>
    decreases pairs.len(),
{
    if pairs.len() == 0 {
        Seq::<u8>::empty()
    } else {
        spec_pair_record(pairs[0]) + spec_encode_pairs(pairs.drop_first())
    }
}

/// The record region is the pair records followed by the terminators.
pub proof fn lemma_records_split(pairs: Seq<PairV>, result: u8)
    ensures
        spec_encode_records(pairs, result) == spec_encode_pairs(pairs) + seq![
            SENTINEL_ROUND_END,
            result,
            SENTINEL_FILE_END,
        ],
    decreases pairs.len(),
{
    if pairs.len() == 0 {
        assert(spec_encode_records(pairs, result) =~= spec_encode_pairs(pairs) + seq![
            SENTINEL_ROUND_END,
            result,
            SENTINEL_FILE_END,
        ]);
    } else {
        lemma_records_split(pairs.drop_first(), result);
        assert(spec_encode_records(pairs, result) =~= spec_encode_pairs(pairs) + seq![
            SENTINEL_ROUND_END,
            result,
            SENTINEL_FILE_END,
        ]);
    }
}

/// Appending one more pair extends the records by one record.
pub proof fn lemma_pairs_push(pairs: Seq<PairV>, p: PairV)
    ensures
        spec_encode_pairs(pairs.push(p)) == spec_encode_pairs(pairs) + spec_pair_record(p),
    decreases pairs.len(),
{
    if pairs.len() == 0 {
        assert(spec_encode_pairs(Seq::<PairV>::empty()) == Seq::<u8>::empty());
        assert(pairs.push(p).drop_first() =~= Seq::<PairV>::empty());
        assert(pairs.push(p)[0] == p);
        assert(spec_encode_pairs(pairs.push(p)) =~= spec_encode_pairs(pairs) + spec_pair_record(
            p,
        ));
    } else {
        assert(pairs.push(p).drop_first() =~= pairs.drop_first().push(p));
        lemma_pairs_push(pairs.drop_first(), p);
        assert(spec_encode_pairs(pairs.push(p)) =~= spec_encode_pairs(pairs) + spec_pair_record(
            p,
        ));
    }
}

/// Encodes one pair record.
fn encode_pair_record(out: &mut Vec<u8>, p: &Pair)
    requires
        pair_wf(p@),
    ensures
        final(out)@ == old(out)@ + spec_pair_record(p@),
{
    out.push(MARKER_PAIR);
    crate::wire::encode_input_payload(out, &p.local);
    crate::wire::encode_input_payload(out, &p.remote);
    proof {
        assert(final(out)@ =~= old(out)@ + spec_pair_record(p@));
    }
}

/// Encodes a whole replay file.
pub fn encode_replay(r: &Replay) -> (out: Vec<u8>)
    requires
        r@.wf(),
    ensures
        out@ == spec_encode_replay(r@),
{
    let mut out: Vec<u8> = Vec::new();
    out.push(0x54);
    out.push(0x52);
    out.push(0x30);
    out.push(0x31);
    proof {
        assert(out@ =~= spec_magic());
    }
    crate::wire::put_u32(&mut out, REPLAY_VERSION);
    out.push(r.local_player_index);
    crate::wire::put_u32(&mut out, r.match_type.0);
    crate::wire::put_u32(&mut out, r.match_type.1);
    crate::wire::put_bytes(&mut out, &r.rom_code);
    out.push(r.rom_revision);
    crate::wire::put_u32(&mut out, r.rom_crc32);
    crate::wire::put_u32(&mut out, r.wram.len() as u32);
    crate::wire::put_bytes(&mut out, &r.wram);
    crate::wire::put_u32(&mut out, r.save_state.len() as u32);
    crate::wire::put_bytes(&mut out, &r.save_state);
    crate::wire::put_bytes(&mut out, &r.rom_title);
    let ghost header = out@;
    let mut k: usize = 0;
    while k < r.input_pairs.len()
        invariant
            k <= r.input_pairs.len(),
            out@ == header + spec_encode_pairs(r@.input_pairs.subrange(0, k as int)),
            r@.wf(),
            r.input_pairs@.map_values(|p: Pair| p@) == r@.input_pairs,
        decreases r.input_pairs.len() - k,
    {
        proof {
            assert(pair_wf(r@.input_pairs[k as int]));
            lemma_pairs_push(r@.input_pairs.subrange(0, k as int), r@.input_pairs[k as int]);
            assert(r@.input_pairs.subrange(0, k as int).push(r@.input_pairs[k as int])
                =~= r@.input_pairs.subrange(0, k as int + 1));
        }
        encode_pair_record(&mut out, &r.input_pairs[k]);
        k = k + 1;
    }
    proof {
        assert(r@.input_pairs.subrange(0, r@.input_pairs.len() as int) =~= r@.input_pairs);
    }
    out.push(SENTINEL_ROUND_END);
    out.push(r.result);
    out.push(SENTINEL_FILE_END);
    proof {
        lemma_records_split(r@.input_pairs, r@.result);
        assert(out@ =~= spec_encode_replay(r@));
    }
    out
}

/// Parses one input payload from the front of a byte slice.
fn parse_input_prefix(s: &[u8]) -> (r: Option<(Input, usize)>)
    ensures
        match r {
            Some(p) => spec_parse_input(s@) == Some((p.0@, p.1 as int)),
            None => spec_parse_input(s@) is None,
        },
{
    if s.len() < 11 {
        return None;
    }
    let plen = *vstd::slice::slice_index_get(s, 10) as usize;
    if s.len() < 11 + plen {
        return None;
    }
    let local_tick = u32_from_le_bytes(slice_subrange(s, 0, 4));
    let remote_tick = u32_from_le_bytes(slice_subrange(s, 4, 8));
    let joyflags = vstd::bytes::u16_from_le_bytes(slice_subrange(s, 8, 10));
    let packet = slice_to_vec(slice_subrange(s, 11, 11 + plen));
    Some((Input { local_tick, remote_tick, joyflags, packet }, 11 + plen))
}

/// Decodes a whole replay file; the buffer must hold exactly one file.
pub fn decode_replay(bytes: &[u8]) -> (r: Result<Replay, ReplayError>)
    ensures
        match r {
            Ok(rep) => spec_decode_replay(bytes@) == Ok::<ReplayV, ReplayError>(rep@),
            Err(e) => spec_decode_replay(bytes@) == Err::<ReplayV, ReplayError>(e),
        },
{
    if bytes.len() < 8 {
        return Err(ReplayError::Truncated);
    }
    if *vstd::slice::slice_index_get(bytes, 0) != 0x54 || *vstd::slice::slice_index_get(bytes, 1)
        != 0x52 || *vstd::slice::slice_index_get(bytes, 2) != 0x30 || *vstd::slice::slice_index_get(
        bytes,
        3,
    ) != 0x31 {
        proof {
            assert(bytes@.subrange(0, 4) != spec_magic());
        }
        return Err(ReplayError::BadMagic);
    }
    proof {
        assert(bytes@.subrange(0, 4) =~= spec_magic());
    }
    let version = u32_from_le_bytes(slice_subrange(bytes, 4, 8));
    if version != REPLAY_VERSION {
        return Err(ReplayError::BadVersion);
    }
    if bytes.len() < 30 {
        return Err(ReplayError::Truncated);
    }
    let local_player_index = *vstd::slice::slice_index_get(bytes, 8);
    if local_player_index > 1 {
        return Err(ReplayError::Malformed);
    }
    let match_type0 = u32_from_le_bytes(slice_subrange(bytes, 9, 13));
    let match_type1 = u32_from_le_bytes(slice_subrange(bytes, 13, 17));
    let rom_code = slice_to_vec(slice_subrange(bytes, 17, 21));
    let rom_revision = *vstd::slice::slice_index_get(bytes, 21);
    let rom_crc32 = u32_from_le_bytes(slice_subrange(bytes, 22, 26));
    let wram_len = u32_from_le_bytes(slice_subrange(bytes, 26, 30)) as usize;
    if bytes.len() < 34 || bytes.len() - 34 < wram_len {
        return Err(ReplayError::Truncated);
    }
    let wram = slice_to_vec(slice_subrange(bytes, 30, 30 + wram_len));
    let save_state_len = u32_from_le_bytes(
        slice_subrange(bytes, 30 + wram_len, 34 + wram_len),
    ) as usize;
    let rem: usize = bytes.len() - 34 - wram_len;
    if rem < 20 || rem - 20 < save_state_len {
        return Err(ReplayError::Truncated);
    }
    let save_state = slice_to_vec(slice_subrange(bytes, 34 + wram_len, 34 + wram_len
        + save_state_len));
    let rom_title = slice_to_vec(slice_subrange(bytes, 34 + wram_len + save_state_len, 54
        + wram_len + save_state_len));
    let start: usize = 54 + wram_len + save_state_len;
    let ghost region = bytes@.subrange(start as int, bytes@.len() as int);
    let mut pos: usize = start;
    let mut pairs: Vec<Pair> = Vec::new();
    #[verifier::loop_isolation(false)]
    while pos < bytes.len() && *vstd::slice::slice_index_get(bytes, pos) == MARKER_PAIR
        invariant
            start <= pos <= bytes.len(),
            region == bytes@.subrange(start as int, bytes@.len() as int),
            match spec_decode_records(bytes@.subrange(pos as int, bytes@.len() as int)) {
                Ok(done) => spec_decode_records(region) == Ok::<_, ReplayError>(
                    (pairs@.map_values(|p: Pair| p@) + done.0, done.1),
                ),
                Err(e) => spec_decode_records(region) == Err::<(Seq<PairV>, u8), ReplayError>(e),
            },
        decreases bytes.len() - pos,
    {
        let ghost s_here = bytes@.subrange(pos as int, bytes@.len() as int);
        let tail = slice_subrange(bytes, pos + 1, bytes.len());
        proof {
            assert(tail@ =~= s_here.subrange(1, s_here.len() as int));
        }
        let parsed_local = parse_input_prefix(tail);
        let (local, n1) = match parsed_local {
            Some(p) => p,
            None => {
                proof {
                    assert(s_here[0] == MARKER_PAIR);
                    assert(spec_decode_records(s_here) == Err::<(Seq<PairV>, u8), ReplayError>(
                        ReplayError::Truncated,
                    ));
                    assert(spec_decode_records(region) == Err::<(Seq<PairV>, u8), ReplayError>(
                        ReplayError::Truncated,
                    ));
                    let w = spec_u32_from_le_bytes(bytes@.subrange(26, 30)) as int;
                    assert(w == wram_len as int);
                    let sl = spec_u32_from_le_bytes(bytes@.subrange(30 + w, 34 + w)) as int;
                    assert(sl == save_state_len as int);
                    assert(region == bytes@.subrange(54 + w + sl, bytes@.len() as int));
                    assert(spec_decode_replay(bytes@) == Err::<ReplayV, ReplayError>(
                        ReplayError::Truncated,
                    ));
                }
                return Err(ReplayError::Truncated);
            },
        };
        let tail2 = slice_subrange(bytes, pos + 1 + n1, bytes.len());
        proof {
            assert(tail2@ =~= s_here.subrange(1 + n1 as int, s_here.len() as int));
        }
        let parsed_remote = parse_input_prefix(tail2);
        let (remote, n2) = match parsed_remote {
            Some(p) => p,
            None => {
                proof {
                    assert(s_here[0] == MARKER_PAIR);
                    assert(spec_parse_input(s_here.subrange(1, s_here.len() as int)) == Some(
                        (local@, n1 as int),
                    ));
                    assert(spec_decode_records(s_here) == Err::<(Seq<PairV>, u8), ReplayError>(
                        ReplayError::Truncated,
                    ));
                    assert(spec_decode_records(region) == Err::<(Seq<PairV>, u8), ReplayError>(
                        ReplayError::Truncated,
                    ));
                    let w = spec_u32_from_le_bytes(bytes@.subrange(26, 30)) as int;
                    assert(w == wram_len as int);
                    let sl = spec_u32_from_le_bytes(bytes@.subrange(30 + w, 34 + w)) as int;
                    assert(sl == save_state_len as int);
                    assert(region == bytes@.subrange(54 + w + sl, bytes@.len() as int));
                    assert(spec_decode_replay(bytes@) == Err::<ReplayV, ReplayError>(
                        ReplayError::Truncated,
                    ));
                }
                return Err(ReplayError::Truncated);
            },
        };
        let ghost old_pairs = pairs@.map_values(|p: Pair| p@);
        pairs.push(Pair { local, remote });
        proof {
            assert(pairs@.map_values(|p: Pair| p@) =~= old_pairs.push(
                PairV { local: local@, remote: remote@ },
            ));
        }
        pos = pos + 1 + n1 + n2;
        proof {
            assert(bytes@.subrange(pos as int, bytes@.len() as int) =~= s_here.subrange(
                1 + n1 as int + n2 as int,
                s_here.len() as int,
            ));
            assert forall|ps: Seq<PairV>|
                old_pairs.push(PairV { local: local@, remote: remote@ }) + ps =~= old_pairs + (
                seq![PairV { local: local@, remote: remote@ }] + ps) by {}
        }
    }
    if pos >= bytes.len() {
        return Err(ReplayError::Truncated);
    }
    let b = *vstd::slice::slice_index_get(bytes, pos);
    if b != SENTINEL_ROUND_END {
        return Err(ReplayError::Malformed);
    }
    if bytes.len() - pos < 3 {
        return Err(ReplayError::Truncated);
    }
    if *vstd::slice::slice_index_get(bytes, pos + 2) != SENTINEL_FILE_END || bytes.len() - pos != 3
    {
        return Err(ReplayError::Malformed);
    }
    let result = *vstd::slice::slice_index_get(bytes, pos + 1);
    proof {
        let s_here = bytes@.subrange(pos as int, bytes@.len() as int);
        assert(s_here[0] == SENTINEL_ROUND_END);
        assert(s_here[2] == SENTINEL_FILE_END);
        assert(s_here.len() == 3);
        assert(pairs@.map_values(|p: Pair| p@) + Seq::<PairV>::empty() =~= pairs@.map_values(
            |p: Pair| p@,
        ));
    }
    let rep = Replay {
        local_player_index,
        match_type: (match_type0, match_type1),
        rom_code,
        rom_revision,
        rom_crc32,
        wram,
        save_state,
        rom_title,
        input_pairs: pairs,
        result,
    };
    Ok(rep)
}

/// Parsing the front of a buffer that opens with an input payload yields
/// that input and consumes exactly the payload.
pub proof fn lemma_parse_input_prefix(i: InputV, rest: Seq<u8>)
    requires
        i.packet.len() <= MAX_PACKET_LEN,
    ensures
        spec_parse_input(spec_input_payload(i) + rest) == Some(
            (i, 11 + i.packet.len() as int),
        ),
{
    lemma_auto_spec_u16_to_from_le_bytes();
    lemma_auto_spec_u32_to_from_le_bytes();
    let s = spec_input_payload(i) + rest;
    assert(s[10] == i.packet.len() as u8);
    assert(s.subrange(0, 4) =~= spec_u32_to_le_bytes(i.local_tick));
    assert(s.subrange(4, 8) =~= spec_u32_to_le_bytes(i.remote_tick));
    assert(s.subrange(8, 10) =~= spec_u16_to_le_bytes(i.joyflags));
    assert(s.subrange(11, 11 + i.packet.len() as int) =~= i.packet);
}

/// Decoding the record region that `spec_encode_records` produced yields the
/// original pairs and result.
pub proof fn lemma_records_round_trip(pairs: Seq<PairV>, result: u8)
    requires
        forall|i: int| 0 <= i < pairs.len() ==> #[trigger] pair_wf(pairs[i]),
    ensures
        spec_decode_records(spec_encode_records(pairs, result)) == Ok::<_, ReplayError>(
            (pairs, result),
        ),
    decreases pairs.len(),
{
    lemma_auto_spec_u16_to_from_le_bytes();
    lemma_auto_spec_u32_to_from_le_bytes();
    let s = spec_encode_records(pairs, result);
    if pairs.len() == 0 {
        assert(s[0] == SENTINEL_ROUND_END && s[1] == result && s[2] == SENTINEL_FILE_END);
        assert(pairs =~= Seq::<PairV>::empty());
    } else {
        let p0 = pairs[0];
        assert(pair_wf(p0));
        let rest = spec_encode_records(pairs.drop_first(), result);
        assert(s[0] == MARKER_PAIR);
        let body = s.subrange(1, s.len() as int);
        assert(body =~= spec_input_payload(p0.local) + (spec_input_payload(p0.remote) + rest));
        lemma_parse_input_prefix(p0.local, spec_input_payload(p0.remote) + rest);
        let n1 = 11 + p0.local.packet.len() as int;
        assert(s.subrange(1 + n1, s.len() as int) =~= spec_input_payload(p0.remote) + rest);
        lemma_parse_input_prefix(p0.remote, rest);
        let n2 = 11 + p0.remote.packet.len() as int;
        assert(s.subrange(1 + n1 + n2, s.len() as int) =~= rest);
        assert(forall|i: int|
            0 <= i < pairs.drop_first().len() ==> #[trigger] pair_wf(pairs.drop_first()[i]));
        lemma_records_round_trip(pairs.drop_first(), result);
        assert(PairV { local: p0.local, remote: p0.remote } == p0);
        assert(seq![p0] + pairs.drop_first() =~= pairs);
        assert(spec_decode_records(s) == Ok::<_, ReplayError>((pairs, result)));
    }
}

/// A well-formed replay comes back unchanged from its own file bytes.
pub proof fn lemma_replay_round_trip(r: ReplayV)
    requires
        r.wf(),
    ensures
        spec_decode_replay(spec_encode_replay(r)) == Ok::<ReplayV, ReplayError>(r),
{
    lemma_auto_spec_u32_to_from_le_bytes();
    let s = spec_encode_replay(r);
    let w = r.wram.len() as int;
    let ss = r.save_state.len() as int;
    assert(s.subrange(0, 4) =~= spec_magic());
    assert(s.subrange(4, 8) =~= spec_u32_to_le_bytes(REPLAY_VERSION));
    assert(s[8] == r.local_player_index);
    assert(s.subrange(9, 13) =~= spec_u32_to_le_bytes(r.match_type.0));
    assert(s.subrange(13, 17) =~= spec_u32_to_le_bytes(r.match_type.1));
    assert(s.subrange(17, 21) =~= r.rom_code);
    assert(s[21] == r.rom_revision);
    assert(s.subrange(22, 26) =~= spec_u32_to_le_bytes(r.rom_crc32));
    assert(s.subrange(26, 30) =~= spec_u32_to_le_bytes(r.wram.len() as u32));
    assert(s.subrange(30, 30 + w) =~= r.wram);
    assert(s.subrange(30 + w, 34 + w) =~= spec_u32_to_le_bytes(r.save_state.len() as u32));
    assert(s.subrange(34 + w, 34 + w + ss) =~= r.save_state);
    assert(s.subrange(34 + w + ss, 54 + w + ss) =~= r.rom_title);
    assert(s.subrange(54 + w + ss, s.len() as int) =~= spec_encode_records(
        r.input_pairs,
        r.result,
    ));
    lemma_records_round_trip(r.input_pairs, r.result);
    let decoded = spec_decode_replay(s);
    assert(decoded matches Ok(d) && d == r);
}

/// Every step of a deterministic re-execution, folded over the input pairs.
pub open spec fn spec_run<S>(step: spec_fn(S, PairV) -> S, init: S, pairs: Seq<PairV>) -> S
    decreases pairs.len(),
{
    if pairs.len() == 0 {
        init
    } else {
        spec_run(step, step(init, pairs[0]), pairs.drop_first())
    }
}

/// Determinism of replay: the pairs decoded from a recorded round's own file
/// bytes drive any deterministic per-tick step function to the same end
/// state as the pairs of the original run.
pub proof fn lemma_replay_determinism<S>(step: spec_fn(S, PairV) -> S, init: S, r: ReplayV)
    requires
        r.wf(),
    ensures
        spec_decode_replay(spec_encode_replay(r)) matches Ok(d) && spec_run(
            step,
            init,
            d.input_pairs,
        ) == spec_run(step, init, r.input_pairs),
{
    lemma_replay_round_trip(r);
}


/// Running a fold in two stages equals running it in one: the end state of
/// re-applying `early + late` from the start equals applying `late` to the
/// state reached after `early`. This is the shape of rollback: a side that
/// speculated through `early`, reloaded the committed snapshot, and
/// re-consumed every pair in order ends exactly where the no-rollback run
/// ends.
pub proof fn lemma_run_append<S>(step: spec_fn(S, PairV) -> S, init: S, early: Seq<PairV>, late: Seq<PairV>)
    ensures
        spec_run(step, init, early + late) == spec_run(step, spec_run(step, init, early), late),
    decreases early.len(),
{
    if early.len() == 0 {
        assert(early + late =~= late);
    } else {
        assert((early + late)[0] == early[0]);
        assert((early + late).drop_first() =~= early.drop_first() + late);
        lemma_run_append(step, step(init, early[0]), early.drop_first(), late);
    }
}

/// A pair as the other seat sees it: the two sides exchanged.
pub open spec fn spec_swap_pair(p: PairV) -> PairV {
    PairV { local: p.remote, remote: p.local }
}

/// Swapping a pair's seats twice gives the pair back; so viewing a replay
/// from the other seat and back is the identity on its pairs.
pub proof fn lemma_swap_pair_involution(p: PairV)
    ensures
        spec_swap_pair(spec_swap_pair(p)) == p,
{
}

/// The same replay viewed from the other seat: the player index flipped and
/// every pair's sides exchanged. Everything else is carried over unchanged.
pub fn swap_sides(r: &Replay) -> (s: Replay)
    requires
        r@.local_player_index <= 1,
    ensures
        s@.local_player_index == 1 - r@.local_player_index,
        s@.match_type == r@.match_type,
        s@.rom_code == r@.rom_code,
        s@.rom_revision == r@.rom_revision,
        s@.rom_crc32 == r@.rom_crc32,
        s@.wram == r@.wram,
        s@.save_state == r@.save_state,
        s@.rom_title == r@.rom_title,
        s@.result == r@.result,
        s@.input_pairs.len() == r@.input_pairs.len(),
        forall|i: int|
            0 <= i < r@.input_pairs.len() ==> #[trigger] s@.input_pairs[i] == spec_swap_pair(
                r@.input_pairs[i],
            ),
{
    let mut swapped: Vec<Pair> = Vec::new();
    let mut k: usize = 0;
    while k < r.input_pairs.len()
        invariant
            k <= r.input_pairs.len(),
            swapped@.len() == k,
            forall|i: int|
                0 <= i < k ==> #[trigger] swapped@[i]@ == spec_swap_pair(r@.input_pairs[i]),
        decreases r.input_pairs.len() - k,
    {
        let p = &r.input_pairs[k];
        swapped.push(Pair { local: p.remote.clone(), remote: p.local.clone() });
        proof {
            assert(swapped@[k as int]@ == spec_swap_pair(r@.input_pairs[k as int]));
        }
        k = k + 1;
    }
    Replay {
        local_player_index: 1 - r.local_player_index,
        match_type: (r.match_type.0, r.match_type.1),
        rom_code: copy_bytes(&r.rom_code),
        rom_revision: r.rom_revision,
        rom_crc32: r.rom_crc32,
        wram: copy_bytes(&r.wram),
        save_state: copy_bytes(&r.save_state),
        rom_title: copy_bytes(&r.rom_title),
        input_pairs: swapped,
        result: r.result,
    }
}


} // verus!
