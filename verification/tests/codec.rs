//! The wire protocol and the replay file format, held against their
//! specifications on concrete frames and files.

use tango::lockstep::Input;
use tango::lockstep::Pair;
use tango::replay::Replay;
use tango::replay::ReplayError;
use tango::replay::decode_replay;
use tango::replay::encode_replay;
use tango::replay::swap_sides;
use tango::wire::Hello;
use tango::wire::Message;
use tango::wire::WireError;
use tango::wire::decode_frame;
use tango::wire::encode_frame;
use tango::wire::hello_compatible;
use tango::wire::join_chunks;
use tango::wire::split_packet;

fn sample_hello() -> Hello {
    Hello {
        protocol_version: 7,
        match_type_choices: (2, 2),
        nonce: (0..16).collect(),
        rng_commitment: 0xdeadbeef,
        rom_code: vec![0x42, 0x34, 0x57, 0x45],
        rom_revision: 1,
        rom_crc32: 0x2120695c,
    }
}

fn assert_input_eq(a: &Input, b: &Input) {
    assert_eq!(a.local_tick, b.local_tick);
    assert_eq!(a.remote_tick, b.remote_tick);
    assert_eq!(a.joyflags, b.joyflags);
    assert_eq!(a.packet, b.packet);
}

#[test]
fn hello_round_trips() {
    let frame = encode_frame(&Message::Hello(sample_hello()));
    match decode_frame(&frame) {
        Ok(Message::Hello(h)) => {
            assert_eq!(h.protocol_version, 7);
            assert_eq!(h.match_type_choices, (2, 2));
            assert_eq!(h.nonce, (0..16).collect::<Vec<u8>>());
            assert_eq!(h.rng_commitment, 0xdeadbeef);
            assert_eq!(h.rom_code, vec![0x42, 0x34, 0x57, 0x45]);
            assert_eq!(h.rom_revision, 1);
            assert_eq!(h.rom_crc32, 0x2120695c);
        }
        other => panic!("expected the handshake back, got {:?}", other.is_ok()),
    }
}

#[test]
fn hello_ack_round_trips() {
    let frame = encode_frame(&Message::HelloAck(sample_hello()));
    assert!(matches!(decode_frame(&frame), Ok(Message::HelloAck(_))));
}

#[test]
fn input_round_trips_with_empty_packet() {
    let input = Input { local_tick: 3, remote_tick: 1, joyflags: 0x0123, packet: vec![] };
    let frame = encode_frame(&Message::Input(input));
    match decode_frame(&frame) {
        Ok(Message::Input(i)) => {
            assert_eq!(i.local_tick, 3);
            assert_eq!(i.remote_tick, 1);
            assert_eq!(i.joyflags, 0x0123);
            assert_eq!(i.packet, Vec::<u8>::new());
        }
        _ => panic!("expected the input back"),
    }
}

#[test]
fn input_round_trips_with_maximum_packet() {
    let packet: Vec<u8> = (0..255).map(|i| i as u8).collect();
    let input = Input {
        local_tick: 0xfffffffe,
        remote_tick: 0xfffffff0,
        joyflags: 0xffff,
        packet: packet.clone(),
    };
    let frame = encode_frame(&Message::Input(input));
    match decode_frame(&frame) {
        Ok(Message::Input(i)) => {
            assert_eq!(i.local_tick, 0xfffffffe);
            assert_eq!(i.packet, packet);
        }
        _ => panic!("expected the input back"),
    }
}

#[test]
fn ping_pong_cancel_round_trip() {
    let frame = encode_frame(&Message::Ping(0x1122334455667788));
    assert!(matches!(decode_frame(&frame), Ok(Message::Ping(0x1122334455667788))));
    let frame = encode_frame(&Message::Pong(42));
    assert!(matches!(decode_frame(&frame), Ok(Message::Pong(42))));
    let frame = encode_frame(&Message::Cancel(3));
    assert!(matches!(decode_frame(&frame), Ok(Message::Cancel(3))));
}

#[test]
fn truncated_frame_is_refused() {
    assert_eq!(decode_frame(&[]).err(), Some(WireError::Truncated));
    assert_eq!(decode_frame(&[9, 0, 0, 0]).err(), Some(WireError::Truncated));
}

#[test]
fn wrong_length_field_is_refused() {
    let mut frame = encode_frame(&Message::Cancel(0));
    frame.push(0x00);
    assert_eq!(decode_frame(&frame).err(), Some(WireError::BadLength));
    // A ping whose payload is not eight bytes is refused too.
    let bad = vec![2, 0, 0, 0, 0x05, 0x77];
    assert_eq!(decode_frame(&bad).err(), Some(WireError::BadLength));
}

#[test]
fn unknown_kind_is_refused() {
    let bad = vec![2, 0, 0, 0, 0x7f, 0x00];
    assert_eq!(decode_frame(&bad).err(), Some(WireError::UnknownKind));
}

fn sample_replay() -> Replay {
    let pairs = vec![
        Pair {
            local: Input { local_tick: 0, remote_tick: 0, joyflags: 1, packet: vec![0x10; 16] },
            remote: Input { local_tick: 0, remote_tick: 0, joyflags: 2, packet: vec![0x20; 16] },
        },
        Pair {
            local: Input { local_tick: 1, remote_tick: 0, joyflags: 3, packet: vec![] },
            remote: Input {
                local_tick: 1,
                remote_tick: 1,
                joyflags: 4,
                packet: (0..255).map(|i| i as u8).collect(),
            },
        },
    ];
    Replay {
        local_player_index: 0,
        match_type: (2, 0),
        rom_code: vec![0x42, 0x34, 0x57, 0x45],
        rom_revision: 0,
        rom_crc32: 0x2120695c,
        wram: vec![0x55; 64],
        save_state: vec![0x66; 128],
        rom_title: (0..20).collect(),
        input_pairs: pairs,
        result: 2,
    }
}

#[test]
fn replay_round_trips() {
    let replay = sample_replay();
    let bytes = encode_replay(&replay);
    let decoded = decode_replay(&bytes).unwrap();
    assert_eq!(decoded.local_player_index, 0);
    assert_eq!(decoded.match_type, (2, 0));
    assert_eq!(decoded.rom_code, replay.rom_code);
    assert_eq!(decoded.rom_revision, 0);
    assert_eq!(decoded.rom_crc32, 0x2120695c);
    assert_eq!(decoded.wram, replay.wram);
    assert_eq!(decoded.save_state, replay.save_state);
    assert_eq!(decoded.rom_title, replay.rom_title);
    assert_eq!(decoded.result, 2);
    assert_eq!(decoded.input_pairs.len(), 2);
    for (a, b) in decoded.input_pairs.iter().zip(replay.input_pairs.iter()) {
        assert_input_eq(&a.local, &b.local);
        assert_input_eq(&a.remote, &b.remote);
    }
}

#[test]
fn replay_with_no_pairs_round_trips() {
    let mut replay = sample_replay();
    replay.input_pairs = vec![];
    replay.wram = vec![];
    replay.save_state = vec![];
    let bytes = encode_replay(&replay);
    let decoded = decode_replay(&bytes).unwrap();
    assert_eq!(decoded.input_pairs.len(), 0);
    assert_eq!(decoded.wram.len(), 0);
}

#[test]
fn replay_bad_magic_is_refused() {
    let mut bytes = encode_replay(&sample_replay());
    bytes[0] = b'X';
    assert_eq!(decode_replay(&bytes).err(), Some(ReplayError::BadMagic));
}

#[test]
fn replay_bad_version_is_refused() {
    let mut bytes = encode_replay(&sample_replay());
    bytes[4] = 0x63;
    assert_eq!(decode_replay(&bytes).err(), Some(ReplayError::BadVersion));
}

#[test]
fn replay_truncation_is_refused() {
    let bytes = encode_replay(&sample_replay());
    assert_eq!(decode_replay(&bytes[..4]).err(), Some(ReplayError::Truncated));
    assert_eq!(decode_replay(&bytes[..40]).err(), Some(ReplayError::Truncated));
    assert_eq!(
        decode_replay(&bytes[..bytes.len() - 1]).err(),
        Some(ReplayError::Truncated)
    );
}

#[test]
fn replay_bad_record_is_refused() {
    let mut bytes = encode_replay(&sample_replay());
    // The first record's marker byte sits right after the fixed header,
    // the two blobs and the title.
    let record_start = 54 + 64 + 128;
    bytes[record_start] = 0x09;
    assert_eq!(decode_replay(&bytes).err(), Some(ReplayError::Malformed));
}

#[test]
fn seat_swap_exchanges_sides_and_back() {
    let replay = sample_replay();
    let swapped = swap_sides(&replay);
    assert_eq!(swapped.local_player_index, 1);
    assert_eq!(swapped.input_pairs.len(), replay.input_pairs.len());
    for (s, r) in swapped.input_pairs.iter().zip(replay.input_pairs.iter()) {
        assert_input_eq(&s.local, &r.remote);
        assert_input_eq(&s.remote, &r.local);
    }
    let back = swap_sides(&swapped);
    assert_eq!(back.local_player_index, replay.local_player_index);
    for (b, r) in back.input_pairs.iter().zip(replay.input_pairs.iter()) {
        assert_input_eq(&b.local, &r.local);
        assert_input_eq(&b.remote, &r.remote);
    }
}

#[test]
fn swapped_replay_still_round_trips() {
    let swapped = swap_sides(&sample_replay());
    let bytes = encode_replay(&swapped);
    let decoded = decode_replay(&bytes).unwrap();
    assert_eq!(decoded.local_player_index, 1);
    for (a, b) in decoded.input_pairs.iter().zip(swapped.input_pairs.iter()) {
        assert_input_eq(&a.local, &b.local);
        assert_input_eq(&a.remote, &b.remote);
    }
}

#[test]
fn packet_chunks_concatenate_back() {
    for len in [0usize, 1, 254, 255, 256, 600] {
        let packet: Vec<u8> = (0..len).map(|i| (i * 7) as u8).collect();
        let chunks = split_packet(&packet);
        for (i, c) in chunks.iter().enumerate() {
            assert!(c.len() <= 255);
            if i + 1 < chunks.len() {
                assert_eq!(c.len(), 255, "only the last chunk may be short");
            }
        }
        assert_eq!(join_chunks(&chunks), packet, "length {}", len);
    }
    let chunks = split_packet(&vec![0u8; 600]);
    assert_eq!(chunks.len(), 3);
    assert_eq!(chunks[2].len(), 90);
}

#[test]
fn handshake_compatibility_gate() {
    let a = sample_hello();
    assert!(hello_compatible(&a, &sample_hello()));

    let mut b = sample_hello();
    b.protocol_version = 8;
    assert!(!hello_compatible(&a, &b));

    let mut b = sample_hello();
    b.match_type_choices = (1, 3);
    assert!(!hello_compatible(&a, &b));
    b.match_type_choices = (3, 2);
    assert!(hello_compatible(&a, &b));

    let mut b = sample_hello();
    b.rom_code = vec![0x42, 0x34, 0x42, 0x45];
    assert!(!hello_compatible(&a, &b));

    let mut b = sample_hello();
    b.rom_crc32 = 0;
    assert!(!hello_compatible(&a, &b));

    // The nonce and commitment may differ freely: they are per-peer.
    let mut b = sample_hello();
    b.nonce = vec![0xff; 16];
    b.rng_commitment = 0;
    assert!(hello_compatible(&a, &b));
}
