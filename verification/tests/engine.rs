//! The lockstep queue, the round engine, and the round lifecycle, driven
//! the way a host drives them, including a toy deterministic machine that
//! stands in for the emulator.

use tango::battle::BattleResult;
use tango::battle::EndTrap;
use tango::battle::Match;
use tango::battle::RoundError;
use tango::battle::RoundState;
use tango::battle::invert_result;
use tango::battle::is_offerer_from_nonces;
use tango::battle::primary_result;
use tango::battle::primary_rng_state;
use tango::battle::result_from_byte;
use tango::battle::result_to_byte;
use tango::battle::shadow_result;
use tango::battle::shadow_rng_state;
use tango::lockstep::Input;
use tango::lockstep::Pair;
use tango::lockstep::PairQueue;
use tango::lockstep::QueueError;
use tango::round::DesyncError;
use tango::round::Round;
use tango::round::SavedState;
use tango::round::TickDecision;
use tango::shadow::ShadowInject;
use tango::shadow::ShadowState;
use tango::replayer::ReplayerInject;
use tango::replayer::ReplayerState;

fn input(tick: u32, joyflags: u16, packet: Vec<u8>) -> Input {
    Input { local_tick: tick, remote_tick: 0, joyflags, packet }
}

/// A toy deterministic machine: the "save state" is a byte accumulator
/// folded from every injected pair, standing in for the emulator.
fn toy_step(state: &[u8], pair: &Pair) -> Vec<u8> {
    let mut next = state.to_vec();
    next.push(pair.local.joyflags as u8);
    next.push((pair.local.joyflags >> 8) as u8);
    next.push(pair.remote.joyflags as u8);
    next.extend_from_slice(&pair.local.packet);
    next.extend_from_slice(&pair.remote.packet);
    let sum: u32 = next.iter().map(|b| *b as u32).sum();
    next.push(sum as u8);
    next
}

#[test]
fn pairs_agree_on_tick() {
    let mut q = PairQueue::new(10);
    q.add_local_input(input(0, 7, vec![1, 2])).unwrap();
    q.add_remote_input(input(0, 9, vec![3])).unwrap();
    let p = q.consume_pair().unwrap();
    assert_eq!(p.local.local_tick, p.remote.local_tick);
    assert_eq!(p.local.joyflags, 7);
    assert_eq!(p.remote.joyflags, 9);
    assert!(q.consume_pair().is_none());
}

#[test]
fn backpressure_refuses_eleventh_input() {
    let mut q = PairQueue::new(10);
    let mut results = Vec::new();
    for t in 0..15 {
        results.push(q.add_local_input(input(t, 0, vec![])));
    }
    for t in 0..10 {
        assert!(results[t].is_ok(), "input {} should fit the window", t);
    }
    assert_eq!(results[10], Err(QueueError::QueueFull));
    assert_eq!(results[14], Err(QueueError::QueueFull));
    // Once 10 remote inputs arrive, the producer succeeds again.
    for t in 0..10 {
        q.add_remote_input(input(t, 0, vec![])).unwrap();
    }
    assert!(q.add_local_input(input(10, 0, vec![])).is_ok());
}

#[test]
fn lag_of_exactly_window_still_pairs() {
    let mut q = PairQueue::new(10);
    for t in 0..10 {
        q.add_local_input(input(t, 0, vec![])).unwrap();
    }
    // The local side is exactly 10 ahead; the first remote input still
    // forms a valid pair.
    q.add_remote_input(input(0, 0, vec![])).unwrap();
    let p = q.consume_pair().unwrap();
    assert_eq!(p.local.local_tick, 0);
    assert_eq!(p.remote.local_tick, 0);
}

#[test]
fn round_starts_at_tick_zero_and_advances() {
    let mut round = Round::new(0, 10);
    assert_eq!(round.current_tick(), 0);
    assert!(!round.has_committed_state());
    round.set_first_committed_state(vec![0xaa], vec![0x00; 16]);
    assert!(round.has_committed_state());
    assert_eq!(round.committed_tick(), Some(0));
    for _ in 0..10 {
        assert!(round.can_advance());
        round.increment_current_tick();
    }
    // The rollback window is exhausted 10 ticks past the commit.
    assert!(!round.can_advance());
    assert_eq!(round.current_tick(), 10);
}

#[test]
fn check_pair_detects_desync() {
    let good = Pair { local: input(7, 0, vec![]), remote: input(7, 0, vec![]) };
    assert!(Round::check_pair(&good, 7).is_ok());
    let crafted = Pair { local: input(7, 0, vec![]), remote: input(8, 0, vec![]) };
    assert_eq!(Round::check_pair(&crafted, 7), Err(DesyncError::PairTickMismatch));
    let late = Pair { local: input(6, 0, vec![]), remote: input(6, 0, vec![]) };
    assert_eq!(Round::check_pair(&late, 7), Err(DesyncError::InputTickMismatch));
}

#[test]
fn joyflags_carry_injection_sentinel() {
    assert_eq!(Round::joyflags_to_inject(0x0001), 0xfc01);
    assert_eq!(Round::joyflags_to_inject(0x0000), 0xfc00);
}

#[test]
fn rollback_reaches_baseline_state() {
    // Build the authoritative pairs for ticks 0..8.
    let pairs: Vec<Pair> = (0..8)
        .map(|t| Pair {
            local: input(t, t as u16, vec![t as u8; 4]),
            remote: input(t, (t + 1) as u16, vec![(t + 7) as u8; 4]),
        })
        .collect();

    // Baseline: apply every pair in order from the initial state.
    let initial = vec![0x11, 0x22];
    let mut baseline = initial.clone();
    for p in &pairs {
        baseline = toy_step(&baseline, p);
    }

    // Rollback run: apply ticks 0..4, commit, speculate 5..8 with predicted
    // (wrong) remote inputs, then reload the committed snapshot and apply
    // the real pairs.
    let mut round = Round::new(0, 10);
    let mut state = initial.clone();
    for p in pairs.iter().take(5) {
        state = toy_step(&state, p);
    }
    round.set_first_committed_state(state.clone(), vec![0x00; 16]);
    let mut speculative = state.clone();
    for p in pairs.iter().skip(5) {
        let predicted = Pair {
            local: p.local.clone(),
            remote: input(p.local.local_tick, 0xffff, vec![0xee; 4]),
        };
        speculative = toy_step(&speculative, &predicted);
    }
    assert_ne!(speculative, baseline, "speculation with wrong inputs must diverge");

    // The late inputs arrive: reload the committed snapshot and re-apply.
    let mut replayed = round.committed_state_bytes().unwrap();
    assert_eq!(replayed, state, "the committed bytes come back exactly as stored");
    for p in pairs.iter().skip(5) {
        replayed = toy_step(&replayed, p);
    }
    assert_eq!(replayed, baseline);
}

#[test]
fn reapplying_pair_from_restored_state_is_stable() {
    let mut round = Round::new(0, 10);
    round.set_first_committed_state(vec![5, 6, 7], vec![0x00; 16]);
    let p = Pair { local: input(0, 3, vec![9]), remote: input(0, 4, vec![8]) };
    let first = toy_step(&round.committed_state_bytes().unwrap(), &p);
    let second = toy_step(&round.committed_state_bytes().unwrap(), &p);
    assert_eq!(first, second);
}

#[test]
fn zero_latency_round_matches_on_both_sides() {
    // Both sides feed the identical joyflags sequence with a fixed packet.
    let joyflags: Vec<u16> = [0x0000u16, 0x0001, 0x0002, 0x0000]
        .iter()
        .cycle()
        .take(120)
        .cloned()
        .collect();
    let packet = vec![0x00u8; 16];

    let mut side_a = PairQueue::new(10);
    let mut side_b = PairQueue::new(10);
    let mut state_a = vec![0u8];
    let mut state_b = vec![0u8];
    for (t, j) in joyflags.iter().enumerate() {
        let t = t as u32;
        side_a.add_local_input(input(t, *j, packet.clone())).unwrap();
        side_a.add_remote_input(input(t, *j, packet.clone())).unwrap();
        side_b.add_local_input(input(t, *j, packet.clone())).unwrap();
        side_b.add_remote_input(input(t, *j, packet.clone())).unwrap();
        state_a = toy_step(&state_a, &side_a.consume_pair().unwrap());
        state_b = toy_step(&state_b, &side_b.consume_pair().unwrap());
    }
    assert_eq!(state_a, state_b);
}

#[test]
fn round_records_exactly_one_result() {
    let mut rs = RoundState::new();
    rs.start_round(Round::new(0, 10));
    // No result yet: the ending trap surfaces the error and changes nothing.
    assert_eq!(rs.on_round_ending(), Err(RoundError::NoResult));
    assert!(rs.round.is_some());
    rs.set_last_result(BattleResult::Win);
    rs.set_last_result(BattleResult::Loss);
    assert_eq!(rs.on_round_ending(), Ok(()));
    assert!(rs.round.is_none());
    assert!(rs.last_result.is_none());
    // Level-triggered: hitting the trap again does nothing.
    assert_eq!(rs.on_round_ending(), Ok(()));
    assert!(rs.round.is_none());
}

#[test]
fn shadow_result_inverts_primary() {
    for trap in [
        EndTrap::SetWin,
        EndTrap::SetLoss,
        EndTrap::DamageJudgeSetWin,
        EndTrap::DamageJudgeSetLoss,
    ] {
        let p = primary_result(trap, BattleResult::Draw);
        let s = shadow_result(trap, BattleResult::Draw);
        assert_eq!(s, invert_result(p), "trap {:?}", trap);
    }
    assert_eq!(
        primary_result(EndTrap::DamageJudgeSetDraw, BattleResult::Draw),
        BattleResult::Draw
    );
    assert_eq!(
        shadow_result(EndTrap::DamageJudgeSetDraw, BattleResult::Draw),
        BattleResult::Draw
    );
}

#[test]
fn result_bytes_round_trip() {
    for r in [BattleResult::Win, BattleResult::Loss, BattleResult::Draw] {
        assert_eq!(result_from_byte(result_to_byte(r)), Some(r));
    }
    assert_eq!(result_from_byte(3), None);
    assert_eq!(result_from_byte(0xff), None);
}

#[test]
fn offerer_roles_are_complementary() {
    let a = vec![9u8; 16];
    let b = vec![3u8; 16];
    let a_offers = is_offerer_from_nonces(&a, &b);
    let b_offers = is_offerer_from_nonces(&b, &a);
    assert!(a_offers);
    assert!(!b_offers);

    let m = Match::new(&a, &b, (2, 2));
    assert!(m.is_offerer());
}

#[test]
fn rng_states_agree_across_the_link() {
    let offerer_state = 0x1234;
    let answerer_state = 0x9876;
    // Side A offers; side B answers. Each side's shadow must install what
    // the other side's primary installs.
    assert_eq!(
        shadow_rng_state(true, offerer_state, answerer_state),
        primary_rng_state(false, offerer_state, answerer_state)
    );
    assert_eq!(
        shadow_rng_state(false, offerer_state, answerer_state),
        primary_rng_state(true, offerer_state, answerer_state)
    );
}

#[test]
fn cancel_is_sticky() {
    let mut m = Match::new(&vec![1u8; 16], &vec![2u8; 16], (2, 2));
    assert!(!m.is_cancelled());
    m.cancel();
    assert!(m.is_cancelled());
    m.advance_round();
    assert!(m.is_cancelled());
}

#[test]
fn crafted_remote_input_desyncs_shadow() {
    let mut shadow = ShadowState::new(0);
    shadow.set_first_committed_state(vec![0xab], vec![0x00; 16]);
    for _ in 0..7 {
        shadow.increment_current_tick();
    }
    shadow.set_remote_packet(7, vec![0x01; 16]);
    // The crafted pair disagrees with itself on the tick.
    shadow.set_pending_input(Pair {
        local: input(7, 0, vec![0x00; 16]),
        remote: input(8, 0, vec![0x00; 16]),
    });
    match shadow.on_packet_exchange() {
        ShadowInject::Desync(e) => assert_eq!(e, DesyncError::PairTickMismatch),
        _ => panic!("a crafted pair must desync"),
    }
    assert_eq!(shadow.error(), Some(DesyncError::PairTickMismatch));
    // The error is sticky: a good pair afterwards does not clear it.
    shadow.set_pending_input(Pair {
        local: input(7, 0, vec![0x00; 16]),
        remote: input(7, 0, vec![0x00; 16]),
    });
    let _ = shadow.on_packet_exchange();
    assert_eq!(shadow.error(), Some(DesyncError::PairTickMismatch));
}

#[test]
fn stale_shadow_packet_is_a_divergence() {
    // The shadow's stored packet belongs to an older tick than the pair:
    // the shape a corrupted shadow run takes at the next paired tick.
    let mut shadow = ShadowState::new(0);
    shadow.set_first_committed_state(vec![0xab], vec![0x00; 16]);
    for _ in 0..4 {
        shadow.increment_current_tick();
    }
    // The packet was produced for tick 3, but the shadow is at tick 4.
    shadow.set_remote_packet(3, vec![0x01; 16]);
    shadow.set_pending_input(Pair {
        local: input(4, 0, vec![0x00; 16]),
        remote: input(4, 0, vec![0x00; 16]),
    });
    match shadow.on_packet_exchange() {
        ShadowInject::Desync(e) => assert_eq!(e, DesyncError::PacketTickMismatch),
        _ => panic!("a stale packet must desync"),
    }
    assert_eq!(shadow.error(), Some(DesyncError::PacketTickMismatch));
}

#[test]
fn shadow_injects_validated_pair() {
    let mut shadow = ShadowState::new(0);
    shadow.set_first_committed_state(vec![0xab], vec![0x44; 16]);
    shadow.set_pending_input(Pair {
        local: input(0, 5, vec![0x11; 16]),
        remote: input(0, 6, vec![0x22; 16]),
    });
    match shadow.on_packet_exchange() {
        ShadowInject::Inject { local_rx, remote_rx } => {
            assert_eq!(local_rx, vec![0x11; 16]);
            assert_eq!(remote_rx, vec![0x44; 16]);
        }
        _ => panic!("a valid pair must inject"),
    }
    assert!(shadow.take_input_injected());
    assert!(!shadow.take_input_injected());
}

#[test]
fn replayer_consumes_stream_then_predicts() {
    let pairs = vec![
        Pair { local: input(0, 1, vec![0xaa; 16]), remote: input(0, 2, vec![0xbb; 16]) },
        Pair { local: input(1, 3, vec![0xcc; 16]), remote: input(1, 4, vec![0xdd; 16]) },
    ];
    let mut rp = ReplayerState::new(0, pairs, 0, 1);
    assert!(rp.should_commit());
    rp.set_committed_state(vec![0x77]);
    rp.set_local_packet(0, vec![0xaa; 16]);
    assert_eq!(rp.joyflags_for_tick(), Ok(Some(0xfc01)));
    match rp.on_packet_exchange() {
        ReplayerInject::Inject { local_rx, remote_rx } => {
            assert_eq!(local_rx, vec![0xaa; 16]);
            assert_eq!(remote_rx, vec![0xbb; 16]);
        }
        _ => panic!("the first recorded pair must inject"),
    }
    rp.set_local_packet(1, vec![0xcc; 16]);
    rp.increment_current_tick();
    assert!(rp.should_snapshot_dirty());
    match rp.on_packet_exchange() {
        ReplayerInject::Inject { .. } => {}
        _ => panic!("the second recorded pair must inject"),
    }
    rp.increment_current_tick();
    // The stream is exhausted: the host falls back to prediction.
    assert!(matches!(rp.on_packet_exchange(), ReplayerInject::Predict));
    assert_eq!(rp.joyflags_for_tick(), Ok(None));
    rp.set_round_ending();
    assert!(matches!(rp.on_packet_exchange(), ReplayerInject::Ending));
    rp.set_round_result(BattleResult::Win);
    rp.set_round_ended();
    assert!(rp.error().is_none());
}

#[test]
fn replayer_detects_recorded_desync() {
    let pairs = vec![Pair {
        local: input(7, 1, vec![0xaa; 16]),
        remote: input(8, 2, vec![0xbb; 16]),
    }];
    let mut rp = ReplayerState::new(0, pairs, 0, 0);
    assert_eq!(rp.joyflags_for_tick(), Err(DesyncError::PairTickMismatch));
    assert_eq!(rp.error(), Some(DesyncError::PairTickMismatch));
}

#[test]
fn tick_boundary_decisions_run_a_mini_round() {
    let mut round = Round::new(0, 10);
    round.set_first_committed_state(vec![0x01], vec![0x00; 16]);

    // Nothing queued yet: the emulation idles.
    assert!(matches!(round.advance_tick(), TickDecision::Idle));
    assert_eq!(round.current_tick(), 0);

    // Feed and apply three confirmed ticks.
    let mut q_err = 0;
    for t in 0..3u32 {
        if round.queue.add_local_input(input(t, t as u16, vec![t as u8])).is_err() {
            q_err += 1;
        }
        round.queue.add_remote_input(input(t, (t + 5) as u16, vec![])).unwrap();
    }
    assert_eq!(q_err, 0);
    for t in 0..3u32 {
        match round.advance_tick() {
            TickDecision::Apply { pair, joyflags } => {
                assert_eq!(pair.local.local_tick, t);
                assert_eq!(joyflags, pair.local.joyflags | 0xfc00);
            }
            _ => panic!("tick {} should apply", t),
        }
        assert_eq!(round.current_tick(), t + 1);
    }

    // Exhaust the rollback window; the next boundary blocks.
    for _ in 3..10 {
        round.increment_current_tick();
    }
    assert!(matches!(round.advance_tick(), TickDecision::Blocked));

    // Moving the anchor reopens the window.
    round.set_committed_state(vec![0x02]);
    assert!(matches!(round.advance_tick(), TickDecision::Idle));
}

#[test]
fn tick_boundary_detects_stale_pair() {
    let mut round = Round::new(0, 10);
    round.set_first_committed_state(vec![0x01], vec![0x00; 16]);
    round.queue.add_local_input(input(0, 0, vec![])).unwrap();
    round.queue.add_remote_input(input(0, 0, vec![])).unwrap();
    round.increment_current_tick();
    // The round already ran past tick 0 speculatively; the pair is stale.
    assert!(round.needs_rollback());
    match round.advance_tick() {
        TickDecision::Desync(e) => assert_eq!(e, DesyncError::InputTickMismatch),
        _ => panic!("a stale pair at the boundary is a desync"),
    }
}

#[test]
fn remote_side_has_the_symmetric_window() {
    let mut q = PairQueue::new(10);
    for t in 0..10 {
        q.add_remote_input(input(t, 0, vec![])).unwrap();
    }
    assert_eq!(q.add_remote_input(input(10, 0, vec![])), Err(QueueError::QueueFull));
    q.add_local_input(input(0, 0, vec![])).unwrap();
    assert!(q.add_remote_input(input(10, 0, vec![])).is_ok());
}

#[test]
fn ticks_near_the_counter_ceiling_do_not_wrap() {
    let anchor = u32::MAX - 2;
    let mut round = Round {
        local_player_index: 0,
        current_tick: anchor,
        queue: PairQueue::new(10),
        committed_state: Some(SavedState { tick: anchor, state: vec![0x01] }),
        dirty_state: None,
        local_packet: None,
    };
    round.increment_current_tick();
    round.increment_current_tick();
    assert_eq!(round.current_tick(), u32::MAX);
    // The window still has room, but the counter is at its ceiling: the
    // caller may not ask for another tick, and the value did not wrap.
    assert!(round.can_advance());
    assert_eq!(round.committed_tick(), Some(anchor));
}
