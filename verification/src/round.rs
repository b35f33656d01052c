//! The rollback/fast-forward round engine.
//!
//! A round holds the pair queue, the current tick, and two emulator
//! snapshots: the committed state, taken at a tick both peers have
//! confirmed, and the dirty state, a speculative snapshot beyond it. The
//! engine never runs more than `MAX_ROLLBACK` ticks past the committed
//! state; a late remote input makes the host reload the committed snapshot
//! and re-apply the pairs in order.
//!
//! The emulator itself lives outside the library: the engine decides, the
//! host performs. Each per-tick decision is a function of the round state
//! and the queue alone, so re-running it from a restored snapshot repeats
//! the original run exactly.

use vstd::prelude::*;
use crate::MAX_ROLLBACK;
use crate::lockstep::Input;
use crate::lockstep::InputV;
use crate::lockstep::Pair;
use crate::lockstep::PairV;
use crate::lockstep::Packet;
use crate::lockstep::PairQueue;
use crate::lockstep::QueueError;
use crate::lockstep::copy_bytes;

verus! {

/// Sentinel bits OR'd into joyflags when the engine injects them into the
/// emulated KEYINPUT register.
pub const JOYFLAGS_INJECTED: u16 = 0xfc00;

/// An emulator snapshot together with the tick it was taken at.
pub struct SavedState {
    pub tick: u32,
    pub state: Vec<u8>,
}

/// Mathematical value of a `SavedState`.
pub ghost struct SavedStateV {
    pub tick: u32,
    pub state: Seq<u8>,
}

impl View for SavedState {
    type V = SavedStateV;

    open spec fn view(&self) -> SavedStateV {
        SavedStateV { tick: self.tick, state: self.state@ }
    }
}

impl Clone for SavedState {
    fn clone(&self) -> (r: Self)
        ensures
            r@ == self@,
    {
        SavedState { tick: self.tick, state: copy_bytes(&self.state) }
    }
}

/// Tick-level divergence between the two sides, detected when a pair is
/// held against the round's current tick: the two inputs disagree on their
/// tick, the pair belongs to another tick than the round is at, or the
/// stored packet belongs to another tick than the round is at.
#[derive(PartialEq, Eq, Structural, Clone, Copy, Debug)]
pub enum DesyncError {
    PairTickMismatch,
    InputTickMismatch,
    PacketTickMismatch,
}

/// One side's round state.
pub struct Round {
    pub local_player_index: u8,
    pub current_tick: u32,
    pub queue: PairQueue,
    pub committed_state: Option<SavedState>,
    pub dirty_state: Option<SavedState>,
    pub local_packet: Option<Packet>,
}

impl Round {
    /// Well-formedness: the player index names a seat, the queue is well
    /// formed, and the current tick never strays more than `MAX_ROLLBACK`
    /// ticks past the committed snapshot.
    pub open spec fn wf(&self) -> bool {
        &&& self.local_player_index <= 1
        &&& self.queue.wf()
        &&& self.committed_state matches Some(c) ==> c@.tick <= self.current_tick
            <= c@.tick + MAX_ROLLBACK
        &&& self.dirty_state matches Some(d) ==> {
            &&& self.committed_state is Some
            &&& self.committed_state matches Some(c) ==> c@.tick <= d@.tick <= c@.tick
                + MAX_ROLLBACK
        }
        &&& self.committed_state is None ==> self.dirty_state is None
    }

    /// A fresh round at tick 0, before any state is committed.
    pub fn new(local_player_index: u8, max_lag: usize) -> (r: Round)
        requires
            local_player_index <= 1,
            max_lag >= 1,
        ensures
            r.wf(),
            r.local_player_index == local_player_index,
            r.current_tick == 0,
            r.committed_state is None,
            r.dirty_state is None,
            r.local_packet is None,
            r.queue.local_view() =~= Seq::<InputV>::empty(),
            r.queue.remote_view() =~= Seq::<InputV>::empty(),
            r.queue.spec_next_local_tick() == 0,
            r.queue.spec_next_remote_tick() == 0,
            r.queue.spec_max_lag() == max_lag,
    {
        Round {
            local_player_index,
            current_tick: 0,
            queue: PairQueue::new(max_lag),
            committed_state: None,
            dirty_state: None,
            local_packet: None,
        }
    }

    /// The seat this side plays.
    pub fn local_player_index(&self) -> (r: u8)
        ensures
            r == self.local_player_index,
    {
        self.local_player_index
    }

    /// The seat the peer plays.
    pub fn remote_player_index(&self) -> (r: u8)
        requires
            self.local_player_index <= 1,
        ensures
            r == 1 - self.local_player_index,
    {
        1 - self.local_player_index
    }

    /// The tick the round is at.
    pub fn current_tick(&self) -> (r: u32)
        ensures
            r == self.current_tick,
    {
        self.current_tick
    }

    /// Whether the battle-start synchronization barrier has been crossed.
    pub fn has_committed_state(&self) -> (r: bool)
        ensures
            r == self.committed_state is Some,
    {
        self.committed_state.is_some()
    }

    /// Commits the first snapshot: the rollback anchor at the current tick,
    /// together with the first outbound packet, which belongs to the same
    /// tick.
    pub fn set_first_committed_state(&mut self, state: Vec<u8>, first_packet: Vec<u8>)
        requires
            old(self).wf(),
            old(self).committed_state is None,
        ensures
            final(self).wf(),
            final(self).committed_state matches Some(c) && c@.tick == old(self).current_tick
                && c@.state == state@,
            final(self).local_packet matches Some(p) && p@.tick == old(self).current_tick
                && p@.packet == first_packet@,
            final(self).dirty_state is None,
            final(self).current_tick == old(self).current_tick,
            final(self).local_player_index == old(self).local_player_index,
            final(self).queue == old(self).queue,
    {
        self.committed_state = Some(SavedState { tick: self.current_tick, state });
        self.local_packet = Some(Packet { tick: self.current_tick, packet: first_packet });
    }

    /// Moves the rollback anchor to the current tick.
    pub fn set_committed_state(&mut self, state: Vec<u8>)
        requires
            old(self).wf(),
            old(self).committed_state is Some,
        ensures
            final(self).wf(),
            final(self).committed_state matches Some(c) && c@.tick == old(self).current_tick
                && c@.state == state@,
            final(self).dirty_state is None,
            final(self).current_tick == old(self).current_tick,
            final(self).local_player_index == old(self).local_player_index,
            final(self).local_packet == old(self).local_packet,
            final(self).queue == old(self).queue,
    {
        self.committed_state = Some(SavedState { tick: self.current_tick, state });
        self.dirty_state = None;
    }

    /// Takes the speculative snapshot at the current tick.
    pub fn set_dirty_state(&mut self, state: Vec<u8>)
        requires
            old(self).wf(),
            old(self).committed_state is Some,
        ensures
            final(self).wf(),
            final(self).dirty_state matches Some(d) && d@.tick == old(self).current_tick
                && d@.state == state@,
            final(self).committed_state == old(self).committed_state,
            final(self).current_tick == old(self).current_tick,
            final(self).local_player_index == old(self).local_player_index,
            final(self).local_packet == old(self).local_packet,
            final(self).queue == old(self).queue,
    {
        self.dirty_state = Some(SavedState { tick: self.current_tick, state });
    }

    /// A copy of the committed snapshot's bytes, exactly as they were
    /// stored: what the host reloads on rollback.
    pub fn committed_state_bytes(&self) -> (r: Option<Vec<u8>>)
        ensures
            match r {
                Some(b) => self.committed_state matches Some(c) && b@ == c@.state,
                None => self.committed_state is None,
            },
    {
        match &self.committed_state {
            Some(c) => Some(copy_bytes(&c.state)),
            None => None,
        }
    }

    /// The tick of the committed snapshot.
    pub fn committed_tick(&self) -> (r: Option<u32>)
        ensures
            match r {
                Some(t) => self.committed_state matches Some(c) && t == c@.tick,
                None => self.committed_state is None,
            },
    {
        match &self.committed_state {
            Some(c) => Some(c.tick),
            None => None,
        }
    }

    /// Whether the round may advance one more tick: it must stay within
    /// `MAX_ROLLBACK` ticks of the committed snapshot.
    pub fn can_advance(&self) -> (r: bool)
        requires
            self.wf(),
        ensures
            r == (self.committed_state matches Some(c) && self.current_tick < c@.tick
                + MAX_ROLLBACK),
    {
        match &self.committed_state {
            Some(c) => self.current_tick - c.tick < MAX_ROLLBACK,
            None => false,
        }
    }

    /// Advances the round one tick. The caller must stay within the
    /// rollback window, so the tick also cannot wrap.
    pub fn increment_current_tick(&mut self)
        requires
            old(self).wf(),
            old(self).current_tick < u32::MAX,
            old(self).committed_state matches Some(c) && old(self).current_tick < c@.tick
                + MAX_ROLLBACK,
        ensures
            final(self).wf(),
            final(self).current_tick == old(self).current_tick + 1,
            final(self).committed_state == old(self).committed_state,
            final(self).dirty_state == old(self).dirty_state,
            final(self).local_player_index == old(self).local_player_index,
            final(self).local_packet == old(self).local_packet,
            final(self).queue == old(self).queue,
    {
        self.current_tick = self.current_tick + 1;
    }

    /// Stores the packet the emulator just produced for the given tick.
    pub fn set_local_packet(&mut self, tick: u32, packet: Vec<u8>)
        requires
            old(self).wf(),
        ensures
            final(self).wf(),
            final(self).local_packet matches Some(p) && p@.tick == tick && p@.packet == packet@,
            final(self).committed_state == old(self).committed_state,
            final(self).dirty_state == old(self).dirty_state,
            final(self).current_tick == old(self).current_tick,
            final(self).local_player_index == old(self).local_player_index,
            final(self).queue == old(self).queue,
    {
        self.local_packet = Some(Packet { tick, packet });
    }

    /// A copy of the stored outbound packet.
    pub fn peek_local_packet(&self) -> (r: Option<Packet>)
        ensures
            match r {
                Some(p) => self.local_packet matches Some(q) && p@ == q@,
                None => self.local_packet is None,
            },
    {
        match &self.local_packet {
            Some(p) => Some(p.clone()),
            None => None,
        }
    }

    /// Holds a pair against the round's current tick, in the order the
    /// engine checks: the two inputs must agree on the tick, and that tick
    /// must be the round's own. A mismatch is a desync.
    pub fn check_pair(pair: &Pair, current_tick: u32) -> (r: Result<(), DesyncError>)
        ensures
            r is Ok <==> pair@.local.local_tick == pair@.remote.local_tick
                && pair@.local.local_tick == current_tick,
            r matches Err(e) ==> if pair@.local.local_tick != pair@.remote.local_tick {
                e == DesyncError::PairTickMismatch
            } else {
                e == DesyncError::InputTickMismatch
            },
    {
        if pair.local.local_tick != pair.remote.local_tick {
            return Err(DesyncError::PairTickMismatch);
        }
        if pair.local.local_tick != current_tick {
            return Err(DesyncError::InputTickMismatch);
        }
        Ok(())
    }

    /// The word written into the emulated KEYINPUT register for a pair: the
    /// local joyflags with the injection sentinel bits set.
    pub fn joyflags_to_inject(joyflags: u16) -> (r: u16)
        ensures
            r == joyflags | JOYFLAGS_INJECTED,
    {
        joyflags | JOYFLAGS_INJECTED
    }

    /// Whether a remote input has arrived for a tick the round already ran
    /// past speculatively, so the host must reload the committed snapshot
    /// and re-apply the pairs.
    pub fn needs_rollback(&self) -> (r: bool)
        requires
            self.wf(),
        ensures
            r == (self.queue.has_pair() && self.queue.local_view()[0].local_tick
                < self.current_tick),
    {
        match self.queue.peek_pair() {
            Some(p) => p.local.local_tick < self.current_tick,
            None => false,
        }
    }

    /// Appends the local input for the queue's next local tick and hands
    /// out every pair that is now confirmed, in tick order. The refusal is
    /// the window's backpressure.
    pub fn add_local_input_and_consume(&mut self, input: Input) -> (r: Result<
        Vec<Pair>,
        QueueError,
    >)
        requires
            old(self).wf(),
            input@.local_tick == old(self).queue.spec_next_local_tick(),
            old(self).queue.spec_next_local_tick() < u32::MAX,
        ensures
            final(self).wf(),
            r is Ok <==> old(self).queue.local_view().len() - old(self).queue.remote_view().len()
                < old(self).queue.spec_max_lag(),
            r matches Ok(ps) ==> {
                &&& forall|i: int|
                    0 <= i < ps@.len() ==> #[trigger] ps@[i]@.local.local_tick
                        == ps@[i]@.remote.local_tick
                &&& !final(self).queue.has_pair()
                &&& old(self).queue.local_view().push(input@) =~= ps@.map_values(
                    |p: Pair| p@.local,
                ) + final(self).queue.local_view()
                &&& old(self).queue.remote_view() =~= ps@.map_values(|p: Pair| p@.remote)
                    + final(self).queue.remote_view()
            },
            r is Err ==> {
                &&& final(self).queue.local_view() =~= old(self).queue.local_view()
                &&& final(self).queue.remote_view() =~= old(self).queue.remote_view()
                &&& final(self).queue.spec_next_local_tick() == old(
                    self,
                ).queue.spec_next_local_tick()
                &&& final(self).queue.spec_next_remote_tick() == old(
                    self,
                ).queue.spec_next_remote_tick()
            },
            final(self).queue.spec_max_lag() == old(self).queue.spec_max_lag(),
            final(self).current_tick == old(self).current_tick,
            final(self).committed_state == old(self).committed_state,
            final(self).dirty_state == old(self).dirty_state,
            final(self).local_player_index == old(self).local_player_index,
            final(self).local_packet == old(self).local_packet,
    {
        match self.queue.add_local_input(input) {
            Ok(()) => (),
            Err(e) => {
                return Err(e);
            },
        }
        let ghost local_after_add = self.queue.local_view();
        let ghost remote_after_add = self.queue.remote_view();
        let mut out: Vec<Pair> = Vec::new();
        while self.queue.can_consume_pair()
            invariant
                self.wf(),
                self.current_tick == old(self).current_tick,
                self.committed_state == old(self).committed_state,
                self.dirty_state == old(self).dirty_state,
                self.local_player_index == old(self).local_player_index,
                self.local_packet == old(self).local_packet,
                self.queue.spec_max_lag() == old(self).queue.spec_max_lag(),
                local_after_add =~= out@.map_values(|p: Pair| p@.local)
                    + self.queue.local_view(),
                remote_after_add =~= out@.map_values(|p: Pair| p@.remote)
                    + self.queue.remote_view(),
                forall|i: int|
                    0 <= i < out@.len() ==> #[trigger] out@[i]@.local.local_tick
                        == out@[i]@.remote.local_tick,
            decreases self.queue.local_view().len(),
        {
            let ghost local_before = self.queue.local_view();
            let ghost remote_before = self.queue.remote_view();
            let ghost out_before = out@.map_values(|p: Pair| p@.local);
            let ghost out_before_r = out@.map_values(|p: Pair| p@.remote);
            match self.queue.consume_pair() {
                Some(p) => {
                    out.push(p);
                    proof {
                        assert(out@.map_values(|q: Pair| q@.local) =~= out_before.push(
                            p@.local,
                        ));
                        assert(out@.map_values(|q: Pair| q@.remote) =~= out_before_r.push(
                            p@.remote,
                        ));
                        assert(out_before.push(p@.local) + self.queue.local_view()
                            =~= out_before + local_before);
                        assert(out_before_r.push(p@.remote) + self.queue.remote_view()
                            =~= out_before_r + remote_before);
                    }
                },
                None => {
                    proof {
                        assert(false);
                    }
                },
            }
        }
        Ok(out)
    }
}

/// Every well-formed round sits inside the rollback window: once a state
/// is committed, the current tick lies between the committed tick and the
/// committed tick plus `MAX_ROLLBACK`. Every method of `Round` preserves
/// well-formedness, so this holds of every reachable round.
pub proof fn lemma_rollback_window(r: Round)
    requires
        r.wf(),
    ensures
        r.committed_state matches Some(c) ==> c@.tick <= r.current_tick <= c@.tick
            + MAX_ROLLBACK,
{
}


/// What the engine decides at a tick boundary.
pub enum TickDecision {
    /// No pair is ready: the emulation idles one tick on its last inputs.
    Idle,
    /// The rollback window is exhausted: no further tick until the anchor
    /// moves.
    Blocked,
    /// The head pair diverged from the round's tick.
    Desync(DesyncError),
    /// Inject the pair: write the joyflags word, exchange the packets, and
    /// run one tick; the round has already counted it.
    Apply { pair: Pair, joyflags: u16 },
}

impl Round {
    /// The tick-boundary decision, taken when the emulation reaches the
    /// input read. Within the rollback window and with a pair at the head,
    /// the pair is validated against the current tick: a divergence
    /// consumes it and reports the desync; a valid pair is consumed,
    /// handed out with the joyflags word to write, and the tick advances.
    pub fn advance_tick(&mut self) -> (r: TickDecision)
        requires
            old(self).wf(),
            old(self).committed_state is Some,
            old(self).current_tick < u32::MAX,
        ensures
            final(self).wf(),
            final(self).committed_state == old(self).committed_state,
            final(self).dirty_state == old(self).dirty_state,
            final(self).local_player_index == old(self).local_player_index,
            final(self).local_packet == old(self).local_packet,
            r is Blocked <==> !(old(self).committed_state matches Some(c)
                && old(self).current_tick < c@.tick + MAX_ROLLBACK),
            r is Blocked ==> *final(self) == *old(self),
            r is Idle <==> (old(self).committed_state matches Some(c) && old(self).current_tick
                < c@.tick + MAX_ROLLBACK) && !old(self).queue.has_pair(),
            r is Idle ==> *final(self) == *old(self),
            (old(self).committed_state matches Some(c) && old(self).current_tick < c@.tick
                + MAX_ROLLBACK) && old(self).queue.has_pair() ==> {
                let head_local = old(self).queue.local_view()[0];
                let head_remote = old(self).queue.remote_view()[0];
                &&& final(self).queue.local_view() =~= old(self).queue.local_view().drop_first()
                &&& final(self).queue.remote_view() =~= old(self).queue.remote_view().drop_first()
                &&& if head_local.local_tick == old(self).current_tick {
                    &&& r matches TickDecision::Apply { pair, joyflags } && pair@.local
                        == head_local && pair@.remote == head_remote && joyflags == (
                    head_local.joyflags | JOYFLAGS_INJECTED)
                    &&& final(self).current_tick == old(self).current_tick + 1
                } else {
                    &&& r == TickDecision::Desync(DesyncError::InputTickMismatch)
                    &&& final(self).current_tick == old(self).current_tick
                }
            },
    {
        if !self.can_advance() {
            return TickDecision::Blocked;
        }
        if !self.queue.can_consume_pair() {
            return TickDecision::Idle;
        }
        let pair = match self.queue.consume_pair() {
            Some(p) => p,
            None => {
                proof {
                    assert(false);
                }
                return TickDecision::Idle;
            },
        };
        // Pairing already guarantees the two sides agree on the tick; what
        // is left to check is that it is this round's tick.
        if pair.local.local_tick != self.current_tick {
            return TickDecision::Desync(DesyncError::InputTickMismatch);
        }
        let joyflags = pair.local.joyflags | JOYFLAGS_INJECTED;
        self.current_tick = self.current_tick + 1;
        TickDecision::Apply { pair, joyflags }
    }
}


/// Reapplying the same input pairs at the same tick from a restored
/// committed state yields the same next states: the engine hands the
/// committed bytes back exactly as stored, and a deterministic step
/// function driven from equal states by equal pairs stays equal.
pub proof fn lemma_reapply_from_restored<S>(
    step: spec_fn(S, PairV) -> S,
    restored: S,
    original: S,
    pairs: Seq<PairV>,
)
    requires
        restored == original,
    ensures
        crate::replay::spec_run(step, restored, pairs) == crate::replay::spec_run(
            step,
            original,
            pairs,
        ),
{
}


} // verus!
