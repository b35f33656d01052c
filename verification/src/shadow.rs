//! The shadow: a second deterministic emulation of the round from the
//! remote player's point of view. The primary hands it each confirmed pair;
//! the shadow validates the pair against its own tick, injects it with the
//! seats exchanged, and produces the authoritative remote packet for the
//! next tick. Any tick-level disagreement records a sticky error, which
//! cancels the match at the next primary tick.

use vstd::prelude::*;
use crate::lockstep::Pair;
use crate::lockstep::Packet;
use crate::round::DesyncError;
use crate::round::JOYFLAGS_INJECTED;
use crate::round::SavedState;

verus! {

/// What the shadow's packet-exchange trap decides for a handed-over pair.
pub enum ShadowInject {
    /// No pair is pending: nothing to inject.
    Idle,
    /// The pair is one tick stale because the emulation ran the exchange
    /// again before new input data arrived; it is tolerated once and
    /// dropped.
    Grace,
    /// The pair diverged from the shadow's own tick; the error is now
    /// sticky.
    Desync(DesyncError),
    /// Inject: write the pair's local packet into this side's slot and the
    /// stored remote packet into the other side's slot, then read the new
    /// outbound packet back.
    Inject { local_rx: Vec<u8>, remote_rx: Vec<u8> },
}

/// The shadow's own round state.
pub struct ShadowState {
    pub local_player_index: u8,
    pub current_tick: u32,
    pub first_committed: bool,
    pub pending_input: Option<Pair>,
    pub remote_packet: Option<Packet>,
    pub input_injected: bool,
    pub applied_state: Option<SavedState>,
    pub error: Option<DesyncError>,
}

impl ShadowState {
    /// Well-formedness: the player index names a seat.
    pub open spec fn wf(&self) -> bool {
        self.local_player_index <= 1
    }

    /// A fresh shadow at tick 0 with nothing pending and no error.
    pub fn new(local_player_index: u8) -> (s: ShadowState)
        requires
            local_player_index <= 1,
        ensures
            s.wf(),
            s.local_player_index == local_player_index,
            s.current_tick == 0,
            !s.first_committed,
            s.pending_input is None,
            s.remote_packet is None,
            !s.input_injected,
            s.applied_state is None,
            s.error is None,
    {
        ShadowState {
            local_player_index,
            current_tick: 0,
            first_committed: false,
            pending_input: None,
            remote_packet: None,
            input_injected: false,
            applied_state: None,
            error: None,
        }
    }

    /// The seat the shadow's emulation answers for: the remote player's.
    pub fn remote_player_index(&self) -> (r: u8)
        requires
            self.wf(),
        ensures
            r == 1 - self.local_player_index,
    {
        1 - self.local_player_index
    }

    /// Records the first committed snapshot together with the first
    /// outbound packet, which belongs to the current tick.
    pub fn set_first_committed_state(&mut self, state: Vec<u8>, first_packet: Vec<u8>)
        requires
            old(self).wf(),
            !old(self).first_committed,
        ensures
            final(self).wf(),
            final(self).first_committed,
            final(self).applied_state matches Some(a) && a@.tick == old(self).current_tick
                && a@.state == state@,
            final(self).remote_packet matches Some(p) && p@.tick == old(self).current_tick
                && p@.packet == first_packet@,
            final(self).current_tick == old(self).current_tick,
            final(self).local_player_index == old(self).local_player_index,
            final(self).pending_input == old(self).pending_input,
            final(self).input_injected == old(self).input_injected,
            final(self).error == old(self).error,
    {
        self.first_committed = true;
        self.applied_state = Some(SavedState { tick: self.current_tick, state });
        self.remote_packet = Some(Packet { tick: self.current_tick, packet: first_packet });
    }

    /// Hands the shadow the next confirmed pair.
    pub fn set_pending_input(&mut self, pair: Pair)
        requires
            old(self).wf(),
            old(self).pending_input is None,
        ensures
            final(self).wf(),
            final(self).pending_input == Some(pair),
            final(self).current_tick == old(self).current_tick,
            final(self).local_player_index == old(self).local_player_index,
            final(self).first_committed == old(self).first_committed,
            final(self).remote_packet == old(self).remote_packet,
            final(self).input_injected == old(self).input_injected,
            final(self).applied_state == old(self).applied_state,
            final(self).error == old(self).error,
    {
        self.pending_input = Some(pair);
    }

    /// Stores the remote packet the emulation produced for the given tick.
    pub fn set_remote_packet(&mut self, tick: u32, packet: Vec<u8>)
        requires
            old(self).wf(),
        ensures
            final(self).wf(),
            final(self).remote_packet matches Some(p) && p@.tick == tick && p@.packet == packet@,
            final(self).current_tick == old(self).current_tick,
            final(self).local_player_index == old(self).local_player_index,
            final(self).first_committed == old(self).first_committed,
            final(self).pending_input == old(self).pending_input,
            final(self).input_injected == old(self).input_injected,
            final(self).applied_state == old(self).applied_state,
            final(self).error == old(self).error,
    {
        self.remote_packet = Some(Packet { tick, packet });
    }

    /// The packet-exchange trap. Takes the pending pair and decides: with
    /// none pending there is nothing to do; a pair exactly one tick stale
    /// is tolerated once and dropped; a pair whose inputs disagree on their
    /// tick, or that belongs to another tick than the shadow's own, or a
    /// stored remote packet from another tick, each record a sticky error;
    /// otherwise the two packets to inject are handed out and the injection
    /// is marked.
    pub fn on_packet_exchange(&mut self) -> (r: ShadowInject)
        requires
            old(self).wf(),
        ensures
            final(self).wf(),
            final(self).current_tick == old(self).current_tick,
            final(self).local_player_index == old(self).local_player_index,
            final(self).first_committed == old(self).first_committed,
            final(self).remote_packet == old(self).remote_packet,
            final(self).applied_state == old(self).applied_state,
            old(self).error is Some ==> final(self).error == old(self).error,
            r is Idle <==> old(self).pending_input is None,
            r is Idle ==> *final(self) == *old(self),
            old(self).pending_input matches Some(ip) ==> {
                &&& final(self).pending_input is None
                &&& if ip@.local.local_tick + 1 == old(self).current_tick {
                    &&& r is Grace
                    &&& final(self).error == old(self).error
                    &&& final(self).input_injected == old(self).input_injected
                } else if ip@.local.local_tick != ip@.remote.local_tick {
                    &&& r == ShadowInject::Desync(DesyncError::PairTickMismatch)
                    &&& final(self).error is Some
                    &&& final(self).input_injected == old(self).input_injected
                } else if ip@.local.local_tick != old(self).current_tick {
                    &&& r == ShadowInject::Desync(DesyncError::InputTickMismatch)
                    &&& final(self).error is Some
                    &&& final(self).input_injected == old(self).input_injected
                } else if !(old(self).remote_packet matches Some(rp) && rp@.tick == old(
                    self,
                ).current_tick) {
                    &&& r == ShadowInject::Desync(DesyncError::PacketTickMismatch)
                    &&& final(self).error is Some
                    &&& final(self).input_injected == old(self).input_injected
                } else {
                    &&& r matches ShadowInject::Inject { local_rx, remote_rx }
                        && local_rx@ == ip@.local.packet && (old(self).remote_packet matches Some(
                        rp,
                    ) && remote_rx@ == rp@.packet)
                    &&& final(self).input_injected
                    &&& final(self).error == old(self).error
                }
            },
    {
        let ip = match self.pending_input.take() {
            Some(ip) => ip,
            None => {
                return ShadowInject::Idle;
            },
        };
        if ip.local.local_tick < u32::MAX && ip.local.local_tick + 1 == self.current_tick {
            return ShadowInject::Grace;
        }
        if ip.local.local_tick != ip.remote.local_tick {
            if self.error.is_none() {
                self.error = Some(DesyncError::PairTickMismatch);
            }
            return ShadowInject::Desync(DesyncError::PairTickMismatch);
        }
        if ip.local.local_tick != self.current_tick {
            if self.error.is_none() {
                self.error = Some(DesyncError::InputTickMismatch);
            }
            return ShadowInject::Desync(DesyncError::InputTickMismatch);
        }
        let packet_ok: bool = match &self.remote_packet {
            Some(rp) => rp.tick == self.current_tick,
            None => false,
        };
        if !packet_ok {
            if self.error.is_none() {
                self.error = Some(DesyncError::PacketTickMismatch);
            }
            return ShadowInject::Desync(DesyncError::PacketTickMismatch);
        }
        let remote_rx = match &self.remote_packet {
            Some(rp) => crate::lockstep::copy_bytes(&rp.packet),
            None => Vec::new(),
        };
        self.input_injected = true;
        ShadowInject::Inject { local_rx: ip.local.packet, remote_rx }
    }

    /// The joyflags the shadow writes into its emulation for a validated
    /// pair: the remote side's buttons with the injection sentinel set.
    pub fn joyflags_to_inject(pair: &Pair) -> (r: u16)
        ensures
            r == pair@.remote.joyflags | JOYFLAGS_INJECTED,
    {
        pair.remote.joyflags | JOYFLAGS_INJECTED
    }

    /// Consumes the injection mark: whether a pair was injected since the
    /// last tick boundary, deciding whether the applied state is
    /// re-captured.
    pub fn take_input_injected(&mut self) -> (r: bool)
        requires
            old(self).wf(),
        ensures
            final(self).wf(),
            r == old(self).input_injected,
            !final(self).input_injected,
            final(self).current_tick == old(self).current_tick,
            final(self).local_player_index == old(self).local_player_index,
            final(self).first_committed == old(self).first_committed,
            final(self).pending_input == old(self).pending_input,
            final(self).remote_packet == old(self).remote_packet,
            final(self).applied_state == old(self).applied_state,
            final(self).error == old(self).error,
    {
        let r = self.input_injected;
        self.input_injected = false;
        r
    }

    /// Records the snapshot after an injected tick.
    pub fn set_applied_state(&mut self, tick: u32, state: Vec<u8>)
        requires
            old(self).wf(),
        ensures
            final(self).wf(),
            final(self).applied_state matches Some(a) && a@.tick == tick && a@.state == state@,
            final(self).current_tick == old(self).current_tick,
            final(self).local_player_index == old(self).local_player_index,
            final(self).first_committed == old(self).first_committed,
            final(self).pending_input == old(self).pending_input,
            final(self).remote_packet == old(self).remote_packet,
            final(self).input_injected == old(self).input_injected,
            final(self).error == old(self).error,
    {
        self.applied_state = Some(SavedState { tick, state });
    }

    /// Advances the shadow one tick, once the first state is committed.
    pub fn increment_current_tick(&mut self)
        requires
            old(self).wf(),
            old(self).first_committed,
            old(self).current_tick < u32::MAX,
        ensures
            final(self).wf(),
            final(self).current_tick == old(self).current_tick + 1,
            final(self).local_player_index == old(self).local_player_index,
            final(self).first_committed == old(self).first_committed,
            final(self).pending_input == old(self).pending_input,
            final(self).remote_packet == old(self).remote_packet,
            final(self).input_injected == old(self).input_injected,
            final(self).applied_state == old(self).applied_state,
            final(self).error == old(self).error,
    {
        self.current_tick = self.current_tick + 1;
    }

    /// The sticky error, if any divergence has been recorded.
    pub fn error(&self) -> (r: Option<DesyncError>)
        ensures
            r == self.error,
    {
        self.error
    }
}

} // verus!
