//! The replayer: re-executes a recorded round against a null transport.
//! Joyflags and remote packets are consumed from the replay; this side's
//! packets are regenerated by the emulation itself. When the recorded
//! stream runs out, the host injects a predicted packet so the emulation
//! can coast to the round's end.

use vstd::prelude::*;
use crate::battle::BattleResult;
use crate::lockstep::Pair;
use crate::lockstep::PairV;
use crate::lockstep::Packet;
use crate::round::DesyncError;
use crate::round::JOYFLAGS_INJECTED;
use crate::round::SavedState;

verus! {

/// What the replayer's packet-exchange trap decides.
pub enum ReplayerInject {
    /// The round is ending: nothing more is injected.
    Ending,
    /// The recorded stream is exhausted: the host injects a predicted
    /// packet instead.
    Predict,
    /// The recorded stream diverged from the emulation's tick; the error is
    /// now sticky.
    Desync(DesyncError),
    /// Inject: write the stored local packet into this side's slot and the
    /// recorded remote packet into the other side's slot, then read the new
    /// outbound packet back.
    Inject { local_rx: Vec<u8>, remote_rx: Vec<u8> },
}

/// The replayer's state over one recorded round.
pub struct ReplayerState {
    pub local_player_index: u8,
    pub current_tick: u32,
    pub commit_tick: u32,
    pub dirty_tick: u32,
    pub input_pairs: Vec<Pair>,
    pub next_pair: usize,
    pub local_packet: Option<Packet>,
    pub committed_state: Option<SavedState>,
    pub dirty_state: Option<SavedState>,
    pub round_ending: bool,
    pub round_ended: bool,
    pub result: Option<BattleResult>,
    pub error: Option<DesyncError>,
}

impl ReplayerState {
    /// Well-formedness: the player index names a seat and the cursor stays
    /// within the recorded pairs.
    pub open spec fn wf(&self) -> bool {
        &&& self.local_player_index <= 1
        &&& self.next_pair <= self.input_pairs@.len()
    }

    /// The recorded pairs as mathematical values.
    pub open spec fn pairs_view(&self) -> Seq<PairV> {
        self.input_pairs@.map_values(|p: Pair| p@)
    }

    /// A fresh replayer over the recorded pairs, at tick 0.
    pub fn new(local_player_index: u8, input_pairs: Vec<Pair>, commit_tick: u32, dirty_tick: u32) -> (s: ReplayerState)
        requires
            local_player_index <= 1,
        ensures
            s.wf(),
            s.local_player_index == local_player_index,
            s.current_tick == 0,
            s.commit_tick == commit_tick,
            s.dirty_tick == dirty_tick,
            s.pairs_view() == input_pairs@.map_values(|p: Pair| p@),
            s.next_pair == 0,
            s.local_packet is None,
            s.committed_state is None,
            s.dirty_state is None,
            !s.round_ending,
            !s.round_ended,
            s.result is None,
            s.error is None,
    {
        ReplayerState {
            local_player_index,
            current_tick: 0,
            commit_tick,
            dirty_tick,
            input_pairs,
            next_pair: 0,
            local_packet: None,
            committed_state: None,
            dirty_state: None,
            round_ending: false,
            round_ended: false,
            result: None,
            error: None,
        }
    }

    /// The seat this replay is viewed from.
    pub fn local_player_index(&self) -> (r: u8)
        ensures
            r == self.local_player_index,
    {
        self.local_player_index
    }

    /// The seat the recorded peer played.
    pub fn remote_player_index(&self) -> (r: u8)
        requires
            self.wf(),
        ensures
            r == 1 - self.local_player_index,
    {
        1 - self.local_player_index
    }

    /// The tick the re-execution is at.
    pub fn current_tick(&self) -> (r: u32)
        ensures
            r == self.current_tick,
    {
        self.current_tick
    }

    /// Whether the re-execution is at the tick whose snapshot is committed.
    pub fn should_commit(&self) -> (r: bool)
        ensures
            r == (self.current_tick == self.commit_tick),
    {
        self.current_tick == self.commit_tick
    }

    /// Whether the re-execution is at the tick whose snapshot is the
    /// speculative one.
    pub fn should_snapshot_dirty(&self) -> (r: bool)
        ensures
            r == (self.current_tick == self.dirty_tick),
    {
        self.current_tick == self.dirty_tick
    }

    /// Records the committed snapshot at the current tick.
    pub fn set_committed_state(&mut self, state: Vec<u8>)
        requires
            old(self).wf(),
        ensures
            final(self).wf(),
            final(self).committed_state matches Some(c) && c@.tick == old(self).current_tick
                && c@.state == state@,
            *final(self) == (ReplayerState {
                committed_state: final(self).committed_state,
                ..*old(self)
            }),
    {
        self.committed_state = Some(SavedState { tick: self.current_tick, state });
    }

    /// Records the speculative snapshot at the current tick.
    pub fn set_dirty_state(&mut self, state: Vec<u8>)
        requires
            old(self).wf(),
        ensures
            final(self).wf(),
            final(self).dirty_state matches Some(d) && d@.tick == old(self).current_tick
                && d@.state == state@,
            *final(self) == (ReplayerState { dirty_state: final(self).dirty_state, ..*old(self) }),
    {
        self.dirty_state = Some(SavedState { tick: self.current_tick, state });
    }

    /// Stores the packet the emulation produced for the given tick.
    pub fn set_local_packet(&mut self, tick: u32, packet: Vec<u8>)
        requires
            old(self).wf(),
        ensures
            final(self).wf(),
            final(self).local_packet matches Some(p) && p@.tick == tick && p@.packet == packet@,
            *final(self) == (ReplayerState { local_packet: final(self).local_packet, ..*old(self) }),
    {
        self.local_packet = Some(Packet { tick, packet });
    }

    /// A copy of the next recorded pair, if any remains.
    pub fn peek_input_pair(&self) -> (r: Option<Pair>)
        requires
            self.wf(),
        ensures
            r is Some <==> self.next_pair < self.pairs_view().len(),
            r matches Some(p) ==> p@ == self.pairs_view()[self.next_pair as int],
    {
        if self.next_pair < self.input_pairs.len() {
            Some(self.input_pairs[self.next_pair].clone())
        } else {
            None
        }
    }

    /// The tick-boundary check: holds the next recorded pair against the
    /// current tick and hands out the joyflags to write. A divergence makes
    /// the error sticky; an exhausted stream yields nothing.
    pub fn joyflags_for_tick(&mut self) -> (r: Result<Option<u16>, DesyncError>)
        requires
            old(self).wf(),
        ensures
            final(self).wf(),
            *final(self) == (ReplayerState { error: final(self).error, ..*old(self) }),
            old(self).error is Some ==> final(self).error == old(self).error,
            r == Ok::<Option<u16>, DesyncError>(None::<u16>) <==> old(self).next_pair >= old(self).pairs_view().len(),
            old(self).next_pair < old(self).pairs_view().len() ==> {
                let ip = old(self).pairs_view()[old(self).next_pair as int];
                if ip.local.local_tick != ip.remote.local_tick {
                    r == Err::<Option<u16>, DesyncError>(DesyncError::PairTickMismatch)
                        && final(self).error is Some
                } else if ip.local.local_tick != old(self).current_tick {
                    r == Err::<Option<u16>, DesyncError>(DesyncError::InputTickMismatch)
                        && final(self).error is Some
                } else {
                    r == Ok::<Option<u16>, DesyncError>(
                        Some((ip.local.joyflags | JOYFLAGS_INJECTED) as u16),
                    ) && final(self).error == old(self).error
                }
            },
    {
        if self.next_pair >= self.input_pairs.len() {
            return Ok(None);
        }
        let ip = &self.input_pairs[self.next_pair];
        if ip.local.local_tick != ip.remote.local_tick {
            if self.error.is_none() {
                self.error = Some(DesyncError::PairTickMismatch);
            }
            return Err(DesyncError::PairTickMismatch);
        }
        if ip.local.local_tick != self.current_tick {
            if self.error.is_none() {
                self.error = Some(DesyncError::InputTickMismatch);
            }
            return Err(DesyncError::InputTickMismatch);
        }
        Ok(Some(ip.local.joyflags | JOYFLAGS_INJECTED))
    }

    /// The packet-exchange trap: consumes the next recorded pair and
    /// decides what to inject, in the order the re-execution checks. With
    /// the round ending nothing is injected; with the stream exhausted the
    /// host predicts; a divergence makes the error sticky; otherwise the
    /// stored local packet and the recorded remote packet are handed out.
    pub fn on_packet_exchange(&mut self) -> (r: ReplayerInject)
        requires
            old(self).wf(),
        ensures
            final(self).wf(),
            old(self).error is Some ==> final(self).error == old(self).error,
            final(self).current_tick == old(self).current_tick,
            final(self).local_player_index == old(self).local_player_index,
            final(self).local_packet == old(self).local_packet,
            final(self).pairs_view() == old(self).pairs_view(),
            final(self).round_ending == old(self).round_ending,
            r is Ending <==> old(self).round_ending,
            old(self).round_ending ==> *final(self) == *old(self),
            !old(self).round_ending ==> {
                &&& (r is Predict <==> old(self).next_pair >= old(self).pairs_view().len())
                &&& (old(self).next_pair >= old(self).pairs_view().len() ==> *final(self)
                    == *old(self))
                &&& old(self).next_pair < old(self).pairs_view().len() ==> {
                    let ip = old(self).pairs_view()[old(self).next_pair as int];
                    &&& final(self).next_pair == old(self).next_pair + 1
                    &&& if ip.local.local_tick != ip.remote.local_tick {
                        &&& r == ReplayerInject::Desync(DesyncError::PairTickMismatch)
                        &&& final(self).error is Some
                    } else if ip.local.local_tick != old(self).current_tick {
                        &&& r == ReplayerInject::Desync(DesyncError::InputTickMismatch)
                        &&& final(self).error is Some
                    } else if !(old(self).local_packet matches Some(lp)
                        && lp@.tick == old(self).current_tick) {
                        &&& r == ReplayerInject::Desync(DesyncError::PacketTickMismatch)
                        &&& final(self).error is Some
                    } else {
                        &&& r matches ReplayerInject::Inject { local_rx, remote_rx }
                            && (old(self).local_packet matches Some(lp) && local_rx@ == lp@.packet)
                            && remote_rx@ == ip.remote.packet
                        &&& final(self).error == old(self).error
                    }
                }
            },
    {
        if self.round_ending {
            return ReplayerInject::Ending;
        }
        if self.next_pair >= self.input_pairs.len() {
            return ReplayerInject::Predict;
        }
        let ip = self.input_pairs[self.next_pair].clone();
        self.next_pair = self.next_pair + 1;
        if ip.local.local_tick != ip.remote.local_tick {
            if self.error.is_none() {
                self.error = Some(DesyncError::PairTickMismatch);
            }
            return ReplayerInject::Desync(DesyncError::PairTickMismatch);
        }
        if ip.local.local_tick != self.current_tick {
            if self.error.is_none() {
                self.error = Some(DesyncError::InputTickMismatch);
            }
            return ReplayerInject::Desync(DesyncError::InputTickMismatch);
        }
        let packet_ok: bool = match &self.local_packet {
            Some(lp) => lp.tick == self.current_tick,
            None => false,
        };
        if !packet_ok {
            if self.error.is_none() {
                self.error = Some(DesyncError::PacketTickMismatch);
            }
            return ReplayerInject::Desync(DesyncError::PacketTickMismatch);
        }
        let local_rx = match &self.local_packet {
            Some(lp) => crate::lockstep::copy_bytes(&lp.packet),
            None => Vec::new(),
        };
        ReplayerInject::Inject { local_rx, remote_rx: ip.remote.packet }
    }

    /// Whether the round-ending trap has fired.
    pub fn is_round_ending(&self) -> (r: bool)
        ensures
            r == self.round_ending,
    {
        self.round_ending
    }

    /// The round-ending trap: level-triggered, so firing again changes
    /// nothing.
    pub fn set_round_ending(&mut self)
        requires
            old(self).wf(),
        ensures
            final(self).wf(),
            final(self).round_ending,
            *final(self) == (ReplayerState { round_ending: true, ..*old(self) }),
    {
        self.round_ending = true;
    }

    /// The round-end trap: the round is over.
    pub fn set_round_ended(&mut self)
        requires
            old(self).wf(),
        ensures
            final(self).wf(),
            final(self).round_ended,
            *final(self) == (ReplayerState { round_ended: true, ..*old(self) }),
    {
        self.round_ended = true;
    }

    /// Records the result a terminal trap decided during re-execution.
    pub fn set_round_result(&mut self, result: BattleResult)
        requires
            old(self).wf(),
        ensures
            final(self).wf(),
            final(self).result == Some(result),
            *final(self) == (ReplayerState { result: Some(result), ..*old(self) }),
    {
        self.result = Some(result);
    }

    /// Advances the re-execution one tick.
    pub fn increment_current_tick(&mut self)
        requires
            old(self).wf(),
            old(self).current_tick < u32::MAX,
        ensures
            final(self).wf(),
            final(self).current_tick == old(self).current_tick + 1,
            *final(self) == (ReplayerState {
                current_tick: (old(self).current_tick + 1) as u32,
                ..*old(self)
            }),
    {
        self.current_tick = self.current_tick + 1;
    }

    /// The sticky error, if the recorded stream diverged.
    pub fn error(&self) -> (r: Option<DesyncError>)
        ensures
            r == self.error,
    {
        self.error
    }
}

} // verus!
