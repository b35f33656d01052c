//! Round lifecycle and match control: result recording, the level-triggered
//! round-ending traps, role assignment from the handshake nonces, and the
//! sticky cancellation flag.

use vstd::prelude::*;
use crate::round::Round;

verus! {

/// How a round ended for one side.
#[derive(PartialEq, Eq, Structural, Clone, Copy, Debug)]
pub enum BattleResult {
    Win,
    Loss,
    Draw,
}

/// The byte a result is recorded as in a replay's round terminator.
pub fn result_to_byte(r: BattleResult) -> (b: u8)
    ensures
        b == spec_result_to_byte(r),
{
    match r {
        BattleResult::Draw => 0,
        BattleResult::Loss => 1,
        BattleResult::Win => 2,
    }
}

/// The byte each result is recorded as.
pub open spec fn spec_result_to_byte(r: BattleResult) -> u8 {
    match r {
        BattleResult::Draw => 0,
        BattleResult::Loss => 1,
        BattleResult::Win => 2,
    }
}

/// Reads a recorded result byte back; other bytes name no result.
pub fn result_from_byte(b: u8) -> (r: Option<BattleResult>)
    ensures
        r matches Some(res) ==> spec_result_to_byte(res) == b,
        r is None <==> b > 2,
{
    if b == 0 {
        Some(BattleResult::Draw)
    } else if b == 1 {
        Some(BattleResult::Loss)
    } else if b == 2 {
        Some(BattleResult::Win)
    } else {
        None
    }
}

/// The same outcome seen from the other seat.
pub open spec fn spec_invert_result(r: BattleResult) -> BattleResult {
    match r {
        BattleResult::Win => BattleResult::Loss,
        BattleResult::Loss => BattleResult::Win,
        BattleResult::Draw => BattleResult::Draw,
    }
}

/// The same outcome seen from the other seat: win and loss exchange, a draw
/// stays a draw.
pub fn invert_result(r: BattleResult) -> (s: BattleResult)
    ensures
        s == spec_invert_result(r),
{
    match r {
        BattleResult::Win => BattleResult::Loss,
        BattleResult::Loss => BattleResult::Win,
        BattleResult::Draw => BattleResult::Draw,
    }
}

/// The cartridge's terminal traps: the direct win/loss pair, and the
/// damage-judge trio whose draw arm defers to a per-title tie-break.
#[derive(PartialEq, Eq, Structural, Clone, Copy, Debug)]
pub enum EndTrap {
    SetWin,
    SetLoss,
    DamageJudgeSetWin,
    DamageJudgeSetLoss,
    DamageJudgeSetDraw,
}

/// What the primary records when a terminal trap fires; the draw trap
/// records the tie-break computed from the primary's own RAM.
pub open spec fn spec_primary_result(t: EndTrap, draw_result: BattleResult) -> BattleResult {
    match t {
        EndTrap::SetWin => BattleResult::Win,
        EndTrap::SetLoss => BattleResult::Loss,
        EndTrap::DamageJudgeSetWin => BattleResult::Win,
        EndTrap::DamageJudgeSetLoss => BattleResult::Loss,
        EndTrap::DamageJudgeSetDraw => draw_result,
    }
}

/// What the shadow records for the same traps: the shadow plays the remote's
/// point of view, so win and loss invert; its draw trap defers to the
/// tie-break computed from the shadow's own RAM.
pub open spec fn spec_shadow_result(t: EndTrap, draw_result: BattleResult) -> BattleResult {
    match t {
        EndTrap::SetWin => BattleResult::Loss,
        EndTrap::SetLoss => BattleResult::Win,
        EndTrap::DamageJudgeSetWin => BattleResult::Loss,
        EndTrap::DamageJudgeSetLoss => BattleResult::Win,
        EndTrap::DamageJudgeSetDraw => draw_result,
    }
}

/// What the primary records when a terminal trap fires.
pub fn primary_result(t: EndTrap, draw_result: BattleResult) -> (r: BattleResult)
    ensures
        r == spec_primary_result(t, draw_result),
{
    match t {
        EndTrap::SetWin => BattleResult::Win,
        EndTrap::SetLoss => BattleResult::Loss,
        EndTrap::DamageJudgeSetWin => BattleResult::Win,
        EndTrap::DamageJudgeSetLoss => BattleResult::Loss,
        EndTrap::DamageJudgeSetDraw => draw_result,
    }
}

/// What the shadow records when a terminal trap fires.
pub fn shadow_result(t: EndTrap, draw_result: BattleResult) -> (r: BattleResult)
    ensures
        r == spec_shadow_result(t, draw_result),
{
    match t {
        EndTrap::SetWin => BattleResult::Loss,
        EndTrap::SetLoss => BattleResult::Win,
        EndTrap::DamageJudgeSetWin => BattleResult::Loss,
        EndTrap::DamageJudgeSetLoss => BattleResult::Win,
        EndTrap::DamageJudgeSetDraw => draw_result,
    }
}

/// The shadow records the inverse of the primary's win or loss: for every
/// terminal trap but the draw trap this holds outright, and it extends to
/// the draw trap whenever the two sides' tie-breaks are consistent, each
/// seeing the other's outcome inverted.
pub proof fn lemma_shadow_records_inverse(t: EndTrap, d_primary: BattleResult, d_shadow: BattleResult)
    ensures
        t != EndTrap::DamageJudgeSetDraw ==> spec_shadow_result(t, d_shadow)
            == spec_invert_result(spec_primary_result(t, d_primary)),
        d_shadow == spec_invert_result(d_primary) ==> spec_shadow_result(t, d_shadow)
            == spec_invert_result(spec_primary_result(t, d_primary)),
{
}

/// Refusals of the round lifecycle: ending a round that never recorded a
/// result.
#[derive(PartialEq, Eq, Structural, Clone, Copy, Debug)]
pub enum RoundError {
    NoResult,
}

/// One side's round slot and the result recorded for it. The round is
/// created at the battle-start trap and taken away at the round-ending
/// traps; between the two, the terminal traps record the result.
pub struct RoundState {
    pub round: Option<Round>,
    pub last_result: Option<BattleResult>,
}

/// What the level-triggered round-ending trap does to the lifecycle: with no
/// active round it does nothing; with an active round and a recorded result
/// it ends the round, consuming the result; an active round without a result
/// is left untouched (the caller surfaces the error).
pub open spec fn spec_round_ending(active: bool, last: Option<BattleResult>) -> (bool, Option<
    BattleResult,
>) {
    if active && last is Some {
        (false, None)
    } else {
        (active, last)
    }
}

impl RoundState {
    /// A state with no active round and no recorded result.
    pub fn new() -> (s: RoundState)
        ensures
            s.round is None,
            s.last_result is None,
    {
        RoundState { round: None, last_result: None }
    }

    /// Installs a fresh round at the battle-start trap.
    pub fn start_round(&mut self, round: Round)
        requires
            old(self).round is None,
        ensures
            final(self).round == Some(round),
            final(self).last_result == old(self).last_result,
    {
        self.round = Some(round);
    }

    /// Records the result a terminal trap decided. Later traps may overwrite
    /// it until the round ends; ending consumes it exactly once.
    pub fn set_last_result(&mut self, result: BattleResult)
        ensures
            final(self).last_result == Some(result),
            final(self).round == old(self).round,
    {
        self.last_result = Some(result);
    }

    /// Ends the active round, handing out the one recorded result. Fails
    /// when no result was recorded, leaving everything unchanged.
    pub fn end_round(&mut self) -> (r: Result<BattleResult, RoundError>)
        requires
            old(self).round is Some,
        ensures
            r is Ok <==> old(self).last_result is Some,
            r matches Ok(res) ==> {
                &&& old(self).last_result == Some(res)
                &&& final(self).round is None
                &&& final(self).last_result is None
            },
            r is Err ==> *final(self) == *old(self) && r == Err::<BattleResult, RoundError>(
                RoundError::NoResult,
            ),
    {
        match self.last_result {
            Some(result) => {
                self.round = None;
                self.last_result = None;
                Ok(result)
            },
            None => Err(RoundError::NoResult),
        }
    }

    /// The round-ending trap: level-triggered, so a re-entry after the round
    /// has already ended does nothing. Fails only when an active round has
    /// no recorded result.
    pub fn on_round_ending(&mut self) -> (r: Result<(), RoundError>)
        ensures
            r is Ok <==> (old(self).round is None || old(self).last_result is Some),
            r is Ok ==> (final(self).round is Some, final(self).last_result) == spec_round_ending(
                old(self).round is Some,
                old(self).last_result,
            ),
            r is Err ==> *final(self) == *old(self),
    {
        if self.round.is_none() {
            return Ok(());
        }
        match self.end_round() {
            Ok(_) => Ok(()),
            Err(e) => Err(e),
        }
    }
}

/// The round-ending trap is idempotent: hitting the trap address again after
/// the round has ended changes nothing, however often it fires.
pub proof fn lemma_round_ending_idempotent(active: bool, last: Option<BattleResult>)
    ensures
        spec_round_ending(
            spec_round_ending(active, last).0,
            spec_round_ending(active, last).1,
        ) == spec_round_ending(active, last),
{
}

/// Lexicographic order on equal-length byte strings: true when `a` comes
/// after `b`.
pub open spec fn spec_lex_gt(a: Seq<u8>, b: Seq<u8>) -> bool
    decreases a.len(),
{
    if a.len() == 0 || b.len() == 0 {
        false
    } else if a[0] != b[0] {
        a[0] > b[0]
    } else {
        spec_lex_gt(a.drop_first(), b.drop_first())
    }
}

/// On distinct equal-length nonces, exactly one side compares greater: the
/// two peers agree on who the offerer is.
pub proof fn lemma_offerer_antisymmetric(a: Seq<u8>, b: Seq<u8>)
    requires
        a.len() == b.len(),
        a != b,
    ensures
        spec_lex_gt(a, b) == !spec_lex_gt(b, a),
    decreases a.len(),
{
    if a.len() == 0 {
        assert(a =~= b);
    } else if a[0] == b[0] {
        assert(a.drop_first() != b.drop_first()) by {
            if a.drop_first() == b.drop_first() {
                assert forall|j: int| 0 <= j < a.len() implies a[j] == b[j] by {
                    if j > 0 {
                        assert(a[j] == a.drop_first()[j - 1]);
                        assert(b[j] == b.drop_first()[j - 1]);
                    }
                }
                assert(a =~= b);
            }
        };
        lemma_offerer_antisymmetric(a.drop_first(), b.drop_first());
    }
}

/// Whether this side is the offerer: the side whose handshake nonce is
/// lexicographically higher.
pub fn is_offerer_from_nonces(local_nonce: &Vec<u8>, remote_nonce: &Vec<u8>) -> (r: bool)
    requires
        local_nonce@.len() == remote_nonce@.len(),
    ensures
        r == spec_lex_gt(local_nonce@, remote_nonce@),
{
    let mut i: usize = 0;
    proof {
        assert(local_nonce@.subrange(0, local_nonce@.len() as int) =~= local_nonce@);
        assert(remote_nonce@.subrange(0, remote_nonce@.len() as int) =~= remote_nonce@);
    }
    while i < local_nonce.len()
        invariant
            i <= local_nonce@.len(),
            local_nonce@.len() == remote_nonce@.len(),
            spec_lex_gt(local_nonce@, remote_nonce@) == spec_lex_gt(
                local_nonce@.subrange(i as int, local_nonce@.len() as int),
                remote_nonce@.subrange(i as int, remote_nonce@.len() as int),
            ),
        decreases local_nonce@.len() - i,
    {
        let la = local_nonce[i];
        let rb = remote_nonce[i];
        proof {
            let sa = local_nonce@.subrange(i as int, local_nonce@.len() as int);
            let sb = remote_nonce@.subrange(i as int, remote_nonce@.len() as int);
            assert(sa[0] == la && sb[0] == rb);
            assert(sa.drop_first() =~= local_nonce@.subrange(
                i + 1,
                local_nonce@.len() as int,
            ));
            assert(sb.drop_first() =~= remote_nonce@.subrange(
                i + 1,
                remote_nonce@.len() as int,
            ));
        }
        if la != rb {
            return la > rb;
        }
        i = i + 1;
    }
    proof {
        assert(local_nonce@.subrange(i as int, local_nonce@.len() as int).len() == 0);
    }
    false
}

/// The state the primary installs into the emulator before a round: the
/// offerer takes the offerer's generated state, the answerer the other.
pub open spec fn spec_primary_rng_state(is_offerer: bool, offerer_state: u32, answerer_state: u32) -> u32 {
    if is_offerer {
        offerer_state
    } else {
        answerer_state
    }
}

/// The state the shadow installs: the shadow plays the remote, whose role is
/// the opposite, so it takes the other state.
pub open spec fn spec_shadow_rng_state(is_offerer: bool, offerer_state: u32, answerer_state: u32) -> u32 {
    if is_offerer {
        answerer_state
    } else {
        offerer_state
    }
}

/// The state the primary installs into the emulator before a round.
pub fn primary_rng_state(is_offerer: bool, offerer_state: u32, answerer_state: u32) -> (r: u32)
    ensures
        r == spec_primary_rng_state(is_offerer, offerer_state, answerer_state),
{
    if is_offerer {
        offerer_state
    } else {
        answerer_state
    }
}

/// The state the shadow installs into its emulator before a round.
pub fn shadow_rng_state(is_offerer: bool, offerer_state: u32, answerer_state: u32) -> (r: u32)
    ensures
        r == spec_shadow_rng_state(is_offerer, offerer_state, answerer_state),
{
    if is_offerer {
        answerer_state
    } else {
        offerer_state
    }
}

/// Both peers derive the same two candidate states from the shared,
/// nonce-seeded generator and hold opposite roles; each side's shadow then
/// installs exactly the state the other side's primary installs, so the two
/// emulations of each seat agree.
pub proof fn lemma_rng_state_agreement(is_offerer: bool, offerer_state: u32, answerer_state: u32)
    ensures
        spec_shadow_rng_state(is_offerer, offerer_state, answerer_state)
            == spec_primary_rng_state(!is_offerer, offerer_state, answerer_state),
{
}

/// A match: the shared role and format agreed at the handshake, the current
/// round slot, and the sticky cancellation flag.
pub struct Match {
    pub is_offerer: bool,
    pub match_type: (u16, u16),
    pub round_number: u32,
    pub round_state: RoundState,
    pub cancelled: bool,
}

impl Match {
    /// A fresh match with the role decided from the two handshake nonces.
    pub fn new(local_nonce: &Vec<u8>, remote_nonce: &Vec<u8>, match_type: (u16, u16)) -> (m: Match)
        requires
            local_nonce@.len() == remote_nonce@.len(),
        ensures
            m.is_offerer == spec_lex_gt(local_nonce@, remote_nonce@),
            m.match_type == match_type,
            m.round_number == 0,
            m.round_state.round is None,
            m.round_state.last_result is None,
            !m.cancelled,
    {
        Match {
            is_offerer: is_offerer_from_nonces(local_nonce, remote_nonce),
            match_type,
            round_number: 0,
            round_state: RoundState::new(),
            cancelled: false,
        }
    }

    /// This side's role.
    pub fn is_offerer(&self) -> (r: bool)
        ensures
            r == self.is_offerer,
    {
        self.is_offerer
    }

    /// Cancels the match. The flag is sticky: nothing in the library resets
    /// it, and every trap consults it before doing work.
    pub fn cancel(&mut self)
        ensures
            final(self).cancelled,
            final(self).is_offerer == old(self).is_offerer,
            final(self).match_type == old(self).match_type,
            final(self).round_number == old(self).round_number,
            final(self).round_state == old(self).round_state,
    {
        self.cancelled = true;
    }

    /// Whether the match has been cancelled.
    pub fn is_cancelled(&self) -> (r: bool)
        ensures
            r == self.cancelled,
    {
        self.cancelled
    }

    /// Counts a finished round. The cancellation flag is untouched: once
    /// set, it stays.
    pub fn advance_round(&mut self)
        requires
            old(self).round_number < u32::MAX,
        ensures
            final(self).round_number == old(self).round_number + 1,
            final(self).cancelled == old(self).cancelled,
            final(self).is_offerer == old(self).is_offerer,
            final(self).match_type == old(self).match_type,
            final(self).round_state == old(self).round_state,
    {
        self.round_number = self.round_number + 1;
    }
}

} // verus!
