//! The second title's hooks: the table of trap addresses and what the
//! engine does at each, the nonce-agreed RNG-state chain both peers walk,
//! battle background selection, and link-packet prediction.

use vstd::prelude::*;
use crate::battle::EndTrap;

verus! {

/// The ROM addresses a title's adapter traps, and the general-purpose
/// register its joyflags are read into.
#[derive(Clone, Copy)]
pub struct Offsets {
    pub start_screen_jump_table_entry: u32,
    pub start_screen_play_music_call: u32,
    pub start_screen_sram_unmask_ret: u32,
    pub game_load_ret: u32,
    pub comm_menu_init_ret: u32,
    pub match_end_ret: u32,
    pub round_end_set_win: u32,
    pub round_end_set_loss: u32,
    pub round_end_damage_judge_set_win: u32,
    pub round_end_damage_judge_set_loss: u32,
    pub round_end_damage_judge_set_draw: u32,
    pub round_ending_entry1: u32,
    pub round_ending_entry2: u32,
    pub round_end_entry: u32,
    pub round_start_ret: u32,
    pub link_is_p2_ret: u32,
    pub main_read_joyflags: u32,
    pub handle_input_custom_send_and_receive_call: u32,
    pub handle_input_in_turn_send_and_receive_call: u32,
    pub comm_menu_send_and_receive_call: u32,
    pub init_sio_call: u32,
    pub round_call_jump_table_ret: u32,
    pub battle_start_play_music_call: u32,
}

/// What the engine does when the emulation reaches a trapped address. The
/// host installs each table entry as a breakpoint and dispatches on the
/// kind, calling the engine's verified transition for it.
#[derive(PartialEq, Eq, Structural, Clone, Copy, Debug)]
pub enum Trap {
    /// Jump straight past the boot logo.
    SkipLogo,
    /// Step the program counter over a call site the engine replaces.
    SkipCall,
    /// Continue from the title menu as if the player had.
    ContinueFromTitleMenu,
    /// Force the link menu open from the overworld.
    OpenCommMenu,
    /// Install the role's RNG state and start the battle from the menu.
    CommMenuInit,
    /// The whole match is over; signal completion.
    MatchEnd,
    /// A terminal trap: record the result it names.
    RoundEnd(EndTrap),
    /// The level-triggered round-ending entry.
    RoundEnding,
    /// The round-end entry point.
    RoundEndEntry,
    /// The round has started.
    RoundStart,
    /// Answer whether this side plays the second seat.
    LinkIsP2,
    /// The per-tick input read: the tick boundary.
    ReadJoyflags,
    /// The in-battle packet exchange the engine substitutes.
    PacketExchange,
    /// The link-menu packet exchange, fed the fixed initial payload.
    CommMenuPacketExchange,
    /// The per-tick return that advances the tick counter.
    IncrementTick,
    /// The battle-start music call, skipped when music is off.
    BattleStartMusic,
}

/// A title's hooks: its trap addresses.
pub struct Hooks {
    pub offsets: Offsets,
}

/// The per-title memory accessor: it knows the same addresses and performs
/// the host-side reads and writes bound to them.
pub struct Munger {
    pub offsets: Offsets,
}

impl Hooks {
    /// A title's hooks over its address table.
    pub fn new(offsets: Offsets) -> (h: Hooks)
        ensures
            h.offsets == offsets,
    {
        Hooks { offsets }
    }

    /// The accessor for this title's memory layout.
    pub fn munger(&self) -> (m: Munger)
        ensures
            m.offsets == self.offsets,
    {
        Munger { offsets: self.offsets }
    }

    /// Title-agnostic boot fixups: skip the logo, skip the title music,
    /// continue past the title menu, and force the link menu open.
    pub fn common_traps(&self) -> (r: Vec<(u32, Trap)>)
        ensures
            r@ =~= seq![
                (self.offsets.start_screen_jump_table_entry, Trap::SkipLogo),
                (self.offsets.start_screen_play_music_call, Trap::SkipCall),
                (self.offsets.start_screen_sram_unmask_ret, Trap::ContinueFromTitleMenu),
                (self.offsets.game_load_ret, Trap::OpenCommMenu),
            ],
    {
        let mut r: Vec<(u32, Trap)> = Vec::new();
        r.push((self.offsets.start_screen_jump_table_entry, Trap::SkipLogo));
        r.push((self.offsets.start_screen_play_music_call, Trap::SkipCall));
        r.push((self.offsets.start_screen_sram_unmask_ret, Trap::ContinueFromTitleMenu));
        r.push((self.offsets.game_load_ret, Trap::OpenCommMenu));
        r
    }

    /// The primary emulation's traps: menu setup, the five terminal result
    /// traps, the level-triggered round endings, the per-tick boundary, the
    /// packet exchanges, and the tick increment.
    pub fn primary_traps(&self) -> (r: Vec<(u32, Trap)>)
        ensures
            r@ =~= seq![
                (self.offsets.comm_menu_init_ret, Trap::CommMenuInit),
                (self.offsets.match_end_ret, Trap::MatchEnd),
                (self.offsets.round_end_set_win, Trap::RoundEnd(EndTrap::SetWin)),
                (self.offsets.round_end_set_loss, Trap::RoundEnd(EndTrap::SetLoss)),
                (
                    self.offsets.round_end_damage_judge_set_win,
                    Trap::RoundEnd(EndTrap::DamageJudgeSetWin),
                ),
                (
                    self.offsets.round_end_damage_judge_set_loss,
                    Trap::RoundEnd(EndTrap::DamageJudgeSetLoss),
                ),
                (
                    self.offsets.round_end_damage_judge_set_draw,
                    Trap::RoundEnd(EndTrap::DamageJudgeSetDraw),
                ),
                (self.offsets.round_ending_entry1, Trap::RoundEnding),
                (self.offsets.round_ending_entry2, Trap::RoundEnding),
                (self.offsets.round_start_ret, Trap::RoundStart),
                (self.offsets.link_is_p2_ret, Trap::LinkIsP2),
                (self.offsets.main_read_joyflags, Trap::ReadJoyflags),
                (self.offsets.handle_input_custom_send_and_receive_call, Trap::PacketExchange),
                (self.offsets.handle_input_in_turn_send_and_receive_call, Trap::PacketExchange),
                (self.offsets.comm_menu_send_and_receive_call, Trap::CommMenuPacketExchange),
                (self.offsets.init_sio_call, Trap::SkipCall),
                (self.offsets.round_call_jump_table_ret, Trap::IncrementTick),
            ],
    {
        let mut r: Vec<(u32, Trap)> = Vec::new();
        r.push((self.offsets.comm_menu_init_ret, Trap::CommMenuInit));
        r.push((self.offsets.match_end_ret, Trap::MatchEnd));
        r.push((self.offsets.round_end_set_win, Trap::RoundEnd(EndTrap::SetWin)));
        r.push((self.offsets.round_end_set_loss, Trap::RoundEnd(EndTrap::SetLoss)));
        r.push(
            (self.offsets.round_end_damage_judge_set_win, Trap::RoundEnd(
                EndTrap::DamageJudgeSetWin,
            )),
        );
        r.push(
            (self.offsets.round_end_damage_judge_set_loss, Trap::RoundEnd(
                EndTrap::DamageJudgeSetLoss,
            )),
        );
        r.push(
            (self.offsets.round_end_damage_judge_set_draw, Trap::RoundEnd(
                EndTrap::DamageJudgeSetDraw,
            )),
        );
        r.push((self.offsets.round_ending_entry1, Trap::RoundEnding));
        r.push((self.offsets.round_ending_entry2, Trap::RoundEnding));
        r.push((self.offsets.round_start_ret, Trap::RoundStart));
        r.push((self.offsets.link_is_p2_ret, Trap::LinkIsP2));
        r.push((self.offsets.main_read_joyflags, Trap::ReadJoyflags));
        r.push((self.offsets.handle_input_custom_send_and_receive_call, Trap::PacketExchange));
        r.push((self.offsets.handle_input_in_turn_send_and_receive_call, Trap::PacketExchange));
        r.push((self.offsets.comm_menu_send_and_receive_call, Trap::CommMenuPacketExchange));
        r.push((self.offsets.init_sio_call, Trap::SkipCall));
        r.push((self.offsets.round_call_jump_table_ret, Trap::IncrementTick));
        r
    }

    /// The shadow emulation's traps: the same addresses, dispatched to the
    /// shadow's transitions; the result traps are recorded through the
    /// shadow mapping, which inverts win and loss.
    pub fn shadow_traps(&self) -> (r: Vec<(u32, Trap)>)
        ensures
            r@ =~= seq![
                (self.offsets.comm_menu_init_ret, Trap::CommMenuInit),
                (self.offsets.round_start_ret, Trap::RoundStart),
                (self.offsets.round_end_set_win, Trap::RoundEnd(EndTrap::SetWin)),
                (self.offsets.round_end_set_loss, Trap::RoundEnd(EndTrap::SetLoss)),
                (
                    self.offsets.round_end_damage_judge_set_win,
                    Trap::RoundEnd(EndTrap::DamageJudgeSetWin),
                ),
                (
                    self.offsets.round_end_damage_judge_set_loss,
                    Trap::RoundEnd(EndTrap::DamageJudgeSetLoss),
                ),
                (
                    self.offsets.round_end_damage_judge_set_draw,
                    Trap::RoundEnd(EndTrap::DamageJudgeSetDraw),
                ),
                (self.offsets.round_end_entry, Trap::RoundEndEntry),
                (self.offsets.link_is_p2_ret, Trap::LinkIsP2),
                (self.offsets.main_read_joyflags, Trap::ReadJoyflags),
                (self.offsets.handle_input_custom_send_and_receive_call, Trap::PacketExchange),
                (self.offsets.handle_input_in_turn_send_and_receive_call, Trap::PacketExchange),
                (self.offsets.comm_menu_send_and_receive_call, Trap::CommMenuPacketExchange),
                (self.offsets.init_sio_call, Trap::SkipCall),
                (self.offsets.round_call_jump_table_ret, Trap::IncrementTick),
            ],
    {
        let mut r: Vec<(u32, Trap)> = Vec::new();
        r.push((self.offsets.comm_menu_init_ret, Trap::CommMenuInit));
        r.push((self.offsets.round_start_ret, Trap::RoundStart));
        r.push((self.offsets.round_end_set_win, Trap::RoundEnd(EndTrap::SetWin)));
        r.push((self.offsets.round_end_set_loss, Trap::RoundEnd(EndTrap::SetLoss)));
        r.push(
            (self.offsets.round_end_damage_judge_set_win, Trap::RoundEnd(
                EndTrap::DamageJudgeSetWin,
            )),
        );
        r.push(
            (self.offsets.round_end_damage_judge_set_loss, Trap::RoundEnd(
                EndTrap::DamageJudgeSetLoss,
            )),
        );
        r.push(
            (self.offsets.round_end_damage_judge_set_draw, Trap::RoundEnd(
                EndTrap::DamageJudgeSetDraw,
            )),
        );
        r.push((self.offsets.round_end_entry, Trap::RoundEndEntry));
        r.push((self.offsets.link_is_p2_ret, Trap::LinkIsP2));
        r.push((self.offsets.main_read_joyflags, Trap::ReadJoyflags));
        r.push((self.offsets.handle_input_custom_send_and_receive_call, Trap::PacketExchange));
        r.push((self.offsets.handle_input_in_turn_send_and_receive_call, Trap::PacketExchange));
        r.push((self.offsets.comm_menu_send_and_receive_call, Trap::CommMenuPacketExchange));
        r.push((self.offsets.init_sio_call, Trap::SkipCall));
        r.push((self.offsets.round_call_jump_table_ret, Trap::IncrementTick));
        r
    }

    /// The replayer's traps: no network, no menu; the recorded stream feeds
    /// the exchanges and the results are recorded directly.
    pub fn replayer_traps(&self) -> (r: Vec<(u32, Trap)>)
        ensures
            r@ =~= seq![
                (self.offsets.battle_start_play_music_call, Trap::BattleStartMusic),
                (self.offsets.link_is_p2_ret, Trap::LinkIsP2),
                (self.offsets.round_ending_entry1, Trap::RoundEnding),
                (self.offsets.round_ending_entry2, Trap::RoundEnding),
                (self.offsets.round_end_entry, Trap::RoundEndEntry),
                (self.offsets.main_read_joyflags, Trap::ReadJoyflags),
                (self.offsets.handle_input_custom_send_and_receive_call, Trap::PacketExchange),
                (self.offsets.handle_input_in_turn_send_and_receive_call, Trap::PacketExchange),
                (self.offsets.round_call_jump_table_ret, Trap::IncrementTick),
                (self.offsets.round_end_set_win, Trap::RoundEnd(EndTrap::SetWin)),
                (self.offsets.round_end_set_loss, Trap::RoundEnd(EndTrap::SetLoss)),
                (
                    self.offsets.round_end_damage_judge_set_win,
                    Trap::RoundEnd(EndTrap::DamageJudgeSetWin),
                ),
                (
                    self.offsets.round_end_damage_judge_set_loss,
                    Trap::RoundEnd(EndTrap::DamageJudgeSetLoss),
                ),
                (
                    self.offsets.round_end_damage_judge_set_draw,
                    Trap::RoundEnd(EndTrap::DamageJudgeSetDraw),
                ),
            ],
    {
        let mut r: Vec<(u32, Trap)> = Vec::new();
        r.push((self.offsets.battle_start_play_music_call, Trap::BattleStartMusic));
        r.push((self.offsets.link_is_p2_ret, Trap::LinkIsP2));
        r.push((self.offsets.round_ending_entry1, Trap::RoundEnding));
        r.push((self.offsets.round_ending_entry2, Trap::RoundEnding));
        r.push((self.offsets.round_end_entry, Trap::RoundEndEntry));
        r.push((self.offsets.main_read_joyflags, Trap::ReadJoyflags));
        r.push((self.offsets.handle_input_custom_send_and_receive_call, Trap::PacketExchange));
        r.push((self.offsets.handle_input_in_turn_send_and_receive_call, Trap::PacketExchange));
        r.push((self.offsets.round_call_jump_table_ret, Trap::IncrementTick));
        r.push((self.offsets.round_end_set_win, Trap::RoundEnd(EndTrap::SetWin)));
        r.push((self.offsets.round_end_set_loss, Trap::RoundEnd(EndTrap::SetLoss)));
        r.push(
            (self.offsets.round_end_damage_judge_set_win, Trap::RoundEnd(
                EndTrap::DamageJudgeSetWin,
            )),
        );
        r.push(
            (self.offsets.round_end_damage_judge_set_loss, Trap::RoundEnd(
                EndTrap::DamageJudgeSetLoss,
            )),
        );
        r.push(
            (self.offsets.round_end_damage_judge_set_draw, Trap::RoundEnd(
                EndTrap::DamageJudgeSetDraw,
            )),
        );
        r
    }

    /// Sets a reloaded emulation up to resume at the per-tick input read:
    /// the address the host must point the program counter at.
    pub fn prepare_for_fastforward(&self) -> (r: u32)
        ensures
            r == self.offsets.main_read_joyflags,
    {
        self.offsets.main_read_joyflags
    }

    /// Advances a predicted packet one tick: a sequenced payload carries
    /// its counter in the four bytes at the sequence offset, and prediction
    /// bumps only that counter. Other payload kinds are left untouched.
    pub fn predict_rx(&self, rx: &mut Vec<u8>)
        requires
            old(rx)@.len() >= 16,
        ensures
            final(rx)@.len() == old(rx)@.len(),
            old(rx)@[0] == 5 ==> final(rx)@ =~= old(rx)@.subrange(0, 12)
                + vstd::bytes::spec_u32_to_le_bytes(
                vstd::bytes::spec_u32_from_le_bytes(old(rx)@.subrange(12, 16)).wrapping_add(1),
            ) + old(rx)@.subrange(16, old(rx)@.len() as int),
            old(rx)@[0] != 5 ==> final(rx)@ =~= old(rx)@,
    {
        if rx[0] != 5 {
            return ;
        }
        let seqnum = vstd::bytes::u32_from_le_bytes(vstd::slice::slice_subrange(
            rx.as_slice(),
            12,
            16,
        ));
        let bumped = vstd::bytes::u32_to_le_bytes(seqnum.wrapping_add(1));
        rx.set(12, bumped[0]);
        rx.set(13, bumped[1]);
        rx.set(14, bumped[2]);
        rx.set(15, bumped[3]);
        proof {
            vstd::bytes::lemma_auto_spec_u32_to_from_le_bytes();
            assert(rx@ =~= old(rx)@.subrange(0, 12) + vstd::bytes::spec_u32_to_le_bytes(
                seqnum.wrapping_add(1),
            ) + old(rx)@.subrange(16, old(rx)@.len() as int));
        }
    }
}

/// The seed the RNG-state chain starts from.
pub const RNG_STATE_SEED: u32 = 0xa338244f;

/// One step of the cartridge's RNG-state recurrence.
pub open spec fn spec_step_rng(seed: u32) -> u32 {
    ((seed << 1).wrapping_add(seed >> 31).wrapping_add(1)) ^ 0x873ca9e5
}

/// One step of the cartridge's RNG-state recurrence: a shift-and-carry
/// update XOR'd with a fixed mask.
pub fn step_rng(seed: u32) -> (r: u32)
    ensures
        r == spec_step_rng(seed),
{
    ((seed << 1u32).wrapping_add(seed >> 31u32).wrapping_add(1)) ^ 0x873ca9e5
}

/// The RNG state after walking the chain a given number of steps from the
/// fixed seed.
pub open spec fn spec_rng_state_after(steps: nat) -> u32
    decreases steps,
{
    if steps == 0 {
        RNG_STATE_SEED
    } else {
        spec_step_rng(spec_rng_state_after((steps - 1) as nat))
    }
}

/// Walks the RNG-state chain a given number of steps from the fixed seed.
/// Both peers derive the step counts from the shared nonce-seeded
/// generator, so equal counts give them equal states.
pub fn rng_state_after(steps: u32) -> (r: u32)
    ensures
        r == spec_rng_state_after(steps as nat),
{
    let mut state: u32 = RNG_STATE_SEED;
    let mut i: u32 = 0;
    while i < steps
        invariant
            i <= steps,
            state == spec_rng_state_after(i as nat),
        decreases steps - i,
    {
        state = step_rng(state);
        i = i + 1;
    }
    state
}

/// Relies on rand's `Rng::gen_range` over `0..bound`: a draw from that
/// range, which is non-empty because the bound is positive.
#[verifier::external_body]
fn gen_range_below(rng: &mut rand::rngs::StdRng, bound: u32) -> (r: u32)
    requires
        bound >= 1,
    ensures
        r < bound,
{
    rand::Rng::gen_range(rng, 0..bound)
}

/// The rand crate's standard generator, declared so values of it can cross
/// this library's signatures. The library sees nothing inside it; each
/// match seeds one from the shared handshake nonce, so the two peers'
/// generators walk in step.
#[verifier::external_type_specification]
#[verifier::external_body]
pub struct ExStdRng(rand::rngs::StdRng);

/// How many steps of the RNG-state chain a generated state may walk.
pub const MAX_RNG_STATE_STEPS: u32 = 0x10000;

/// Draws a number of steps from the shared generator and walks the chain
/// that far: the result is some state within the first `0x10000` links, and
/// both peers drawing the same count reach the same state.
pub fn generate_rng_state(rng: &mut rand::rngs::StdRng) -> (r: u32)
    ensures
        exists|k: nat| k < MAX_RNG_STATE_STEPS && r == spec_rng_state_after(k),
{
    let steps = gen_range_below(rng, MAX_RNG_STATE_STEPS);
    let r = rng_state_after(steps);
    proof {
        assert((steps as nat) < MAX_RNG_STATE_STEPS && r == spec_rng_state_after(steps as nat));
    }
    r
}

/// The battle backgrounds a round may open on.
pub open spec fn spec_battle_backgrounds() -> Seq<u8> {
    seq![0x00u8, 0x01u8, 0x02u8, 0x03u8, 0x05u8, 0x08u8, 0x15u8, 0x18u8]
}

/// Draws one of the fixed battle backgrounds from the shared generator;
/// both peers drawing the same index pick the same background.
pub fn random_background(rng: &mut rand::rngs::StdRng) -> (r: u8)
    ensures
        exists|i: int| 0 <= i < spec_battle_backgrounds().len() && r == spec_battle_backgrounds()[i],
{
    let mut table: Vec<u8> = Vec::new();
    table.push(0x00);
    table.push(0x01);
    table.push(0x02);
    table.push(0x03);
    table.push(0x05);
    table.push(0x08);
    table.push(0x15);
    table.push(0x18);
    proof {
        assert(table@ =~= spec_battle_backgrounds());
    }
    let idx = gen_range_below(rng, 8);
    let r = table[idx as usize];
    proof {
        assert(r == spec_battle_backgrounds()[idx as int]);
    }
    r
}

/// The fixed payload fed to both link slots while the link menu runs.
pub open spec fn spec_init_rx() -> Seq<u8> {
    seq![
        0x00u8,
        0x04u8,
        0x00u8,
        0xffu8,
        0xffu8,
        0xffu8,
        0x04u8,
        0x04u8,
        0x04u8,
        0x04u8,
        0x04u8,
        0x04u8,
        0x04u8,
        0x04u8,
        0x04u8,
        0x04u8,
    ]
}

/// The fixed payload fed to both link slots while the link menu runs.
pub fn init_rx() -> (r: Vec<u8>)
    ensures
        r@ =~= spec_init_rx(),
{
    let mut r: Vec<u8> = Vec::new();
    r.push(0x00);
    r.push(0x04);
    r.push(0x00);
    r.push(0xff);
    r.push(0xff);
    r.push(0xff);
    r.push(0x04);
    r.push(0x04);
    r.push(0x04);
    r.push(0x04);
    r.push(0x04);
    r.push(0x04);
    r.push(0x04);
    r.push(0x04);
    r.push(0x04);
    r.push(0x04);
    r
}

/// The sequenced payload the replayer injects past the end of the recorded
/// stream, with the given sequence counter in its counter bytes.
pub open spec fn spec_predicted_rx(seqnum: u32) -> Seq<u8> {
    seq![
        0x05u8,
        0x00u8,
        0x00u8,
        0xfcu8,
        0x00u8,
        0x00u8,
        0x00u8,
        0xfcu8,
        0x00u8,
        0xfcu8,
        0x00u8,
        0x00u8,
    ] + vstd::bytes::spec_u32_to_le_bytes(seqnum)
}

/// Builds the predicted payload for the given sequence counter.
pub fn predicted_rx(seqnum: u32) -> (r: Vec<u8>)
    ensures
        r@ =~= spec_predicted_rx(seqnum),
{
    let mut r: Vec<u8> = Vec::new();
    r.push(0x05);
    r.push(0x00);
    r.push(0x00);
    r.push(0xfc);
    r.push(0x00);
    r.push(0x00);
    r.push(0x00);
    r.push(0xfc);
    r.push(0x00);
    r.push(0xfc);
    r.push(0x00);
    r.push(0x00);
    let mut tail = vstd::bytes::u32_to_le_bytes(seqnum);
    r.append(&mut tail);
    r
}

/// What the comm-menu trap does on the primary: draw the two candidate
/// RNG states from the shared generator in order, install the one this
/// side's role names, and open the battle on a background drawn from the
/// same generator. Both peers make the same draws, so the answerer
/// installs the offerer's leftover and both see the same background.
pub fn primary_comm_menu_init(is_offerer: bool, rng: &mut rand::rngs::StdRng) -> (r: (u32, u8))
    ensures
        exists|k: nat| k < MAX_RNG_STATE_STEPS && r.0 == spec_rng_state_after(k),
        exists|i: int|
            0 <= i < spec_battle_backgrounds().len() && r.1 == spec_battle_backgrounds()[i],
{
    let offerer_state = generate_rng_state(rng);
    let answerer_state = generate_rng_state(rng);
    let state = crate::battle::primary_rng_state(is_offerer, offerer_state, answerer_state);
    let background = random_background(rng);
    (state, background)
}

/// What the comm-menu trap does on the shadow: the same draws, but the
/// opposite state, since the shadow plays the remote's role.
pub fn shadow_comm_menu_init(is_offerer: bool, rng: &mut rand::rngs::StdRng) -> (r: (u32, u8))
    ensures
        exists|k: nat| k < MAX_RNG_STATE_STEPS && r.0 == spec_rng_state_after(k),
        exists|i: int|
            0 <= i < spec_battle_backgrounds().len() && r.1 == spec_battle_backgrounds()[i],
{
    let offerer_state = generate_rng_state(rng);
    let answerer_state = generate_rng_state(rng);
    let state = crate::battle::shadow_rng_state(is_offerer, offerer_state, answerer_state);
    let background = random_background(rng);
    (state, background)
}


} // verus!
