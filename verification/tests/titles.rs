//! The per-title adapters: trap tables, the RNG-state chain, packet
//! prediction, save parsing for the first and sixth titles, and the
//! presence payloads.

use rand::SeedableRng;
use tango::battle::EndTrap;
use tango::discord::GameInfo;
use tango::discord::make_base_activity;
use tango::discord::make_game_info;
use tango::discord::make_in_lobby_activity;
use tango::discord::make_in_progress_activity;
use tango::discord::make_looking_activity;
use tango::discord::make_single_player_activity;
use tango::game::bn1;
use tango::game::bn2;
use tango::game::bn2::Hooks;
use tango::game::bn2::Offsets;
use tango::game::bn2::Trap;
use tango::game::bn4;
use tango::game::bn6;
use tango::save::Modcard;
use tango::save::compute_save_raw_checksum;

fn sample_offsets() -> Offsets {
    Offsets {
        start_screen_jump_table_entry: 0x08000100,
        start_screen_play_music_call: 0x08000104,
        start_screen_sram_unmask_ret: 0x08000108,
        game_load_ret: 0x0800010c,
        comm_menu_init_ret: 0x08000110,
        match_end_ret: 0x08000114,
        round_end_set_win: 0x08000118,
        round_end_set_loss: 0x0800011c,
        round_end_damage_judge_set_win: 0x08000120,
        round_end_damage_judge_set_loss: 0x08000124,
        round_end_damage_judge_set_draw: 0x08000128,
        round_ending_entry1: 0x0800012c,
        round_ending_entry2: 0x08000130,
        round_end_entry: 0x08000134,
        round_start_ret: 0x08000138,
        link_is_p2_ret: 0x0800013c,
        main_read_joyflags: 0x08000140,
        handle_input_custom_send_and_receive_call: 0x08000144,
        handle_input_in_turn_send_and_receive_call: 0x08000148,
        comm_menu_send_and_receive_call: 0x0800014c,
        init_sio_call: 0x08000150,
        round_call_jump_table_ret: 0x08000154,
        battle_start_play_music_call: 0x08000158,
    }
}

#[test]
fn trap_tables_bind_expected_kinds() {
    let hooks = Hooks::new(sample_offsets());
    let common = hooks.common_traps();
    assert_eq!(common.len(), 4);
    assert_eq!(common[0], (0x08000100, Trap::SkipLogo));

    let primary = hooks.primary_traps();
    assert_eq!(primary.len(), 17);
    assert_eq!(primary[0], (0x08000110, Trap::CommMenuInit));
    assert_eq!(primary[2], (0x08000118, Trap::RoundEnd(EndTrap::SetWin)));
    assert_eq!(primary[11], (0x08000140, Trap::ReadJoyflags));
    assert_eq!(primary[16], (0x08000154, Trap::IncrementTick));

    let shadow = hooks.shadow_traps();
    assert_eq!(shadow.len(), 15);
    assert_eq!(shadow[7], (0x08000134, Trap::RoundEndEntry));

    let replayer = hooks.replayer_traps();
    assert_eq!(replayer.len(), 14);
    assert_eq!(replayer[0], (0x08000158, Trap::BattleStartMusic));

    assert_eq!(hooks.prepare_for_fastforward(), 0x08000140);
    assert_eq!(hooks.munger().offsets.main_read_joyflags, 0x08000140);
}

#[test]
fn rng_step_has_expected_value() {
    assert_eq!(bn2::step_rng(0xa338244f), 0xc14ce145);
    assert_eq!(bn2::rng_state_after(0), 0xa338244f);
    assert_eq!(bn2::rng_state_after(1), 0xc14ce145);
    assert_eq!(bn2::rng_state_after(2), bn2::step_rng(0xc14ce145));
}

#[test]
fn generated_rng_state_lies_on_the_chain() {
    let mut rng = rand::rngs::StdRng::seed_from_u64(12345);
    let state = bn2::generate_rng_state(&mut rng);
    let mut cursor = 0xa338244fu32;
    let mut found = false;
    for _ in 0..0x10000 {
        if cursor == state {
            found = true;
            break;
        }
        cursor = bn2::step_rng(cursor);
    }
    assert!(found, "the generated state must lie within the first 0x10000 links");
}

#[test]
fn background_is_drawn_from_the_fixed_set() {
    let mut rng = rand::rngs::StdRng::seed_from_u64(99);
    for _ in 0..64 {
        let bg = bn2::random_background(&mut rng);
        assert!([0x00, 0x01, 0x02, 0x03, 0x05, 0x08, 0x15, 0x18].contains(&bg));
    }
}

#[test]
fn prediction_bumps_only_the_sequence_counter() {
    let hooks = Hooks::new(sample_offsets());
    let mut rx = vec![
        0x05, 0x00, 0x00, 0xfc, 0x00, 0x00, 0x00, 0xfc, 0x00, 0xfc, 0x00, 0x00, 0x07, 0x00,
        0x00, 0x00,
    ];
    hooks.predict_rx(&mut rx);
    assert_eq!(&rx[12..16], &[0x08, 0x00, 0x00, 0x00]);
    assert_eq!(&rx[..12], &[0x05, 0x00, 0x00, 0xfc, 0x00, 0x00, 0x00, 0xfc, 0x00, 0xfc, 0x00, 0x00]);

    let mut other = vec![0x04; 16];
    hooks.predict_rx(&mut other);
    assert_eq!(other, vec![0x04; 16]);
}

#[test]
fn predicted_payload_carries_the_counter() {
    let rx = bn2::predicted_rx(0x01020304);
    assert_eq!(rx.len(), 16);
    assert_eq!(rx[0], 0x05);
    assert_eq!(&rx[12..16], &[0x04, 0x03, 0x02, 0x01]);
    assert_eq!(bn2::init_rx().len(), 16);
    assert_eq!(bn2::init_rx()[1], 0x04);
}

#[test]
fn raw_checksum_counts_everything_but_itself() {
    let mut buf = vec![0u8; 16];
    buf[0] = 1;
    buf[1] = 2;
    buf[8] = 0xff;
    buf[9] = 0xff;
    // The checksum word lies at offset 8: its bytes are left out.
    assert_eq!(compute_save_raw_checksum(&buf, 8), 3);
}

fn bn1_save_image(region_name: &[u8]) -> Vec<u8> {
    let mut buf = vec![0u8; 0x2308];
    buf[0x3fc..0x3fc + 20].copy_from_slice(region_name);
    let sum: u32 = buf.iter().map(|b| *b as u32).sum();
    let checksum = sum.wrapping_add(0x16);
    buf[0x3f0..0x3f4].copy_from_slice(&checksum.to_le_bytes());
    buf
}

#[test]
fn bn1_save_parses_and_identifies() {
    let buf = bn1_save_image(b"ROCKMAN EXE 20010120");
    let save = bn1::Save::new(&buf).unwrap();
    assert_eq!(save.game_info().unwrap().region, bn1::Region::JP);
    assert_eq!(save.checksum(), save.compute_checksum());

    let buf = bn1_save_image(b"ROCKMAN EXE 20010727");
    let save = bn1::Save::new(&buf).unwrap();
    assert_eq!(save.game_info().unwrap().region, bn1::Region::US);
}

#[test]
fn bn1_save_rejections() {
    assert_eq!(bn1::Save::new(&[0u8; 16]).err(), Some(bn1::SaveError::WrongSize));
    let buf = bn1_save_image(b"SOMETHING ELSE 12345");
    assert_eq!(bn1::Save::new(&buf).err(), Some(bn1::SaveError::UnknownGameName));
    let mut buf = bn1_save_image(b"ROCKMAN EXE 20010120");
    buf[0] ^= 0xff;
    assert_eq!(bn1::Save::new(&buf).err(), Some(bn1::SaveError::ChecksumMismatch));
}

#[test]
fn bn1_chip_reads_folder_bytes() {
    let mut buf = bn1_save_image(b"ROCKMAN EXE 20010120");
    buf[0x1c0] = 0x2a;
    buf[0x1c1] = 0x02;
    let sum: u32 = buf.iter().map(|b| *b as u32).sum();
    let checksum = sum
        .wrapping_sub(buf[0x3f0] as u32)
        .wrapping_sub(buf[0x3f1] as u32)
        .wrapping_sub(buf[0x3f2] as u32)
        .wrapping_sub(buf[0x3f3] as u32)
        .wrapping_add(0x16);
    buf[0x3f0..0x3f4].copy_from_slice(&checksum.to_le_bytes());
    let save = bn1::Save::new(&buf).unwrap();
    let chips = save.view_chips();
    let chip = chips.chip(0, 0).unwrap();
    assert_eq!(chip.id, 0x2a);
    assert_eq!(chip.code, 'C');
    assert!(chips.chip(1, 0).is_none());
    assert!(chips.chip(0, 31).is_none());
    assert_eq!(chips.num_folders(), 1);
    assert_eq!(chips.equipped_folder_index(), 0);
    assert!(!chips.regular_chip_is_in_place());
}

fn bn6_flash_dump(name: &[u8], variant_offset: u32) -> Vec<u8> {
    // With a zero mask word, the masked and unmasked images coincide.
    let mut image = vec![0u8; 0x6710];
    image[0x1c70..0x1c70 + 20].copy_from_slice(name);
    image[0x1c09] = 1;  // one folder
    let sum: u32 = image.iter().map(|b| *b as u32).sum();
    let checksum = sum.wrapping_add(variant_offset);
    image[0x1c6c..0x1c70].copy_from_slice(&checksum.to_le_bytes());
    let mut dump = vec![0u8; 0x100 + 0x6710];
    dump[0x100..0x100 + 0x6710].copy_from_slice(&image);
    dump
}

#[test]
fn bn6_save_parses_and_identifies() {
    let dump = bn6_flash_dump(b"REXE6 G 20050924a JP", 0x72);
    let save = bn6::Save::new(&dump).unwrap();
    assert_eq!(save.game_info().region, bn6::Region::JP);
    assert_eq!(save.game_info().variant, bn6::Variant::Gregar);

    let dump = bn6_flash_dump(b"REXE6 F 20060110a US", 0x18);
    let save = bn6::Save::new(&dump).unwrap();
    assert_eq!(save.game_info().region, bn6::Region::US);
    assert_eq!(save.game_info().variant, bn6::Variant::Falzar);
}

#[test]
fn bn6_save_rejections() {
    assert_eq!(bn6::Save::new(&[0u8; 64]).err(), Some(bn6::SaveError::WrongSize));
    let dump = bn6_flash_dump(b"NOT A REAL GAME NAME", 0x72);
    assert_eq!(bn6::Save::new(&dump).err(), Some(bn6::SaveError::UnknownGameName));
    let mut dump = bn6_flash_dump(b"REXE6 G 20050924a JP", 0x72);
    dump[0x100] ^= 0x01;
    assert_eq!(bn6::Save::new(&dump).err(), Some(bn6::SaveError::ChecksumMismatch));
}

#[test]
fn bn6_save_re_encodes_and_re_parses() {
    let dump = bn6_flash_dump(b"REXE6 G 20050924a JP", 0x72);
    let save = bn6::Save::new(&dump).unwrap();
    let out = save.to_vec();
    assert_eq!(out.len(), 65536);
    let again = bn6::Save::new(&out).unwrap();
    assert_eq!(again.as_raw_wram(), save.as_raw_wram());
    assert_eq!(again.game_info(), save.game_info());
}

#[test]
fn bn6_from_wram_keeps_the_image() {
    let image = vec![0x5au8; 0x6710];
    let save = bn6::Save::from_wram(&image, bn6::GameInfo {
        region: bn6::Region::US,
        variant: bn6::Variant::Gregar,
    })
    .unwrap();
    assert_eq!(save.as_raw_wram(), &image);
    assert_eq!(
        bn6::Save::from_wram(&[0u8; 4], bn6::GameInfo {
            region: bn6::Region::US,
            variant: bn6::Variant::Gregar,
        })
        .err(),
        Some(bn6::SaveError::WrongSize)
    );
}

#[test]
fn bn6_views_read_their_bytes() {
    let mut dump = bn6_flash_dump(b"REXE6 G 20050924a JP", 0x72);
    // A chip word: id 0x11f, code index 2 ('C').
    let raw: u16 = (2 << 9) | 0x11f;
    dump[0x100 + 0x2178..0x100 + 0x217a].copy_from_slice(&raw.to_le_bytes());
    // One modification card: id 5, enabled.
    dump[0x100 + 0x65f0] = 1;
    dump[0x100 + 0x6620] = 5;
    // One navi customizer part: id 3, variant 1, at (2, 4), rotation 1.
    dump[0x100 + 0x4150] = 3 * 4 + 1;
    dump[0x100 + 0x4153] = 2;
    dump[0x100 + 0x4154] = 4;
    dump[0x100 + 0x4155] = 1;
    dump[0x100 + 0x4156] = 1;
    // Recompute the checksum over the edited image.
    let sum: u32 = dump[0x100..0x100 + 0x6710].iter().map(|b| *b as u32).sum();
    let stored: u32 = dump[0x100 + 0x1c6c..0x100 + 0x1c70]
        .iter()
        .map(|b| *b as u32)
        .sum();
    let checksum = sum.wrapping_sub(stored).wrapping_add(0x72);
    dump[0x100 + 0x1c6c..0x100 + 0x1c70].copy_from_slice(&checksum.to_le_bytes());

    let save = bn6::Save::new(&dump).unwrap();
    let chips = save.view_chips();
    assert_eq!(chips.num_folders(), 1);
    assert!(chips.regular_chip_is_in_place());
    let chip = chips.chip(0, 0).unwrap();
    assert_eq!(chip.id, 0x11f);
    assert_eq!(chip.code, 'C');
    assert!(chips.chip(1, 0).is_none());

    let cards = save.view_modcards().unwrap();
    assert_eq!(cards.count(), 1);
    assert_eq!(cards.modcard(0), Some(Modcard { id: 5, enabled: true }));
    assert_eq!(cards.modcard(1), None);

    let ncp = save.view_navicust();
    assert_eq!(ncp.width(), 7);
    assert_eq!(ncp.height(), 7);
    assert_eq!(ncp.command_line(), 3);
    assert!(ncp.has_out_of_bounds());
    let part = ncp.navicust_part(0).unwrap();
    assert_eq!(part.id, 3);
    assert_eq!(part.variant, 1);
    assert_eq!(part.col, 2);
    assert_eq!(part.row, 4);
    assert_eq!(part.rot, 1);
    assert!(part.compressed);
    assert!(ncp.navicust_part(1).is_none());
    assert!(ncp.navicust_part(25).is_none());

    assert_eq!(save.view_navi().navi(), 0);

    // The overseas release carries no modification cards.
    let dump = bn6_flash_dump(b"REXE6 G 20060110a US", 0x72);
    let save = bn6::Save::new(&dump).unwrap();
    assert!(save.view_modcards().is_none());
}

#[test]
fn bn4_titles_carry_their_identities() {
    let (code, rev) = bn4::Title::Exe4Rs.rom_code_and_revision();
    assert_eq!(code, b"B4WJ".to_vec());
    assert_eq!(rev, 0x01);
    let (code, rev) = bn4::Title::Bn4Bm.rom_code_and_revision();
    assert_eq!(code, b"B4BE".to_vec());
    assert_eq!(rev, 0x00);

    assert_eq!(bn4::Title::Exe4Rs.family_and_variant(), ("exe4", 0));
    assert_eq!(bn4::Title::Bn4Rs.family_and_variant(), ("bn4", 0));
    assert_eq!(bn4::Title::Exe4Bm.expected_crc32(), 0xed7c5b50);
    assert_eq!(bn4::Title::Bn4Rs.expected_crc32(), 0x2120695c);
    assert_eq!(bn4::Title::Exe4Rs.match_types(), vec![2, 2]);
}

#[test]
fn bn4_save_compatibility_gate() {
    let rs_jp = bn4::GameInfo { region: bn4::Region::JP, variant: bn4::Variant::RedSun };
    let rs_any = bn4::GameInfo { region: bn4::Region::Any, variant: bn4::Variant::RedSun };
    let bm_us = bn4::GameInfo { region: bn4::Region::US, variant: bn4::Variant::BlueMoon };
    assert!(bn4::Title::Exe4Rs.save_compatible(rs_jp));
    assert!(bn4::Title::Exe4Rs.save_compatible(rs_any));
    assert!(!bn4::Title::Exe4Rs.save_compatible(bm_us));
    assert!(!bn4::Title::Bn4Rs.save_compatible(rs_jp));
    assert!(bn4::Title::Bn4Bm.save_compatible(bm_us));
}

#[test]
fn base_activity_mirrors_game_info() {
    let a = make_base_activity(Some(GameInfo {
        title: "exe4 + patch v1.0.0".to_owned(),
        family: "exe4".to_owned(),
    }));
    assert_eq!(a.details.as_deref(), Some("exe4 + patch v1.0.0"));
    let assets = a.assets.unwrap();
    assert_eq!(assets.small_image.as_deref(), Some("logo"));
    assert_eq!(assets.small_text.as_deref(), Some("Tango"));
    assert_eq!(assets.large_image.as_deref(), Some("exe4"));
    assert_eq!(assets.large_text.as_deref(), Some("exe4 + patch v1.0.0"));
    assert!(a.state.is_none());
    assert!(a.party.is_none());

    let a = make_base_activity(None);
    assert!(a.details.is_none());
    let assets = a.assets.unwrap();
    assert!(assets.large_image.is_none());
    assert!(assets.large_text.is_none());
}

#[test]
fn comm_menu_draws_agree_across_the_link() {
    // Both peers seed their generator from the shared nonce: model that
    // with the same seed on both sides. Side A offers, side B answers.
    let mut rng_a = rand::rngs::StdRng::seed_from_u64(7);
    let mut rng_b = rand::rngs::StdRng::seed_from_u64(7);
    let (state_a, bg_a) = bn2::primary_comm_menu_init(true, &mut rng_a);
    let (state_b_shadow, bg_b) = bn2::shadow_comm_menu_init(false, &mut rng_b);
    // B's shadow emulates A's seat, so it must install A's state; and both
    // sides must open on the same background.
    assert_eq!(state_a, state_b_shadow);
    assert_eq!(bg_a, bg_b);

    let mut rng_a = rand::rngs::StdRng::seed_from_u64(7);
    let mut rng_b = rand::rngs::StdRng::seed_from_u64(7);
    let (state_b, _) = bn2::primary_comm_menu_init(false, &mut rng_b);
    let (state_a_shadow, _) = bn2::shadow_comm_menu_init(true, &mut rng_a);
    assert_eq!(state_b, state_a_shadow);
}

#[test]
fn presence_activities_carry_their_fields() {
    let gi = make_game_info("exe4".to_owned(), "exe4".to_owned(), Some(("patch", "1.0.0")));
    assert_eq!(gi.title, "exe4 + patch v1.0.0");
    assert_eq!(gi.family, "exe4");
    let gi = make_game_info("bn4".to_owned(), "bn4".to_owned(), None);
    assert_eq!(gi.title, "bn4");

    let a = make_looking_activity("ABCD", "looking".to_owned(), None);
    assert_eq!(a.state.as_deref(), Some("looking"));
    let party = a.party.unwrap();
    assert_eq!(party.id.as_deref(), Some("party:ABCD"));
    assert_eq!(party.size, Some((1, 2)));
    assert_eq!(a.secrets.unwrap().join.as_deref(), Some("ABCD"));

    let a = make_single_player_activity(Some(123456), "solo".to_owned(), None);
    let ts = a.timestamps.unwrap();
    assert_eq!(ts.start, Some(123456));
    assert_eq!(ts.end, None);
    assert!(a.party.is_none());

    let a = make_in_lobby_activity("ABCD", "lobby".to_owned(), None);
    assert_eq!(a.party.unwrap().size, Some((2, 2)));
    assert!(a.timestamps.is_none());

    let a = make_in_progress_activity("ABCD", Some(9), "playing".to_owned(), None);
    assert_eq!(a.party.unwrap().size, Some((2, 2)));
    assert_eq!(a.timestamps.unwrap().start, Some(9));
}
