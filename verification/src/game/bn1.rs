//! The first title's save data: a fixed-size SRAM image identified by its
//! stored game name and guarded by a byte-sum checksum.

use vstd::prelude::*;
use vstd::bytes::spec_u32_from_le_bytes;
use vstd::bytes::u32_from_le_bytes;
use vstd::slice::slice_subrange;
use vstd::slice::slice_to_vec;
use crate::lockstep::bytes_eq;
use crate::save::Chip;
use crate::save::spec_save_raw_checksum;
use crate::save::compute_save_raw_checksum;

verus! {

/// The size of the SRAM image.
pub const SRAM_SIZE: usize = 0x2308;

/// Where the stored game name begins.
pub const GAME_NAME_OFFSET: usize = 0x03fc;

/// Where the stored checksum lies.
pub const CHECKSUM_OFFSET: usize = 0x03f0;

/// The release the save belongs to.
#[derive(PartialEq, Eq, Structural, Debug, Clone, Copy)]
pub enum Region {
    US,
    JP,
}

/// What identifies a save of this title.
#[derive(PartialEq, Eq, Structural, Debug, Clone, Copy)]
pub struct GameInfo {
    pub region: Region,
}

/// Why a buffer was rejected as a save of this title.
#[derive(PartialEq, Eq, Structural, Debug, Clone, Copy)]
pub enum SaveError {
    WrongSize,
    UnknownGameName,
    ChecksumMismatch,
}

/// The stored game name of the release from the title's home region.
pub open spec fn spec_game_name_jp() -> Seq<u8> {
    seq![
        0x52u8, 0x4fu8, 0x43u8, 0x4bu8, 0x4du8, 0x41u8, 0x4eu8, 0x20u8, 0x45u8, 0x58u8, 0x45u8, 0x20u8,
        0x32u8, 0x30u8, 0x30u8, 0x31u8, 0x30u8, 0x31u8, 0x32u8, 0x30u8,
    ]
}

/// The stored game name of the overseas release.
pub open spec fn spec_game_name_us() -> Seq<u8> {
    seq![
        0x52u8, 0x4fu8, 0x43u8, 0x4bu8, 0x4du8, 0x41u8, 0x4eu8, 0x20u8, 0x45u8, 0x58u8, 0x45u8, 0x20u8,
        0x32u8, 0x30u8, 0x30u8, 0x31u8, 0x30u8, 0x37u8, 0x32u8, 0x37u8,
    ]
}

/// The region a save's stored name identifies, if any.
pub open spec fn spec_region_of(s: Seq<u8>) -> Option<Region> {
    let name = s.subrange(GAME_NAME_OFFSET as int, GAME_NAME_OFFSET + 20);
    if name == spec_game_name_jp() {
        Some(Region::JP)
    } else if name == spec_game_name_us() {
        Some(Region::US)
    } else {
        None
    }
}

/// The checksum stored in the save.
pub open spec fn spec_stored_checksum(s: Seq<u8>) -> u32 {
    spec_u32_from_le_bytes(s.subrange(CHECKSUM_OFFSET as int, CHECKSUM_OFFSET + 4))
}

/// The checksum the save's bytes yield: the raw byte sum plus this title's
/// fixed offset.
pub open spec fn spec_computed_checksum(s: Seq<u8>) -> u32 {
    spec_save_raw_checksum(s, CHECKSUM_OFFSET as int).wrapping_add(0x16)
}

/// What parsing a buffer as a save of this title yields: the SRAM image,
/// or the first failed check.
pub open spec fn spec_parse(b: Seq<u8>) -> Result<Seq<u8>, SaveError> {
    if b.len() < SRAM_SIZE {
        Err(SaveError::WrongSize)
    } else {
        let t = b.subrange(0, SRAM_SIZE as int);
        if spec_region_of(t) is None {
            Err(SaveError::UnknownGameName)
        } else if spec_stored_checksum(t) != spec_computed_checksum(t) {
            Err(SaveError::ChecksumMismatch)
        } else {
            Ok(t)
        }
    }
}

/// The stored game name of the release from the title's home region.
fn game_name_jp() -> (r: Vec<u8>)
    ensures
        r@ =~= spec_game_name_jp(),
{
    let mut r: Vec<u8> = Vec::new();
    r.push(0x52u8);
    r.push(0x4fu8);
    r.push(0x43u8);
    r.push(0x4bu8);
    r.push(0x4du8);
    r.push(0x41u8);
    r.push(0x4eu8);
    r.push(0x20u8);
    r.push(0x45u8);
    r.push(0x58u8);
    r.push(0x45u8);
    r.push(0x20u8);
    r.push(0x32u8);
    r.push(0x30u8);
    r.push(0x30u8);
    r.push(0x31u8);
    r.push(0x30u8);
    r.push(0x31u8);
    r.push(0x32u8);
    r.push(0x30u8);
    r
}

/// The stored game name of the overseas release.
fn game_name_us() -> (r: Vec<u8>)
    ensures
        r@ =~= spec_game_name_us(),
{
    let mut r: Vec<u8> = Vec::new();
    r.push(0x52u8);
    r.push(0x4fu8);
    r.push(0x43u8);
    r.push(0x4bu8);
    r.push(0x4du8);
    r.push(0x41u8);
    r.push(0x4eu8);
    r.push(0x20u8);
    r.push(0x45u8);
    r.push(0x58u8);
    r.push(0x45u8);
    r.push(0x20u8);
    r.push(0x32u8);
    r.push(0x30u8);
    r.push(0x30u8);
    r.push(0x31u8);
    r.push(0x30u8);
    r.push(0x37u8);
    r.push(0x32u8);
    r.push(0x37u8);
    r
}

/// A parsed save of this title.
pub struct Save {
    buf: Vec<u8>,
}

impl View for Save {
    type V = Seq<u8>;

    closed spec fn view(&self) -> Seq<u8> {
        self.buf@
    }
}

impl Save {
    /// A parsed save holds exactly one SRAM image.
    pub open spec fn wf(&self) -> bool {
        self@.len() == SRAM_SIZE
    }

    /// Parses a buffer as a save of this title: it must be large enough,
    /// carry a known game name, and its stored checksum must match the
    /// computed one.
    pub fn new(buf: &[u8]) -> (r: Result<Save, SaveError>)
        ensures
            match r {
                Ok(s) => spec_parse(buf@) == Ok::<Seq<u8>, SaveError>(s@) && s.wf(),
                Err(e) => spec_parse(buf@) == Err::<Seq<u8>, SaveError>(e),
            },
    {
        if buf.len() < SRAM_SIZE {
            return Err(SaveError::WrongSize);
        }
        let t = slice_to_vec(slice_subrange(buf, 0, SRAM_SIZE));
        let save = Save { buf: t };
        if save.game_info().is_err() {
            return Err(SaveError::UnknownGameName);
        }
        if save.checksum() != save.compute_checksum() {
            return Err(SaveError::ChecksumMismatch);
        }
        Ok(save)
    }

    /// The region the save's stored name identifies.
    pub fn game_info(&self) -> (r: Result<GameInfo, SaveError>)
        requires
            self.wf(),
        ensures
            match r {
                Ok(gi) => spec_region_of(self@) == Some(gi.region),
                Err(e) => spec_region_of(self@) is None && e == SaveError::UnknownGameName,
            },
    {
        let name = slice_subrange(self.buf.as_slice(), GAME_NAME_OFFSET, GAME_NAME_OFFSET + 20);
        let jp = game_name_jp();
        if bytes_eq(name, jp.as_slice()) {
            return Ok(GameInfo { region: Region::JP });
        }
        let us = game_name_us();
        if bytes_eq(name, us.as_slice()) {
            return Ok(GameInfo { region: Region::US });
        }
        Err(SaveError::UnknownGameName)
    }

    /// The checksum stored in the save.
    pub fn checksum(&self) -> (r: u32)
        requires
            self.wf(),
        ensures
            r == spec_stored_checksum(self@),
    {
        u32_from_le_bytes(slice_subrange(self.buf.as_slice(), CHECKSUM_OFFSET, CHECKSUM_OFFSET
            + 4))
    }

    /// The checksum the save's bytes yield.
    pub fn compute_checksum(&self) -> (r: u32)
        requires
            self.wf(),
        ensures
            r == spec_computed_checksum(self@),
    {
        compute_save_raw_checksum(self.buf.as_slice(), CHECKSUM_OFFSET).wrapping_add(0x16)
    }

    /// The chip view over this save.
    pub fn view_chips(&self) -> (r: ChipsView<'_>)
        ensures
            r.save@ == self@,
    {
        ChipsView { save: self }
    }
}

/// The folder contents of a save of this title.
pub struct ChipsView<'a> {
    pub save: &'a Save,
}

/// The letters chip codes are drawn from.
pub open spec fn spec_chip_codes() -> Seq<u8> {
    seq![
        0x41u8, 0x42u8, 0x43u8, 0x44u8, 0x45u8, 0x46u8, 0x47u8, 0x48u8, 0x49u8, 0x4au8, 0x4bu8, 0x4cu8, 0x4du8,
        0x4eu8, 0x4fu8, 0x50u8, 0x51u8, 0x52u8, 0x53u8, 0x54u8, 0x55u8, 0x56u8, 0x57u8, 0x58u8, 0x59u8, 0x5au8,
    ]
}

impl<'a> ChipsView<'a> {
    /// The letters chip codes are drawn from.
    pub fn chip_codes(&self) -> (r: Vec<u8>)
        ensures
            r@ =~= spec_chip_codes(),
    {
        let mut r: Vec<u8> = Vec::new();
        r.push(0x41u8);
        r.push(0x42u8);
        r.push(0x43u8);
        r.push(0x44u8);
        r.push(0x45u8);
        r.push(0x46u8);
        r.push(0x47u8);
        r.push(0x48u8);
        r.push(0x49u8);
        r.push(0x4au8);
        r.push(0x4bu8);
        r.push(0x4cu8);
        r.push(0x4du8);
        r.push(0x4eu8);
        r.push(0x4fu8);
        r.push(0x50u8);
        r.push(0x51u8);
        r.push(0x52u8);
        r.push(0x53u8);
        r.push(0x54u8);
        r.push(0x55u8);
        r.push(0x56u8);
        r.push(0x57u8);
        r.push(0x58u8);
        r.push(0x59u8);
        r.push(0x5au8);
        r
    }

    /// This title has a single folder.
    pub fn num_folders(&self) -> (r: usize)
        ensures
            r == 1,
    {
        1
    }

    /// The single folder is always the equipped one.
    pub fn equipped_folder_index(&self) -> (r: usize)
        ensures
            r == 0,
    {
        0
    }

    /// This title has no regular-chip slot.
    pub fn regular_chip_is_in_place(&self) -> (r: bool)
        ensures
            r == false,
    {
        false
    }

    /// This title has no regular-chip slot.
    pub fn regular_chip_index(&self, folder_index: usize) -> (r: Option<usize>)
        ensures
            r is None,
    {
        None
    }

    /// This title has no tag chips.
    pub fn tag_chip_indexes(&self, folder_index: usize) -> (r: Option<[usize; 2]>)
        ensures
            r is None,
    {
        None
    }

    /// The chip in the given folder slot: its id byte and the code letter
    /// its code byte indexes. A slot outside the single folder, or a code
    /// byte past the letter table, names no chip.
    pub fn chip(&self, folder_index: usize, chip_index: usize) -> (r: Option<Chip>)
        requires
            self.save.wf(),
        ensures
            folder_index > 0 || chip_index > 30 ==> r is None,
            folder_index == 0 && chip_index <= 30 ==> {
                let id = self.save@[0x01c0 + chip_index * 2];
                let code = self.save@[0x01c0 + chip_index * 2 + 1];
                if code < 26 {
                    r == Some(Chip { id: id as usize, code: spec_chip_codes()[code as int] as char })
                } else {
                    r is None
                }
            },
    {
        if folder_index > 0 || chip_index > 30 {
            return None;
        }
        let id = self.save.buf[0x01c0 + chip_index * 2];
        let code = self.save.buf[0x01c0 + chip_index * 2 + 1];
        if code >= 26 {
            return None;
        }
        let codes = self.chip_codes();
        let letter = codes[code as usize];
        Some(Chip { id: id as usize, code: byte_to_letter(letter) })
    }
}

/// The code letter a table byte stands for.
pub open spec fn spec_byte_to_letter(b: u8) -> char {
    b as char
}

/// Turns a code-table byte into its letter.
fn byte_to_letter(b: u8) -> (r: char)
    ensures
        r == spec_byte_to_letter(b),
{
    b as char
}

} // verus!
