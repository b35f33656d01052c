//! The sixth title's save data: an SRAM image stored XOR-masked inside a
//! larger flash dump, identified by its stored game name and guarded by a
//! byte-sum checksum whose offset depends on the variant.

use vstd::prelude::*;
use vstd::bytes::spec_u16_from_le_bytes;
use vstd::bytes::spec_u32_from_le_bytes;
use vstd::bytes::u16_from_le_bytes;
use vstd::bytes::u32_from_le_bytes;
use vstd::slice::slice_subrange;
use vstd::slice::slice_to_vec;
use crate::save::Chip;
use crate::save::Modcard;
use crate::save::NavicustPart;
use crate::save::spec_save_raw_checksum;
use crate::save::spec_mask_save;
use crate::save::compute_save_raw_checksum;
use crate::save::mask_save;
use crate::lockstep::copy_bytes;
use crate::lockstep::bytes_eq;

verus! {

/// Where the masked SRAM image begins inside a flash dump.
pub const SRAM_START_OFFSET: usize = 0x0100;

/// The size of the SRAM image.
pub const SRAM_SIZE: usize = 0x6710;

/// Where the XOR mask word lies.
pub const MASK_OFFSET: usize = 0x1064;

/// Where the stored game name begins.
pub const GAME_NAME_OFFSET: usize = 0x1c70;

/// Where the stored checksum lies.
pub const CHECKSUM_OFFSET: usize = 0x1c6c;

/// The release the save belongs to.
#[derive(PartialEq, Eq, Structural, Debug, Clone, Copy)]
pub enum Region {
    US,
    JP,
}

/// Which of the two versions the save belongs to.
#[derive(PartialEq, Eq, Structural, Debug, Clone, Copy)]
pub enum Variant {
    Gregar,
    Falzar,
}

/// What identifies a save of this title.
#[derive(PartialEq, Eq, Structural, Debug, Clone, Copy)]
pub struct GameInfo {
    pub region: Region,
    pub variant: Variant,
}

/// Why a buffer was rejected as a save of this title.
#[derive(PartialEq, Eq, Structural, Debug, Clone, Copy)]
pub enum SaveError {
    WrongSize,
    UnknownGameName,
    ChecksumMismatch,
}

/// The stored game name for a release, 20 bytes: the shared stem, the
/// variant letter, the build date, and the region tag.
pub open spec fn spec_game_name(gi: GameInfo) -> Seq<u8> {
    seq![0x52u8, 0x45u8, 0x58u8, 0x45u8, 0x36u8, 0x20u8]
        + (if gi.variant == Variant::Gregar {
        seq![0x47u8]
    } else {
        seq![0x46u8]
    }) + seq![0x20u8] + (if gi.region == Region::JP {
        seq![
            0x32u8, 0x30u8, 0x30u8, 0x35u8, 0x30u8, 0x39u8, 0x32u8, 0x34u8, 0x61u8, 0x20u8,
            0x4au8, 0x50u8,
        ]
    } else {
        seq![
            0x32u8, 0x30u8, 0x30u8, 0x36u8, 0x30u8, 0x31u8, 0x31u8, 0x30u8, 0x61u8, 0x20u8,
            0x55u8, 0x53u8,
        ]
    })
}

/// The identity a save's stored name carries, if any.
pub open spec fn spec_game_info_of(s: Seq<u8>) -> Option<GameInfo> {
    let name = s.subrange(GAME_NAME_OFFSET as int, GAME_NAME_OFFSET + 20);
    if name == spec_game_name(GameInfo { region: Region::JP, variant: Variant::Gregar }) {
        Some(GameInfo { region: Region::JP, variant: Variant::Gregar })
    } else if name == spec_game_name(GameInfo { region: Region::JP, variant: Variant::Falzar }) {
        Some(GameInfo { region: Region::JP, variant: Variant::Falzar })
    } else if name == spec_game_name(GameInfo { region: Region::US, variant: Variant::Gregar }) {
        Some(GameInfo { region: Region::US, variant: Variant::Gregar })
    } else if name == spec_game_name(GameInfo { region: Region::US, variant: Variant::Falzar }) {
        Some(GameInfo { region: Region::US, variant: Variant::Falzar })
    } else {
        None
    }
}

/// The checksum stored in the save.
pub open spec fn spec_stored_checksum(s: Seq<u8>) -> u32 {
    spec_u32_from_le_bytes(s.subrange(CHECKSUM_OFFSET as int, CHECKSUM_OFFSET + 4))
}

/// The per-variant offset folded into the checksum.
pub open spec fn spec_variant_checksum_offset(v: Variant) -> u32 {
    if v == Variant::Gregar {
        0x72
    } else {
        0x18
    }
}

/// The checksum the save's bytes yield for its variant.
pub open spec fn spec_computed_checksum(s: Seq<u8>, v: Variant) -> u32 {
    spec_save_raw_checksum(s, CHECKSUM_OFFSET as int).wrapping_add(
        spec_variant_checksum_offset(v),
    )
}

/// What parsing a flash dump as a save of this title yields: the unmasked
/// SRAM image and its identity, or the first failed check.
pub open spec fn spec_parse(b: Seq<u8>) -> Result<(Seq<u8>, GameInfo), SaveError> {
    if b.len() < SRAM_START_OFFSET + SRAM_SIZE {
        Err(SaveError::WrongSize)
    } else {
        let t = spec_mask_save(
            b.subrange(SRAM_START_OFFSET as int, SRAM_START_OFFSET + SRAM_SIZE),
            MASK_OFFSET as int,
        );
        match spec_game_info_of(t) {
            None => Err(SaveError::UnknownGameName),
            Some(gi) => {
                if spec_stored_checksum(t) != spec_computed_checksum(t, gi.variant) {
                    Err(SaveError::ChecksumMismatch)
                } else {
                    Ok((t, gi))
                }
            },
        }
    }
}

/// The stored game name for a release.
fn game_name(gi: GameInfo) -> (r: Vec<u8>)
    ensures
        r@ =~= spec_game_name(gi),
{
    let mut r: Vec<u8> = Vec::new();
    r.push(0x52);
    r.push(0x45);
    r.push(0x58);
    r.push(0x45);
    r.push(0x36);
    r.push(0x20);
    if matches!(gi.variant, Variant::Gregar) {
        r.push(0x47);
    } else {
        r.push(0x46);
    }
    r.push(0x20);
    if matches!(gi.region, Region::JP) {
        r.push(0x32);
        r.push(0x30);
        r.push(0x30);
        r.push(0x35);
        r.push(0x30);
        r.push(0x39);
        r.push(0x32);
        r.push(0x34);
        r.push(0x61);
        r.push(0x20);
        r.push(0x4a);
        r.push(0x50);
    } else {
        r.push(0x32);
        r.push(0x30);
        r.push(0x30);
        r.push(0x36);
        r.push(0x30);
        r.push(0x31);
        r.push(0x31);
        r.push(0x30);
        r.push(0x61);
        r.push(0x20);
        r.push(0x55);
        r.push(0x53);
    }
    r
}

/// A parsed save of this title: the unmasked SRAM image and its identity.
pub struct Save {
    buf: Vec<u8>,
    game_info: GameInfo,
}

impl View for Save {
    type V = Seq<u8>;

    closed spec fn view(&self) -> Seq<u8> {
        self.buf@
    }
}

impl Save {
    /// A parsed save holds exactly one SRAM image.
    pub open spec fn wf(&self) -> bool {
        self@.len() == SRAM_SIZE
    }

    /// The identity the save was parsed or built with.
    pub closed spec fn spec_game_info(&self) -> GameInfo {
        self.game_info
    }

    /// Parses a flash dump as a save of this title: the masked SRAM region
    /// is lifted out and unmasked, its stored name must be known, and its
    /// stored checksum must match the one its bytes yield.
    pub fn new(buf: &[u8]) -> (r: Result<Save, SaveError>)
        ensures
            match r {
                Ok(s) => spec_parse(buf@) == Ok::<(Seq<u8>, GameInfo), SaveError>(
                    (s@, s.spec_game_info()),
                ) && s.wf(),
                Err(e) => spec_parse(buf@) == Err::<(Seq<u8>, GameInfo), SaveError>(e),
            },
    {
        if buf.len() < SRAM_START_OFFSET + SRAM_SIZE {
            return Err(SaveError::WrongSize);
        }
        let mut t = slice_to_vec(slice_subrange(buf, SRAM_START_OFFSET, SRAM_START_OFFSET
            + SRAM_SIZE));
        mask_save(&mut t, MASK_OFFSET);
        let game_info = match game_info_of_bytes(&t) {
            Some(gi) => gi,
            None => {
                return Err(SaveError::UnknownGameName);
            },
        };
        let save = Save { buf: t, game_info };
        if save.checksum() != save.compute_checksum() {
            return Err(SaveError::ChecksumMismatch);
        }
        Ok(save)
    }

    /// Builds a save directly from an unmasked WRAM image, trusting the
    /// caller's identity for it.
    pub fn from_wram(buf: &[u8], game_info: GameInfo) -> (r: Result<Save, SaveError>)
        ensures
            r is Ok <==> buf@.len() >= SRAM_SIZE,
            r matches Ok(s) ==> s@ == buf@.subrange(0, SRAM_SIZE as int) && s.wf()
                && s.spec_game_info() == game_info,
            r is Err ==> r == Err::<Save, SaveError>(SaveError::WrongSize),
    {
        if buf.len() < SRAM_SIZE {
            return Err(SaveError::WrongSize);
        }
        Ok(Save { buf: slice_to_vec(slice_subrange(buf, 0, SRAM_SIZE)), game_info })
    }

    /// The identity the save was parsed or built with.
    pub fn game_info(&self) -> (r: GameInfo)
        ensures
            r == self.spec_game_info(),
    {
        self.game_info
    }

    /// The checksum stored in the save.
    pub fn checksum(&self) -> (r: u32)
        requires
            self.wf(),
        ensures
            r == spec_stored_checksum(self@),
    {
        u32_from_le_bytes(slice_subrange(self.buf.as_slice(), CHECKSUM_OFFSET, CHECKSUM_OFFSET
            + 4))
    }

    /// The checksum the save's bytes yield for its variant.
    pub fn compute_checksum(&self) -> (r: u32)
        requires
            self.wf(),
        ensures
            r == spec_computed_checksum(self@, self.spec_game_info().variant),
    {
        let raw = compute_save_raw_checksum(self.buf.as_slice(), CHECKSUM_OFFSET);
        if matches!(self.game_info.variant, Variant::Gregar) {
            raw.wrapping_add(0x72)
        } else {
            raw.wrapping_add(0x18)
        }
    }

    /// Where a navi's stats block lies: region-dependent, with one block
    /// for the first navi and one shared by the rest.
    pub open spec fn spec_navi_stats_offset(&self, id: int) -> int {
        (if self.spec_game_info().region == Region::JP {
            0x478cint
        } else {
            0x47ccint
        }) + 0x64 * (if id == 0 {
            0int
        } else {
            1int
        })
    }

    /// Where a navi's stats block lies.
    pub fn navi_stats_offset(&self, id: usize) -> (r: usize)
        ensures
            r == self.spec_navi_stats_offset(id as int),
    {
        let base: usize = if matches!(self.game_info.region, Region::JP) {
            0x478c
        } else {
            0x47cc
        };
        if id == 0 {
            base
        } else {
            base + 0x64
        }
    }

    /// The raw unmasked WRAM image.
    pub fn as_raw_wram(&self) -> (r: &Vec<u8>)
        ensures
            r@ == self@,
    {
        &self.buf
    }

    /// The save re-encoded as a flash dump: a zeroed image with the masked
    /// SRAM region spliced in at its place.
    pub fn to_vec(&self) -> (r: Vec<u8>)
        requires
            self.wf(),
        ensures
            r@.len() == 65536,
            r@.subrange(SRAM_START_OFFSET as int, SRAM_START_OFFSET + SRAM_SIZE)
                =~= spec_mask_save(self@, MASK_OFFSET as int),
            forall|i: int|
                0 <= i < 65536 && !(SRAM_START_OFFSET <= i < SRAM_START_OFFSET + SRAM_SIZE)
                    ==> #[trigger] r@[i] == 0,
    {
        let mut region = copy_bytes(&self.buf);
        mask_save(&mut region, MASK_OFFSET);
        let mut out: Vec<u8> = Vec::new();
        let mut i: usize = 0;
        while i < 65536
            invariant
                i <= 65536,
                out@.len() == i,
                forall|j: int| 0 <= j < i ==> #[trigger] out@[j] == 0,
            decreases 65536 - i,
        {
            out.push(0);
            i = i + 1;
        }
        let mut k: usize = 0;
        while k < SRAM_SIZE
            invariant
                k <= SRAM_SIZE,
                out@.len() == 65536,
                region@.len() == SRAM_SIZE,
                region@ =~= spec_mask_save(self@, MASK_OFFSET as int),
                forall|j: int|
                    0 <= j < 65536 && !(SRAM_START_OFFSET <= j < SRAM_START_OFFSET + k)
                        ==> #[trigger] out@[j] == 0,
                forall|j: int|
                    0 <= j < k ==> #[trigger] out@[SRAM_START_OFFSET + j] == region@[j],
            decreases SRAM_SIZE - k,
        {
            out.set(SRAM_START_OFFSET + k, region[k]);
            k = k + 1;
        }
        proof {
            let sub = out@.subrange(SRAM_START_OFFSET as int, SRAM_START_OFFSET + SRAM_SIZE);
            assert forall|j: int| 0 <= j < SRAM_SIZE implies sub[j] == region@[j] by {
                assert(out@[SRAM_START_OFFSET + j] == region@[j]);
            }
            assert(sub =~= region@);
        }
        out
    }

    /// The chip view over this save.
    pub fn view_chips(&self) -> (r: ChipsView<'_>)
        ensures
            r.save@ == self@,
            r.save.spec_game_info() == self.spec_game_info(),
    {
        ChipsView { save: self }
    }

    /// The modification-card view, carried only by the home region's
    /// release.
    pub fn view_modcards(&self) -> (r: Option<Modcard56sView<'_>>)
        ensures
            r is Some <==> self.spec_game_info().region == Region::JP,
            r matches Some(v) ==> v.save@ == self@ && v.save.spec_game_info()
                == self.spec_game_info(),
    {
        if matches!(self.game_info.region, Region::JP) {
            Some(Modcard56sView { save: self })
        } else {
            None
        }
    }

    /// The navi customizer view over this save.
    pub fn view_navicust(&self) -> (r: NavicustView<'_>)
        ensures
            r.save@ == self@,
            r.save.spec_game_info() == self.spec_game_info(),
    {
        NavicustView { save: self }
    }

    /// The navi view over this save.
    pub fn view_navi(&self) -> (r: NaviView<'_>)
        ensures
            r.save@ == self@,
    {
        NaviView { save: self }
    }
}

/// The code letters of this title, with the wildcard at the end.
pub open spec fn spec_chip_codes() -> Seq<u8> {
    seq![
        0x41u8, 0x42u8, 0x43u8, 0x44u8, 0x45u8, 0x46u8, 0x47u8, 0x48u8, 0x49u8, 0x4au8,
        0x4bu8, 0x4cu8, 0x4du8, 0x4eu8, 0x4fu8, 0x50u8, 0x51u8, 0x52u8, 0x53u8, 0x54u8,
        0x55u8, 0x56u8, 0x57u8, 0x58u8, 0x59u8, 0x5au8, 0x2au8,
    ]
}

/// The folder contents of a save of this title.
pub struct ChipsView<'a> {
    pub save: &'a Save,
}

impl<'a> ChipsView<'a> {
    /// How many folders the save holds.
    pub fn num_folders(&self) -> (r: usize)
        requires
            self.save.wf(),
        ensures
            r == self.save@[0x1c09],
    {
        self.save.buf[0x1c09] as usize
    }

    /// Which navi the save fields, deciding whose stats block applies.
    fn navi(&self) -> (r: usize)
        requires
            self.save.wf(),
        ensures
            r == self.save@[0x1b81],
    {
        self.save.buf[0x1b81] as usize
    }

    /// The folder the fielded navi has equipped.
    pub fn equipped_folder_index(&self) -> (r: usize)
        requires
            self.save.wf(),
        ensures
            r == self.save@[self.save.spec_navi_stats_offset(self.save@[0x1b81] as int) + 0x2d],
    {
        let off = self.save.navi_stats_offset(self.navi());
        self.save.buf[off + 0x2d] as usize
    }

    /// This title keeps the regular chip in place.
    pub fn regular_chip_is_in_place(&self) -> (r: bool)
        ensures
            r == true,
    {
        true
    }

    /// This title's chips carry memory costs.
    pub fn chips_have_mb(&self) -> (r: bool)
        ensures
            r == true,
    {
        true
    }

    /// The regular chip's slot in the given folder, if one is set: a stored
    /// index past the folder's thirty slots means none.
    pub fn regular_chip_index(&self, folder_index: usize) -> (r: Option<usize>)
        requires
            self.save.wf(),
            folder_index < 3,
        ensures
            ({
                let idx = self.save@[self.save.spec_navi_stats_offset(self.save@[0x1b81] as int)
                    + 0x2e + folder_index];
                if idx >= 30 {
                    r is None
                } else {
                    r == Some(idx as usize)
                }
            }),
    {
        let off = self.save.navi_stats_offset(self.navi());
        let idx = self.save.buf[off + 0x2e + folder_index];
        if idx >= 30 {
            None
        } else {
            Some(idx as usize)
        }
    }

    /// The two tag chips' slots in the given folder, if both are set.
    pub fn tag_chip_indexes(&self, folder_index: usize) -> (r: Option<[usize; 2]>)
        requires
            self.save.wf(),
            folder_index < 3,
        ensures
            ({
                let base = self.save.spec_navi_stats_offset(self.save@[0x1b81] as int) + 0x56
                    + folder_index * 2;
                let idx1 = self.save@[base];
                let idx2 = self.save@[base + 1];
                if idx1 == 0xff || idx2 == 0xff {
                    r is None
                } else {
                    r matches Some(t) && t[0] == idx1 as usize && t[1] == idx2 as usize
                }
            }),
    {
        let off = self.save.navi_stats_offset(self.navi());
        let idx1 = self.save.buf[off + 0x56 + folder_index * 2];
        let idx2 = self.save.buf[off + 0x56 + folder_index * 2 + 1];
        if idx1 == 0xff || idx2 == 0xff {
            None
        } else {
            Some([idx1 as usize, idx2 as usize])
        }
    }

    /// The chip in the given folder slot: the low nine bits of its stored
    /// word are the id, the rest index the code letters. A stored code past
    /// the letter table names no chip.
    pub fn chip(&self, folder_index: usize, chip_index: usize) -> (r: Option<Chip>)
        requires
            self.save.wf(),
        ensures
            folder_index >= self.save@[0x1c09] || chip_index >= 30 ==> r is None,
            folder_index < self.save@[0x1c09] && chip_index < 30 ==> {
                let offset = 0x2178 + folder_index * 60 + chip_index * 2;
                let raw = spec_u16_from_le_bytes(self.save@.subrange(offset as int, offset + 2));
                if (raw >> 9) < 27 {
                    r == Some(
                        Chip {
                            id: (raw & 0x1ff) as usize,
                            code: spec_chip_codes()[(raw >> 9) as int] as char,
                        },
                    )
                } else {
                    r is None
                }
            },
    {
        if folder_index >= self.num_folders() || chip_index >= 30 {
            return None;
        }
        let offset = 0x2178 + folder_index * 60 + chip_index * 2;
        proof {
            assert(self.save@[0x1c09] <= 255);
            assert(offset + 2 <= SRAM_SIZE);
        }
        let raw = u16_from_le_bytes(slice_subrange(self.save.buf.as_slice(), offset, offset + 2));
        let code_index = (raw >> 9u16) as usize;
        if code_index >= 27 {
            return None;
        }
        let codes = chip_code_table();
        Some(Chip { id: (raw & 0x1ff) as usize, code: byte_as_char(codes[code_index]) })
    }
}

/// The code-letter table of this title.
fn chip_code_table() -> (r: Vec<u8>)
    ensures
        r@ =~= spec_chip_codes(),
{
    let mut r: Vec<u8> = Vec::new();
    let mut b: u8 = 0x41;
    while b <= 0x5a
        invariant
            0x41 <= b <= 0x5b,
            r@.len() == b - 0x41,
            forall|j: int| 0 <= j < r@.len() ==> #[trigger] r@[j] == 0x41 + j,
        decreases 0x5b - b,
    {
        r.push(b);
        b = b + 1;
    }
    r.push(0x2a);
    proof {
        assert(r@ =~= spec_chip_codes());
    }
    r
}

/// Turns a code-table byte into its letter.
fn byte_as_char(b: u8) -> (r: char)
    ensures
        r == b as char,
{
    b as char
}

/// The modification cards of a save of this title.
pub struct Modcard56sView<'a> {
    pub save: &'a Save,
}

impl<'a> Modcard56sView<'a> {
    /// How many card slots are in use. The stored count is clamped to what
    /// the card area can hold, so a corrupt count cannot push reads past
    /// it.
    pub fn count(&self) -> (r: usize)
        requires
            self.save.wf(),
        ensures
            r == if self.save@[0x65f0] <= 0xf0 {
                self.save@[0x65f0] as int
            } else {
                0xf0
            },
    {
        let c = self.save.buf[0x65f0];
        if c <= 0xf0 {
            c as usize
        } else {
            0xf0
        }
    }

    /// The card in the given slot: the low seven bits of its byte are the
    /// id, the top bit switches it off.
    pub fn modcard(&self, slot: usize) -> (r: Option<Modcard>)
        requires
            self.save.wf(),
        ensures
            ({
                let count = if self.save@[0x65f0] <= 0xf0 {
                    self.save@[0x65f0] as int
                } else {
                    0xf0
                };
                if slot >= count {
                    r is None
                } else {
                    let raw = self.save@[0x6620 + slot];
                    r == Some(Modcard { id: (raw & 0x7f) as usize, enabled: (raw >> 7) == 0 })
                }
            }),
    {
        if slot >= self.count() {
            return None;
        }
        let raw = self.save.buf[0x6620 + slot];
        Some(Modcard { id: (raw & 0x7f) as usize, enabled: (raw >> 7u8) == 0 })
    }
}

/// The navi customizer grid of a save of this title.
pub struct NavicustView<'a> {
    pub save: &'a Save,
}

impl<'a> NavicustView<'a> {
    /// The grid is seven cells wide.
    pub fn width(&self) -> (r: usize)
        ensures
            r == 7,
    {
        7
    }

    /// The grid is seven cells tall.
    pub fn height(&self) -> (r: usize)
        ensures
            r == 7,
    {
        7
    }

    /// The command line runs through the grid's fourth row.
    pub fn command_line(&self) -> (r: usize)
        ensures
            r == 3,
    {
        3
    }

    /// This title's grid has out-of-bounds cells.
    pub fn has_out_of_bounds(&self) -> (r: bool)
        ensures
            r == true,
    {
        true
    }

    /// How many part records the grid area holds.
    pub fn count(&self) -> (r: usize)
        ensures
            r == 25,
    {
        25
    }

    /// This title has no style system.
    pub fn style(&self) -> (r: Option<usize>)
        ensures
            r is None,
    {
        None
    }

    /// Where the part records lie for this save's region.
    pub open spec fn spec_ncp_offset(&self) -> int {
        if self.save.spec_game_info().region == Region::JP {
            0x4150
        } else {
            0x4190
        }
    }

    /// The part in the given record: a zero lead byte means the record is
    /// empty; otherwise the byte packs the part id and its variant, and the
    /// following bytes give its place, rotation and compression.
    pub fn navicust_part(&self, i: usize) -> (r: Option<NavicustPart>)
        requires
            self.save.wf(),
        ensures
            i >= 25 ==> r is None,
            i < 25 ==> {
                let base = self.spec_ncp_offset() + i * 8;
                let raw = self.save@[base];
                if raw == 0 {
                    r is None
                } else {
                    r == Some(
                        NavicustPart {
                            id: (raw / 4) as usize,
                            variant: (raw % 4) as usize,
                            col: self.save@[base + 3],
                            row: self.save@[base + 4],
                            rot: self.save@[base + 5],
                            compressed: self.save@[base + 6] != 0,
                        },
                    )
                }
            },
    {
        if i >= 25 {
            return None;
        }
        let base: usize = if matches!(self.save.game_info.region, Region::JP) {
            0x4150
        } else {
            0x4190
        } + i * 8;
        let raw = self.save.buf[base];
        if raw == 0 {
            return None;
        }
        Some(
            NavicustPart {
                id: (raw / 4) as usize,
                variant: (raw % 4) as usize,
                col: self.save.buf[base + 3],
                row: self.save.buf[base + 4],
                rot: self.save.buf[base + 5],
                compressed: self.save.buf[base + 6] != 0,
            },
        )
    }
}

/// The navi selection of a save of this title.
pub struct NaviView<'a> {
    pub save: &'a Save,
}

impl<'a> NaviView<'a> {
    /// Which navi the save fields.
    pub fn navi(&self) -> (r: usize)
        requires
            self.save.wf(),
        ensures
            r == self.save@[0x1b81],
    {
        self.save.buf[0x1b81] as usize
    }
}

/// Looks up the identity a raw image's stored name carries.
fn game_info_of_bytes(t: &Vec<u8>) -> (r: Option<GameInfo>)
    requires
        t@.len() == SRAM_SIZE,
    ensures
        r == spec_game_info_of(t@),
{
    let name = slice_subrange(t.as_slice(), GAME_NAME_OFFSET, GAME_NAME_OFFSET + 20);
    let jg = game_name(GameInfo { region: Region::JP, variant: Variant::Gregar });
    if bytes_eq(name, jg.as_slice()) {
        return Some(GameInfo { region: Region::JP, variant: Variant::Gregar });
    }
    let jf = game_name(GameInfo { region: Region::JP, variant: Variant::Falzar });
    if bytes_eq(name, jf.as_slice()) {
        return Some(GameInfo { region: Region::JP, variant: Variant::Falzar });
    }
    let ug = game_name(GameInfo { region: Region::US, variant: Variant::Gregar });
    if bytes_eq(name, ug.as_slice()) {
        return Some(GameInfo { region: Region::US, variant: Variant::Gregar });
    }
    let uf = game_name(GameInfo { region: Region::US, variant: Variant::Falzar });
    if bytes_eq(name, uf.as_slice()) {
        return Some(GameInfo { region: Region::US, variant: Variant::Falzar });
    }
    None
}

} // verus!
