//! The fourth title's releases: the ROM identities, series formats, and
//! save-compatibility rules of its four versions.

use vstd::prelude::*;

verus! {

/// The release a save belongs to; some saves carry no region mark.
#[derive(PartialEq, Eq, Structural, Debug, Clone, Copy)]
pub enum Region {
    US,
    JP,
    Any,
}

/// Which of the two versions a save belongs to.
#[derive(PartialEq, Eq, Structural, Debug, Clone, Copy)]
pub enum Variant {
    RedSun,
    BlueMoon,
}

/// What identifies a save of this title.
#[derive(PartialEq, Eq, Structural, Debug, Clone, Copy)]
pub struct GameInfo {
    pub region: Region,
    pub variant: Variant,
}

/// The four releases of the fourth title: the two versions, each in its
/// home and overseas release.
#[derive(PartialEq, Eq, Structural, Debug, Clone, Copy)]
pub enum Title {
    Exe4Rs,
    Exe4Bm,
    Bn4Rs,
    Bn4Bm,
}

/// The four-byte ROM code of a release.
pub open spec fn spec_rom_code(t: Title) -> Seq<u8> {
    match t {
        Title::Exe4Rs => seq![0x42u8, 0x34u8, 0x57u8, 0x4au8],
        Title::Exe4Bm => seq![0x42u8, 0x34u8, 0x42u8, 0x4au8],
        Title::Bn4Rs => seq![0x42u8, 0x34u8, 0x57u8, 0x45u8],
        Title::Bn4Bm => seq![0x42u8, 0x34u8, 0x42u8, 0x45u8],
    }
}

/// The ROM revision of a release.
pub open spec fn spec_rom_revision(t: Title) -> u8 {
    match t {
        Title::Exe4Rs => 0x01,
        Title::Exe4Bm => 0x00,
        Title::Bn4Rs => 0x00,
        Title::Bn4Bm => 0x00,
    }
}

impl Title {
    /// The four-byte ROM code and revision of this release.
    pub fn rom_code_and_revision(&self) -> (r: (Vec<u8>, u8))
        ensures
            r.0@ =~= spec_rom_code(*self),
            r.1 == spec_rom_revision(*self),
    {
        let mut code: Vec<u8> = Vec::new();
        code.push(0x42);
        code.push(0x34);
        match self {
            Title::Exe4Rs => {
                code.push(0x57);
                code.push(0x4a);
                (code, 0x01)
            },
            Title::Exe4Bm => {
                code.push(0x42);
                code.push(0x4a);
                (code, 0x00)
            },
            Title::Bn4Rs => {
                code.push(0x57);
                code.push(0x45);
                (code, 0x00)
            },
            Title::Bn4Bm => {
                code.push(0x42);
                code.push(0x45);
                (code, 0x00)
            },
        }
    }

    /// The family name and variant number of this release.
    pub fn family_and_variant(&self) -> (r: (&'static str, u8))
        ensures
            matches!(*self, Title::Exe4Rs | Title::Exe4Bm) ==> r.0@ == "exe4"@,
            matches!(*self, Title::Bn4Rs | Title::Bn4Bm) ==> r.0@ == "bn4"@,
            r.1 == spec_variant_number(*self),
    {
        match self {
            Title::Exe4Rs => ("exe4", 0),
            Title::Exe4Bm => ("exe4", 1),
            Title::Bn4Rs => ("bn4", 0),
            Title::Bn4Bm => ("bn4", 1),
        }
    }

    /// The CRC32 the release's unpatched ROM must carry.
    pub fn expected_crc32(&self) -> (r: u32)
        ensures
            r == spec_expected_crc32(*self),
    {
        match self {
            Title::Exe4Rs => 0xcf0e8b05,
            Title::Exe4Bm => 0xed7c5b50,
            Title::Bn4Rs => 0x2120695c,
            Title::Bn4Bm => 0x758a46e9,
        }
    }

    /// The series formats this title offers: two choices of two rounds.
    pub fn match_types(&self) -> (r: Vec<usize>)
        ensures
            r@ =~= seq![2usize, 2usize],
    {
        let mut r: Vec<usize> = Vec::new();
        r.push(2);
        r.push(2);
        r
    }

    /// Whether a parsed save belongs to this release: the variant must be
    /// the release's own, and the region its own or unmarked.
    pub fn save_compatible(&self, game_info: GameInfo) -> (r: bool)
        ensures
            r == spec_save_compatible(*self, game_info),
    {
        let variant_ok: bool = match self {
            Title::Exe4Rs => matches!(game_info.variant, Variant::RedSun),
            Title::Exe4Bm => matches!(game_info.variant, Variant::BlueMoon),
            Title::Bn4Rs => matches!(game_info.variant, Variant::RedSun),
            Title::Bn4Bm => matches!(game_info.variant, Variant::BlueMoon),
        };
        let region_ok: bool = match self {
            Title::Exe4Rs => matches!(game_info.region, Region::JP | Region::Any),
            Title::Exe4Bm => matches!(game_info.region, Region::JP | Region::Any),
            Title::Bn4Rs => matches!(game_info.region, Region::US | Region::Any),
            Title::Bn4Bm => matches!(game_info.region, Region::US | Region::Any),
        };
        variant_ok && region_ok
    }
}

/// The variant number of a release within its family.
pub open spec fn spec_variant_number(t: Title) -> u8 {
    match t {
        Title::Exe4Rs => 0,
        Title::Exe4Bm => 1,
        Title::Bn4Rs => 0,
        Title::Bn4Bm => 1,
    }
}

/// The CRC32 each release's unpatched ROM must carry.
pub open spec fn spec_expected_crc32(t: Title) -> u32 {
    match t {
        Title::Exe4Rs => 0xcf0e8b05,
        Title::Exe4Bm => 0xed7c5b50,
        Title::Bn4Rs => 0x2120695c,
        Title::Bn4Bm => 0x758a46e9,
    }
}

/// The variant a release fields.
pub open spec fn spec_title_variant(t: Title) -> Variant {
    match t {
        Title::Exe4Rs => Variant::RedSun,
        Title::Exe4Bm => Variant::BlueMoon,
        Title::Bn4Rs => Variant::RedSun,
        Title::Bn4Bm => Variant::BlueMoon,
    }
}

/// The home region of a release.
pub open spec fn spec_title_region(t: Title) -> Region {
    match t {
        Title::Exe4Rs => Region::JP,
        Title::Exe4Bm => Region::JP,
        Title::Bn4Rs => Region::US,
        Title::Bn4Bm => Region::US,
    }
}

/// Whether a parsed save belongs to a release.
pub open spec fn spec_save_compatible(t: Title, gi: GameInfo) -> bool {
    gi.variant == spec_title_variant(t) && (gi.region == spec_title_region(t) || gi.region
        == Region::Any)
}

} // verus!
