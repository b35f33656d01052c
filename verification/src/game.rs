//! Per-title adapters: each cartridge's trap addresses and the semantics
//! bound to them, plus the title metadata used to identify ROMs and saves.

pub mod bn1;
pub mod bn2;
pub mod bn4;
pub mod bn6;
