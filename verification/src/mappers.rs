//! The cartridge boards, one module each.
pub mod cnrom;
pub mod mmc1;
pub mod nrom;
pub mod unrom;
