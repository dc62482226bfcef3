//! A cycle-stepped model of the NES core: the 2A03 processor, the 2C02 picture
//! unit, the address bus between them and the cartridge boards behind it.
//!
//! The console is one value: the processor ([`ricoh2a03::Ricoh2A03`]) owns the
//! bus ([`bus::Bus`]), the bus owns the controller and the picture unit
//! ([`ricoh2c02::Ricoh2C02`]), and the picture unit owns the cartridge
//! ([`mapper::Mapper`]), which both sides of the console reach through it.
//! One cycle of the bus is three dots of the picture unit, and every access
//! of the processor to the bus spends one cycle first.
//!
//! Every component has a mathematical view, and every operation states in its
//! contract which view it produces from which: the functions on the views
//! (in the modules named `model`, and beside the smaller components) say
//! what the console does, and the modules named `lemmas`, `timing`,
//! `sprites` and `wellformed` prove what follows from that for every state.
//!
//! Window, keyboard, file system and frame pacing are left to the caller, who
//! hands in the bytes of a cartridge file ([`rom::Rom::new`]), presses
//! buttons, calls [`ricoh2a03::Ricoh2A03::turn`] in a loop and fetches the
//! frame whenever one is ready.
pub mod bits;
pub mod bus;
pub mod controller;
pub mod dma;
pub mod mapper;
pub mod mappers;
pub mod memory;
pub mod ricoh2a03;
pub mod ricoh2c02;
pub mod rom;
pub mod wellformed;
