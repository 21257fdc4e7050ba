//! Emulation core for a UMPK-80-class microcomputer trainer board.
//!
//! The board is built around an Intel-8080-compatible processor.  The crate
//! models the processor (`cpu`), the addressable bus with its read-only
//! firmware region and its port space (`bus`), the six-digit seven-segment
//! display (`display`), the key-matrix input device (`keyboard`), and the
//! session that composes them and steps the machine one instruction at a
//! time (`session`).

use vstd::prelude::*;

pub mod bus;
pub mod cpu;
pub mod display;
pub mod keyboard;
pub mod session;

verus! {

/// Faults that the emulation core reports to its caller.
#[derive(Clone, Copy, PartialEq, Eq, Structural, Debug)]
pub enum EmuError {
    /// The fetched byte maps to no instruction; the processor halts.
    IllegalOpcode,
    /// A firmware image does not fit the read-only region; the load is rejected.
    ImageTooLarge,
}

} // verus!
