//! The key-matrix input device.
//!
//! One key at most is pressed at a time, matching a single physical
//! key-scan line.  A press replaces the active key; a release clears it.
//! The scan port answers with a one-hot row/column bitmask: for a key code
//! `k` below [`KEY_CODE_LIMIT`], the low nibble carries `1 << (k % 4)`
//! (the column) and the high nibble carries `16 << (k / 4)` (the row).
//! Any other code, and the released state, scan as [`IDLE_SCAN`].

use vstd::prelude::*;

verus! {

/// Key codes at and above this limit address no matrix position.
pub const KEY_CODE_LIMIT: u8 = 16;

/// The scan pattern when no key is pressed (or the pressed code addresses
/// no matrix position).
pub const IDLE_SCAN: u8 = 0;

/// The matrix bitmask produced by a pressed key code.
pub open spec fn spec_key_pattern(code: u8) -> u8 {
    if code < KEY_CODE_LIMIT {
        ((16u8 << (code / 4) as usize) | (1u8 << (code % 4) as usize)) as u8
    } else {
        IDLE_SCAN
    }
}

/// What the scan port answers for a given pressed-key state.
pub open spec fn spec_scan(key: Option<u8>) -> u8 {
    match key {
        Option::Some(code) => spec_key_pattern(code),
        Option::None => IDLE_SCAN,
    }
}

/// The keyboard controller: the currently pressed key code, if any.
pub struct Keyboard {
    pub key: Option<u8>,
}

impl View for Keyboard {
    type V = Option<u8>;

    open spec fn view(&self) -> Option<u8> {
        self.key
    }
}

impl Keyboard {
    /// A keyboard with no key pressed.
    pub fn new() -> (k: Keyboard)
        ensures
            k@ == Option::<u8>::None,
    {
        Keyboard { key: Option::None }
    }

    /// Make `code` the active key.  A press before a release simply
    /// replaces the active key.
    pub fn press_key(&mut self, code: u8)
        ensures
            final(self)@ == Option::Some(code),
    {
        self.key = Option::Some(code);
    }

    /// Clear the active key.
    pub fn release_key(&mut self)
        ensures
            final(self)@ == Option::<u8>::None,
    {
        self.key = Option::None;
    }

    /// The matrix bitmask for the currently pressed key, or the idle
    /// pattern when none is pressed.
    pub fn scan_port(&self) -> (scan: u8)
        ensures
            scan == spec_scan(self@),
    {
        match self.key {
            Option::Some(code) => {
                if code < KEY_CODE_LIMIT {
                    (16u8 << ((code / 4) as usize)) | (1u8 << ((code % 4) as usize))
                } else {
                    IDLE_SCAN
                }
            },
            Option::None => IDLE_SCAN,
        }
    }
}

/// Pressing a key makes the very next scan answer that key's matrix
/// pattern, and releasing makes the very next scan answer the idle
/// pattern — there is no buffering of key events.
pub proof fn lemma_scan_tracks_key(code: u8)
    ensures
        spec_scan(Option::Some(code)) == spec_key_pattern(code),
        spec_scan(Option::<u8>::None) == IDLE_SCAN,
{
}

} // verus!
