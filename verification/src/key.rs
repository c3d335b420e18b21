//! The keys of the keypad.

use vstd::prelude::*;

verus! {

/// A named key on the KC11B04 module.
#[derive(Debug, Clone, Copy, PartialEq, Eq, Structural)]
pub enum Key {
    /// The `K1` key, which gives the lowest reading.
    K1,
    /// The `K2` key.
    K2,
    /// The `K3` key.
    K3,
    /// The `K4` key, which gives the full-scale reading.
    K4,
}

impl Key {
    /// The number printed next to the key on the module, from 1 to 4.
    pub open spec fn spec_number(self) -> u8 {
        match self {
            Key::K1 => 1,
            Key::K2 => 2,
            Key::K3 => 3,
            Key::K4 => 4,
        }
    }

    /// The number printed next to the key on the module, from 1 to 4.
    #[verifier::when_used_as_spec(spec_number)]
    pub fn number(self) -> (n: u8)
        ensures
            n == self.spec_number(),
    {
        match self {
            Key::K1 => 1,
            Key::K2 => 2,
            Key::K3 => 3,
            Key::K4 => 4,
        }
    }
}

} // verus!
