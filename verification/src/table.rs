//! What a key map means, in plain integers.
//!
//! A [`Table`] is the mathematical side of a key map: five integers and the
//! range of the word they are stored in. How a reading is sorted, and when a
//! map is sound, is said here once, for every word.
//!
//! # How a reading is sorted
//!
//! Every key has a window around its expected reading, one margin wide to
//! either side, and the ends of a window do not belong to it. A reading in
//! the window of `K1` is `K1`; failing that, a reading in the window of `K2`
//! is `K2`, and so on. The window of `K4`, whose expected reading is the
//! highest that the ADC gives, has no upper end. A reading in no window is no
//! key: nothing is pressed, or several keys at once.
//!
//! Where a window would reach past an end of the word's range, it stops at
//! that end, which is then the end of the window and so outside it.

use vstd::prelude::*;
use crate::key::Key;
use crate::word::clamp;

verus! {

/// What a key map says, in plain integers: the expected reading of each
/// key, the margin, and the range of the word that the map is made of.
pub struct Table {
    /// The expected reading for K1.
    pub k1: int,
    /// The expected reading for K2.
    pub k2: int,
    /// The expected reading for K3.
    pub k3: int,
    /// The expected reading for K4.
    pub k4: int,
    /// The margin to either side of an expected reading.
    pub margin: int,
    /// The least integer of the word.
    pub lowest: int,
    /// The greatest integer of the word.
    pub highest: int,
}

impl Table {
    /// The expected reading of `key`.
    pub open spec fn expected(self, key: Key) -> int {
        match key {
            Key::K1 => self.k1,
            Key::K2 => self.k2,
            Key::K3 => self.k3,
            Key::K4 => self.k4,
        }
    }

    /// The lower end of the window of `key`.
    pub open spec fn lower(self, key: Key) -> int {
        clamp(self.expected(key) - self.margin, self.lowest, self.highest)
    }

    /// The upper end of the window of `key`. The window of `K4` has none,
    /// and for `K4` this is not used.
    pub open spec fn upper(self, key: Key) -> int {
        clamp(self.expected(key) + self.margin, self.lowest, self.highest)
    }

    /// Whether `reading` lies in the window of `key`.
    pub open spec fn in_window(self, key: Key, reading: int) -> bool {
        if key == Key::K4 {
            self.lower(key) < reading
        } else {
            self.lower(key) < reading < self.upper(key)
        }
    }

    /// The key that `reading` is sorted into: the first of `K1` to `K4` whose
    /// window holds it, if there is one.
    pub open spec fn classify(self, reading: int) -> Option<Key> {
        if self.in_window(Key::K1, reading) {
            Some(Key::K1)
        } else if self.in_window(Key::K2, reading) {
            Some(Key::K2)
        } else if self.in_window(Key::K3, reading) {
            Some(Key::K3)
        } else if self.in_window(Key::K4, reading) {
            Some(Key::K4)
        } else {
            None
        }
    }

    /// Whether the table is that of a word: the range holds zero and is no
    /// wider than 32 bits, and the five numbers lie in it.
    pub open spec fn in_range(self) -> bool {
        &&& -0x8000_0000 <= self.lowest <= 0 < self.highest <= 0xffff_ffff
        &&& self.lowest <= self.k1 <= self.highest
        &&& self.lowest <= self.k2 <= self.highest
        &&& self.lowest <= self.k3 <= self.highest
        &&& self.lowest <= self.k4 <= self.highest
        &&& self.lowest <= self.margin <= self.highest
    }

    /// Whether the expected readings rise from `K1` to `K4`, each above the
    /// one before.
    pub open spec fn increasing(self) -> bool {
        self.k1 < self.k2 < self.k3 < self.k4
    }

    /// Whether the windows of neighbouring keys keep clear of each other:
    /// each ends no higher than where the next begins.
    pub open spec fn disjoint(self) -> bool {
        &&& self.k1 + self.margin <= self.k2 - self.margin
        &&& self.k2 + self.margin <= self.k3 - self.margin
        &&& self.k3 + self.margin <= self.k4 - self.margin
    }

    /// Whether the map is sound: the margin is not negative, the expected
    /// readings rise from key to key, and no two windows overlap. In such a
    /// map no key hides another.
    pub open spec fn well_formed(self) -> bool {
        &&& 0 <= self.margin
        &&& self.increasing()
        &&& self.disjoint()
    }

    /// What is wrong with the map, if anything: the first of a negative
    /// margin, expected readings that do not rise, and windows that overlap.
    pub open spec fn fault(self) -> Option<MapError> {
        if self.margin < 0 {
            Some(MapError::NegativeMargin)
        } else if !self.increasing() {
            Some(MapError::NotIncreasing)
        } else if !self.disjoint() {
            Some(MapError::Overlap)
        } else {
            None
        }
    }
}

/// Why a key map is refused.
#[derive(Debug, Clone, Copy, PartialEq, Eq, Structural)]
pub enum MapError {
    /// The margin is below zero.
    NegativeMargin,
    /// The expected readings do not rise from `K1` to `K4`: two of them are
    /// the same or stand in the wrong order, as when the highest reading of
    /// the ADC is too small to tell the keys apart.
    NotIncreasing,
    /// The margin is so wide that the windows of two neighbouring keys
    /// overlap, so that one key would hide part of the next.
    Overlap,
}

} // verus!
