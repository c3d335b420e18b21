//! The integer types an ADC reading can have.
//!
//! A key map works in the integer type that the ADC hands out. What it needs
//! of that type is gathered in [`Word`]: the integer that a value stands for,
//! the range of the type, comparison, and addition and subtraction that stop
//! at the ends of the range instead of wrapping around.

use vstd::prelude::*;

verus! {

/// `x` brought into the range from `low` to `high`.
pub open spec fn clamp(x: int, low: int, high: int) -> int {
    if x < low {
        low
    } else if x > high {
        high
    } else {
        x
    }
}

/// An integer type of at most 32 bits, signed or unsigned, as an ADC uses
/// for its readings. It is implemented for `u8`, `u16`, `u32`, `i16` and
/// `i32`.
pub trait Word: Copy {
    /// The integer that this word stands for.
    spec fn value(self) -> int;

    /// The least integer that the type holds.
    spec fn lowest() -> int;

    /// The greatest integer that the type holds.
    spec fn highest() -> int;

    /// Every word lies in the range of its type, and the range holds zero
    /// and is no wider than 32 bits.
    proof fn lemma_range(self)
        ensures
            -0x8000_0000 <= Self::lowest() <= 0 < Self::highest() <= 0xffff_ffff,
            Self::lowest() <= self.value() <= Self::highest(),
    ;

    /// Whether this word is less than `other`.
    fn less_than(self, other: Self) -> (less: bool)
        ensures
            less == (self.value() < other.value()),
    ;

    /// The sum of the two words, or the nearest end of the range where the
    /// sum lies outside it.
    fn clamped_add(self, other: Self) -> (sum: Self)
        ensures
            sum.value() == clamp(self.value() + other.value(), Self::lowest(), Self::highest()),
    ;

    /// The difference of the two words, or the nearest end of the range where
    /// the difference lies outside it.
    fn clamped_sub(self, other: Self) -> (difference: Self)
        ensures
            difference.value() == clamp(
                self.value() - other.value(),
                Self::lowest(),
                Self::highest(),
            ),
    ;

    /// The word as a 64-bit integer.
    fn widen(self) -> (wide: i64)
        ensures
            wide == self.value(),
    ;

    /// The word nearest to `wide`: `wide` itself where the type holds it,
    /// else the end of the range on its side.
    fn narrow(wide: i64) -> (word: Self)
        ensures
            word.value() == clamp(wide as int, Self::lowest(), Self::highest()),
    ;
}

impl Word for u8 {
    open spec fn value(self) -> int {
        self as int
    }

    open spec fn lowest() -> int {
        0
    }

    open spec fn highest() -> int {
        0xff
    }

    proof fn lemma_range(self) {
    }

    fn less_than(self, other: Self) -> (less: bool) {
        self < other
    }

    fn clamped_add(self, other: Self) -> (sum: Self) {
        if other > u8::MAX - self {
            u8::MAX
        } else {
            self + other
        }
    }

    fn clamped_sub(self, other: Self) -> (difference: Self) {
        if other > self {
            0
        } else {
            self - other
        }
    }

    fn widen(self) -> (wide: i64) {
        self as i64
    }

    fn narrow(wide: i64) -> (word: Self) {
        if wide < 0 {
            0
        } else if wide > 0xff {
            u8::MAX
        } else {
            wide as u8
        }
    }
}

impl Word for u16 {
    open spec fn value(self) -> int {
        self as int
    }

    open spec fn lowest() -> int {
        0
    }

    open spec fn highest() -> int {
        0xffff
    }

    proof fn lemma_range(self) {
    }

    fn less_than(self, other: Self) -> (less: bool) {
        self < other
    }

    fn clamped_add(self, other: Self) -> (sum: Self) {
        if other > u16::MAX - self {
            u16::MAX
        } else {
            self + other
        }
    }

    fn clamped_sub(self, other: Self) -> (difference: Self) {
        if other > self {
            0
        } else {
            self - other
        }
    }

    fn widen(self) -> (wide: i64) {
        self as i64
    }

    fn narrow(wide: i64) -> (word: Self) {
        if wide < 0 {
            0
        } else if wide > 0xffff {
            u16::MAX
        } else {
            wide as u16
        }
    }
}

impl Word for u32 {
    open spec fn value(self) -> int {
        self as int
    }

    open spec fn lowest() -> int {
        0
    }

    open spec fn highest() -> int {
        0xffff_ffff
    }

    proof fn lemma_range(self) {
    }

    fn less_than(self, other: Self) -> (less: bool) {
        self < other
    }

    fn clamped_add(self, other: Self) -> (sum: Self) {
        if other > u32::MAX - self {
            u32::MAX
        } else {
            self + other
        }
    }

    fn clamped_sub(self, other: Self) -> (difference: Self) {
        if other > self {
            0
        } else {
            self - other
        }
    }

    fn widen(self) -> (wide: i64) {
        self as i64
    }

    fn narrow(wide: i64) -> (word: Self) {
        if wide < 0 {
            0
        } else if wide > 0xffff_ffff {
            u32::MAX
        } else {
            wide as u32
        }
    }
}

impl Word for i16 {
    open spec fn value(self) -> int {
        self as int
    }

    open spec fn lowest() -> int {
        -0x8000
    }

    open spec fn highest() -> int {
        0x7fff
    }

    proof fn lemma_range(self) {
    }

    fn less_than(self, other: Self) -> (less: bool) {
        self < other
    }

    fn clamped_add(self, other: Self) -> (sum: Self) {
        if other >= 0 && self > i16::MAX - other {
            i16::MAX
        } else if other < 0 && self < i16::MIN - other {
            i16::MIN
        } else {
            self + other
        }
    }

    fn clamped_sub(self, other: Self) -> (difference: Self) {
        if other >= 0 && self < i16::MIN + other {
            i16::MIN
        } else if other < 0 && self > i16::MAX + other {
            i16::MAX
        } else {
            self - other
        }
    }

    fn widen(self) -> (wide: i64) {
        self as i64
    }

    fn narrow(wide: i64) -> (word: Self) {
        if wide < -0x8000 {
            i16::MIN
        } else if wide > 0x7fff {
            i16::MAX
        } else {
            wide as i16
        }
    }
}

impl Word for i32 {
    open spec fn value(self) -> int {
        self as int
    }

    open spec fn lowest() -> int {
        -0x8000_0000
    }

    open spec fn highest() -> int {
        0x7fff_ffff
    }

    proof fn lemma_range(self) {
    }

    fn less_than(self, other: Self) -> (less: bool) {
        self < other
    }

    fn clamped_add(self, other: Self) -> (sum: Self) {
        if other >= 0 && self > i32::MAX - other {
            i32::MAX
        } else if other < 0 && self < i32::MIN - other {
            i32::MIN
        } else {
            self + other
        }
    }

    fn clamped_sub(self, other: Self) -> (difference: Self) {
        if other >= 0 && self < i32::MIN + other {
            i32::MIN
        } else if other < 0 && self > i32::MAX + other {
            i32::MAX
        } else {
            self - other
        }
    }

    fn widen(self) -> (wide: i64) {
        self as i64
    }

    fn narrow(wide: i64) -> (word: Self) {
        if wide < -0x8000_0000 {
            i32::MIN
        } else if wide > 0x7fff_ffff {
            i32::MAX
        } else {
            wide as i32
        }
    }
}

} // verus!
