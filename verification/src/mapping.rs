//! Maps from keys to their expected ADC readings.
//!
//! A specific mapping is a [`KeyMap`]. Its values depend on the resolution of
//! the ADC (8 bit, 10 bit, 12 bit and so on). For the common resolutions
//! there are ready maps, such as [`map_10bit`].
//!
//! ## Custom maps
//!
//! A map can be written down with numbers of one's own:
//!
//! ```text
//! // The 10 bit map from the manufacturer's example table.
//! let map = KeyMap { k1: 404u16, k2: 607, k3: 812, k4: 1023, margin: 30 };
//! ```
//!
//! or derived from the highest reading of the ADC with [`map_from_max`],
//! which is how the ready maps are made. All of it is integer arithmetic:
//! nothing here needs floating point, at run time or before.
//!
//! ## Schematic and factors
//!
//! The manufacturer's table gives the keys 40%, 60%, 80% and 100% of the
//! supply voltage. That is not quite what the module does. Its keys tap a
//! voltage divider, a ladder of resistors, and beside the ladder a pull-down
//! resistor [`R_DOWN`] runs from the analog pin to ground. With that resistor
//! taken into account, the part of the ladder below the tap is worth a
//! little less than its own resistance, and the shares become
//!
//! | Key  | Ladder above / below the tap | Factor     | Share    |
//! | ---- | ---------------------------- | ---------- | -------- |
//! | None | -                            | -          | 0%       |
//! | K1   | 3000 ohm / 2000 ohm          | [`K1_F`]   | ~39.5%   |
//! | K2   | 2000 ohm / 3000 ohm          | [`K2_F`]   | ~59.3%   |
//! | K3   | 1000 ohm / 4000 ohm          | [`K3_F`]   | ~79.4%   |
//! | K4   | 0 ohm / pull-down only       | -          | 100%     |
//!
//! [`divider`] is the formula and [`lemma_factors`] the proof that the three
//! factors are what it gives.

use vstd::prelude::*;
use crate::key::Key;
use crate::table::{MapError, Table};
use crate::word::{clamp, Word};

verus! {

/// Pull-down resistor of the module, in ohms.
pub const R_DOWN: u32 = 100_000;

/// Relative factor for the K1 key, about 39.5% of the highest reading of the
/// ADC, as numerator and denominator.
pub const K1_F: (u32, u32) = (100, 253);

/// Relative factor for the K2 key, about 59.3% of the highest reading of the
/// ADC, as numerator and denominator.
pub const K2_F: (u32, u32) = (150, 253);

/// Relative factor for the K3 key, about 79.4% of the highest reading of the
/// ADC, as numerator and denominator.
pub const K3_F: (u32, u32) = (50, 63);

/// The margin of the ready maps, in percent of the highest reading of the
/// ADC.
pub const DEFAULT_MARGIN_PERCENT: u8 = 3;

/// The share of the supply voltage that a voltage divider puts on the analog
/// pin, as numerator and denominator: `series` ohms lie between the supply
/// and the pin, and between the pin and ground `rest` ohms side by side with
/// the pull-down resistor of `pull_down` ohms.
///
/// The two resistors side by side are worth `rest * pull_down / (rest +
/// pull_down)` ohms, and the share is that over itself plus `series`.
pub open spec fn divider(series: int, rest: int, pull_down: int) -> (int, int) {
    (rest * pull_down, series * (rest + pull_down) + rest * pull_down)
}

/// Whether the fraction `factor` is the same number as the fraction `share`.
pub open spec fn same_fraction(factor: (u32, u32), share: (int, int)) -> bool {
    factor.0 * share.1 == factor.1 * share.0
}

/// The three factors are what the resistor ladder of the module gives: the
/// keys tap a ladder of 5000 ohms in all, `K1` with 3000 ohms above the tap,
/// `K2` with 2000 and `K3` with 1000, against the pull-down resistor. They
/// lie between 0 and 1 and rise from `K1` to `K3`.
pub proof fn lemma_factors()
    ensures
        same_fraction(K1_F, divider(3000, 2000, R_DOWN as int)),
        same_fraction(K2_F, divider(2000, 3000, R_DOWN as int)),
        same_fraction(K3_F, divider(1000, 4000, R_DOWN as int)),
        0 < K1_F.0 < K1_F.1,
        0 < K2_F.0 < K2_F.1,
        0 < K3_F.0 < K3_F.1,
        K1_F.0 * K2_F.1 < K2_F.0 * K1_F.1,
        K2_F.0 * K3_F.1 < K3_F.0 * K2_F.1,
{
}

/// `max` times the fraction `numerator / denominator`, cut off toward zero
/// to a whole number.
pub open spec fn scaled(max: int, numerator: int, denominator: int) -> int {
    if max >= 0 {
        (max * numerator) / denominator
    } else {
        -((-max * numerator) / denominator)
    }
}

/// The table that is derived from the highest reading `max` of an ADC with a
/// margin of `margin_percent` percent, for a word with the range from
/// `lowest` to `highest`: the expected reading of each key is `max` times
/// the key's factor, that of `K4` is `max` itself, and the margin is the
/// given share of `max`, each cut off to a whole number. A margin that the
/// word cannot hold is replaced by the nearest that it can.
pub open spec fn derived(max: int, margin_percent: int, lowest: int, highest: int) -> Table {
    Table {
        k1: scaled(max, K1_F.0 as int, K1_F.1 as int),
        k2: scaled(max, K2_F.0 as int, K2_F.1 as int),
        k3: scaled(max, K3_F.0 as int, K3_F.1 as int),
        k4: max,
        margin: clamp(scaled(max, margin_percent, 100), lowest, highest),
        lowest,
        highest,
    }
}

/// `max` times `numerator / denominator`, cut off toward zero.
fn scale(max: i64, numerator: u32, denominator: u32) -> (product: i64)
    requires
        -0x8000_0000 <= max <= 0xffff_ffff,
        numerator <= 0xffff,
        0 < denominator,
    ensures
        product == scaled(max as int, numerator as int, denominator as int),
        numerator <= denominator ==> (max >= 0 ==> 0 <= product <= max) && (max < 0 ==> max
            <= product <= 0),
{
    let size: i64 = if max >= 0 {
        max
    } else {
        -max
    };
    let by: i64 = numerator as i64;
    let over: i64 = denominator as i64;
    assert(0 <= size * by <= 0xffff_ffff * 0xffff) by (nonlinear_arith)
        requires
            0 <= size <= 0xffff_ffff,
            0 <= by <= 0xffff,
    ;
    let part: i64 = (size * by) / over;
    assert(0 <= part && (by <= over ==> part <= size)) by (nonlinear_arith)
        requires
            part == (size * by) / (over as int),
            0 <= size,
            0 <= by,
            0 < over,
    ;
    if max >= 0 {
        part
    } else {
        -part
    }
}

/// Maps keys to their expected ADC readings.
///
/// This depends on the ADC resolution, so for the common resolutions there
/// are ready maps, such as [`map_10bit`].
#[derive(Debug)]
pub struct KeyMap<W> {
    /// The expected ADC reading for K1, before margins.
    pub k1: W,
    /// The expected ADC reading for K2, before margins.
    pub k2: W,
    /// The expected ADC reading for K3, before margins.
    pub k3: W,
    /// The expected ADC reading for K4, before margins: the highest
    /// reading of the ADC.
    pub k4: W,
    /// The absolute margin a reading may deviate from the above expected
    /// values.
    pub margin: W,
}

impl<W: Word> Clone for KeyMap<W> {
    fn clone(&self) -> (copy: Self)
        ensures
            copy == *self,
    {
        *self
    }
}

impl<W: Word> Copy for KeyMap<W> {

}

impl<W: Word> View for KeyMap<W> {
    type V = Table;

    open spec fn view(&self) -> Table {
        Table {
            k1: self.k1.value(),
            k2: self.k2.value(),
            k3: self.k3.value(),
            k4: self.k4.value(),
            margin: self.margin.value(),
            lowest: W::lowest(),
            highest: W::highest(),
        }
    }
}

/// Defines a [`KeyMap`] based on the highest reading `max` of the ADC and a
/// margin in percent of it, for example `map_from_max(1023, 15)` for a
/// 10 bit ADC and a margin of 15%.
///
/// Every `max` and every margin is taken, and the outcome is not checked:
/// where `max` is too small to tell the keys apart, or the margin too wide,
/// the map that comes out is of no use. [`checked_map_from_max`] refuses
/// such a map.
pub fn map_from_max<W: Word>(max: W, margin_percent: u8) -> (map: KeyMap<W>)
    ensures
        map@ == derived(max.value(), margin_percent as int, W::lowest(), W::highest()),
        map.k4 == max,
{
    proof {
        max.lemma_range();
    }
    let top: i64 = max.widen();
    let k1: i64 = scale(top, K1_F.0, K1_F.1);
    let k2: i64 = scale(top, K2_F.0, K2_F.1);
    let k3: i64 = scale(top, K3_F.0, K3_F.1);
    let margin: i64 = scale(top, margin_percent as u32, 100);
    KeyMap {
        k1: W::narrow(k1),
        k2: W::narrow(k2),
        k3: W::narrow(k3),
        k4: max,
        margin: W::narrow(margin),
    }
}

/// Defines a [`KeyMap`] as [`map_from_max`] does, and hands it out only if
/// it is sound; else says what is wrong with it.
pub fn checked_map_from_max<W: Word>(max: W, margin_percent: u8) -> (checked: Result<
    KeyMap<W>,
    MapError,
>)
    ensures
        checked is Ok <==> derived(
            max.value(),
            margin_percent as int,
            W::lowest(),
            W::highest(),
        ).well_formed(),
        match checked {
            Ok(map) => {
                &&& map@ == derived(max.value(), margin_percent as int, W::lowest(), W::highest())
                &&& map.k4 == max
            },
            Err(error) => derived(
                max.value(),
                margin_percent as int,
                W::lowest(),
                W::highest(),
            ).fault() == Some(error),
        },
{
    let map = map_from_max(max, margin_percent);
    match map.validate() {
        Ok(()) => Ok(map),
        Err(error) => Err(error),
    }
}

/// The tables of the ready maps: for each ADC resolution that has one, the
/// table derived from its highest reading with the default margin.
pub open spec fn ready(table: Table) -> bool {
    let percent = DEFAULT_MARGIN_PERCENT as int;
    ||| table == derived(255, percent, 0, 0xff)
    ||| table == derived(1023, percent, 0, 0xffff)
    ||| table == derived(4095, percent, 0, 0xffff)
    ||| table == derived(2047, percent, -0x8000, 0x7fff)
    ||| table == derived(65535, percent, 0, 0xffff)
    ||| table == derived(32767, percent, -0x8000, 0x7fff)
    ||| table == derived(16777215, percent, 0, 0xffff_ffff)
}

/// [`KeyMap`] for 8 bit ADCs with a highest reading of `255`.
pub fn map_8bit() -> (map: KeyMap<u8>)
    ensures
        map@ == derived(255, DEFAULT_MARGIN_PERCENT as int, 0, 0xff),
        ready(map@),
{
    KeyMap { k1: 100, k2: 151, k3: 202, k4: 255, margin: 7 }
}

/// [`KeyMap`] for 10 bit ADCs with a highest reading of `1023`.
pub fn map_10bit() -> (map: KeyMap<u16>)
    ensures
        map@ == derived(1023, DEFAULT_MARGIN_PERCENT as int, 0, 0xffff),
        ready(map@),
{
    KeyMap { k1: 404, k2: 606, k3: 811, k4: 1023, margin: 30 }
}

/// [`KeyMap`] for 12 bit ADCs with a highest reading of `4095`.
pub fn map_12bit() -> (map: KeyMap<u16>)
    ensures
        map@ == derived(4095, DEFAULT_MARGIN_PERCENT as int, 0, 0xffff),
        ready(map@),
{
    KeyMap { k1: 1618, k2: 2427, k3: 3250, k4: 4095, margin: 122 }
}

/// [`KeyMap`] for signed 12 bit ADCs with a highest *positive* reading of
/// `2047`.
pub fn map_12bit_signed() -> (map: KeyMap<i16>)
    ensures
        map@ == derived(2047, DEFAULT_MARGIN_PERCENT as int, -0x8000, 0x7fff),
        ready(map@),
{
    KeyMap { k1: 809, k2: 1213, k3: 1624, k4: 2047, margin: 61 }
}

/// [`KeyMap`] for 16 bit ADCs with a highest reading of `65535`.
pub fn map_16bit() -> (map: KeyMap<u16>)
    ensures
        map@ == derived(65535, DEFAULT_MARGIN_PERCENT as int, 0, 0xffff),
        ready(map@),
{
    KeyMap { k1: 25903, k2: 38854, k3: 52011, k4: 65535, margin: 1966 }
}

/// [`KeyMap`] for signed 16 bit ADCs with a highest *positive* reading of
/// `32767`.
pub fn map_16bit_signed() -> (map: KeyMap<i16>)
    ensures
        map@ == derived(32767, DEFAULT_MARGIN_PERCENT as int, -0x8000, 0x7fff),
        ready(map@),
{
    KeyMap { k1: 12951, k2: 19427, k3: 26005, k4: 32767, margin: 983 }
}

/// [`KeyMap`] for 24 bit ADCs with a highest reading of `16777215`.
pub fn map_24bit() -> (map: KeyMap<u32>)
    ensures
        map@ == derived(16777215, DEFAULT_MARGIN_PERCENT as int, 0, 0xffff_ffff),
        ready(map@),
{
    KeyMap { k1: 6631310, k2: 9946965, k3: 13315250, k4: 16777215, margin: 503316 }
}

impl<W: Word> KeyMap<W> {
    /// The five numbers of a map lie in the range of its word.
    pub proof fn lemma_in_range(self)
        ensures
            self@.in_range(),
    {
        self.k1.lemma_range();
        self.k2.lemma_range();
        self.k3.lemma_range();
        self.k4.lemma_range();
        self.margin.lemma_range();
    }

    /// Takes an ADC reading and finds whether it is in the expected range of
    /// a key.
    ///
    /// Will be `None` when no key is pressed, but also for some simultaneous
    /// key combinations. Every reading that the word can hold is accepted,
    /// and the map is left as it is.
    pub fn key_from_reading(&self, val: W) -> (key: Option<Key>)
        ensures
            key == self@.classify(val.value()),
    {
        if self.k1.clamped_sub(self.margin).less_than(val) && val.less_than(
            self.k1.clamped_add(self.margin),
        ) {
            Some(Key::K1)
        } else if self.k2.clamped_sub(self.margin).less_than(val) && val.less_than(
            self.k2.clamped_add(self.margin),
        ) {
            Some(Key::K2)
        } else if self.k3.clamped_sub(self.margin).less_than(val) && val.less_than(
            self.k3.clamped_add(self.margin),
        ) {
            Some(Key::K3)
        } else if self.k4.clamped_sub(self.margin).less_than(val) {
            Some(Key::K4)
        } else {
            None
        }
    }

    /// Checks that the map is sound, and says what is wrong where it does
    /// not.
    ///
    /// A map can be put together from any five numbers, and
    /// [`key_from_reading`](KeyMap::key_from_reading) works on every map. But
    /// where windows overlap, the key that comes first takes the readings
    /// that both claim. This check finds such maps before they are used.
    pub fn validate(&self) -> (checked: Result<(), MapError>)
        ensures
            checked is Ok <==> self@.well_formed(),
            checked matches Err(error) ==> self@.fault() == Some(error),
    {
        proof {
            self.lemma_in_range();
        }
        let k1: i64 = self.k1.widen();
        let k2: i64 = self.k2.widen();
        let k3: i64 = self.k3.widen();
        let k4: i64 = self.k4.widen();
        let margin: i64 = self.margin.widen();
        if margin < 0 {
            Err(MapError::NegativeMargin)
        } else if !(k1 < k2 && k2 < k3 && k3 < k4) {
            Err(MapError::NotIncreasing)
        } else if !(k1 + margin <= k2 - margin && k2 + margin <= k3 - margin && k3 + margin <= k4
            - margin) {
            Err(MapError::Overlap)
        } else {
            Ok(())
        }
    }
}

} // verus!
