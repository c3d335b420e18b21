//! What holds of every key map, proved once and for all.
//!
//! The first group is about sorting a reading with any map that is sound;
//! the second about the maps that are derived from the highest reading of an
//! ADC, the ready maps among them.

use vstd::prelude::*;
use crate::key::Key;
use crate::mapping::{checked_map_from_max, derived, ready, KeyMap, DEFAULT_MARGIN_PERCENT};
use crate::table::{MapError, Table};
use crate::word::Word;

verus! {

/// Sorting a reading is a function of the map and the reading and of nothing
/// else: two calls of [`KeyMap::key_from_reading`] on the same map with the
/// same reading give the same key.
pub proof fn lemma_same_reading_same_key<W: Word>(
    map: KeyMap<W>,
    val: W,
    first: Option<Key>,
    second: Option<Key>,
)
    requires
        call_ensures(KeyMap::<W>::key_from_reading, (&map, val), first),
        call_ensures(KeyMap::<W>::key_from_reading, (&map, val), second),
    ensures
        first == second,
{
}

/// In any map, sound or not, the key that comes first takes the readings
/// that two windows claim: a reading in the window of one key is never sorted
/// into a later key.
pub proof fn lemma_earlier_key_hides_later<W: Word>(
    map: KeyMap<W>,
    reading: W,
    earlier: Key,
    later: Key,
)
    requires
        map@.in_window(earlier, reading.value()),
        earlier.number() < later.number(),
    ensures
        map@.classify(reading.value()) != Some(later),
{
}

/// In a map that is sound no key hides another: a reading is sorted into
/// a key exactly if it lies in that key's window, whatever the order in which
/// the windows are tried.
pub proof fn lemma_window_is_key<W: Word>(map: KeyMap<W>, reading: W, key: Key)
    requires
        map@.well_formed(),
    ensures
        map@.classify(reading.value()) == Some(key) <==> map@.in_window(key, reading.value()),
{
    map.lemma_in_range();
    reading.lemma_range();
}

/// With a margin above zero, the expected reading of each key is sorted into
/// that key. The expected reading of `K1` must lie above the least that the
/// word can hold, which is never a key.
pub proof fn lemma_expected_is_key<W: Word>(map: KeyMap<W>, reading: W, key: Key)
    requires
        map@.well_formed(),
        map@.margin > 0,
        map@.k1 > W::lowest(),
        reading.value() == map@.expected(key),
    ensures
        map@.classify(reading.value()) == Some(key),
{
    map.lemma_in_range();
    reading.lemma_range();
}

/// With a margin above zero, the highest reading of the ADC and whatever
/// lies above it is `K4`: the window of `K4` has no upper end.
pub proof fn lemma_full_scale_is_k4<W: Word>(map: KeyMap<W>, reading: W)
    requires
        map@.well_formed(),
        map@.margin > 0,
        reading.value() >= map@.k4,
    ensures
        map@.classify(reading.value()) == Some(Key::K4),
{
    map.lemma_in_range();
    reading.lemma_range();
}

/// The two ends of the windows of `K1`, `K2` and `K3` are no key: a reading
/// that is off the expected one by the margin exactly lies outside.
pub proof fn lemma_window_ends_are_no_key<W: Word>(map: KeyMap<W>, reading: W, key: Key)
    requires
        map@.well_formed(),
        key != Key::K4,
        reading.value() == map@.expected(key) - map@.margin || reading.value() == map@.expected(
            key,
        ) + map@.margin,
    ensures
        map@.classify(reading.value()) is None,
{
    map.lemma_in_range();
    reading.lemma_range();
}

/// A reading at or below the lower end of the window of `K1` is no key.
pub proof fn lemma_below_k1_is_no_key<W: Word>(map: KeyMap<W>, reading: W)
    requires
        map@.well_formed(),
        reading.value() <= map@.k1 - map@.margin,
    ensures
        map@.classify(reading.value()) is None,
{
    map.lemma_in_range();
    reading.lemma_range();
}

/// The least reading that the word can hold is no key, in any map
/// whatever: no window reaches below the range of the word. For an unsigned
/// word this is the reading zero.
pub proof fn lemma_lowest_is_no_key<W: Word>(map: KeyMap<W>, reading: W)
    requires
        reading.value() == W::lowest(),
    ensures
        map@.classify(reading.value()) is None,
{
    map.lemma_in_range();
    reading.lemma_range();
}

/// A map derived with the default margin is sound exactly if the highest
/// reading of the ADC is 4 or more. Below that the keys cannot be told
/// apart.
pub proof fn lemma_default_margin_needs_four(max: int, lowest: int, highest: int)
    requires
        lowest <= 0,
        lowest <= max <= highest,
    ensures
        derived(max, DEFAULT_MARGIN_PERCENT as int, lowest, highest).well_formed() <==> 4 <= max,
{
}

/// Whatever the margin, a highest reading below 4 gives a map that is
/// refused: from 0 to 3 because the expected readings do not rise.
pub proof fn lemma_small_max_is_refused(max: int, margin_percent: int, lowest: int, highest: int)
    requires
        max < 4,
        0 <= margin_percent,
        lowest <= 0 <= highest,
    ensures
        derived(max, margin_percent, lowest, highest).fault() is Some,
        0 <= max ==> derived(max, margin_percent, lowest, highest).fault() == Some(
            MapError::NotIncreasing,
        ),
{
    assert(0 <= max ==> 0 <= (max * margin_percent) / 100) by (nonlinear_arith)
        requires
            0 <= margin_percent,
    ;
}

/// The checked derivation hands out a map with the default margin exactly if
/// the highest reading of the ADC is 4 or more, and with any margin refuses
/// a highest reading below 4.
pub proof fn lemma_checked_map_needs_four<W: Word>(
    max: W,
    margin_percent: u8,
    checked: Result<KeyMap<W>, MapError>,
)
    requires
        call_ensures(checked_map_from_max::<W>, (max, margin_percent), checked),
    ensures
        margin_percent == DEFAULT_MARGIN_PERCENT ==> (checked is Ok <==> 4 <= max.value()),
        max.value() < 4 ==> checked is Err,
{
    max.lemma_range();
    lemma_default_margin_needs_four(max.value(), W::lowest(), W::highest());
    if max.value() < 4 {
        lemma_small_max_is_refused(
            max.value(),
            margin_percent as int,
            W::lowest(),
            W::highest(),
        );
    }
}

/// From a highest reading of 34 on, a map derived with the default margin
/// is sound and has a margin of at least one, the highest reading is
/// `K4`, and the reading zero is no key.
pub proof fn lemma_default_margin_from_34(max: int, lowest: int, highest: int)
    requires
        lowest <= 0,
        34 <= max <= highest,
    ensures
        ({
            let table = derived(max, DEFAULT_MARGIN_PERCENT as int, lowest, highest);
            &&& table.well_formed()
            &&& 1 <= table.margin <= table.k1
            &&& table.k4 == max
            &&& table.classify(max) == Some(Key::K4)
            &&& table.classify(0) is None
        }),
{
}

/// Every ready map is sound, so that its expected readings rise from
/// `K1` to `K4`; it sorts the highest reading of its ADC into `K4`, and the
/// reading zero into no key.
pub proof fn lemma_ready_maps(table: Table)
    requires
        ready(table),
    ensures
        table.well_formed(),
        table.k1 < table.k2 < table.k3 < table.k4,
        table.classify(table.k4) == Some(Key::K4),
        table.classify(0) is None,
{
    lemma_default_margin_from_34(table.k4, table.lowest, table.highest);
}

} // verus!
