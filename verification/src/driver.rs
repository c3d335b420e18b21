//! The keypad on its analog pin.
//!
//! [`KC11B04`] keeps the pin that the keypad is wired to together with the
//! key map for the ADC, so that a reading is always sorted by the map that
//! belongs to it. The conversion itself is the business of the ADC's own
//! driver: its outcome, a reading or an error, is handed to
//! [`KC11B04::key_state`].

use vstd::prelude::*;
use crate::key::Key;
use crate::mapping::KeyMap;
use crate::word::Word;

verus! {

/// KC11B04 analog keypad driver. Constructed with [`KC11B04::new`].
pub struct KC11B04<Pin, W> {
    pin: Pin,
    map: KeyMap<W>,
}

/// What the keypad reports for the outcome `sample` of one conversion, with
/// the key map `map`: the key that the reading is sorted into, or the error
/// of the conversion as it came.
pub open spec fn key_state_of<W: Word, E>(map: KeyMap<W>, sample: Result<W, E>) -> Result<
    Option<Key>,
    E,
> {
    match sample {
        Ok(reading) => Ok(map@.classify(reading.value())),
        Err(error) => Err(error),
    }
}

impl<Pin, W: Word> KC11B04<Pin, W> {
    /// The analog pin that the keypad is wired to.
    pub closed spec fn pin(self) -> Pin {
        self.pin
    }

    /// The key map that readings are sorted by.
    pub closed spec fn map(self) -> KeyMap<W> {
        self.map
    }

    /// Create a [`KC11B04`] instance for the given ADC pin / channel and
    /// mapping. The keypad takes ownership of the pin.
    pub fn new(pin: Pin, map: KeyMap<W>) -> (keypad: Self)
        ensures
            keypad.pin() == pin,
            keypad.map() == map,
    {
        Self { pin, map }
    }

    /// The pin of the keypad, to take one reading from. The key map stays as
    /// it is.
    pub fn pin_mut(&mut self) -> (pin: &mut Pin)
        ensures
            *pin == old(self).pin(),
            final(self).pin() == *final(pin),
            final(self).map() == old(self).map(),
    {
        &mut self.pin
    }

    /// Takes the outcome of one ADC conversion on the keypad's pin and finds
    /// whether a key is currently being pressed.
    ///
    /// Will be `None` when no key is pressed, but also for some simultaneous
    /// key combinations. An error of the conversion is handed on as it is:
    /// nothing is tried again and nothing is kept between calls.
    pub fn key_state<E>(&self, sample: Result<W, E>) -> (state: Result<Option<Key>, E>)
        ensures
            state == key_state_of(self.map(), sample),
    {
        match sample {
            Ok(reading) => Ok(self.map.key_from_reading(reading)),
            Err(error) => Err(error),
        }
    }
}

} // verus!
