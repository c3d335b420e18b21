//! Driver logic for the KC11B04 4-button analog keypad.
//!
//! A 3-pin module using a voltage divider circuit and an analog pin to sense
//! a key press. Each key puts its own share of the supply voltage on the
//! pin, so one ADC reading tells which key is held down.
//!
//! - A [`KeyMap`] holds the reading that each key is expected to give for
//!   one ADC resolution, together with a margin, and sorts a reading into a
//!   [`Key`] or into nothing. See [`mapping`] for the ready maps and for maps
//!   of one's own, and [`table`] for what sorting means exactly.
//! - [`KC11B04`] owns the analog pin and a map, and turns the outcome of one
//!   conversion into the state of the keypad.
//! - [`Word`] is what a key map asks of the integer type of the readings.
//! - [`theorems`] holds what is proved of every map.
//!
//! # Wiring notes
//!
//! The voltage on the `VCC` pin should correspond with the reference voltage
//! (maximum value) the ADC is configured to read.
//!
//! # Example
//!
//! ```ignore
//! use kc11b04::{mapping::map_10bit, Key, KC11B04};
//!
//! // Create the keypad driver. Taking ownership of the pin,
//! // providing a map that matches the resolution of your ADC.
//! let mut keypad = KC11B04::new(ad_pin, map_10bit());
//!
//! // Somewhere within loop { }
//! // Take one reading on the keypad's pin, and find the key state.
//! let sample = adc.read(keypad.pin_mut());
//! match keypad.key_state(sample).expect("Problem reading ADC channel") {
//!     Some(Key::K4) => { /* K4 key being pressed */ }
//!     Some(Key::K3) => { /* K3 key being pressed */ }
//!     Some(Key::K2) => { /* K2 key being pressed */ }
//!     Some(Key::K1) => { /* K1 key being pressed */ }
//!     None => { /* Either nothing, or multiple keys pressed */ }
//! }
//! ```

pub mod driver;
pub mod key;
pub mod mapping;
pub mod table;
pub mod theorems;
pub mod word;

pub use driver::KC11B04;
pub use key::Key;
pub use mapping::KeyMap;
pub use table::{MapError, Table};
pub use word::Word;
