use embedded_hal::adc::{Channel, OneShot};
use embedded_hal_mock::adc::{Mock, MockChan0, MockChan1, Transaction};
use embedded_hal_mock::MockError;
use kc11b04::mapping::{map_10bit, map_12bit_signed};
use kc11b04::{Key, KC11B04};
use std::io::ErrorKind;

#[test]
fn reads_given_channel() {
    let expected = [
        Transaction::read(MockChan0::channel(), 0),
        Transaction::read(MockChan0::channel(), 1023),
        Transaction::read(MockChan0::channel(), 800),
        Transaction::read(MockChan0::channel(), 600),
        Transaction::read(MockChan0::channel(), 400),
    ];

    let mut adc = Mock::new(&expected);
    let mut keypad = KC11B04::new(MockChan0, map_10bit());

    let first = adc.read(keypad.pin_mut());
    let second = adc.read(keypad.pin_mut());
    let third = adc.read(keypad.pin_mut());
    let fourth = adc.read(keypad.pin_mut());
    let fifth = adc.read(keypad.pin_mut());

    assert_eq!(
        (
            keypad.key_state(first),
            keypad.key_state(second),
            keypad.key_state(third),
            keypad.key_state(fourth),
            keypad.key_state(fifth)
        ),
        (
            Ok(None),
            Ok(Some(Key::K4)),
            Ok(Some(Key::K3)),
            Ok(Some(Key::K2)),
            Ok(Some(Key::K1))
        )
    );
    adc.done();
}

#[test]
fn reads_the_pin_it_was_given() {
    let expected = [Transaction::read(MockChan1::channel(), 2047i16)];
    let mut adc = Mock::new(&expected);
    let mut keypad = KC11B04::new(MockChan1, map_12bit_signed());
    let sample = adc.read(keypad.pin_mut());
    assert_eq!(keypad.key_state(sample), Ok(Some(Key::K4)));
    adc.done();
}

#[test]
fn sampling_error_is_handed_on_unchanged() {
    let expected = [
        Transaction::read(MockChan0::channel(), 400u16)
            .with_error(MockError::Io(ErrorKind::InvalidData)),
        Transaction::read(MockChan0::channel(), 400u16),
    ];
    let mut adc = Mock::new(&expected);
    let mut keypad = KC11B04::new(MockChan0, map_10bit());
    let failed = adc.read(keypad.pin_mut());
    assert_eq!(
        keypad.key_state(failed),
        Err(nb::Error::Other(MockError::Io(ErrorKind::InvalidData)))
    );
    // nothing is kept from the failed call
    let sample = adc.read(keypad.pin_mut());
    assert_eq!(keypad.key_state(sample), Ok(Some(Key::K1)));
    adc.done();
}

#[test]
fn would_block_is_handed_on_unchanged() {
    let keypad = KC11B04::new(7u8, map_10bit());
    let busy: Result<u16, nb::Error<u8>> = Err(nb::Error::WouldBlock);
    assert_eq!(keypad.key_state(busy), Err(nb::Error::WouldBlock));
    let failed: Result<u16, &str> = Err("no conversion");
    assert_eq!(keypad.key_state(failed), Err("no conversion"));
}

#[test]
fn key_state_is_the_key_of_the_reading() {
    let keypad = KC11B04::new((), map_10bit());
    let map = map_10bit();
    for reading in [0u16, 300, 374, 375, 404, 500, 606, 700, 811, 900, 993, 994, 1023, 4000] {
        let sample: Result<u16, ()> = Ok(reading);
        assert_eq!(keypad.key_state(sample), Ok(map.key_from_reading(reading)));
    }
}

#[test]
fn pin_can_be_changed_through_pin_mut() {
    let mut keypad = KC11B04::new(3u8, map_10bit());
    assert_eq!(*keypad.pin_mut(), 3);
    *keypad.pin_mut() = 5;
    assert_eq!(*keypad.pin_mut(), 5);
    let sample: Result<u16, ()> = Ok(600);
    assert_eq!(keypad.key_state(sample), Ok(Some(Key::K2)));
}
