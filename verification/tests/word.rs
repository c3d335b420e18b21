use kc11b04::Word;

#[test]
fn addition_stops_at_the_ends_of_the_range() {
    assert_eq!(250u8.clamped_add(5), 255);
    assert_eq!(250u8.clamped_add(6), 255);
    assert_eq!(100u8.clamped_add(27), 127);
    assert_eq!(65535u16.clamped_add(1), 65535);
    assert_eq!(u32::MAX.clamped_add(u32::MAX), u32::MAX);
    assert_eq!(Word::clamped_add(32000i16, 767), 32767);
    assert_eq!(Word::clamped_add(32000i16, 768), 32767);
    assert_eq!(Word::clamped_add(-32000i16, -769), -32768);
    assert_eq!(Word::clamped_add(-5i16, 3), -2);
    assert_eq!(Word::clamped_add(i32::MAX, 1), i32::MAX);
    assert_eq!(Word::clamped_add(i32::MIN, -1), i32::MIN);
    assert_eq!(Word::clamped_add(i32::MIN, i32::MAX), -1);
}

#[test]
fn subtraction_stops_at_the_ends_of_the_range() {
    assert_eq!(5u8.clamped_sub(10), 0);
    assert_eq!(10u8.clamped_sub(10), 0);
    assert_eq!(10u8.clamped_sub(3), 7);
    assert_eq!(0u16.clamped_sub(65535), 0);
    assert_eq!(7u32.clamped_sub(8), 0);
    assert_eq!(Word::clamped_sub(-32000i16, 769), -32768);
    assert_eq!(Word::clamped_sub(-32000i16, 768), -32768);
    assert_eq!(Word::clamped_sub(32000i16, -768), 32767);
    assert_eq!(Word::clamped_sub(5i16, 8), -3);
    assert_eq!(Word::clamped_sub(i32::MIN, 1), i32::MIN);
    assert_eq!(Word::clamped_sub(i32::MAX, -1), i32::MAX);
    assert_eq!(Word::clamped_sub(0i32, i32::MIN), i32::MAX);
}

#[test]
fn words_compare_as_their_integers() {
    assert!(3u8.less_than(4));
    assert!(!4u8.less_than(4));
    assert!(!5u16.less_than(4));
    assert!(Word::less_than(-1i16, 0));
    assert!(!Word::less_than(0i32, -1));
    assert!(0u32.less_than(u32::MAX));
}

#[test]
fn widening_keeps_the_integer() {
    assert_eq!(255u8.widen(), 255);
    assert_eq!(65535u16.widen(), 65535);
    assert_eq!(u32::MAX.widen(), 4294967295);
    assert_eq!(Word::widen(-32768i16), -32768);
    assert_eq!(Word::widen(i32::MIN), -2147483648);
}

#[test]
fn narrowing_takes_the_nearest_word() {
    assert_eq!(<u8 as Word>::narrow(200), 200);
    assert_eq!(<u8 as Word>::narrow(256), 255);
    assert_eq!(<u8 as Word>::narrow(-1), 0);
    assert_eq!(<u16 as Word>::narrow(65536), 65535);
    assert_eq!(<u16 as Word>::narrow(i64::MIN), 0);
    assert_eq!(<u32 as Word>::narrow(4294967296), u32::MAX);
    assert_eq!(<u32 as Word>::narrow(4294967295), u32::MAX);
    assert_eq!(<u32 as Word>::narrow(-7), 0);
    assert_eq!(<i16 as Word>::narrow(-32769), -32768);
    assert_eq!(<i16 as Word>::narrow(32768), 32767);
    assert_eq!(<i16 as Word>::narrow(-12), -12);
    assert_eq!(<i32 as Word>::narrow(i64::MAX), i32::MAX);
    assert_eq!(<i32 as Word>::narrow(i64::MIN), i32::MIN);
    assert_eq!(<i32 as Word>::narrow(-2147483648), i32::MIN);
}
