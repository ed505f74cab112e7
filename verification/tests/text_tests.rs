use co2_monitor::text::{format_reading, TextBuffer, TEXT_CAPACITY};

#[test]
fn caption_of_a_typical_reading() {
    assert_eq!(format_reading(412).as_str(), "CO2: 412");
}

#[test]
fn caption_of_zero_has_one_digit() {
    assert_eq!(format_reading(0).as_str(), "CO2: 0");
}

#[test]
fn caption_of_single_digits() {
    assert_eq!(format_reading(7).as_str(), "CO2: 7");
    assert_eq!(format_reading(9).as_str(), "CO2: 9");
}

#[test]
fn caption_at_each_power_of_ten() {
    assert_eq!(format_reading(10).as_str(), "CO2: 10");
    assert_eq!(format_reading(99).as_str(), "CO2: 99");
    assert_eq!(format_reading(100).as_str(), "CO2: 100");
    assert_eq!(format_reading(999).as_str(), "CO2: 999");
    assert_eq!(format_reading(1000).as_str(), "CO2: 1000");
    assert_eq!(format_reading(9999).as_str(), "CO2: 9999");
    assert_eq!(format_reading(10000).as_str(), "CO2: 10000");
}

#[test]
fn caption_of_the_largest_reading_fills_the_buffer() {
    let text = format_reading(u16::MAX);
    assert_eq!(text.as_str(), "CO2: 65535");
    assert_eq!(text.len(), TEXT_CAPACITY);
    assert_eq!(text.capacity(), TEXT_CAPACITY);
}

#[test]
fn caption_keeps_inner_zeros() {
    assert_eq!(format_reading(1005).as_str(), "CO2: 1005");
    assert_eq!(format_reading(40960).as_str(), "CO2: 40960");
}

#[test]
fn caption_is_the_label_and_the_decimal_value_for_every_reading() {
    let mut reading: u16 = 0;
    loop {
        let expected = format!("CO2: {}", reading);
        assert_eq!(format_reading(reading).as_str(), expected.as_str());
        if reading == u16::MAX {
            break;
        }
        reading += 1;
    }
}

#[test]
fn each_caption_is_written_into_a_fresh_buffer() {
    let first: TextBuffer = format_reading(400);
    let second: TextBuffer = format_reading(412);
    assert_eq!(first.as_str(), "CO2: 400");
    assert_eq!(second.as_str(), "CO2: 412");
}
