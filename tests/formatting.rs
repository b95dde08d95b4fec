use media_remote::text::decimal_text;
use media_remote::{InfoTypes, Number};

#[test]
fn integers_are_written_in_decimal() {
    assert_eq!(decimal_text(0), "0");
    assert_eq!(decimal_text(7), "7");
    assert_eq!(decimal_text(1234567890), "1234567890");
    assert_eq!(decimal_text(u64::MAX), "18446744073709551615");
    assert_eq!(Number::Signed(-42).to_text(), "-42");
    assert_eq!(Number::Signed(i64::MIN).to_text(), "-9223372036854775808");
    assert_eq!(Number::Unsigned(10).to_text(), "10");
}

#[test]
fn floating_values_drop_trailing_zeros() {
    assert_eq!(Number::Floating(12_500).to_text(), "12.5");
    assert_eq!(Number::Floating(3_000).to_text(), "3");
    assert_eq!(Number::Floating(-250).to_text(), "-0.25");
    assert_eq!(Number::Floating(1_001).to_text(), "1.001");
    assert_eq!(Number::Floating(0).to_text(), "0");
}

#[test]
fn info_values_are_described() {
    assert_eq!(InfoTypes::String("Song".to_string()).to_text(), "Song");
    assert_eq!(InfoTypes::SystemTime(1_700_000_000_999).to_text(), "1700000000 seconds since UNIX_EPOCH");
    assert_eq!(InfoTypes::Data(vec![1, 2, 3]).to_text(), "[3 bytes of data]");
    assert_eq!(InfoTypes::Number(Number::Floating(1_500)).to_text(), "1.5");
    assert_eq!(InfoTypes::Unsupported.to_text(), "Unsupported");
}
