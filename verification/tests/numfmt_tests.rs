use telefetch::numfmt::{hundredths_dec, tenths_dec, u64_dec};

#[test]
fn plain_decimal() {
    assert_eq!(u64_dec(0), "0");
    assert_eq!(u64_dec(7), "7");
    assert_eq!(u64_dec(10), "10");
    assert_eq!(u64_dec(105), "105");
    assert_eq!(u64_dec(u64::MAX), "18446744073709551615");
}

#[test]
fn tenths_show_one_decimal() {
    assert_eq!(tenths_dec(0), "0.0");
    assert_eq!(tenths_dec(5), "0.5");
    assert_eq!(tenths_dec(125), "12.5");
    assert_eq!(tenths_dec(1000), "100.0");
}

#[test]
fn hundredths_show_two_decimals() {
    assert_eq!(hundredths_dec(0), "0.00");
    assert_eq!(hundredths_dec(5), "0.05");
    assert_eq!(hundredths_dec(50), "0.50");
    assert_eq!(hundredths_dec(4217), "42.17");
    assert_eq!(hundredths_dec(10000), "100.00");
}
