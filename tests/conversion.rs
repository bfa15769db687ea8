use wallet_tracker::date::{date_of, epoch_converter, format_date_time};
use wallet_tracker::error::ErrorKind;
use wallet_tracker::fraction::Fraction;
use wallet_tracker::numeric::{parse_decimal, parse_hex_quantity, parse_point_decimal};
use wallet_tracker::query::wei_to_ether;

fn as_f64(f: &Fraction) -> f64 {
    f.numerator as f64 / f.denominator as f64
}

#[test]
fn wei_to_ether_one_ether() {
    let e = wei_to_ether("1000000000000000000").unwrap();
    assert_eq!(as_f64(&e), 1.0);
    assert_eq!(e.to_decimal_text(18), "1");
}

#[test]
fn wei_to_ether_zero() {
    let e = wei_to_ether("0").unwrap();
    assert_eq!(as_f64(&e), 0.0);
    assert_eq!(e.to_decimal_text(18), "0");
}

#[test]
fn wei_to_ether_hex_one_wei() {
    let e = wei_to_ether("0x1").unwrap();
    assert_eq!(as_f64(&e), 1e-18);
    assert_eq!(e.to_decimal_text(18), "0.000000000000000001");
}

#[test]
fn wei_to_ether_rejects_non_numeric() {
    let e = wei_to_ether("12a").unwrap_err();
    assert_eq!(e.kind(), ErrorKind::NumericParse);
    assert!(wei_to_ether("").is_err());
    assert!(wei_to_ether("0x").is_err());
    assert!(wei_to_ether("0xzz").is_err());
}

#[test]
fn epoch_zero_is_unix_epoch() {
    assert_eq!(epoch_converter("0".to_string()).unwrap(), "1970-01-01 00:00:00");
}

#[test]
fn epoch_new_year_2021() {
    assert_eq!(epoch_converter("1609459200".to_string()).unwrap(), "2021-01-01 00:00:00");
    assert_eq!(epoch_converter("1609545599".to_string()).unwrap(), "2021-01-01 23:59:59");
    assert_eq!(epoch_converter("951782400".to_string()).unwrap(), "2000-02-29 00:00:00");
}

#[test]
fn epoch_rejects_bad_text() {
    assert_eq!(epoch_converter("abc".to_string()).unwrap_err().kind(), ErrorKind::NumericParse);
    assert_eq!(epoch_converter("-5".to_string()).unwrap_err().kind(), ErrorKind::NumericParse);
    assert_eq!(epoch_converter("".to_string()).unwrap_err().kind(), ErrorKind::NumericParse);
    assert_eq!(
        epoch_converter("18446744073709551616".to_string()).unwrap_err().kind(),
        ErrorKind::NumericParse
    );
    assert_eq!(
        epoch_converter("18446744073709551615".to_string()).unwrap_err().kind(),
        ErrorKind::NumericParse
    );
}

#[test]
fn format_date_time_pads_fields() {
    assert_eq!(format_date_time(2021, 3, 7, 3723), "2021-03-07 01:02:03");
    assert_eq!(format_date_time(12345, 12, 31, 86399), "+12345-12-31 23:59:59");
    assert_eq!(format_date_time(9999, 1, 2, 0), "9999-01-02 00:00:00");
    assert_eq!(format_date_time(-44, 3, 15, 0), "-0044-03-15 00:00:00");
}

#[test]
fn date_of_keeps_date_part() {
    assert_eq!(date_of("2021-01-01 00:00:00"), "2021-01-01");
    assert_eq!(date_of("no-space"), "no-space");
    assert_eq!(date_of(""), "");
}

#[test]
fn parse_decimal_values_and_limits() {
    assert_eq!(parse_decimal("21000"), Some(21000));
    assert_eq!(parse_decimal("007"), Some(7));
    assert_eq!(parse_decimal(""), None);
    assert_eq!(parse_decimal("+1"), None);
    assert_eq!(parse_decimal("340282366920938463463374607431768211455"), Some(u128::MAX));
    assert_eq!(parse_decimal("340282366920938463463374607431768211456"), None);
}

#[test]
fn parse_hex_quantity_values() {
    assert_eq!(parse_hex_quantity("0xde0b6b3a7640000"), Some(1_000_000_000_000_000_000));
    assert_eq!(parse_hex_quantity("0xFF"), Some(255));
    assert_eq!(parse_hex_quantity("ff"), None);
    assert_eq!(parse_hex_quantity("0x"), None);
    assert_eq!(parse_hex_quantity("0x1g"), None);
}

#[test]
fn parse_point_decimal_values() {
    assert_eq!(parse_point_decimal("3456.78"), Some((345678, 2)));
    assert_eq!(parse_point_decimal("12"), Some((12, 0)));
    assert_eq!(parse_point_decimal("0.05"), Some((5, 2)));
    assert_eq!(parse_point_decimal("1."), None);
    assert_eq!(parse_point_decimal(".5"), None);
    assert_eq!(parse_point_decimal("1.2.3"), None);
}

#[test]
fn fraction_text_truncates_and_strips() {
    assert_eq!(Fraction { numerator: 1, denominator: 3 }.to_decimal_text(18), "0.333333333333333333");
    assert_eq!(Fraction { numerator: 10, denominator: 4 }.to_decimal_text(18), "2.5");
    assert_eq!(Fraction { numerator: 2, denominator: 3 }.to_decimal_text(2), "0.66");
    assert_eq!(Fraction { numerator: 63000, denominator: 2 }.to_decimal_text(2), "31500");
    assert_eq!(
        Fraction { numerator: u128::MAX, denominator: u128::MAX - 1 }.to_decimal_text(3),
        "1"
    );
}

#[test]
fn hundredths_round_to_nearest() {
    assert_eq!(Fraction { numerator: 28000, denominator: 1 }.to_hundredths_text(), "28000.00");
    assert_eq!(Fraction { numerator: 100, denominator: 3 }.to_hundredths_text(), "33.33");
    assert_eq!(Fraction { numerator: 2, denominator: 3 }.to_hundredths_text(), "0.67");
    assert_eq!(Fraction { numerator: 1, denominator: 8 }.to_hundredths_text(), "0.13");
    assert_eq!(Fraction { numerator: 1999, denominator: 2000 }.to_hundredths_text(), "1.00");
    assert_eq!(Fraction { numerator: u128::MAX, denominator: 1 }.to_hundredths_text(), format!("{}.00", u128::MAX));
}
