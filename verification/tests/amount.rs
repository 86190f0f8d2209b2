use pi_rust::amount::Amount;
use pi_rust::amount::UNITS_PER_PI;
use pi_rust::decimal::decimal_text;
use pi_rust::decimal::fraction_text;

#[test]
fn whole_amounts_have_no_point() {
    assert_eq!(Amount::from_whole(0).to_string(), "0");
    assert_eq!(Amount::from_whole(5).to_string(), "5");
    assert_eq!(Amount::from_whole(10).to_string(), "10");
    assert_eq!(Amount::from_whole(u32::MAX).to_string(), "4294967295");
    assert_eq!(Amount::from_whole(7).units, 7 * UNITS_PER_PI);
}

#[test]
fn fractions_lose_their_trailing_zeros() {
    assert_eq!(Amount { units: 55_000_000 }.to_string(), "5.5");
    assert_eq!(Amount { units: 31_400_000 }.to_string(), "3.14");
    assert_eq!(Amount { units: 1 }.to_string(), "0.0000001");
    assert_eq!(Amount { units: 10 }.to_string(), "0.000001");
    assert_eq!(Amount { units: 1_000_000 }.to_string(), "0.1");
    assert_eq!(Amount { units: 10_000_001 }.to_string(), "1.0000001");
    assert_eq!(Amount { units: 10_500_000 }.to_string(), "1.05");
    assert_eq!(Amount { units: 9_999_999 }.to_string(), "0.9999999");
    assert_eq!(Amount { units: u64::MAX }.to_string(), "1844674407370.9551615");
}

#[test]
fn amounts_agree_with_the_floating_point_rendering() {
    let cases: [(u64, f64); 7] = [
        (0, 0.0),
        (50_000_000, 5.0),
        (100_000_000, 10.0),
        (55_000_000, 5.5),
        (1_000_000, 0.1),
        (1, 0.0000001),
        (31_415_926, 3.1415926),
    ];
    for (units, float) in cases {
        assert_eq!(Amount { units }.to_string(), format!("{}", float));
    }
}

#[test]
fn decimal_text_of_whole_numbers() {
    assert_eq!(decimal_text(0), "0");
    assert_eq!(decimal_text(9), "9");
    assert_eq!(decimal_text(10), "10");
    assert_eq!(decimal_text(1_234_567_890), "1234567890");
    assert_eq!(decimal_text(u64::MAX), "18446744073709551615");
    for n in 0..2000u64 {
        assert_eq!(decimal_text(n), format!("{}", n));
    }
}

#[test]
fn fraction_text_after_the_point() {
    assert_eq!(fraction_text(0, 1_000_000), "");
    assert_eq!(fraction_text(5_000_000, 1_000_000), "5");
    assert_eq!(fraction_text(1_234_567, 1_000_000), "1234567");
    assert_eq!(fraction_text(1_200, 1_000_000), "00012");
    assert_eq!(fraction_text(25, 10), "25");
    assert_eq!(fraction_text(7, 1), "7");
    assert_eq!(fraction_text(7, 0), "");
}
