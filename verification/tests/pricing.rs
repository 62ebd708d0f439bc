use micropricer::pricing::{calculate_microprice, calculate_midprice};
use micropricer::rational::Rational;

#[test]
fn test_microprice() {
    let r = calculate_microprice(101, 100, 98, 50);
    assert!(r.equals_int(99));
}

#[test]
fn test_microprice_exact_fraction() {
    let r = calculate_microprice(101, 100, 98, 50);
    assert_eq!(r.num, 14850);
    assert_eq!(r.den, 150);
}

#[test]
fn test_midprice_is_mean() {
    let r = calculate_midprice(98, 101);
    assert_eq!(r.num, 199);
    assert_eq!(r.den, 2);
}

#[test]
fn test_midprice_whole_value() {
    let a = calculate_midprice(100, 102);
    assert!(a.equals_int(101));
}

#[test]
fn test_microprice_between_bid_and_ask() {
    let r = calculate_microprice(101, 30, 98, 70);
    assert!(r.at_least_int(98));
    assert!(r.at_most_int(101));
}

#[test]
fn test_microprice_thin_ask_hits_ask_price() {
    let r = calculate_microprice(101, 0, 98, 50);
    assert!(r.equals_int(101));
}

#[test]
fn test_microprice_thin_bid_hits_bid_price() {
    let r = calculate_microprice(101, 100, 98, 0);
    assert!(r.equals_int(98));
}

#[test]
fn test_rational_comparisons() {
    let half_extra = Rational { num: 199, den: 2 };
    assert!(!half_extra.equals_int(99));
    assert!(!half_extra.equals_int(100));
    assert!(half_extra.at_least_int(99));
    assert!(!half_extra.at_most_int(99));
    assert!(half_extra.at_most_int(100));
    assert!(!half_extra.at_least_int(100));
    let whole = Rational { num: 200, den: 2 };
    assert!(whole.equals_int(100));
    assert!(whole.at_least_int(100));
    assert!(whole.at_most_int(100));
}
