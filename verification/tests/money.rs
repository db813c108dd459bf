use std::collections::HashSet;

use dollars::Dollars;

#[test]
fn zero_has_no_dollars_no_cents_and_is_not_positive() {
    let zero = Dollars::from(0);
    assert_eq!(zero.dollars(), 0);
    assert_eq!(zero.cents(), 0);
    assert_eq!(zero.in_cents(), 0);
    assert!(!zero.is_positive());
    assert_eq!(zero.to_string(), "$0.00");
}

#[test]
fn negative_amount_gives_magnitudes() {
    let debt = Dollars::from(-105);
    assert_eq!(debt.dollars(), 1);
    assert_eq!(debt.cents(), 5);
    assert_eq!(debt.in_cents(), -105);
    assert!(!debt.is_positive());
    assert_eq!(debt.to_string(), "-$1.05");
}

#[test]
fn positive_amount_gives_its_parts() {
    let price = Dollars::from(1234);
    assert_eq!(price.dollars(), 12);
    assert_eq!(price.cents(), 34);
    assert_eq!(price.in_cents(), 1234);
    assert!(price.is_positive());
}

#[test]
fn one_cent_is_positive() {
    assert!(Dollars::from(1).is_positive());
    assert!(!Dollars::from(-1).is_positive());
}

#[test]
fn parts_of_the_extreme_amounts() {
    let highest = Dollars::from(i64::MAX);
    assert_eq!(highest.dollars(), 92_233_720_368_547_758);
    assert_eq!(highest.cents(), 7);
    let lowest = Dollars::from(i64::MIN);
    assert_eq!(lowest.dollars(), 92_233_720_368_547_758);
    assert_eq!(lowest.cents(), 8);
    assert_eq!(lowest.in_cents(), i64::MIN);
}

#[test]
fn parts_make_up_the_magnitude() {
    for v in [-100_000_i64, -10_001, -999, -100, -99, -1, 0, 1, 99, 100, 101, 5_000, 123_456_789] {
        let amount = Dollars::from(v);
        assert!(amount.cents() >= 0 && amount.cents() < 100);
        assert!(amount.dollars() >= 0);
        assert_eq!(amount.dollars() * 100 + amount.cents(), v.abs());
    }
}

#[test]
fn default_is_zero_cents() {
    assert_eq!(Dollars::default().in_cents(), 0);
    assert!(Dollars::default() == Dollars::from(0));
}

#[test]
fn addition_adds_cent_counts() {
    assert_eq!((Dollars::from(150) + Dollars::from(275)).in_cents(), 425);
    assert_eq!((Dollars::from(150) + Dollars::from(-275)).in_cents(), -125);
}

#[test]
fn subtraction_subtracts_cent_counts() {
    assert_eq!((Dollars::from(150) - Dollars::from(275)).in_cents(), -125);
    assert_eq!((Dollars::from(-150) - Dollars::from(-275)).in_cents(), 125);
}

#[test]
fn addition_wraps_at_the_highest_amount() {
    let wrapped = Dollars::from(i64::MAX) + Dollars::from(1);
    assert_eq!(wrapped.in_cents(), i64::MIN);
}

#[test]
fn subtraction_wraps_at_the_lowest_amount() {
    let wrapped = Dollars::from(i64::MIN) - Dollars::from(1);
    assert_eq!(wrapped.in_cents(), i64::MAX);
}

#[test]
fn subtracting_what_was_added_gives_the_amount_back() {
    let pairs = [
        (0_i64, 0_i64),
        (1234, 66),
        (-1234, 66),
        (1234, -66),
        (i64::MAX, 1),
        (i64::MIN, -1),
        (i64::MAX, i64::MAX),
        (i64::MIN, i64::MIN),
        (i64::MIN, i64::MAX),
    ];
    for (a, b) in pairs {
        let back = Dollars::from(a) + Dollars::from(b) - Dollars::from(b);
        assert_eq!(back.in_cents(), a);
        assert!(back == Dollars::from(a));
    }
}

#[test]
fn negation_flips_the_sign() {
    assert_eq!((-Dollars::from(105)).in_cents(), -105);
    assert_eq!((-Dollars::from(-105)).in_cents(), 105);
    assert_eq!((-Dollars::from(0)).in_cents(), 0);
    assert_eq!((-Dollars::from(i64::MAX)).in_cents(), i64::MIN + 1);
}

#[test]
fn negation_leaves_the_lowest_amount() {
    assert_eq!((-Dollars::from(i64::MIN)).in_cents(), i64::MIN);
}

#[test]
fn negating_twice_gives_the_amount_back() {
    for v in [0_i64, 1, -1, 105, -105, i64::MAX, i64::MIN, i64::MIN + 1] {
        let back = -(-Dollars::from(v));
        assert_eq!(back.in_cents(), v);
        assert!(back == Dollars::from(v));
    }
}

#[test]
fn amounts_are_equal_when_their_cents_are() {
    assert!(Dollars::from(500) == Dollars::from(500));
    assert!(Dollars::from(500) != Dollars::from(-500));
    assert!(Dollars::from(0) == -Dollars::from(0));
}

#[test]
fn amounts_order_by_signed_cents() {
    assert!(Dollars::from(-500) < Dollars::from(-499));
    assert!(Dollars::from(-1) < Dollars::from(0));
    assert!(Dollars::from(0) < Dollars::from(1));
    assert!(Dollars::from(100) > Dollars::from(99));
    assert!(Dollars::from(100) >= Dollars::from(100));
    assert!(Dollars::from(100) <= Dollars::from(100));
    assert!(Dollars::from(i64::MIN) < Dollars::from(i64::MAX));
    assert!(Dollars::from(3).partial_cmp(&Dollars::from(7)) == Some(std::cmp::Ordering::Less));
    assert!(Dollars::from(7).partial_cmp(&Dollars::from(3)) == Some(std::cmp::Ordering::Greater));
    assert!(Dollars::from(7).partial_cmp(&Dollars::from(7)) == Some(std::cmp::Ordering::Equal));
    assert!(Dollars::from(3).cmp(&Dollars::from(7)) == std::cmp::Ordering::Less);
    assert!(Dollars::from(-3).max(Dollars::from(-7)) == Dollars::from(-3));
}

#[test]
fn sorting_puts_debts_first() {
    let mut amounts = vec![Dollars::from(5), Dollars::from(-20), Dollars::from(0), Dollars::from(-1)];
    amounts.sort();
    let cents: Vec<i64> = amounts.iter().map(|a| a.in_cents()).collect();
    assert_eq!(cents, vec![-20, -1, 0, 5]);
}

#[test]
fn equal_amounts_hash_alike() {
    let mut seen = HashSet::new();
    seen.insert(Dollars::from(1234));
    seen.insert(Dollars::from(1234));
    seen.insert(Dollars::from(-1234));
    assert_eq!(seen.len(), 2);
    assert!(seen.contains(&Dollars::from(-1234)));
}

#[test]
fn amounts_are_copied_freely() {
    let a = Dollars::from(42);
    let b = a;
    let c = a.clone();
    assert!(a == b && b == c);
}
