use dollars::Dollars;

#[test]
fn whole_and_fractional_parts_are_printed() {
    assert_eq!(Dollars::from(1234).to_string(), "$12.34");
    assert_eq!(Dollars::from(10_000).to_string(), "$100.00");
    assert_eq!(Dollars::from(100).to_string(), "$1.00");
}

#[test]
fn cents_are_padded_to_two_digits() {
    assert_eq!(Dollars::from(5).to_string(), "$0.05");
    assert_eq!(Dollars::from(50).to_string(), "$0.50");
    assert_eq!(Dollars::from(905).to_string(), "$9.05");
}

#[test]
fn negative_amounts_carry_a_leading_minus() {
    assert_eq!(Dollars::from(-1).to_string(), "-$0.01");
    assert_eq!(Dollars::from(-99).to_string(), "-$0.99");
    assert_eq!(Dollars::from(-1234).to_string(), "-$12.34");
}

#[test]
fn amounts_from_zero_up_carry_no_sign() {
    assert_eq!(Dollars::from(0).to_string(), "$0.00");
    assert_eq!((-Dollars::from(0)).to_string(), "$0.00");
    assert_eq!(Dollars::from(1).to_string(), "$0.01");
}

#[test]
fn dollars_have_no_leading_zeros() {
    assert_eq!(Dollars::from(1_000_000).to_string(), "$10000.00");
    assert_eq!(Dollars::from(100_001).to_string(), "$1000.01");
    assert_eq!(Dollars::from(999).to_string(), "$9.99");
    assert_eq!(Dollars::from(1000).to_string(), "$10.00");
}

#[test]
fn extreme_amounts_are_printed_in_full() {
    assert_eq!(Dollars::from(i64::MAX).to_string(), "$92233720368547758.07");
    assert_eq!(Dollars::from(i64::MIN).to_string(), "-$92233720368547758.08");
}

#[test]
fn printed_text_is_sign_dollars_point_cents() {
    for v in [-98_765_i64, -100, -7, 0, 7, 100, 98_765] {
        let amount = Dollars::from(v);
        let sign = if v < 0 { "-" } else { "" };
        let expected = format!("{}${}.{:02}", sign, amount.dollars(), amount.cents());
        assert_eq!(amount.to_string(), expected);
    }
}
