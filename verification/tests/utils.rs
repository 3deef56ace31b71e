use pumpfun::utils::{calculate_with_slippage_buy, calculate_with_slippage_sell, parse_amount};

#[test]
fn slippage_raises_what_a_purchase_may_cost() {
    assert_eq!(calculate_with_slippage_buy(1000, 500), 1050);
    assert_eq!(calculate_with_slippage_buy(1000, 0), 1000);
    assert_eq!(calculate_with_slippage_buy(19, 500), 19);
    assert_eq!(calculate_with_slippage_buy(20, 500), 21);
    assert_eq!(calculate_with_slippage_buy(u64::MAX, 1), u64::MAX);
    assert_eq!(calculate_with_slippage_buy(u64::MAX, u64::MAX), u64::MAX);
}

#[test]
fn slippage_lowers_what_a_sale_must_bring() {
    assert_eq!(calculate_with_slippage_sell(1000, 500), 950);
    assert_eq!(calculate_with_slippage_sell(1000, 0), 1000);
    assert_eq!(calculate_with_slippage_sell(19, 500), 19);
    assert_eq!(calculate_with_slippage_sell(1000, 10_000), 0);
    assert_eq!(calculate_with_slippage_sell(1000, 10_001), 0);
    assert_eq!(calculate_with_slippage_sell(u64::MAX, u64::MAX), 0);
}

#[test]
fn slippage_only_loosens_on_examples() {
    for amount in [0, 1, 999, 123_456_789, u64::MAX] {
        for basis_points in [0, 1, 500, 9_999, 10_000] {
            assert!(calculate_with_slippage_buy(amount, basis_points) >= amount);
            assert!(calculate_with_slippage_sell(amount, basis_points) <= amount);
            assert!(
                calculate_with_slippage_buy(amount, basis_points)
                    <= calculate_with_slippage_buy(amount, basis_points + 1)
            );
            assert!(
                calculate_with_slippage_sell(amount, basis_points)
                    >= calculate_with_slippage_sell(amount, basis_points + 1)
            );
        }
    }
}

#[test]
fn amounts_read_like_the_standard_parser() {
    for text in [
        "", "0", "7", "+7", "++7", "+", "-1", "007", " 7", "7 ", "7_000", "1e3", "\u{0661}",
        "18446744073709551615", "18446744073709551616", "99999999999999999999999", "1000x",
    ] {
        assert_eq!(parse_amount(text), text.parse::<u64>().ok(), "{text:?}");
    }
    assert_eq!(parse_amount("1000000"), Some(1_000_000));
}
