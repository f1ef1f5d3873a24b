use miden_swapp::PswapNote;

#[test]
fn zero_input_pays_nothing() {
    assert_eq!(PswapNote::calculate_output_amount(1000, 500, 0), 0);
    assert_eq!(PswapNote::calculate_output_amount(500, 1000, 0), 0);
}

#[test]
fn equal_totals_trade_one_to_one() {
    for i in [0u64, 1, 7, 999, 123_456] {
        assert_eq!(PswapNote::calculate_output_amount(777, 777, i), i);
    }
}

#[test]
fn output_grows_with_input() {
    let mut last = 0;
    for i in 0..200u64 {
        let out = PswapNote::calculate_output_amount(7, 3, i);
        assert!(out >= last);
        last = out;
    }
    let mut last = 0;
    for i in 0..200u64 {
        let out = PswapNote::calculate_output_amount(3, 7, i);
        assert!(out >= last);
        last = out;
    }
}

#[test]
fn payout_is_floored_proportion() {
    for (o, r) in [(7u64, 3u64), (3, 7), (50, 30), (1000, 3)] {
        for i in 0..=r {
            let out = PswapNote::calculate_output_amount(o, r, i);
            assert!(out * r <= i * o);
            assert!((out + 1) * r > i * o);
            assert!(out <= o);
        }
    }
    assert_eq!(PswapNote::calculate_output_amount(50, 30, 7), 11);
}

#[test]
fn full_fill_pays_whole_offer() {
    assert_eq!(PswapNote::calculate_output_amount(1000, 3, 3), 1000);
    assert_eq!(PswapNote::calculate_output_amount(200_000, 200_001, 200_001), 200_000);
    assert_eq!(PswapNote::calculate_output_amount(999_999, 1_000_000, 1_000_000), 999_999);
}

#[test]
fn computability_check() {
    assert!(!miden_swapp::pricing::output_amount_is_computable(5, 0, 1));
    // the rule divides by the offered total when it is not the larger
    assert!(!miden_swapp::pricing::output_amount_is_computable(0, 5, 1));
    assert!(!miden_swapp::pricing::output_amount_is_computable(0, 0, 0));
    assert!(miden_swapp::pricing::output_amount_is_computable(u64::MAX, u64::MAX, u64::MAX));
    assert!(!miden_swapp::pricing::output_amount_is_computable(u64::MAX, 1, 2));
}
