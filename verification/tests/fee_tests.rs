use pumpfun::fees::calculate_fees;

#[test]
fn split_concrete() {
    // total fee 3000, a third of it to the creator
    assert_eq!(calculate_fees(1_000_000, 30, 10), (1000, 2000));
}

#[test]
fn split_zero_rate_is_zero() {
    assert_eq!(calculate_fees(1_000_000, 0, 10), (0, 0));
    assert_eq!(calculate_fees(1_000_000, 0, 0), (0, 0));
}

#[test]
fn split_zero_amount_is_zero() {
    assert_eq!(calculate_fees(0, 30, 10), (0, 0));
    assert_eq!(calculate_fees(0, 10000, 10000), (0, 0));
}

#[test]
fn split_vanishing_total_fee() {
    // 100 * 30 / 10000 floors to zero: nothing to split
    assert_eq!(calculate_fees(100, 30, 10), (0, 0));
}

#[test]
fn split_rounding_favours_treasury() {
    // total fee 37; creator floor(37 * 10 / 30) = 12, treasury takes the rest
    assert_eq!(calculate_fees(12345, 30, 10), (12, 25));
}

#[test]
fn split_full_share_to_creator() {
    assert_eq!(calculate_fees(1_000_000, 30, 30), (3000, 0));
}

#[test]
fn split_no_share_to_creator() {
    assert_eq!(calculate_fees(1_000_000, 30, 0), (0, 3000));
}

#[test]
fn split_sums_to_total_fee() {
    for amount in [1u128, 999, 10_000, 123_456_789, u64::MAX as u128] {
        for bps in [1u64, 7, 30, 9999, 10000] {
            for share in [0u64, 1, bps / 2, bps] {
                let (creator, treasury) = calculate_fees(amount, bps, share);
                let total = amount * bps as u128 / 10000;
                assert_eq!(creator + treasury, total);
                assert!(creator <= total);
            }
        }
    }
}
