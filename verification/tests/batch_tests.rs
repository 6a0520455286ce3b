use meridian_contracts::batch::{apply_discount, batch_discount_bps, err_item, finalize, ok_item, GasMeter};

#[test]
fn discount_schedule_by_batch_size() {
    assert_eq!(batch_discount_bps(1), 0);
    assert_eq!(batch_discount_bps(4), 0);
    assert_eq!(batch_discount_bps(5), 500);
    assert_eq!(batch_discount_bps(10), 1_000);
    assert_eq!(batch_discount_bps(20), 1_500);
    assert_eq!(batch_discount_bps(50), 2_000);
}

#[test]
fn discounted_fee_saturates_at_zero() {
    assert_eq!(apply_discount(10_000, 1_000), 9_000);
    assert_eq!(apply_discount(10_000, 0), 10_000);
    assert_eq!(apply_discount(100, 10_000), 0);
    assert_eq!(apply_discount(100, 20_000), 0);
    assert_eq!(apply_discount(0, 5_000), 0);
    assert_eq!(apply_discount(i128::MAX, 2), i128::MAX - i128::MAX / 10_000);
    assert_eq!(apply_discount(-10_000, 1_000), -9_000);
}

#[test]
fn finalize_counts_outcomes() {
    let meter = GasMeter::start();
    let items = vec![ok_item(0, 7), err_item(1, "bad"), ok_item(2, 8)];
    let r = finalize(items, &meter, 3);
    assert_eq!(r.succeeded, 2);
    assert_eq!(r.failed, 1);
    assert_eq!(r.results.len(), 3);
    assert_eq!(r.estimated_savings_instructions, 400_000);
}
