use zakat_pool::pool::{assert_solvent, TTL_EXTEND_TO, TTL_THRESHOLD};
use zakat_pool::{BucketSet, Category, Error, ZakatPool};

fn buckets(fuqara: i128, masakin: i128, riqab: i128) -> BucketSet {
    BucketSet { fuqara, masakin, riqab }
}

#[test]
fn unknown_asset_reads_zero() {
    assert_eq!(ZakatPool::bucket_balance(&None, Category::Fuqara), 0);
    assert_eq!(ZakatPool::bucket_balance(&None, Category::Riqab), 0);
}

#[test]
fn bucket_balance_reads_the_category() {
    let stored = Some(buckets(4, 5, 6));
    assert_eq!(ZakatPool::bucket_balance(&stored, Category::Fuqara), 4);
    assert_eq!(ZakatPool::bucket_balance(&stored, Category::Masakin), 5);
    assert_eq!(ZakatPool::bucket_balance(&stored, Category::Riqab), 6);
}

#[test]
fn credit_of_unknown_asset_starts_from_zero() {
    let b = ZakatPool::credit(None, Category::Fuqara, 1_000).unwrap();
    assert_eq!(b, buckets(1_000, 0, 0));
    assert_eq!(ZakatPool::bucket_balance(&Some(b), Category::Fuqara), 1_000);
}

#[test]
fn credit_then_read_gives_old_plus_amount() {
    let before = Some(buckets(10, 20, 30));
    let after = ZakatPool::credit(before, Category::Masakin, 5).unwrap();
    assert_eq!(ZakatPool::bucket_balance(&Some(after), Category::Masakin), 25);
    assert_eq!(ZakatPool::bucket_balance(&Some(after), Category::Fuqara), 10);
    assert_eq!(ZakatPool::bucket_balance(&Some(after), Category::Riqab), 30);
    assert_eq!(after.total(), Ok(65));
}

#[test]
fn credit_overflow_is_reported() {
    let stored = Some(buckets(i128::MAX, 0, 0));
    assert_eq!(ZakatPool::credit(stored, Category::Fuqara, 1), Err(Error::Overflow));
}

#[test]
fn solvency_reports_booked_and_held() {
    assert_eq!(ZakatPool::solvency(&Some(buckets(1, 2, 3)), 10), Ok((6, 10)));
    assert_eq!(ZakatPool::solvency(&None, 42), Ok((0, 42)));
    assert_eq!(ZakatPool::solvency(&Some(buckets(i128::MAX, 1, 0)), 1), Err(Error::Overflow));
}

#[test]
fn solvent_when_books_do_not_exceed_holdings() {
    assert_eq!(assert_solvent(&Some(buckets(500, 250, 250)), 1_000), Ok(()));
    // A surplus is legal.
    assert_eq!(assert_solvent(&Some(buckets(500, 0, 0)), 1_000), Ok(()));
    assert_eq!(assert_solvent(&None, 0), Ok(()));
}

#[test]
fn insolvent_when_books_exceed_holdings() {
    assert_eq!(assert_solvent(&Some(buckets(500, 250, 251)), 1_000), Err(Error::Insolvent));
    assert_eq!(assert_solvent(&Some(buckets(1, 0, 0)), 0), Err(Error::Insolvent));
}

#[test]
fn audit_overflow_is_reported() {
    assert_eq!(assert_solvent(&Some(buckets(i128::MAX, i128::MAX, 0)), i128::MAX), Err(Error::Overflow));
}

#[test]
fn contribution_keeps_solvency() {
    let before = Some(buckets(300, 200, 100));
    let held = 700;
    assert_eq!(assert_solvent(&before, held), Ok(()));
    let after = ZakatPool::credit(before, Category::Fuqara, 50).unwrap();
    assert_eq!(assert_solvent(&Some(after), held + 50), Ok(()));
}

#[test]
fn ttl_bounds_are_thirty_and_one_twenty_days() {
    assert_eq!(TTL_THRESHOLD, 30 * 17_280);
    assert_eq!(TTL_EXTEND_TO, 120 * 17_280);
}

#[test]
fn solvency_getter_agrees_with_audit() {
    for (stored, held) in [
        (Some(buckets(1, 2, 3)), 6),
        (Some(buckets(1, 2, 3)), 5),
        (None, 0),
        (Some(buckets(i128::MAX, 1, 0)), i128::MAX),
    ] {
        let audit_passes = assert_solvent(&stored, held) == Ok(());
        let getter_solvent = matches!(ZakatPool::solvency(&stored, held), Ok((booked, h)) if booked <= h);
        assert_eq!(audit_passes, getter_solvent);
    }
}
