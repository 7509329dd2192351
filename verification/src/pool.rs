use vstd::prelude::*;

use crate::bucket::{fits_i128, BucketSet, Category};
use crate::error::Error;

verus! {

/// Ledgers closed per day (about five seconds each).
pub const LEDGERS_PER_DAY: u32 = 17_280;

/// Remaining time to live, in ledgers, under which `bump` extends an entry.
pub const TTL_THRESHOLD: u32 = 30 * LEDGERS_PER_DAY;

/// Time to live, in ledgers, that `bump` extends an entry to.
pub const TTL_EXTEND_TO: u32 = 120 * LEDGERS_PER_DAY;

/// The pool contract. Its entry points run against the ledger host; this
/// type holds the decisions they make on what the host reported.
pub struct ZakatPool;

/// The buckets stored for an asset, or empty buckets when none are stored.
pub open spec fn stored_or_zero(stored: Option<BucketSet>) -> BucketSet {
    match stored {
        Some(b) => b,
        None => BucketSet::zero(),
    }
}

/// What the solvency audit answers for the stored buckets of an asset and
/// the balance that the pool holds of it.
pub open spec fn solvency_outcome(stored: Option<BucketSet>, held: i128) -> Result<(), Error> {
    let b = stored_or_zero(stored);
    if !b.total_fits() {
        Err(Error::Overflow)
    } else if b.sum() > held {
        Err(Error::Insolvent)
    } else {
        Ok(())
    }
}

/// The audit run at the end of every value-moving call: the books must not
/// exceed what the pool holds (a surplus is allowed). Fails with `Overflow`
/// when the booked total does not fit in an `i128`, and with `Insolvent`
/// when it exceeds `held`.
pub fn assert_solvent(stored: &Option<BucketSet>, held: i128) -> (r: Result<(), Error>)
    ensures
        r == solvency_outcome(*stored, held),
        match *stored {
            Some(b) => {
                &&& (!fits_i128(b.fuqara + b.masakin) || !fits_i128(
                    b.fuqara + b.masakin + b.riqab,
                )) ==> r == Err::<(), Error>(Error::Overflow)
                &&& (fits_i128(b.fuqara + b.masakin) && fits_i128(b.fuqara + b.masakin + b.riqab)
                    && b.fuqara + b.masakin + b.riqab > held) ==> r == Err::<(), Error>(
                    Error::Insolvent,
                )
                &&& (fits_i128(b.fuqara + b.masakin) && fits_i128(b.fuqara + b.masakin + b.riqab)
                    && b.fuqara + b.masakin + b.riqab <= held) ==> r == Ok::<(), Error>(())
            },
            None => {
                &&& held < 0 ==> r == Err::<(), Error>(Error::Insolvent)
                &&& held >= 0 ==> r == Ok::<(), Error>(())
            },
        },
        r is Err ==> (r == Err::<(), Error>(Error::Overflow) || r == Err::<(), Error>(
            Error::Insolvent,
        )),
{
    let booked = match stored {
        Some(b) => b.total(),
        None => BucketSet::default().total(),
    };
    match booked {
        Ok(t) => if t > held {
            Err(Error::Insolvent)
        } else {
            Ok(())
        },
        Err(e) => Err(e),
    }
}

/// An asset with nothing stored reads zero in every category; otherwise its
/// stored buckets are read.
pub proof fn lemma_stored_or_zero(b: BucketSet, c: Category)
    ensures
        stored_or_zero(None).bucket(c) == 0,
        stored_or_zero(Some(b)) == b,
{
}

/// Reading a bucket after crediting gives back the old balance plus the
/// amount credited; every other bucket reads as before, and the booked
/// total grows by exactly the amount.
pub proof fn lemma_credit_then_read(b: BucketSet, c: Category, d: Category, amount: i128)
    requires
        fits_i128(b.bucket(c) + amount),
    ensures
        b.credited(c, amount as int).bucket(d) == if d == c {
            b.bucket(c) + amount
        } else {
            b.bucket(d)
        },
        b.credited(c, amount as int).sum() == b.sum() + amount,
{
}

/// All buckets hold a non-negative balance.
pub open spec fn non_negative(b: BucketSet) -> bool {
    b.fuqara >= 0 && b.masakin >= 0 && b.riqab >= 0
}

/// A contribution keeps the pool solvent: if the books of an asset are
/// solvent against what the pool held, and the pool then receives `amount`
/// while the same amount is credited to a bucket, the audit still passes.
/// Crediting a positive amount also keeps every bucket non-negative.
pub proof fn lemma_contribution_keeps_solvency(
    stored: Option<BucketSet>,
    held: i128,
    c: Category,
    amount: i128,
)
    requires
        non_negative(stored_or_zero(stored)),
        solvency_outcome(stored, held) == Ok::<(), Error>(()),
        amount > 0,
        fits_i128(held + amount),
        fits_i128(stored_or_zero(stored).bucket(c) + amount),
    ensures
        non_negative(stored_or_zero(stored).credited(c, amount as int)),
        solvency_outcome(
            Some(stored_or_zero(stored).credited(c, amount as int)),
            (held + amount) as i128,
        ) == Ok::<(), Error>(()),
{
}

/// The `solvency` getter and the audit agree: the audit passes exactly when
/// the getter reports a pair (booked, held) with booked not above held.
pub proof fn lemma_solvency_getter_matches_audit(stored: Option<BucketSet>, held: i128)
    ensures
        solvency_outcome(stored, held) == Ok::<(), Error>(()) <==> (stored_or_zero(
            stored,
        ).total_fits() && stored_or_zero(stored).sum() <= held),
{
}

/// The audit's verdict in terms of the buckets and the holdings: a booked
/// total that does not fit in an `i128` (at any step of the running sum) is
/// `Overflow`; a countable total above what is held is `Insolvent`, whatever
/// the size of the deficit; a total at or below it passes. No other error is
/// ever given.
pub proof fn lemma_audit_verdict(fuqara: i128, masakin: i128, riqab: i128, held: i128)
    ensures
        ({
            let r = solvency_outcome(
                Some(BucketSet { fuqara, masakin, riqab }),
                held,
            );
            &&& (!fits_i128(fuqara + masakin) || !fits_i128(fuqara + masakin + riqab)) ==> r
                == Err::<(), Error>(Error::Overflow)
            &&& (fits_i128(fuqara + masakin) && fits_i128(fuqara + masakin + riqab) && fuqara
                + masakin + riqab > held) ==> r == Err::<(), Error>(Error::Insolvent)
            &&& (fits_i128(fuqara + masakin) && fits_i128(fuqara + masakin + riqab) && fuqara
                + masakin + riqab <= held) ==> r == Ok::<(), Error>(())
        }),
        solvency_outcome(None, held) == if held < 0 {
            Err::<(), Error>(Error::Insolvent)
        } else {
            Ok::<(), Error>(())
        },
{
}

/// A deficit is always reported as `Insolvent`: if the audit passes at some
/// holdings, it fails with `Insolvent` at every smaller holdings at which the
/// books exceed what is held, and growing the holdings never turns a passing
/// audit into a failing one.
pub proof fn lemma_deficit_is_insolvent(stored: Option<BucketSet>, held: i128, less: i128)
    requires
        solvency_outcome(stored, held) == Ok::<(), Error>(()),
        less < held,
    ensures
        (match stored {
            Some(b) => b.fuqara + b.masakin + b.riqab > less,
            None => 0 > less,
        }) ==> solvency_outcome(stored, less) == Err::<(), Error>(Error::Insolvent),
        (match stored {
            Some(b) => b.fuqara + b.masakin + b.riqab <= less,
            None => 0 <= less,
        }) ==> solvency_outcome(stored, less) == Ok::<(), Error>(()),
{
}

impl ZakatPool {
    /// The balance booked for `category` of an asset whose stored buckets
    /// are `stored`; an asset with nothing stored reads as zero.
    pub fn bucket_balance(stored: &Option<BucketSet>, category: Category) -> (v: i128)
        ensures
            v == stored_or_zero(*stored).bucket(category),
    {
        match stored {
            Some(b) => b.get(category),
            None => BucketSet::default().get(category),
        }
    }

    /// The pair (booked, held) for an asset: the total of its stored buckets
    /// and the balance the pool holds, or `Overflow` when the total does not
    /// fit in an `i128`.
    pub fn solvency(stored: &Option<BucketSet>, held: i128) -> (r: Result<(i128, i128), Error>)
        ensures
            stored_or_zero(*stored).total_fits() ==> r == Ok::<(i128, i128), Error>(
                (stored_or_zero(*stored).sum() as i128, held),
            ),
            !stored_or_zero(*stored).total_fits() ==> r == Err::<(i128, i128), Error>(
                Error::Overflow,
            ),
    {
        let booked = match stored {
            Some(b) => b.total(),
            None => BucketSet::default().total(),
        };
        match booked {
            Ok(t) => Ok((t, held)),
            Err(e) => Err(e),
        }
    }

    /// The buckets to store after crediting `amount` to `category` of the
    /// buckets currently stored (empty when none are): `Overflow` when the
    /// new balance does not fit in an `i128`.
    pub fn credit(stored: Option<BucketSet>, category: Category, amount: i128) -> (r: Result<
        BucketSet,
        Error,
    >)
        ensures
            fits_i128(stored_or_zero(stored).bucket(category) + amount) ==> r == Ok::<
                BucketSet,
                Error,
            >(stored_or_zero(stored).credited(category, amount as int)),
            !fits_i128(stored_or_zero(stored).bucket(category) + amount) ==> r == Err::<
                BucketSet,
                Error,
            >(Error::Overflow),
    {
        let mut b = match stored {
            Some(b) => b,
            None => BucketSet::default(),
        };
        match b.add(category, amount) {
            Ok(()) => Ok(b),
            Err(e) => Err(e),
        }
    }
}

} // verus!
