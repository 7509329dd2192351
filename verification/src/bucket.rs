use vstd::prelude::*;

use crate::error::Error;

verus! {

/// The zakat categories that the pool books separately.
#[derive(Clone, Copy, Debug, PartialEq, Eq, Structural)]
pub enum Category {
    Fuqara,
    Masakin,
    Riqab,
}

/// The balances booked for one asset, one per category.
#[derive(Clone, Copy, Debug, PartialEq, Eq, Structural)]
pub struct BucketSet {
    pub fuqara: i128,
    pub masakin: i128,
    pub riqab: i128,
}

/// Whether `v` fits in an `i128`.
pub open spec fn fits_i128(v: int) -> bool {
    i128::MIN <= v <= i128::MAX
}

impl BucketSet {
    /// The balance booked under category `c`.
    pub open spec fn bucket(self, c: Category) -> int {
        match c {
            Category::Fuqara => self.fuqara as int,
            Category::Masakin => self.masakin as int,
            Category::Riqab => self.riqab as int,
        }
    }

    /// The mathematical sum of all three buckets.
    pub open spec fn sum(self) -> int {
        self.fuqara + self.masakin + self.riqab
    }

    /// Whether summing the buckets in order (fuqara, masakin, riqab) with
    /// checked `i128` additions stays in range at every step.
    pub open spec fn total_fits(self) -> bool {
        fits_i128(self.fuqara + self.masakin) && fits_i128(self.sum())
    }

    /// `self` with `amount` added to the bucket of `c`, the others unchanged.
    pub open spec fn credited(self, c: Category, amount: int) -> BucketSet {
        match c {
            Category::Fuqara => BucketSet { fuqara: (self.fuqara + amount) as i128, ..self },
            Category::Masakin => BucketSet { masakin: (self.masakin + amount) as i128, ..self },
            Category::Riqab => BucketSet { riqab: (self.riqab + amount) as i128, ..self },
        }
    }

    /// The empty set of buckets.
    pub open spec fn zero() -> BucketSet {
        BucketSet { fuqara: 0, masakin: 0, riqab: 0 }
    }

    /// The sum of all buckets, or `Overflow` if a checked addition of the
    /// running total leaves the `i128` range.
    pub fn total(&self) -> (r: Result<i128, Error>)
        ensures
            self.total_fits() ==> r == Ok::<i128, Error>(self.sum() as i128),
            !self.total_fits() ==> r == Err::<i128, Error>(Error::Overflow),
    {
        let parts: [i128; 3] = [self.fuqara, self.masakin, self.riqab];
        let mut t: i128 = 0;
        let mut i: usize = 0;
        while i < 3
            invariant
                0 <= i <= 3,
                parts@ == seq![self.fuqara, self.masakin, self.riqab],
                i == 0 ==> t == 0,
                i == 1 ==> t == self.fuqara,
                i == 2 ==> t == self.fuqara + self.masakin,
                i == 3 ==> t == self.sum(),
                i >= 2 ==> fits_i128(self.fuqara + self.masakin),
            decreases 3 - i,
        {
            t = match t.checked_add(parts[i]) {
                Some(v) => v,
                None => {
                    return Err(Error::Overflow);
                },
            };
            i = i + 1;
        }
        Ok(t)
    }

    /// Adds `amount` to the bucket of `c`; fails with `Overflow`, leaving the
    /// buckets unchanged, when the new balance leaves the `i128` range.
    pub fn add(&mut self, c: Category, amount: i128) -> (r: Result<(), Error>)
        ensures
            fits_i128(old(self).bucket(c) + amount) ==> {
                &&& r == Ok::<(), Error>(())
                &&& *final(self) == old(self).credited(c, amount as int)
            },
            !fits_i128(old(self).bucket(c) + amount) ==> {
                &&& r == Err::<(), Error>(Error::Overflow)
                &&& *final(self) == *old(self)
            },
    {
        match c {
            Category::Fuqara => match self.fuqara.checked_add(amount) {
                Some(v) => {
                    self.fuqara = v;
                    Ok(())
                },
                None => Err(Error::Overflow),
            },
            Category::Masakin => match self.masakin.checked_add(amount) {
                Some(v) => {
                    self.masakin = v;
                    Ok(())
                },
                None => Err(Error::Overflow),
            },
            Category::Riqab => match self.riqab.checked_add(amount) {
                Some(v) => {
                    self.riqab = v;
                    Ok(())
                },
                None => Err(Error::Overflow),
            },
        }
    }

    /// The balance booked under category `c`.
    pub fn get(&self, c: Category) -> (v: i128)
        ensures
            v == self.bucket(c),
    {
        match c {
            Category::Fuqara => self.fuqara,
            Category::Masakin => self.masakin,
            Category::Riqab => self.riqab,
        }
    }
}

/// A value fits exactly when it lies between `i128::MIN` and `i128::MAX`.
pub proof fn lemma_fits_i128(v: int)
    ensures
        fits_i128(v) <==> (i128::MIN <= v && v <= i128::MAX),
{
}

/// The bucket of each category is its own field, and the checked total is
/// the plain sum of the three fields, counted in order.
pub proof fn lemma_bucket_fields(b: BucketSet)
    ensures
        b.bucket(Category::Fuqara) == b.fuqara,
        b.bucket(Category::Masakin) == b.masakin,
        b.bucket(Category::Riqab) == b.riqab,
        b.sum() == b.fuqara + b.masakin + b.riqab,
        b.total_fits() <==> (i128::MIN <= b.fuqara + b.masakin <= i128::MAX && i128::MIN
            <= b.fuqara + b.masakin + b.riqab <= i128::MAX),
        BucketSet::zero().fuqara == 0 && BucketSet::zero().masakin == 0 && BucketSet::zero().riqab
            == 0,
{
}

impl Default for BucketSet {
    /// All buckets empty.
    fn default() -> (b: BucketSet)
        ensures
            b == BucketSet::zero(),
    {
        BucketSet { fuqara: 0, masakin: 0, riqab: 0 }
    }
}

} // verus!
