use vstd::prelude::*;

verus! {

/// A signed 64-bit accumulator cell. Addition and subtraction are checked:
/// a result outside the range of `i64` is refused and leaves the cell as it was.
#[derive(Debug)]
pub struct Arithmetic(i64);

/// Whether `n` can be held by an `i64`.
pub open spec fn fits_i64(n: int) -> bool {
    i64::MIN <= n <= i64::MAX
}

impl Arithmetic {
    /// The integer currently held by the cell.
    pub closed spec fn value(&self) -> i64 {
        self.0
    }

    /// Creates a cell holding `value`.
    pub fn new(value: i64) -> (cell: Arithmetic)
        ensures
            cell.value() == value,
    {
        Arithmetic(value)
    }

    /// Reads the cell.
    pub fn get(&self) -> (value: i64)
        ensures
            value == self.value(),
    {
        self.0
    }

    /// Adds `other` to the cell. Returns the new value, or `None` when the sum
    /// does not fit, in which case the cell keeps its value.
    pub fn add(&mut self, other: i64) -> (sum: Option<i64>)
        ensures
            fits_i64(old(self).value() + other) ==> sum == Some((old(self).value() + other) as i64)
                && final(self).value() == old(self).value() + other,
            !fits_i64(old(self).value() + other) ==> sum.is_none() && final(self).value() == old(
                self,
            ).value(),
    {
        match self.0.checked_add(other) {
            Some(sum) => {
                self.0 = sum;
                Some(sum)
            },
            None => None,
        }
    }

    /// Subtracts `other` from the cell. Returns the new value, or `None` when
    /// the difference does not fit, in which case the cell keeps its value.
    pub fn sub(&mut self, other: i64) -> (difference: Option<i64>)
        ensures
            fits_i64(old(self).value() - other) ==> difference == Some(
                (old(self).value() - other) as i64,
            ) && final(self).value() == old(self).value() - other,
            !fits_i64(old(self).value() - other) ==> difference.is_none() && final(self).value()
                == old(self).value(),
    {
        match self.0.checked_sub(other) {
            Some(difference) => {
                self.0 = difference;
                Some(difference)
            },
            None => None,
        }
    }
}

} // verus!
