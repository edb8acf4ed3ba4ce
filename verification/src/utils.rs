//! The generator of inode numbers.

use vstd::prelude::*;

verus! {

/// The generator of inode numbers: a counter that starts at one and hands
/// out each number once.
///
/// The counter wraps after the last 64-bit number; up to then no number is
/// handed out twice.
#[derive(Debug)]
pub struct InoGenerator {
    next_ino: u64,
}

impl InoGenerator {
    /// The number that the next call of `generate` returns.
    pub closed spec fn next(&self) -> u64 {
        self.next_ino
    }

    /// The state after `n` calls of `generate` on a new generator, as long
    /// as the counter has not wrapped.
    pub open spec fn after(&self, n: nat) -> bool {
        self.next() == n + 1
    }

    /// A generator whose first number is 1, the number of the root.
    pub fn new() -> (generator: InoGenerator)
        ensures
            generator.next() == 1,
            generator.after(0),
    {
        InoGenerator { next_ino: 1 }
    }

    /// The number that the next call of `generate` returns.
    pub fn peek(&self) -> (ino: u64)
        ensures
            ino == self.next(),
    {
        self.next_ino
    }

    /// Hands out the next number and moves the counter on by one.
    pub fn generate(&mut self) -> (ino: u64)
        ensures
            ino == old(self).next(),
            final(self).next() == if ino == u64::MAX {
                0
            } else {
                ino + 1
            },
    {
        let ino: u64 = self.next_ino;
        self.next_ino = ino.wrapping_add(1);
        ino
    }
}

/// The numbers that the first `n` calls on a new generator return, in
/// order: call `i`, counted from zero, returns `i + 1`.
pub open spec fn generated(n: nat) -> Seq<u64>
    recommends
        n <= u64::MAX,
{
    Seq::new(n, |i: int| (i + 1) as u64)
}

/// Every number that a generator hands out before its counter wraps is at
/// least 1, and no two of them are equal.
pub proof fn lemma_generated_unique(n: nat)
    requires
        n <= u64::MAX,
    ensures
        forall|i: int| 0 <= i < n ==> generated(n)[i] >= 1,
        forall|i: int, j: int|
            0 <= i < n && 0 <= j < n && i != j ==> generated(n)[i] != generated(n)[j],
{
}

/// One call of `generate` extends the numbers handed out by a new one:
/// on a generator that has made `n` calls, the call returns `n + 1`, which
/// none of the calls before returned. Unless that was the last 64-bit
/// number, it leaves a generator that has made `n + 1` calls.
pub proof fn lemma_generate_fresh(before: InoGenerator, after: InoGenerator, ino: u64, n: nat)
    requires
        before.after(n),
        ino == before.next(),
        after.next() == if ino == u64::MAX {
            0
        } else {
            ino + 1
        },
    ensures
        ino == n + 1,
        ino >= 1,
        generated(n + 1) == generated(n).push(ino),
        forall|i: int| 0 <= i < n ==> generated(n)[i] != ino,
        ino < u64::MAX ==> after.after(n + 1),
{
    assert(generated(n + 1) =~= generated(n).push(ino));
}

} // verus!
