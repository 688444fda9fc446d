//! A fitness score for binary dna: the number of genes whose bit is set.

use vstd::prelude::*;
use crate::genotypes::Binary;

verus! {

/// How many genes of `s` carry a set bit.
pub open spec fn count_true_spec(s: Seq<Binary>) -> int
    decreases s.len(),
{
    if s.len() == 0 {
        0
    } else {
        count_true_spec(s.drop_last()) + (if s.last().value {
            1int
        } else {
            0int
        })
    }
}

/// Counts the genes whose bit is set.
pub fn count_true(dna: &[Binary]) -> (r: i64)
    requires
        dna@.len() <= i64::MAX,
    ensures
        r == count_true_spec(dna@),
{
    let n = dna.len();
    let mut count: i64 = 0;
    let mut i: usize = 0;
    while i < n
        invariant
            i <= n,
            n == dna@.len(),
            n <= i64::MAX,
            count == count_true_spec(dna@.take(i as int)),
            0 <= count <= i,
        decreases n - i,
    {
        proof {
            assert(dna@.take(i + 1).drop_last() =~= dna@.take(i as int));
        }
        if dna[i].value {
            count = count + 1;
        }
        i += 1;
    }
    proof {
        assert(dna@.take(n as int) =~= dna@);
    }
    count
}

} // verus!
