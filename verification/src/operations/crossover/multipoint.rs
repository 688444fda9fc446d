//! Multipoint crossover: deterministic block-alternating recombination.

use vstd::prelude::*;
use crate::traits::chromosome::ChromosomeT;

verus! {

/// The length of one block when a dna of length `len` is split for
/// `points` crossover points: `points + 1` blocks, clamped so that a block
/// never gets shorter than one gene.
pub open spec fn block_length(len: int, points: int) -> int {
    let blocks = if points + 1 > len {
        len
    } else {
        points + 1
    };
    len / blocks
}

/// The dna a child gets when blocks alternate between `a` (first block,
/// then every other one) and `b`.
pub open spec fn multipoint_child<G>(a: Seq<G>, b: Seq<G>, points: int) -> Seq<G> {
    Seq::new(
        a.len(),
        |i: int|
            if (i / block_length(a.len() as int, points)) % 2 == 0 {
                a[i]
            } else {
                b[i]
            },
    )
}

/// With zero crossover points there is one block spanning the whole
/// sequence, uncrossed: the first child equals the first parent and the
/// second child the second parent.
pub proof fn lemma_multipoint_zero_points<G>(a: Seq<G>, b: Seq<G>)
    requires
        a.len() >= 1,
    ensures
        multipoint_child(a, b, 0) == a,
{
    assert(a.len() as int / 1 == a.len() as int) by (nonlinear_arith);
    assert(block_length(a.len() as int, 0) == a.len());
    assert forall|i: int| 0 <= i < a.len() implies multipoint_child(a, b, 0)[i] == a[i] by {
        vstd::arithmetic::div_mod::lemma_basic_div_specific_divisor(a.len() as int);
    }
    assert(multipoint_child(a, b, 0) =~= a);
}

/// Splits both parents into `crossover_number_of_points + 1` equal
/// contiguous blocks and alternates the source parent per block, starting
/// un-crossed.  Deterministic: no randomness is involved.  The children
/// are fresh individuals (zero fitness, zero age) carrying the recombined
/// dna, handed back as a pair `[child_1, child_2]`.
pub fn multipoint_crossover<U: ChromosomeT>(
    parent_1: &U,
    parent_2: &U,
    crossover_number_of_points: &i32,
) -> (r: Option<Vec<U>>)
    requires
        parent_1.dna_view().len() == parent_2.dna_view().len(),
        parent_1.dna_view().len() >= 1,
        *crossover_number_of_points >= 0,
    ensures
        r.is_some(),
        r.unwrap()@.len() == 2,
        r.unwrap()@[0].dna_view() == multipoint_child(
            parent_1.dna_view(),
            parent_2.dna_view(),
            *crossover_number_of_points as int,
        ),
        r.unwrap()@[1].dna_view() == multipoint_child(
            parent_2.dna_view(),
            parent_1.dna_view(),
            *crossover_number_of_points as int,
        ),
        r.unwrap()@[0].fitness_view() == 0 && r.unwrap()@[0].age_view() == 0,
        r.unwrap()@[1].fitness_view() == 0 && r.unwrap()@[1].age_view() == 0,
{
    let dna_1 = parent_1.get_dna();
    let dna_2 = parent_2.get_dna();
    let len = dna_1.len();
    let ghost points = *crossover_number_of_points as int;

    let mut child_1 = U::new();
    let mut child_2 = U::new();

    let mut dna_child_1: Vec<U::Gene> = Vec::new();
    let mut dna_child_2: Vec<U::Gene> = Vec::new();

    // Clamp the number of blocks to the dna length.
    let number_of_blocks: usize = if (*crossover_number_of_points as usize) + 1 > len {
        len
    } else {
        (*crossover_number_of_points as usize) + 1
    };
    assert(number_of_blocks == (if points + 1 > len { len as int } else { points + 1 }));

    let number_of_genes_per_block: usize = len / number_of_blocks;
    assert(number_of_genes_per_block == block_length(len as int, points));
    assert(number_of_genes_per_block >= 1) by {
        vstd::arithmetic::div_mod::lemma_div_non_zero(len as int, number_of_blocks as int);
    }

    let mut gene_number: usize = 0;
    let mut crossed = false;

    let mut gn: usize = 0;
    while gn < len
        invariant
            gn <= len,
            len == parent_1.dna_view().len(),
            len == parent_2.dna_view().len(),
            number_of_genes_per_block == block_length(len as int, points),
            number_of_genes_per_block >= 1,
            dna_1@ == parent_1.dna_view(),
            dna_2@ == parent_2.dna_view(),
            gene_number == gn % number_of_genes_per_block,
            crossed == (((gn / number_of_genes_per_block) % 2) == 1),
            dna_child_1@.len() == gn,
            dna_child_2@.len() == gn,
            forall|i: int|
                0 <= i < gn ==> dna_child_1@[i] == (if (i / block_length(len as int, points)) % 2
                    == 0 {
                    parent_1.dna_view()[i]
                } else {
                    parent_2.dna_view()[i]
                }),
            forall|i: int|
                0 <= i < gn ==> dna_child_2@[i] == (if (i / block_length(len as int, points)) % 2
                    == 0 {
                    parent_2.dna_view()[i]
                } else {
                    parent_1.dna_view()[i]
                }),
        decreases len - gn,
    {
        if !crossed {
            dna_child_1.push(dna_1[gn]);
            dna_child_2.push(dna_2[gn]);
        } else {
            dna_child_1.push(dna_2[gn]);
            dna_child_2.push(dna_1[gn]);
        }

        proof {
            let bl = number_of_genes_per_block as int;
            vstd::arithmetic::div_mod::lemma_fundamental_div_mod(gn as int, bl);
            if gene_number >= number_of_genes_per_block - 1 {
                assert((gn + 1) % bl == 0 && (gn + 1) / bl == gn as int / bl + 1) by (
                nonlinear_arith)
                    requires
                        bl >= 1,
                        gn as int % bl == bl - 1,
                        gn >= 0,
                ;
            } else {
                assert((gn + 1) % bl == gn as int % bl + 1 && (gn + 1) / bl == gn as int / bl) by (
                nonlinear_arith)
                    requires
                        bl >= 1,
                        0 <= gn as int % bl < bl - 1,
                        gn >= 0,
                ;
            }
        }

        if gene_number >= number_of_genes_per_block - 1 {
            crossed = !crossed;
            gene_number = 0;
        } else {
            gene_number += 1;
        }
        gn += 1;
    }

    child_1.set_dna(dna_child_1.as_slice());
    child_2.set_dna(dna_child_2.as_slice());
    proof {
        assert(dna_child_1@ =~= multipoint_child(parent_1.dna_view(), parent_2.dna_view(), points));
        assert(dna_child_2@ =~= multipoint_child(parent_2.dna_view(), parent_1.dna_view(), points));
    }

    let mut result = Vec::new();
    result.push(child_1);
    result.push(child_2);
    Some(result)
}

} // verus!
