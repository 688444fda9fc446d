//! Cycle crossover: follows the permutation structure of the two parents'
//! gene identities.
//!
//! A new cycle starts at the lowest not-yet-visited index; the k-th cycle
//! found (counting from zero) copies genes straight when k is even and
//! exchanged when k is odd, and the walk continues at the index in parent
//! 1 holding the identity found in parent 2 at the current position, until
//! the cycle closes.  The whole procedure
//! is written out below as the spec functions [`cycle_walk`] and
//! [`cycle_scan`]; the operator returns exactly [`cycle_children`].

use vstd::prelude::*;
use crate::traits::chromosome::ChromosomeT;
use crate::traits::gene::GeneT;

verus! {

/// The index of the first gene in `s` whose identity is `id`, or -1.
pub open spec fn index_of_id<G: GeneT>(s: Seq<G>, id: i32) -> int
    decreases s.len(),
{
    if s.len() == 0 {
        -1
    } else if s.first().id_view() == id {
        0
    } else {
        let r = index_of_id(s.drop_first(), id);
        if r < 0 {
            -1
        } else {
            r + 1
        }
    }
}

pub proof fn lemma_index_of_id_props<G: GeneT>(s: Seq<G>, id: i32)
    ensures
        index_of_id(s, id) >= -1,
        index_of_id(s, id) >= 0 ==> index_of_id(s, id) < s.len() && s[index_of_id(s, id)].id_view()
            == id && (forall|j: int| 0 <= j < index_of_id(s, id) ==> s[j].id_view() != id),
        index_of_id(s, id) < 0 ==> (forall|j: int| 0 <= j < s.len() ==> s[j].id_view() != id),
    decreases s.len(),
{
    if s.len() > 0 && s.first().id_view() != id {
        lemma_index_of_id_props(s.drop_first(), id);
        assert(forall|j: int| 1 <= j < s.len() ==> s[j] == s.drop_first()[j - 1]);
    }
}

/// A gene with `id` at `j`, and none earlier, is the first one.
proof fn lemma_index_of_id_first<G: GeneT>(s: Seq<G>, id: i32, j: int)
    requires
        0 <= j < s.len(),
        s[j].id_view() == id,
        forall|jj: int| 0 <= jj < j ==> s[jj].id_view() != id,
    ensures
        index_of_id(s, id) == j,
    decreases s.len(),
{
    if j > 0 {
        lemma_index_of_id_first(s.drop_first(), id, j - 1);
        assert(forall|jj: int| 1 <= jj < s.len() ==> s[jj] == s.drop_first()[jj - 1]);
    }
}

/// How many entries of `s` are still false.
pub open spec fn count_false(s: Seq<bool>) -> int
    decreases s.len(),
{
    if s.len() == 0 {
        0
    } else {
        count_false(s.drop_last()) + (if s.last() {
            0int
        } else {
            1int
        })
    }
}

proof fn lemma_count_false_nonneg(s: Seq<bool>)
    ensures
        count_false(s) >= 0,
    decreases s.len(),
{
    if s.len() > 0 {
        lemma_count_false_nonneg(s.drop_last());
    }
}

pub proof fn lemma_count_false_update_pub(s: Seq<bool>, i: int)
    requires
        0 <= i < s.len(),
        !s[i],
    ensures
        count_false(s) >= 1,
        count_false(s.update(i, true)) == count_false(s) - 1,
{
    lemma_count_false_update(s, i);
}

proof fn lemma_count_false_update(s: Seq<bool>, i: int)
    requires
        0 <= i < s.len(),
        !s[i],
    ensures
        count_false(s) >= 1,
        count_false(s.update(i, true)) == count_false(s) - 1,
    decreases s.len(),
{
    lemma_count_false_nonneg(s.drop_last());
    if i == s.len() - 1 {
        assert(s.update(i, true).drop_last() =~= s.drop_last());
    } else {
        lemma_count_false_update(s.drop_last(), i);
        assert(s.update(i, true).drop_last() =~= s.drop_last().update(i, true));
    }
}

/// One cycle of the crossover, walked from `idx` until it closes: each
/// visited position takes its genes straight (`cross` false) or exchanged
/// (`cross` true), and the walk continues at the index in `p1` holding the
/// identity found in `p2` at the current position.  `None` when that
/// identity is missing from `p1`.
pub open spec fn cycle_walk<G: GeneT>(
    p1: Seq<G>,
    p2: Seq<G>,
    visited: Seq<bool>,
    c1: Seq<G>,
    c2: Seq<G>,
    idx: int,
    cross: bool,
) -> Option<(Seq<bool>, Seq<G>, Seq<G>)>
    decreases count_false(visited),
        when 0 <= idx < visited.len() && visited.len() == p1.len() && p1.len() == p2.len()
        via cycle_walk_decreases::<G>
{
    if visited[idx] {
        Some((visited, c1, c2))
    } else {
        let visited2 = visited.update(idx, true);
        let c1_2 = c1.update(
            idx,
            if cross {
                p2[idx]
            } else {
                p1[idx]
            },
        );
        let c2_2 = c2.update(
            idx,
            if cross {
                p1[idx]
            } else {
                p2[idx]
            },
        );
        let next = index_of_id(p1, p2[idx].id_view());
        if next < 0 {
            None
        } else {
            cycle_walk(p1, p2, visited2, c1_2, c2_2, next, cross)
        }
    }
}

#[via_fn]
proof fn cycle_walk_decreases<G: GeneT>(
    p1: Seq<G>,
    p2: Seq<G>,
    visited: Seq<bool>,
    c1: Seq<G>,
    c2: Seq<G>,
    idx: int,
    cross: bool,
) {
    if 0 <= idx < visited.len() && visited.len() == p1.len() && p1.len() == p2.len() {
        if !visited[idx] {
            lemma_count_false_update(visited, idx);
            lemma_index_of_id_props(p1, p2[idx].id_view());
        }
    }
}

/// The walk never changes the lengths of its three sequences.
pub(crate) proof fn lemma_cycle_walk_shape<G: GeneT>(
    p1: Seq<G>,
    p2: Seq<G>,
    visited: Seq<bool>,
    c1: Seq<G>,
    c2: Seq<G>,
    idx: int,
    cross: bool,
)
    requires
        0 <= idx < visited.len(),
        visited.len() == p1.len(),
        p1.len() == p2.len(),
        c1.len() == p1.len(),
        c2.len() == p1.len(),
    ensures
        cycle_walk(p1, p2, visited, c1, c2, idx, cross) matches Some(st) ==> st.0.len()
            == visited.len() && st.1.len() == c1.len() && st.2.len() == c2.len(),
    decreases count_false(visited),
{
    if !visited[idx] {
        lemma_count_false_update(visited, idx);
        lemma_index_of_id_props(p1, p2[idx].id_view());
        let next = index_of_id(p1, p2[idx].id_view());
        if next >= 0 {
            let visited2 = visited.update(idx, true);
            let c1_2 = c1.update(
                idx,
                if cross {
                    p2[idx]
                } else {
                    p1[idx]
                },
            );
            let c2_2 = c2.update(
                idx,
                if cross {
                    p1[idx]
                } else {
                    p2[idx]
                },
            );
            assert(cycle_walk(p1, p2, visited, c1, c2, idx, cross) == cycle_walk(
                p1,
                p2,
                visited2,
                c1_2,
                c2_2,
                next,
                cross,
            ));
            lemma_cycle_walk_shape(p1, p2, visited2, c1_2, c2_2, next, cross);
        } else {
            assert(cycle_walk(p1, p2, visited, c1, c2, idx, cross) is None);
        }
    }
}

/// Starts a new cycle at every not-yet-visited index, lowest first;
/// `cycles_found` counts the cycles already completed, and its parity
/// picks straight (`even`) or exchanged (`odd`) copying for the next
/// whole cycle.
pub open spec fn cycle_scan<G: GeneT>(
    p1: Seq<G>,
    p2: Seq<G>,
    visited: Seq<bool>,
    c1: Seq<G>,
    c2: Seq<G>,
    start: int,
    cycles_found: int,
) -> Option<(Seq<G>, Seq<G>)>
    decreases p1.len() - start,
        when 0 <= start && visited.len() == p1.len() && p1.len() == p2.len()
        via cycle_scan_decreases::<G>
{
    if start >= p1.len() {
        Some((c1, c2))
    } else if visited[start] {
        cycle_scan(p1, p2, visited, c1, c2, start + 1, cycles_found)
    } else {
        match cycle_walk(p1, p2, visited, c1, c2, start, cycles_found % 2 == 1) {
            None => None,
            Some(st) => cycle_scan(p1, p2, st.0, st.1, st.2, start + 1, cycles_found + 1),
        }
    }
}

#[via_fn]
proof fn cycle_scan_decreases<G: GeneT>(
    p1: Seq<G>,
    p2: Seq<G>,
    visited: Seq<bool>,
    c1: Seq<G>,
    c2: Seq<G>,
    start: int,
    cycles_found: int,
) {
}

/// Both children of the cycle crossover, or `None` when an identity from
/// parent 2 cannot be located in parent 1.
pub open spec fn cycle_children<G: GeneT>(p1: Seq<G>, p2: Seq<G>) -> Option<(Seq<G>, Seq<G>)> {
    cycle_scan(p1, p2, Seq::new(p1.len(), |i: int| false), p1, p2, 0, 0)
}

/// The scan never changes the lengths of the children it builds.
pub proof fn lemma_cycle_scan_shape<G: GeneT>(
    p1: Seq<G>,
    p2: Seq<G>,
    visited: Seq<bool>,
    c1: Seq<G>,
    c2: Seq<G>,
    start: int,
    cycles_found: int,
)
    requires
        0 <= start,
        visited.len() == p1.len(),
        p1.len() == p2.len(),
        c1.len() == p1.len(),
        c2.len() == p1.len(),
    ensures
        cycle_scan(p1, p2, visited, c1, c2, start, cycles_found) matches Some(c) ==> c.0.len()
            == c1.len() && c.1.len() == c2.len(),
    decreases p1.len() - start,
{
    if start < p1.len() {
        if visited[start] {
            lemma_cycle_scan_shape(p1, p2, visited, c1, c2, start + 1, cycles_found);
        } else {
            lemma_cycle_walk_shape(p1, p2, visited, c1, c2, start, cycles_found % 2 == 1);
            match cycle_walk(p1, p2, visited, c1, c2, start, cycles_found % 2 == 1) {
                None => {},
                Some(st) => {
                    lemma_cycle_scan_shape(p1, p2, st.0, st.1, st.2, start + 1, cycles_found + 1);
                },
            }
        }
    }
}

/// A walk can only fail on an identity that is missing from `p1`; when
/// every identity of `p2` occurs there, it closes.
proof fn lemma_cycle_walk_some<G: GeneT>(
    p1: Seq<G>,
    p2: Seq<G>,
    visited: Seq<bool>,
    c1: Seq<G>,
    c2: Seq<G>,
    idx: int,
    cross: bool,
)
    requires
        0 <= idx < visited.len(),
        visited.len() == p1.len(),
        p1.len() == p2.len(),
        forall|i: int| 0 <= i < p2.len() ==> index_of_id(p1, (#[trigger] p2[i]).id_view()) >= 0,
    ensures
        cycle_walk(p1, p2, visited, c1, c2, idx, cross).is_some(),
    decreases count_false(visited),
{
    if !visited[idx] {
        lemma_count_false_update(visited, idx);
        lemma_index_of_id_props(p1, p2[idx].id_view());
        let next = index_of_id(p1, p2[idx].id_view());
        assert(next >= 0);
        lemma_cycle_walk_some(
            p1,
            p2,
            visited.update(idx, true),
            c1.update(
                idx,
                if cross {
                    p2[idx]
                } else {
                    p1[idx]
                },
            ),
            c2.update(
                idx,
                if cross {
                    p1[idx]
                } else {
                    p2[idx]
                },
            ),
            next,
            cross,
        );
    }
}

/// The scan succeeds whenever every walk does.
proof fn lemma_cycle_scan_some<G: GeneT>(
    p1: Seq<G>,
    p2: Seq<G>,
    visited: Seq<bool>,
    c1: Seq<G>,
    c2: Seq<G>,
    start: int,
    cycles_found: int,
)
    requires
        0 <= start,
        visited.len() == p1.len(),
        p1.len() == p2.len(),
        c1.len() == p1.len(),
        c2.len() == p1.len(),
        forall|i: int| 0 <= i < p2.len() ==> index_of_id(p1, (#[trigger] p2[i]).id_view()) >= 0,
    ensures
        cycle_scan(p1, p2, visited, c1, c2, start, cycles_found).is_some(),
    decreases p1.len() - start,
{
    if start < p1.len() {
        if visited[start] {
            lemma_cycle_scan_some(p1, p2, visited, c1, c2, start + 1, cycles_found);
        } else {
            lemma_cycle_walk_some(p1, p2, visited, c1, c2, start, cycles_found % 2 == 1);
            lemma_cycle_walk_shape(p1, p2, visited, c1, c2, start, cycles_found % 2 == 1);
            match cycle_walk(p1, p2, visited, c1, c2, start, cycles_found % 2 == 1) {
                None => {},
                Some(st) => {
                    lemma_cycle_scan_some(p1, p2, st.0, st.1, st.2, start + 1, cycles_found + 1);
                },
            }
        }
    }
}

/// Success is owed exactly where no identity is missing: when every gene
/// identity of parent 2 can be located in parent 1, the crossover cannot
/// fail.
pub proof fn lemma_cycle_children_some<G: GeneT>(p1: Seq<G>, p2: Seq<G>)
    requires
        p1.len() == p2.len(),
        forall|i: int| 0 <= i < p2.len() ==> index_of_id(p1, (#[trigger] p2[i]).id_view()) >= 0,
    ensures
        cycle_children(p1, p2).is_some(),
{
    lemma_cycle_scan_some(p1, p2, Seq::new(p1.len(), |i: int| false), p1, p2, 0, 0);
}

/// `c1` and `c2` hold the two parents' genes at every position, one each,
/// straight or exchanged.
pub open spec fn complementary_children<G>(p1: Seq<G>, p2: Seq<G>, c1: Seq<G>, c2: Seq<G>) -> bool {
    &&& c1.len() == p1.len()
    &&& c2.len() == p1.len()
    &&& forall|i: int| #![trigger c1[i]]
        0 <= i < p1.len() ==> ((c1[i] == p1[i] && c2[i] == p2[i]) || (c1[i] == p2[i] && c2[i]
            == p1[i]))
}

/// Each walk step writes one position with the two parents' genes in one
/// order or the other, so complementarity is preserved.
proof fn lemma_cycle_walk_complementary<G: GeneT>(
    p1: Seq<G>,
    p2: Seq<G>,
    visited: Seq<bool>,
    c1: Seq<G>,
    c2: Seq<G>,
    idx: int,
    cross: bool,
)
    requires
        0 <= idx < visited.len(),
        visited.len() == p1.len(),
        p1.len() == p2.len(),
        complementary_children(p1, p2, c1, c2),
    ensures
        cycle_walk(p1, p2, visited, c1, c2, idx, cross) matches Some(st) ==> complementary_children(
            p1,
            p2,
            st.1,
            st.2,
        ),
    decreases count_false(visited),
{
    if !visited[idx] {
        lemma_count_false_update(visited, idx);
        lemma_index_of_id_props(p1, p2[idx].id_view());
        let next = index_of_id(p1, p2[idx].id_view());
        if next >= 0 {
            let visited2 = visited.update(idx, true);
            let c1_2 = c1.update(
                idx,
                if cross {
                    p2[idx]
                } else {
                    p1[idx]
                },
            );
            let c2_2 = c2.update(
                idx,
                if cross {
                    p1[idx]
                } else {
                    p2[idx]
                },
            );
            assert(complementary_children(p1, p2, c1_2, c2_2));
            lemma_cycle_walk_complementary(p1, p2, visited2, c1_2, c2_2, next, cross);
        }
    }
}

/// The scan starts its walks on complementary children and hands
/// complementary children on.
proof fn lemma_cycle_scan_complementary<G: GeneT>(
    p1: Seq<G>,
    p2: Seq<G>,
    visited: Seq<bool>,
    c1: Seq<G>,
    c2: Seq<G>,
    start: int,
    cycles_found: int,
)
    requires
        0 <= start,
        visited.len() == p1.len(),
        p1.len() == p2.len(),
        complementary_children(p1, p2, c1, c2),
    ensures
        cycle_scan(p1, p2, visited, c1, c2, start, cycles_found) matches Some(c)
            ==> complementary_children(p1, p2, c.0, c.1),
    decreases p1.len() - start,
{
    if start < p1.len() {
        if visited[start] {
            lemma_cycle_scan_complementary(p1, p2, visited, c1, c2, start + 1, cycles_found);
        } else {
            lemma_cycle_walk_shape(p1, p2, visited, c1, c2, start, cycles_found % 2 == 1);
            lemma_cycle_walk_complementary(p1, p2, visited, c1, c2, start, cycles_found % 2 == 1);
            match cycle_walk(p1, p2, visited, c1, c2, start, cycles_found % 2 == 1) {
                None => {},
                Some(st) => {
                    lemma_cycle_scan_complementary(
                        p1,
                        p2,
                        st.0,
                        st.1,
                        st.2,
                        start + 1,
                        cycles_found + 1,
                    );
                },
            }
        }
    }
}

/// Cycle-crossover children are complementary: at every position they
/// carry the two parents' genes, one each, in one order or the other.
/// Applying the crossover twice therefore moves genes only between the
/// two slots a position offers.
pub proof fn lemma_cycle_children_complementary<G: GeneT>(p1: Seq<G>, p2: Seq<G>)
    requires
        p1.len() == p2.len(),
    ensures
        cycle_children(p1, p2) matches Some(c) ==> complementary_children(p1, p2, c.0, c.1),
{
    lemma_cycle_scan_complementary(p1, p2, Seq::new(p1.len(), |i: int| false), p1, p2, 0, 0);
}

/// The index of the first gene in `s` carrying `id`, scanned left to right.
fn position_of_id<G: GeneT>(s: &[G], id: i32) -> (r: Option<usize>)
    ensures
        r.is_some() == (index_of_id(s@, id) >= 0),
        r.is_some() ==> r.unwrap() as int == index_of_id(s@, id),
{
    let n = s.len();
    let mut j: usize = 0;
    while j < n
        invariant
            j <= n,
            n == s@.len(),
            forall|jj: int| 0 <= jj < j ==> s@[jj].id_view() != id,
        decreases n - j,
    {
        if s[j].get_id() == id {
            proof {
                lemma_index_of_id_first(s@, id, j as int);
            }
            return Some(j);
        }
        j += 1;
    }
    proof {
        lemma_index_of_id_props(s@, id);
    }
    None
}

/// Runs the cycle crossover on two equal-length parents.  The children
/// carry the recombined dna over the parents' fitness and age; `None` is
/// reported — not a panic — when a gene identity from parent 2 cannot be
/// located in parent 1.
pub fn cycle<U: ChromosomeT>(parent_1: &U, parent_2: &U) -> (r: Option<Vec<U>>)
    requires
        parent_1.dna_view().len() == parent_2.dna_view().len(),
    ensures
        r.is_some() == cycle_children(parent_1.dna_view(), parent_2.dna_view()).is_some(),
        r.is_some() ==> ({
            let c = cycle_children(parent_1.dna_view(), parent_2.dna_view()).unwrap();
            &&& r.unwrap()@.len() == 2
            &&& r.unwrap()@[0].dna_view() == c.0
            &&& r.unwrap()@[1].dna_view() == c.1
            &&& r.unwrap()@[0].fitness_view() == parent_1.fitness_view()
            &&& r.unwrap()@[0].age_view() == parent_1.age_view()
            &&& r.unwrap()@[1].fitness_view() == parent_2.fitness_view()
            &&& r.unwrap()@[1].age_view() == parent_2.age_view()
        }),
{
    let p1 = parent_1.get_dna();
    let p2 = parent_2.get_dna();
    let dna_len = p1.len();
    let ghost p1s = parent_1.dna_view();
    let ghost p2s = parent_2.dna_view();
    let ghost target = cycle_children(p1s, p2s);

    // The children start as copies of the parents; every position of a
    // completed cycle is overwritten below.
    let mut child_1_dna: Vec<U::Gene> = Vec::new();
    let mut child_2_dna: Vec<U::Gene> = Vec::new();
    let mut visited: Vec<bool> = Vec::new();
    let mut i: usize = 0;
    while i < dna_len
        invariant
            i <= dna_len,
            dna_len == p1s.len(),
            dna_len == p2s.len(),
            p1@ == p1s,
            p2@ == p2s,
            child_1_dna@ == p1s.take(i as int),
            child_2_dna@ == p2s.take(i as int),
            visited@ =~= Seq::new(i as nat, |k: int| false),
        decreases dna_len - i,
    {
        child_1_dna.push(p1[i]);
        child_2_dna.push(p2[i]);
        visited.push(false);
        proof {
            assert(p1s.take(i + 1) =~= p1s.take(i as int).push(p1s[i as int]));
            assert(p2s.take(i + 1) =~= p2s.take(i as int).push(p2s[i as int]));
        }
        i += 1;
    }
    proof {
        assert(p1s.take(dna_len as int) =~= p1s);
        assert(p2s.take(dna_len as int) =~= p2s);
        assert(visited@ =~= Seq::new(p1s.len(), |k: int| false));
    }

    let mut cycles_found: usize = 0;
    let mut start: usize = 0;
    while start < dna_len
        invariant
            start <= dna_len,
            cycles_found <= start,
            dna_len == p1s.len(),
            dna_len == p2s.len(),
            p1@ == p1s,
            p2@ == p2s,
            p1s == parent_1.dna_view(),
            p2s == parent_2.dna_view(),
            visited@.len() == dna_len,
            child_1_dna@.len() == dna_len,
            child_2_dna@.len() == dna_len,
            target == cycle_children(p1s, p2s),
            cycle_scan(p1s, p2s, visited@, child_1_dna@, child_2_dna@, start as int,
                cycles_found as int) == target,
        decreases dna_len - start,
    {
        if !visited[start] {
            let cross = cycles_found % 2 != 0;
            let mut idx = start;
            proof {
                lemma_count_false_nonneg(visited@);
                lemma_cycle_walk_shape(
                    p1s,
                    p2s,
                    visited@,
                    child_1_dna@,
                    child_2_dna@,
                    start as int,
                    cycles_found as int % 2 == 1,
                );
                assert(cycle_scan(p1s, p2s, visited@, child_1_dna@, child_2_dna@, start as int,
                    cycles_found as int) == (match cycle_walk(
                    p1s,
                    p2s,
                    visited@,
                    child_1_dna@,
                    child_2_dna@,
                    start as int,
                    cycles_found as int % 2 == 1,
                ) {
                    None => None,
                    Some(st) => cycle_scan(
                        p1s,
                        p2s,
                        st.0,
                        st.1,
                        st.2,
                        start as int + 1,
                        cycles_found as int + 1,
                    ),
                }));
                assert(cross == (cycles_found as int % 2 == 1));
            }
            while !visited[idx]
                invariant
                    idx < dna_len,
                    dna_len == p1s.len(),
                    dna_len == p2s.len(),
                    p1@ == p1s,
                    p2@ == p2s,
                    p1s == parent_1.dna_view(),
                    p2s == parent_2.dna_view(),
                    visited@.len() == dna_len,
                    child_1_dna@.len() == dna_len,
                    child_2_dna@.len() == dna_len,
                    start < dna_len,
                    cycles_found <= start,
                    cross == (cycles_found % 2 == 1),
                    target == cycle_children(p1s, p2s),
                    (match cycle_walk(
                        p1s,
                        p2s,
                        visited@,
                        child_1_dna@,
                        child_2_dna@,
                        idx as int,
                        cross,
                    ) {
                        None => target is None,
                        Some(st) => cycle_scan(p1s, p2s, st.0, st.1, st.2, start + 1,
                            cycles_found + 1) == target,
                    }),
                decreases count_false(visited@),
            {
                let ghost pre_visited = visited@;
                let ghost pre_c1 = child_1_dna@;
                let ghost pre_c2 = child_2_dna@;
                proof {
                    lemma_count_false_update(visited@, idx as int);
                }
                visited.set(idx, true);
                if !cross {
                    child_1_dna.set(idx, p1[idx]);
                    child_2_dna.set(idx, p2[idx]);
                } else {
                    child_1_dna.set(idx, p2[idx]);
                    child_2_dna.set(idx, p1[idx]);
                }

                let next_gene_id = p2[idx].get_id();
                let found = position_of_id(p1, next_gene_id);
                proof {
                    lemma_index_of_id_props(p1s, p2s[idx as int].id_view());
                    assert(cycle_walk(p1s, p2s, pre_visited, pre_c1, pre_c2, idx as int, cross)
                        == (if index_of_id(p1s, p2s[idx as int].id_view()) < 0 {
                        None
                    } else {
                        cycle_walk(
                            p1s,
                            p2s,
                            visited@,
                            child_1_dna@,
                            child_2_dna@,
                            index_of_id(p1s, p2s[idx as int].id_view()),
                            cross,
                        )
                    }));
                }
                match found {
                    None => {
                        return None;
                    },
                    Some(next) => {
                        proof {
                            lemma_cycle_walk_shape(
                                p1s,
                                p2s,
                                visited@,
                                child_1_dna@,
                                child_2_dna@,
                                next as int,
                                cross,
                            );
                        }
                        idx = next;
                    },
                }
            }
            cycles_found += 1;
        }
        start += 1;
    }

    let mut child_1 = U::new();
    let mut child_2 = U::new();
    child_1.set_dna(child_1_dna.as_slice());
    child_2.set_dna(child_2_dna.as_slice());
    child_1.set_fitness(parent_1.get_fitness());
    child_2.set_fitness(parent_2.get_fitness());
    child_1.set_age(parent_1.get_age());
    child_2.set_age(parent_2.get_age());

    let mut result = Vec::new();
    result.push(child_1);
    result.push(child_2);
    Some(result)
}

} // verus!
