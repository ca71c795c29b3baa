//! Euclidean rhythm generation, shared by the arpeggiator and the drum
//! generator.
//!
//! Bjorklund's algorithm spreads `hits` pulses over `steps` slots as
//! evenly as possible: it starts from `hits` one-element true groups and
//! `steps - hits` one-element false groups, repeatedly concatenates the
//! shorter list onto the longer one pairwise, and flattens the groups at
//! the end. The result always holds exactly `min(hits, steps)` pulses.

use vstd::prelude::*;

verus! {

/// Number of true entries in a pattern.
pub open spec fn count_trues(s: Seq<bool>) -> int
    decreases s.len(),
{
    if s.len() == 0 {
        0
    } else {
        count_trues(s.drop_last()) + if s.last() { 1int } else { 0int }
    }
}

/// Total length of a list of groups.
pub open spec fn flat_len(s: Seq<Seq<bool>>) -> int
    decreases s.len(),
{
    if s.len() == 0 {
        0
    } else {
        flat_len(s.drop_last()) + s.last().len()
    }
}

/// Total number of true entries over a list of groups.
pub open spec fn flat_trues(s: Seq<Seq<bool>>) -> int
    decreases s.len(),
{
    if s.len() == 0 {
        0
    } else {
        flat_trues(s.drop_last()) + count_trues(s.last())
    }
}

/// Counting trues distributes over concatenation.
pub proof fn lemma_count_trues_add(a: Seq<bool>, b: Seq<bool>)
    ensures
        count_trues(a + b) == count_trues(a) + count_trues(b),
    decreases b.len(),
{
    if b.len() == 0 {
        assert(a + b =~= a);
    } else {
        lemma_count_trues_add(a, b.drop_last());
        assert((a + b).drop_last() =~= a + b.drop_last());
        assert((a + b).last() == b.last());
    }
}

/// Group totals split at any boundary.
proof fn lemma_flat_split(s: Seq<Seq<bool>>, k: int)
    requires
        0 <= k <= s.len(),
    ensures
        flat_len(s) == flat_len(s.take(k)) + flat_len(s.skip(k)),
        flat_trues(s) == flat_trues(s.take(k)) + flat_trues(s.skip(k)),
    decreases s.len() - k,
{
    if k == s.len() {
        assert(s.take(k) =~= s);
        assert(s.skip(k).len() == 0);
    } else {
        lemma_flat_split(s, k + 1);
        let hd = s[k];
        assert(s.take(k + 1).drop_last() =~= s.take(k));
        assert(s.take(k + 1).last() == hd);
        lemma_flat_first(s.skip(k));
        assert(s.skip(k).drop_first() =~= s.skip(k + 1));
        assert(s.skip(k)[0] == hd);
    }
}

/// Group totals also peel off the first group.
proof fn lemma_flat_first(s: Seq<Seq<bool>>)
    requires
        s.len() > 0,
    ensures
        flat_len(s) == s[0].len() + flat_len(s.drop_first()),
        flat_trues(s) == count_trues(s[0]) + flat_trues(s.drop_first()),
    decreases s.len(),
{
    if s.len() == 1 {
        assert(s.drop_last().len() == 0);
        assert(s.drop_first().len() == 0);
        assert(flat_len(s.drop_last()) == 0);
        assert(flat_trues(s.drop_last()) == 0);
        assert(flat_len(s.drop_first()) == 0);
        assert(flat_trues(s.drop_first()) == 0);
        assert(s.last() == s[0]);
    } else {
        lemma_flat_first(s.drop_last());
        assert(s.drop_last()[0] == s[0]);
        assert(s.drop_first().drop_last() =~= s.drop_last().drop_first());
        assert(s.drop_first().last() == s.last());
    }
}

/// A uniform list of `n` copies of one group.
proof fn lemma_flat_uniform(s: Seq<Seq<bool>>, g: Seq<bool>)
    requires
        forall|i: int| 0 <= i < s.len() ==> s[i] == g,
    ensures
        flat_len(s) == s.len() * g.len(),
        flat_trues(s) == s.len() * count_trues(g),
    decreases s.len(),
{
    if s.len() == 0 {
        assert(0int * g.len() == 0) by (nonlinear_arith);
        assert(0int * count_trues(g) == 0) by (nonlinear_arith);
    } else {
        lemma_flat_uniform(s.drop_last(), g);
        let n = s.len() as int;
        assert((n - 1) * g.len() + g.len() == n * g.len()) by (nonlinear_arith);
        assert((n - 1) * count_trues(g) + count_trues(g) == n * count_trues(g))
            by (nonlinear_arith);
    }
}

/// Copy a pattern group.
fn clone_group(g: &Vec<bool>) -> (r: Vec<bool>)
    ensures
        r@ == g@,
{
    let mut r: Vec<bool> = Vec::new();
    let mut i: usize = 0;
    while i < g.len()
        invariant
            0 <= i <= g@.len(),
            r@ == g@.take(i as int),
        decreases g@.len() - i,
    {
        r.push(g[i]);
        proof {
            assert(r@ =~= g@.take(i as int + 1));
        }
        i = i + 1;
    }
    proof {
        assert(g@.take(g@.len() as int) =~= g@);
    }
    r
}

/// A vector of `n` copies of `value`.
fn repeat_group(value: bool, n: usize) -> (r: Vec<Vec<bool>>)
    ensures
        r@.len() == n,
        forall|i: int| 0 <= i < n ==> #[trigger] r@[i]@ == seq![value],
        flat_len(r@.map_values(|v: Vec<bool>| v@)) == n,
        flat_trues(r@.map_values(|v: Vec<bool>| v@)) == if value { n as int } else { 0int },
{
    let mut r: Vec<Vec<bool>> = Vec::new();
    let mut i: usize = 0;
    while i < n
        invariant
            0 <= i <= n,
            r@.len() == i,
            forall|j: int| 0 <= j < i ==> #[trigger] r@[j]@ == seq![value],
        decreases n - i,
    {
        let mut g: Vec<bool> = Vec::new();
        g.push(value);
        proof {
            assert(g@ =~= seq![value]);
        }
        r.push(g);
        i = i + 1;
    }
    proof {
        let mapped = r@.map_values(|v: Vec<bool>| v@);
        assert(forall|i: int| 0 <= i < mapped.len() ==> #[trigger] mapped[i] == seq![value]);
        lemma_flat_uniform(mapped, seq![value]);
        assert(count_trues(seq![value]) == if value { 1int } else { 0int }) by {
            assert(seq![value].drop_last().len() == 0);
            assert(count_trues(seq![value].drop_last()) == 0);
            assert(seq![value].last() == value);
        }
        assert(mapped.len() as int * 1 == mapped.len()) by (nonlinear_arith);
        if value {
            assert(mapped.len() as int * count_trues(seq![value]) == mapped.len() as int)
                by (nonlinear_arith)
                requires count_trues(seq![value]) == 1;
        } else {
            assert(mapped.len() as int * count_trues(seq![value]) == 0)
                by (nonlinear_arith)
                requires count_trues(seq![value]) == 0;
        }
    }
    r
}

/// Generate a Euclidean rhythm pattern: a length-`steps` pattern holding
/// exactly `min(hits, steps)` evenly spread pulses.
pub fn euclidean(hits: usize, steps: usize) -> (r: Vec<bool>)
    ensures
        r@.len() == steps,
        count_trues(r@) == if hits < steps { hits as int } else { steps as int },
{
    if steps == 0 {
        let r: Vec<bool> = Vec::new();
        return r;
    }
    if hits >= steps {
        let mut r: Vec<bool> = Vec::new();
        let mut i: usize = 0;
        while i < steps
            invariant
                0 <= i <= steps,
                r@.len() == i,
                count_trues(r@) == i,
            decreases steps - i,
        {
            let ghost before = r@;
            r.push(true);
            proof {
                assert(r@.drop_last() =~= before);
            }
            i = i + 1;
        }
        return r;
    }
    if hits == 0 {
        let mut r: Vec<bool> = Vec::new();
        let mut i: usize = 0;
        while i < steps
            invariant
                0 <= i <= steps,
                r@.len() == i,
                count_trues(r@) == 0,
            decreases steps - i,
        {
            let ghost before = r@;
            r.push(false);
            proof {
                assert(r@.drop_last() =~= before);
            }
            i = i + 1;
        }
        return r;
    }

    // Bjorklund's algorithm
    let mut pattern: Vec<Vec<bool>> = repeat_group(true, hits);
    let mut remainder: Vec<Vec<bool>> = repeat_group(false, steps - hits);

    while remainder.len() > 1 && pattern.len() >= 1
        invariant
            pattern@.len() >= 1,
            flat_len(pattern@.map_values(|v: Vec<bool>| v@))
                + flat_len(remainder@.map_values(|v: Vec<bool>| v@)) == steps,
            flat_trues(pattern@.map_values(|v: Vec<bool>| v@))
                + flat_trues(remainder@.map_values(|v: Vec<bool>| v@)) == hits,
        decreases pattern@.len() + remainder@.len(),
    {
        let min_len = if pattern.len() < remainder.len() {
            pattern.len()
        } else {
            remainder.len()
        };
        let ghost p0 = pattern@.map_values(|v: Vec<bool>| v@);
        let ghost r0 = remainder@.map_values(|v: Vec<bool>| v@);

        let mut merged: Vec<Vec<bool>> = Vec::new();
        let mut i: usize = 0;
        while i < min_len
            invariant
                0 <= i <= min_len,
                min_len <= pattern@.len(),
                min_len <= remainder@.len(),
                p0 == pattern@.map_values(|v: Vec<bool>| v@),
                r0 == remainder@.map_values(|v: Vec<bool>| v@),
                merged@.len() == i,
                forall|j: int| 0 <= j < i
                    ==> #[trigger] merged@[j]@ == pattern@[j]@ + remainder@[j]@,
            decreases min_len - i,
        {
            let mut x = clone_group(&pattern[i]);
            let mut y = clone_group(&remainder[i]);
            x.append(&mut y);
            merged.push(x);
            i = i + 1;
        }

        let source_pattern = pattern.len() > min_len;
        let mut leftovers: Vec<Vec<bool>> = Vec::new();
        let mut j: usize = min_len;
        let total = if source_pattern { pattern.len() } else { remainder.len() };
        while j < total
            invariant
                min_len <= j <= total,
                p0 == pattern@.map_values(|v: Vec<bool>| v@),
                r0 == remainder@.map_values(|v: Vec<bool>| v@),
                source_pattern ==> total == pattern@.len(),
                !source_pattern ==> total == remainder@.len(),
                leftovers@.len() == j - min_len,
                forall|k: int| 0 <= k < j - min_len
                    ==> #[trigger] leftovers@[k]@ == (if source_pattern {
                        pattern@[min_len + k]@
                    } else {
                        remainder@[min_len + k]@
                    }),
            decreases total - j,
        {
            if source_pattern {
                leftovers.push(clone_group(&pattern[j]));
            } else {
                leftovers.push(clone_group(&remainder[j]));
            }
            j = j + 1;
        }

        proof {
            let m = merged@.map_values(|v: Vec<bool>| v@);
            let l = leftovers@.map_values(|v: Vec<bool>| v@);
            lemma_flat_split(p0, min_len as int);
            lemma_flat_split(r0, min_len as int);
            lemma_merged_totals(m, p0.take(min_len as int), r0.take(min_len as int));
            if source_pattern {
                assert(l =~= p0.skip(min_len as int));
                assert(r0.skip(min_len as int).len() == 0);
                assert(flat_len(r0.skip(min_len as int)) == 0);
                assert(flat_trues(r0.skip(min_len as int)) == 0);
            } else {
                assert(l =~= r0.skip(min_len as int));
                assert(p0.skip(min_len as int).len() == 0);
                assert(flat_len(p0.skip(min_len as int)) == 0);
                assert(flat_trues(p0.skip(min_len as int)) == 0);
            }
        }
        pattern = merged;
        remainder = leftovers;
    }

    // Flatten and append remainder
    let mut result: Vec<bool> = Vec::new();
    let ghost pfinal = pattern@.map_values(|v: Vec<bool>| v@);
    let ghost rfinal = remainder@.map_values(|v: Vec<bool>| v@);
    let mut i: usize = 0;
    proof {
        assert(pfinal.take(0) =~= Seq::<Seq<bool>>::empty());
        assert(flat_len(pfinal.take(0)) == 0);
        assert(flat_trues(pfinal.take(0)) == 0);
        assert(count_trues(result@) == 0);
    }
    while i < pattern.len()
        invariant
            0 <= i <= pattern@.len(),
            pfinal == pattern@.map_values(|v: Vec<bool>| v@),
            result@.len() == flat_len(pfinal.take(i as int)),
            count_trues(result@) == flat_trues(pfinal.take(i as int)),
        decreases pattern@.len() - i,
    {
        let ghost before = result@;
        let mut g = clone_group(&pattern[i]);
        result.append(&mut g);
        proof {
            lemma_count_trues_add(before, pfinal[i as int]);
            assert(pfinal.take(i as int + 1).drop_last() =~= pfinal.take(i as int));
        }
        i = i + 1;
    }
    let mut j: usize = 0;
    proof {
        assert(pfinal.take(pattern@.len() as int) =~= pfinal);
        assert(rfinal.take(0) =~= Seq::<Seq<bool>>::empty());
        assert(flat_len(rfinal.take(0)) == 0);
        assert(flat_trues(rfinal.take(0)) == 0);
    }
    while j < remainder.len()
        invariant
            0 <= j <= remainder@.len(),
            rfinal == remainder@.map_values(|v: Vec<bool>| v@),
            pfinal == pattern@.map_values(|v: Vec<bool>| v@),
            result@.len() == flat_len(pfinal) + flat_len(rfinal.take(j as int)),
            count_trues(result@) == flat_trues(pfinal) + flat_trues(rfinal.take(j as int)),
        decreases remainder@.len() - j,
    {
        let ghost before = result@;
        let mut g = clone_group(&remainder[j]);
        result.append(&mut g);
        proof {
            lemma_count_trues_add(before, rfinal[j as int]);
            assert(rfinal.take(j as int + 1).drop_last() =~= rfinal.take(j as int));
        }
        j = j + 1;
    }
    proof {
        assert(pfinal.take(pfinal.len() as int) =~= pfinal);
        assert(rfinal.take(rfinal.len() as int) =~= rfinal);
    }
    result
}

/// The merged prefix carries the summed totals of both prefixes.
proof fn lemma_merged_totals(m: Seq<Seq<bool>>, p: Seq<Seq<bool>>, r: Seq<Seq<bool>>)
    requires
        m.len() == p.len(),
        p.len() == r.len(),
        forall|j: int| 0 <= j < m.len() ==> #[trigger] m[j] == p[j] + r[j],
    ensures
        flat_len(m) == flat_len(p) + flat_len(r),
        flat_trues(m) == flat_trues(p) + flat_trues(r),
    decreases m.len(),
{
    if m.len() > 0 {
        assert forall|j: int| 0 <= j < m.len() - 1
            implies #[trigger] m.drop_last()[j] == p.drop_last()[j] + r.drop_last()[j] by {
            assert(m[j] == p[j] + r[j]);
        }
        lemma_merged_totals(m.drop_last(), p.drop_last(), r.drop_last());
        lemma_count_trues_add(p.last(), r.last());
        assert(m.last() == p.last() + r.last());
    }
}

} // verus!
