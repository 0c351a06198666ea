//! Ranking of processes: heaviest CPU users first, then largest memory.
use vstd::prelude::*;

verus! {

/// A process with the keys it is ranked by: the order key of its CPU usage
/// (a number, not NaN) and its resident memory in bytes.
#[derive(Debug, Clone)]
pub struct RankedProcess<T> {
    pub cpu_key: i32,
    pub memory_bytes: u64,
    pub item: T,
}

/// `a` ranks strictly before `b`: more CPU, or equal CPU and more memory.
pub open spec fn ranks_before<T>(a: RankedProcess<T>, b: RankedProcess<T>) -> bool {
    a.cpu_key > b.cpu_key || (a.cpu_key == b.cpu_key && a.memory_bytes > b.memory_bytes)
}

/// Index of the first top-ranked element among `s[0..n]`.
pub open spec fn first_top<T>(s: Seq<RankedProcess<T>>, n: int) -> int
    decreases n,
{
    if n <= 1 {
        0
    } else {
        let best = first_top(s, n - 1);
        if ranks_before(s[n - 1], s[best]) {
            n - 1
        } else {
            best
        }
    }
}

/// `s` in ranking order; elements that tie keep their order in `s` (a stable sort).
pub open spec fn ranked<T>(s: Seq<RankedProcess<T>>) -> Seq<RankedProcess<T>>
    decreases s.len(),
{
    if s.len() == 0 {
        seq![]
    } else {
        let i = first_top(s, s.len() as int);
        proof {
            lemma_first_top_bounds(s, s.len() as int);
        }
        seq![s[i]] + ranked(s.remove(i))
    }
}

pub proof fn lemma_first_top_bounds<T>(s: Seq<RankedProcess<T>>, n: int)
    requires
        1 <= n <= s.len(),
    ensures
        0 <= first_top(s, n) < n,
        forall|k: int| 0 <= k < n ==> !ranks_before(#[trigger] s[k], s[first_top(s, n)]),
        forall|k: int| 0 <= k < first_top(s, n) ==> ranks_before(s[first_top(s, n)], #[trigger] s[k]),
    decreases n,
{
    if n > 1 {
        lemma_first_top_bounds(s, n - 1);
    }
}

proof fn lemma_ranked_len<T>(s: Seq<RankedProcess<T>>)
    ensures
        ranked(s).len() == s.len(),
    decreases s.len(),
{
    if s.len() > 0 {
        let i = first_top(s, s.len() as int);
        lemma_first_top_bounds(s, s.len() as int);
        lemma_ranked_len(s.remove(i));
    }
}

/// At most `max` processes, in ranking order (ties keep their input order).
pub fn top_processes<T>(entries: Vec<RankedProcess<T>>, max: usize) -> (r: Vec<RankedProcess<T>>)
    ensures
        r@ == ranked(entries@).take(if max < entries@.len() { max as int } else { entries@.len() as int }),
{
    let ghost all = ranked(entries@);
    proof {
        lemma_ranked_len(entries@);
    }
    let mut rest = entries;
    let mut out: Vec<RankedProcess<T>> = Vec::new();
    assert(out@ + ranked(rest@) =~= all);
    while out.len() < max && rest.len() > 0
        invariant
            out@ + ranked(rest@) == all,
            out.len() <= max,
            all.len() == out.len() + rest.len(),
        decreases rest.len(),
    {
        let mut best: usize = 0;
        let mut j: usize = 1;
        while j < rest.len()
            invariant
                1 <= j <= rest.len(),
                best < j,
                best == first_top(rest@, j as int),
            decreases rest.len() - j,
        {
            if rest[j].cpu_key > rest[best].cpu_key || (rest[j].cpu_key == rest[best].cpu_key
                && rest[j].memory_bytes > rest[best].memory_bytes) {
                best = j;
            }
            j = j + 1;
        }
        proof {
            lemma_first_top_bounds(rest@, rest@.len() as int);
            lemma_ranked_len(rest@.remove(best as int));
        }
        let ghost before = rest@;
        let e = rest.remove(best);
        out.push(e);
        assert(out@ + ranked(rest@) =~= all) by {
            assert(ranked(before) == seq![before[best as int]] + ranked(before.remove(best as int)));
        }
    }
    proof {
        lemma_ranked_len(rest@);
        if rest.len() == 0 {
            assert(out@ =~= all);
        }
        assert(out@ =~= all.take(out.len() as int));
    }
    out
}

/// Every element of `ranked(s)` comes from `s`, and none in `s` ranks before the head.
proof fn lemma_ranked_elements<T>(s: Seq<RankedProcess<T>>)
    ensures
        forall|k: int| 0 <= k < ranked(s).len() ==> s.contains(#[trigger] ranked(s)[k]),
    decreases s.len(),
{
    lemma_ranked_len(s);
    if s.len() > 0 {
        let i = first_top(s, s.len() as int);
        lemma_first_top_bounds(s, s.len() as int);
        let t = s.remove(i);
        lemma_ranked_elements(t);
        lemma_ranked_len(t);
        assert forall|k: int| 0 <= k < ranked(s).len() implies s.contains(#[trigger] ranked(s)[k]) by {
            if k == 0 {
                assert(s[i] == ranked(s)[0]);
            } else {
                assert(ranked(s)[k] == ranked(t)[k - 1]);
                let x = ranked(t)[k - 1];
                assert(t.contains(x));
                let m = choose|m: int| 0 <= m < t.len() && t[m] == x;
                if m < i {
                    assert(s[m] == x);
                } else {
                    assert(s[m + 1] == x);
                }
            }
        }
    }
}

/// The ranking is sorted: no process ranks before one listed ahead of it.
pub proof fn law_ranked_is_sorted<T>(s: Seq<RankedProcess<T>>)
    ensures
        forall|a: int, b: int| 0 <= a < b < ranked(s).len() ==> !ranks_before(#[trigger] ranked(s)[b], #[trigger] ranked(s)[a]),
    decreases s.len(),
{
    lemma_ranked_len(s);
    if s.len() > 0 {
        let i = first_top(s, s.len() as int);
        lemma_first_top_bounds(s, s.len() as int);
        let t = s.remove(i);
        law_ranked_is_sorted(t);
        lemma_ranked_elements(t);
        lemma_ranked_len(t);
        assert forall|a: int, b: int| 0 <= a < b < ranked(s).len() implies !ranks_before(
            #[trigger] ranked(s)[b],
            #[trigger] ranked(s)[a],
        ) by {
            assert(ranked(s)[b] == ranked(t)[b - 1]);
            if a > 0 {
                assert(ranked(s)[a] == ranked(t)[a - 1]);
            } else {
                let x = ranked(t)[b - 1];
                assert(t.contains(x));
                let m = choose|m: int| 0 <= m < t.len() && t[m] == x;
                if m < i {
                    assert(s[m] == x);
                } else {
                    assert(s[m + 1] == x);
                }
            }
        }
    }
}

/// The ranking reorders the processes: it holds each of them exactly as often.
pub proof fn law_ranked_is_permutation<T>(s: Seq<RankedProcess<T>>)
    ensures
        ranked(s).to_multiset() =~= s.to_multiset(),
    decreases s.len(),
{
    broadcast use vstd::multiset::group_multiset_axioms;

    if s.len() == 0 {
        assert(ranked(s) =~= s);
    } else {
        let i = first_top(s, s.len() as int);
        lemma_first_top_bounds(s, s.len() as int);
        let t = s.remove(i);
        law_ranked_is_permutation(t);
        assert(ranked(s) == seq![s[i]] + ranked(t));
        assert(seq![s[i]] + ranked(t) =~= ranked(t).insert(0, s[i]));
        vstd::seq_lib::to_multiset_insert(ranked(t), 0, s[i]);
        vstd::seq_lib::to_multiset_remove(s, i);
        vstd::seq_lib::to_multiset_contains(s, s[i]);
        assert(s.contains(s[i]));
    }
}

} // verus!
