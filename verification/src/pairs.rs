//! Enumeration of the unordered component pairs of a mixture.
//!
//! The N components of a mixture give one overlap score per unordered pair
//! `(i, j)` with `i < j`, and the scores are reported in ascending
//! lexicographic order of `(i, j)`. This module builds that pair sequence
//! and proves its length, its order, and its completeness.

use vstd::prelude::*;

verus! {

/// The pairs `(i, j), (i, j + 1), ..., (i, n - 1)`, in that order.
pub open spec fn pair_row(i: int, j: int, n: int) -> Seq<(usize, usize)>
    decreases n - j,
{
    if j < 0 || j >= n {
        Seq::empty()
    } else {
        seq![(i as usize, j as usize)] + pair_row(i, j + 1, n)
    }
}

/// The pairs whose first component is `i`, then those whose first component
/// is `i + 1`, and so on up to `n - 1`.
pub open spec fn pair_rows(i: int, n: int) -> Seq<(usize, usize)>
    decreases n - i,
{
    if i < 0 || i >= n {
        Seq::empty()
    } else {
        pair_row(i, i + 1, n) + pair_rows(i + 1, n)
    }
}

/// All unordered pairs of `n` components, in ascending lexicographic order.
pub open spec fn pair_seq(n: int) -> Seq<(usize, usize)> {
    pair_rows(0, n)
}

/// `a` comes strictly before `b` in lexicographic pair order.
pub open spec fn lex_less(a: (usize, usize), b: (usize, usize)) -> bool {
    a.0 < b.0 || (a.0 == b.0 && a.1 < b.1)
}

/// Builds the pair list: every `(i, j)` with `i < j < n`, in ascending
/// lexicographic order, `n * (n - 1) / 2` of them.
pub fn pair_list(n: usize) -> (ps: Vec<(usize, usize)>)
    ensures
        ps@ == pair_seq(n as int),
        ps@.len() == (n as int) * ((n as int) - 1) / 2,
{
    let mut ps: Vec<(usize, usize)> = Vec::new();
    let mut i: usize = 0;
    while i < n
        invariant
            i <= n,
            ps@ + pair_rows(i as int, n as int) == pair_seq(n as int),
        decreases n - i,
    {
        let mut j: usize = i + 1;
        proof {
            assert(pair_rows(i as int, n as int) == pair_row(i as int, i + 1, n as int)
                + pair_rows(i + 1, n as int));
            assert(ps@ + (pair_row(i as int, i + 1, n as int) + pair_rows(i + 1, n as int))
                =~= (ps@ + pair_row(i as int, i + 1, n as int)) + pair_rows(i + 1, n as int));
        }
        while j < n
            invariant
                i < n,
                i + 1 <= j <= n,
                (ps@ + pair_row(i as int, j as int, n as int)) + pair_rows(i + 1, n as int)
                    == pair_seq(n as int),
            decreases n - j,
        {
            let ghost old_ps = ps@;
            ps.push((i, j));
            proof {
                assert(pair_row(i as int, j as int, n as int) == seq![(i, j)] + pair_row(
                    i as int,
                    j + 1,
                    n as int,
                ));
                assert(ps@ + pair_row(i as int, j + 1, n as int) =~= old_ps + pair_row(
                    i as int,
                    j as int,
                    n as int,
                ));
            }
            j = j + 1;
        }
        proof {
            assert(pair_row(i as int, n as int, n as int) =~= Seq::<(usize, usize)>::empty());
            assert(ps@ + pair_row(i as int, n as int, n as int) =~= ps@);
        }
        i = i + 1;
    }
    proof {
        assert(pair_rows(n as int, n as int) =~= Seq::<(usize, usize)>::empty());
        assert(ps@ + pair_rows(n as int, n as int) =~= ps@);
        lemma_pair_seq_len(n as int);
    }
    ps
}

/// A row starting at `j` holds `n - j` pairs.
proof fn lemma_pair_row_len(i: int, j: int, n: int)
    requires
        0 <= j <= n,
    ensures
        pair_row(i, j, n).len() == n - j,
    decreases n - j,
{
    if j < n {
        lemma_pair_row_len(i, j + 1, n);
    }
}

proof fn lemma_pair_rows_len(i: int, n: int)
    requires
        0 <= i <= n,
    ensures
        pair_rows(i, n).len() == (n - i) * (n - i - 1) / 2,
    decreases n - i,
{
    if i < n {
        lemma_pair_row_len(i, i + 1, n);
        lemma_pair_rows_len(i + 1, n);
        assert((n - i - 1) + (n - i - 1) * (n - i - 2) / 2 == (n - i) * (n - i - 1) / 2)
            by (nonlinear_arith);
    } else {
        assert((n - i) * (n - i - 1) / 2 == 0) by (nonlinear_arith)
            requires i == n;
    }
}

/// For any `n`, the pair sequence holds `n * (n - 1) / 2` pairs.
pub proof fn lemma_pair_seq_len(n: int)
    requires
        0 <= n,
    ensures
        pair_seq(n).len() == n * (n - 1) / 2,
{
    lemma_pair_rows_len(0, n);
}

/// Element `m` of a row is `(i, j + m)`.
proof fn lemma_pair_row_index(i: int, j: int, n: int)
    requires
        0 <= i,
        i < j <= n,
        n <= usize::MAX,
    ensures
        pair_row(i, j, n).len() == n - j,
        forall|m: int| 0 <= m < n - j ==> #[trigger] pair_row(i, j, n)[m] == (
            i as usize,
            (j + m) as usize,
        ),
    decreases n - j,
{
    lemma_pair_row_len(i, j, n);
    if j < n {
        lemma_pair_row_index(i, j + 1, n);
        assert forall|m: int| 0 <= m < n - j implies #[trigger] pair_row(i, j, n)[m] == (
            i as usize,
            (j + m) as usize,
        ) by {
            if m > 0 {
                assert(pair_row(i, j, n)[m] == pair_row(i, j + 1, n)[m - 1]);
            }
        }
    }
}

/// Every element of `pair_rows(i, n)` is a pair `(a, b)` with
/// `i <= a < b < n`, and the whole of it is lexicographically ascending.
proof fn lemma_pair_rows_sorted(i: int, n: int)
    requires
        0 <= i,
        n <= usize::MAX,
    ensures
        forall|k: int| 0 <= k < pair_rows(i, n).len() ==> i <= (#[trigger] pair_rows(i, n)[k]).0
            && (pair_rows(i, n)[k]).0 < (pair_rows(i, n)[k]).1 && (pair_rows(i, n)[k]).1 < n,
        forall|k1: int, k2: int| 0 <= k1 < k2 < pair_rows(i, n).len() ==> lex_less(
            #[trigger] pair_rows(i, n)[k1],
            #[trigger] pair_rows(i, n)[k2],
        ),
    decreases n - i,
{
    if 0 <= i < n {
        lemma_pair_row_index(i, i + 1, n);
        lemma_pair_rows_sorted(i + 1, n);
        let row = pair_row(i, i + 1, n);
        let rest = pair_rows(i + 1, n);
        assert forall|k: int| 0 <= k < pair_rows(i, n).len() implies i <= (
        #[trigger] pair_rows(i, n)[k]).0 && (pair_rows(i, n)[k]).0 < (pair_rows(i, n)[k]).1 && (
        pair_rows(i, n)[k]).1 < n by {
            if k < row.len() {
                assert(pair_rows(i, n)[k] == row[k]);
            } else {
                assert(pair_rows(i, n)[k] == rest[k - row.len()]);
            }
        }
        assert forall|k1: int, k2: int| 0 <= k1 < k2 < pair_rows(i, n).len() implies lex_less(
            #[trigger] pair_rows(i, n)[k1],
            #[trigger] pair_rows(i, n)[k2],
        ) by {
            if k2 < row.len() {
                assert(pair_rows(i, n)[k1] == row[k1]);
                assert(pair_rows(i, n)[k2] == row[k2]);
            } else if k1 < row.len() {
                assert(pair_rows(i, n)[k1] == row[k1]);
                assert(pair_rows(i, n)[k2] == rest[k2 - row.len()]);
            } else {
                assert(pair_rows(i, n)[k1] == rest[k1 - row.len()]);
                assert(pair_rows(i, n)[k2] == rest[k2 - row.len()]);
            }
        }
    }
}

/// The pair sequence is strictly ascending in lexicographic order, and each
/// of its elements is a pair `(a, b)` with `a < b < n`. With
/// `lemma_pair_seq_complete` this pins the enumeration: the pairs come out
/// in exactly one order, ascending lexicographic.
pub proof fn lemma_pair_seq_sorted(n: int)
    requires
        0 <= n <= usize::MAX,
    ensures
        forall|k: int| 0 <= k < pair_seq(n).len() ==> (#[trigger] pair_seq(n)[k]).0 < (pair_seq(
            n,
        )[k]).1 && (pair_seq(n)[k]).1 < n,
        forall|k1: int, k2: int| 0 <= k1 < k2 < pair_seq(n).len() ==> lex_less(
            #[trigger] pair_seq(n)[k1],
            #[trigger] pair_seq(n)[k2],
        ),
{
    lemma_pair_rows_sorted(0, n);
}

proof fn lemma_pair_rows_complete(i: int, n: int, a: int, b: int)
    requires
        0 <= i <= a,
        a < b < n,
        n <= usize::MAX,
    ensures
        pair_rows(i, n).contains((a as usize, b as usize)),
    decreases n - i,
{
    let row = pair_row(i, i + 1, n);
    let rest = pair_rows(i + 1, n);
    if a == i {
        lemma_pair_row_index(i, i + 1, n);
        let m = b - i - 1;
        assert(row[m] == (a as usize, b as usize));
        assert(pair_rows(i, n)[m] == row[m]);
    } else {
        lemma_pair_rows_complete(i + 1, n, a, b);
        let k = choose|k: int| 0 <= k < rest.len() && rest[k] == (a as usize, b as usize);
        lemma_pair_row_len(i, i + 1, n);
        assert(pair_rows(i, n)[row.len() + k] == rest[k]);
    }
}

/// Every pair `(a, b)` with `a < b < n` occurs in the pair sequence.
pub proof fn lemma_pair_seq_complete(n: int, a: int, b: int)
    requires
        0 <= a < b < n,
        n <= usize::MAX,
    ensures
        pair_seq(n).contains((a as usize, b as usize)),
{
    lemma_pair_rows_complete(0, n, a, b);
}

} // verus!
