//! The order of strings (`str`'s: code point by code point, a proper
//! prefix first) and sorting of map keys by it.

use vstd::prelude::*;

use crate::strmap::StrMap;
use crate::text::{chars_of, views};

verus! {

/// Whether `a` comes before `b`: at the first position where they differ the
/// character of `a` is smaller, or `a` is a proper prefix of `b`.
pub open spec fn seq_lt(a: Seq<char>, b: Seq<char>) -> bool
    decreases a.len(),
{
    if a.len() == 0 {
        b.len() > 0
    } else if b.len() == 0 {
        false
    } else if a[0] != b[0] {
        a[0] < b[0]
    } else {
        seq_lt(a.drop_first(), b.drop_first())
    }
}

pub proof fn lemma_lt_irreflexive(a: Seq<char>)
    ensures
        !seq_lt(a, a),
    decreases a.len(),
{
    if a.len() > 0 {
        lemma_lt_irreflexive(a.drop_first());
    }
}

pub proof fn lemma_lt_asymmetric(a: Seq<char>, b: Seq<char>)
    ensures
        seq_lt(a, b) ==> !seq_lt(b, a),
    decreases a.len(),
{
    if a.len() > 0 && b.len() > 0 && a[0] == b[0] {
        lemma_lt_asymmetric(a.drop_first(), b.drop_first());
    }
}

pub proof fn lemma_lt_transitive(a: Seq<char>, b: Seq<char>, c: Seq<char>)
    requires
        seq_lt(a, b),
        seq_lt(b, c),
    ensures
        seq_lt(a, c),
    decreases a.len(),
{
    if a.len() > 0 && b.len() > 0 && c.len() > 0 && a[0] == b[0] && b[0] == c[0] {
        lemma_lt_transitive(a.drop_first(), b.drop_first(), c.drop_first());
    }
}

pub proof fn lemma_lt_total(a: Seq<char>, b: Seq<char>)
    requires
        a != b,
    ensures
        seq_lt(a, b) || seq_lt(b, a),
    decreases a.len(),
{
    if a.len() > 0 && b.len() > 0 && a[0] == b[0] {
        if a.drop_first() == b.drop_first() {
            assert(a.drop_first().len() == b.drop_first().len());
            assert(a.len() == b.len());
            assert forall|k: int| 0 <= k < a.len() implies a[k] == b[k] by {
                if k > 0 {
                    assert(a[k] == a.drop_first()[k - 1]);
                    assert(b[k] == b.drop_first()[k - 1]);
                }
            }
            assert(a =~= b);
        }
        lemma_lt_total(a.drop_first(), b.drop_first());
    } else if a.len() == 0 && b.len() == 0 {
        assert(a =~= b);
    }
}

/// Whether `a` comes before `b` in `str`'s order.
pub fn str_lt(a: &str, b: &str) -> (r: bool)
    ensures
        r == seq_lt(a@, b@),
{
    let av = chars_of(a);
    let bv = chars_of(b);
    let mut i: usize = 0;
    assert(a@.skip(0) =~= a@);
    assert(b@.skip(0) =~= b@);
    while i < av.len() && i < bv.len()
        invariant
            av@ == a@,
            bv@ == b@,
            i <= av.len(),
            i <= bv.len(),
            forall|k: int| 0 <= k < i ==> av@[k] == bv@[k],
            seq_lt(a@, b@) == seq_lt(a@.skip(i as int), b@.skip(i as int)),
        decreases av.len() - i,
    {
        assert(a@.skip(i as int).drop_first() =~= a@.skip(i + 1));
        assert(b@.skip(i as int).drop_first() =~= b@.skip(i + 1));
        if av[i] != bv[i] {
            return av[i] < bv[i];
        }
        i = i + 1;
    }
    i == av.len() && i < bv.len()
}

/// Whether each string comes before every later one.
pub open spec fn strictly_sorted(s: Seq<Seq<char>>) -> bool {
    forall|i: int, j: int| 0 <= i < j < s.len() ==> seq_lt(#[trigger] s[i], #[trigger] s[j])
}

/// The elements of `d` in order (for a finite set).
pub open spec fn sorted_keys(d: Set<Seq<char>>) -> Seq<Seq<char>> {
    choose|s: Seq<Seq<char>>| strictly_sorted(s) && s.to_set() == d
}

proof fn lemma_sorted_first_is_least(s: Seq<Seq<char>>, x: Seq<char>)
    requires
        strictly_sorted(s),
        s.to_set().contains(x),
    ensures
        x == s[0] || seq_lt(s[0], x),
{
    let i = choose|i: int| 0 <= i < s.len() && s[i] == x;
    if i > 0 {
        assert(seq_lt(s[0], s[i]));
    }
}

/// Two strictly sorted sequences with the same elements are equal.
pub proof fn lemma_sorted_unique(a: Seq<Seq<char>>, b: Seq<Seq<char>>)
    requires
        strictly_sorted(a),
        strictly_sorted(b),
        a.to_set() == b.to_set(),
    ensures
        a == b,
    decreases a.len(),
{
    if a.len() == 0 {
        if b.len() > 0 {
            assert(b.to_set().contains(b[0]));
        }
        assert(a =~= b);
    } else {
        assert(a.to_set().contains(a[0]));
        if b.len() == 0 {
            assert(b.to_set().contains(a[0]));
        }
        lemma_sorted_first_is_least(b, a[0]);
        lemma_sorted_first_is_least(a, b[0]);
        assert(b.to_set().contains(b[0]));
        lemma_lt_asymmetric(a[0], b[0]);
        assert(a[0] == b[0]);
        let a1 = a.drop_first();
        let b1 = b.drop_first();
        assert forall|x: Seq<char>| a1.to_set().contains(x) implies b1.to_set().contains(x) by {
            let i = choose|i: int| 0 <= i < a1.len() && a1[i] == x;
            assert(seq_lt(a[0], a[i + 1]));
            lemma_lt_irreflexive(a[0]);
            assert(a.to_set().contains(x));
            let j = choose|j: int| 0 <= j < b.len() && b[j] == x;
            assert(j != 0);
            assert(b1[j - 1] == x);
        }
        assert forall|x: Seq<char>| b1.to_set().contains(x) implies a1.to_set().contains(x) by {
            let i = choose|i: int| 0 <= i < b1.len() && b1[i] == x;
            assert(seq_lt(b[0], b[i + 1]));
            lemma_lt_irreflexive(b[0]);
            assert(b.to_set().contains(x));
            let j = choose|j: int| 0 <= j < a.len() && a[j] == x;
            assert(j != 0);
            assert(a1[j - 1] == x);
        }
        assert(a1.to_set() =~= b1.to_set());
        lemma_sorted_unique(a1, b1);
        assert forall|k: int| 0 <= k < a.len() implies a[k] == b[k] by {
            if k > 0 {
                assert(a[k] == a1[k - 1]);
                assert(b[k] == b1[k - 1]);
            }
        }
        assert(a =~= b);
    }
}

/// Strings sorted in `str`'s order (the strings are distinct).
pub fn sort_strings(v: Vec<String>) -> (r: Vec<String>)
    requires
        forall|i: int, j: int| 0 <= i < j < v.len() ==> #[trigger] v@[i]@ != #[trigger] v@[j]@,
    ensures
        strictly_sorted(views(r@)),
        views(r@).to_set() == views(v@).to_set(),
{
    let mut out: Vec<String> = Vec::new();
    let mut i: usize = 0;
    assert(views(out@).to_set() =~= views(v@.take(0)).to_set());
    while i < v.len()
        invariant
            i <= v.len(),
            forall|a: int, b: int| 0 <= a < b < v.len() ==> #[trigger] v@[a]@ != #[trigger] v@[b]@,
            strictly_sorted(views(out@)),
            views(out@).to_set() == views(v@.take(i as int)).to_set(),
        decreases v.len() - i,
    {
        let x = v[i].clone();
        let ghost xv = x@;
        assert(!views(out@).to_set().contains(xv)) by {
            if views(out@).to_set().contains(xv) {
                let k = choose|k: int| 0 <= k < views(v@.take(i as int)).len() && views(v@.take(i as int))[k] == xv;
                assert(v@[k]@ == v@[i as int]@);
            }
        }
        let mut j: usize = 0;
        while j < out.len() && str_lt(out[j].as_str(), x.as_str())
            invariant
                j <= out.len(),
                x@ == xv,
                forall|k: int| 0 <= k < j ==> seq_lt(#[trigger] views(out@)[k], xv),
            decreases out.len() - j,
        {
            j = j + 1;
        }
        let ghost old_out = views(out@);
        proof {
            if j < out.len() {
                assert(old_out[j as int] != xv) by {
                    assert(old_out.to_set().contains(old_out[j as int]));
                }
                lemma_lt_total(old_out[j as int], xv);
            }
        }
        out.insert(j, x);
        let ghost new_out = views(out@);
        assert(new_out =~= old_out.insert(j as int, xv));
        assert forall|a: int, b: int| 0 <= a < b < new_out.len() implies seq_lt(#[trigger] new_out[a], #[trigger] new_out[b]) by {
            if b < j {
                assert(seq_lt(old_out[a], old_out[b]));
            } else if b == j {
            } else if a < j {
                assert(seq_lt(old_out[a], xv));
                assert(seq_lt(xv, old_out[j as int]));
                if b - 1 > j {
                    assert(seq_lt(old_out[j as int], old_out[b - 1]));
                    lemma_lt_transitive(xv, old_out[j as int], old_out[b - 1]);
                }
                lemma_lt_transitive(old_out[a], xv, old_out[b - 1]);
            } else if a == j {
                if b - 1 > j {
                    assert(seq_lt(old_out[j as int], old_out[b - 1]));
                    lemma_lt_transitive(xv, old_out[j as int], old_out[b - 1]);
                }
            } else {
                assert(seq_lt(old_out[a - 1], old_out[b - 1]));
            }
        }
        assert(views(v@.take(i + 1)) =~= views(v@.take(i as int)).push(xv));
        assert(new_out.to_set() =~= old_out.to_set().insert(xv)) by {
            assert forall|y: Seq<char>| new_out.to_set().contains(y) implies old_out.to_set().insert(xv).contains(y) by {
                let k = choose|k: int| 0 <= k < new_out.len() && new_out[k] == y;
                if k < j {
                    assert(old_out[k] == y);
                } else if k > j {
                    assert(old_out[k - 1] == y);
                }
            }
            assert forall|y: Seq<char>| old_out.to_set().insert(xv).contains(y) implies new_out.to_set().contains(y) by {
                if y == xv {
                    assert(new_out[j as int] == y);
                } else {
                    let k = choose|k: int| 0 <= k < old_out.len() && old_out[k] == y;
                    if k < j {
                        assert(new_out[k] == y);
                    } else {
                        assert(new_out[k + 1] == y);
                    }
                }
            }
        }
        proof {
            views(v@.take(i as int)).lemma_push_to_set_commute(xv);
        }
        i = i + 1;
    }
    assert(v@.take(v.len() as int) =~= v@);
    out
}

/// The keys of a map in `str`'s order.
pub fn sorted_map_keys<V>(m: &StrMap<V>) -> (r: Vec<String>)
    ensures
        views(r@) == sorted_keys(m@.dom()),
        strictly_sorted(views(r@)),
        views(r@).to_set() == m@.dom(),
{
    let ks = m.keys();
    let r = sort_strings(ks);
    proof {
        assert(views(ks@).to_set() =~= m@.dom()) by {
            assert forall|k: Seq<char>| m@.dom().contains(k) implies views(ks@).to_set().contains(k) by {
                let i = choose|i: int| 0 <= i < ks.len() && ks@[i]@ == k;
                assert(views(ks@)[i] == k);
            }
            assert forall|k: Seq<char>| views(ks@).to_set().contains(k) implies m@.dom().contains(k) by {
                let i = choose|i: int| 0 <= i < views(ks@).len() && views(ks@)[i] == k;
                assert(m@.contains_key(ks@[i]@));
            }
        }
        let s = sorted_keys(m@.dom());
        assert(strictly_sorted(s) && s.to_set() == m@.dom());
        lemma_sorted_unique(views(r@), s);
    }
    r
}

} // verus!
