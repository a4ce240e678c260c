//! Merging keyword and semantic search results for reciprocal rank fusion:
//! each document, identified by its session and timestamp, gets its rank in
//! each result list it appears in. Scoring the ranks (`1/(k + rank)` summed)
//! is floating point and left to the caller.

use vstd::prelude::*;

use crate::text::{chars_of, concat, contains_seq, contains_str, str_eq};

verus! {

/// What identifies a document across result lists.
pub struct DocKey {
    pub session_id: Option<String>,
    pub timestamp: String,
}

/// A key by its characters.
pub open spec fn key_view(k: DocKey) -> (Option<Seq<char>>, Seq<char>) {
    (
        match k.session_id {
            Some(s) => Some(s@),
            None => None,
        },
        k.timestamp@,
    )
}

pub open spec fn keys_view(ks: Seq<DocKey>) -> Seq<(Option<Seq<char>>, Seq<char>)> {
    ks.map_values(|k: DocKey| key_view(k))
}

/// The last position of `k` in `ks`.
pub open spec fn last_in<K>(ks: Seq<K>, k: K) -> Option<int>
    decreases ks.len(),
{
    if ks.len() == 0 {
        None
    } else if ks.last() == k {
        Some(ks.len() - 1)
    } else {
        last_in(ks.drop_last(), k)
    }
}

/// The first position of `k` in `ks`.
pub open spec fn first_in<K>(ks: Seq<K>, k: K) -> Option<int>
    decreases ks.len(),
{
    if ks.len() == 0 {
        None
    } else {
        match first_in(ks.drop_last(), k) {
            Some(i) => Some(i),
            None => if ks.last() == k {
                Some(ks.len() - 1)
            } else {
                None
            },
        }
    }
}

/// A document's ranks in the two lists, and which result describes it.
#[derive(Debug, Clone, Copy, PartialEq, Eq, Structural)]
pub struct FusedDoc {
    /// Its (last) rank among the keyword results.
    pub fts_rank: Option<usize>,
    /// Its (last) rank among the semantic results.
    pub vec_rank: Option<usize>,
    /// Whether the result that describes it is a keyword result (else a
    /// semantic one).
    pub from_fts: bool,
    /// The position of that result in its list: the last keyword result for
    /// the document, else its first semantic result.
    pub source: usize,
}

/// The fused entry of a document with key `k`.
pub open spec fn fused_for<K>(fts: Seq<K>, sem: Seq<K>, k: K) -> FusedDoc {
    let f = last_in(fts, k);
    let v = last_in(sem, k);
    FusedDoc {
        fts_rank: match f {
            Some(i) => Some(i as usize),
            None => None,
        },
        vec_rank: match v {
            Some(j) => Some(j as usize),
            None => None,
        },
        from_fts: f is Some,
        source: match f {
            Some(i) => i as usize,
            None => match first_in(sem, k) {
                Some(j) => j as usize,
                None => 0,
            },
        },
    }
}

/// The key of a fused entry: the key of the result that describes it.
pub open spec fn entry_key<K>(fts: Seq<K>, sem: Seq<K>, d: FusedDoc) -> K {
    if d.from_fts {
        fts[d.source as int]
    } else {
        sem[d.source as int]
    }
}

/// Whether `r` holds one entry per document of the two lists, each with its
/// ranks (`fused_for`).
pub open spec fn fusion_of<K>(fts: Seq<K>, sem: Seq<K>, r: Seq<FusedDoc>) -> bool {
    &&& forall|i: int| 0 <= i < r.len() ==> {
        let d = #[trigger] r[i];
        &&& (if d.from_fts { d.source < fts.len() } else { d.source < sem.len() })
        &&& d == fused_for(fts, sem, entry_key(fts, sem, d))
    }
    &&& forall|i: int, j: int| 0 <= i < j < r.len() ==> entry_key(fts, sem, #[trigger] r[i]) != entry_key(fts, sem, #[trigger] r[j])
    &&& forall|k: K| (fts.contains(k) || sem.contains(k)) ==> exists|i: int| 0 <= i < r.len() && #[trigger] entry_key(fts, sem, r[i]) == k
}

fn same_key(a: &DocKey, b: &DocKey) -> (r: bool)
    ensures
        r == (key_view(*a) == key_view(*b)),
{
    let s = match (&a.session_id, &b.session_id) {
        (Some(x), Some(y)) => str_eq(x.as_str(), y.as_str()),
        (None, None) => true,
        _ => false,
    };
    s && str_eq(a.timestamp.as_str(), b.timestamp.as_str())
}

proof fn lemma_last_in_step<K>(ks: Seq<K>, i: int, k: K)
    requires
        0 <= i < ks.len(),
    ensures
        last_in(ks.take(i + 1), k) == if ks[i] == k {
            Some(i)
        } else {
            last_in(ks.take(i), k)
        },
        first_in(ks.take(i + 1), k) == match first_in(ks.take(i), k) {
            Some(x) => Some(x),
            None => if ks[i] == k {
                Some(i)
            } else {
                None
            },
        },
{
    assert(ks.take(i + 1).drop_last() =~= ks.take(i));
}

proof fn lemma_last_in_range<K>(ks: Seq<K>, k: K)
    ensures
        last_in(ks, k) matches Some(i) ==> 0 <= i < ks.len() && ks[i] == k,
        last_in(ks, k) is None ==> !ks.contains(k),
        first_in(ks, k) matches Some(i) ==> 0 <= i < ks.len() && ks[i] == k,
        first_in(ks, k) is None ==> !ks.contains(k),
    decreases ks.len(),
{
    if ks.len() > 0 {
        lemma_last_in_range(ks.drop_last(), k);
        if !ks.drop_last().contains(k) && ks.last() != k {
            assert forall|x: int| 0 <= x < ks.len() implies ks[x] != k by {
                if x < ks.len() - 1 {
                    assert(ks.drop_last()[x] == ks[x]);
                }
            }
        }
        if ks.contains(k) && ks.last() != k {
            let x = choose|x: int| 0 <= x < ks.len() && ks[x] == k;
            assert(ks.drop_last()[x] == k);
        }
    }
}

/// Merges keyword results (keys in rank order) and semantic results (keys
/// in rank order) into one entry per document with its rank in each list.
/// The order of the entries is that of first appearance; callers order them
/// by score.
pub fn fuse_ranks(fts: &Vec<DocKey>, sem: &Vec<DocKey>) -> (r: Vec<FusedDoc>)
    ensures
        fusion_of(keys_view(fts@), keys_view(sem@), r@),
{
    let ghost fv = keys_view(fts@);
    let ghost sv = keys_view(sem@);
    let mut out: Vec<FusedDoc> = Vec::new();
    let mut i: usize = 0;
    assert(fv.take(0) =~= Seq::<(Option<Seq<char>>, Seq<char>)>::empty());
    while i < fts.len()
        invariant
            i <= fts.len(),
            fv == keys_view(fts@),
            sv == keys_view(sem@),
            fusion_of(fv.take(i as int), Seq::<(Option<Seq<char>>, Seq<char>)>::empty(), out@),
            forall|x: int| 0 <= x < out.len() ==> (#[trigger] out@[x]).from_fts && out@[x].source < i,
        decreases fts.len() - i,
    {
        let ghost e = Seq::<(Option<Seq<char>>, Seq<char>)>::empty();
        let ghost pre = fv.take(i as int);
        let ghost post = fv.take(i + 1);
        let ghost k = fv[i as int];
        assert(post.drop_last() =~= pre);
        assert(forall|x: int| 0 <= x < pre.len() ==> #[trigger] pre[x] == post[x]);
        let mut found: Option<usize> = None;
        let mut j: usize = 0;
        while j < out.len()
            invariant
                j <= out.len(),
                i < fts.len(),
                fv == keys_view(fts@),
                forall|x: int| 0 <= x < out.len() ==> (#[trigger] out@[x]).from_fts && out@[x].source < i,
                found is None ==> forall|x: int| 0 <= x < j ==> fv[(#[trigger] out@[x]).source as int] != fv[i as int],
                found matches Some(x) ==> x < out.len() && fv[out@[x as int].source as int] == fv[i as int],
            decreases out.len() - j,
        {
            if found.is_none() && same_key(&fts[out[j].source], &fts[i]) {
                found = Some(j);
            }
            j = j + 1;
        }
        proof {
            lemma_last_in_step(fv, i as int, k);
            lemma_last_in_range(post, k);
        }
        let ghost old_out = out@;
        match found {
            Some(x) => {
                out.set(x, FusedDoc { fts_rank: Some(i), vec_rank: None, from_fts: true, source: i });
            },
            None => {
                out.push(FusedDoc { fts_rank: Some(i), vec_rank: None, from_fts: true, source: i });
            },
        }
        assert forall|y: int| 0 <= y < out.len() implies {
            let d = #[trigger] out@[y];
            &&& d.source < post.len()
            &&& d == fused_for(post, e, entry_key(post, e, d))
        } by {
            let d = out@[y];
            let kk = post[d.source as int];
            if d.source as int != i {
                assert(old_out[y] == d);
                assert(pre[d.source as int] == kk);
                lemma_last_in_step(fv, i as int, kk);
                lemma_last_in_range(pre, kk);
                assert(kk != k);
            }
            lemma_last_in_range(e, kk);
        }
        assert forall|a: int, b: int| 0 <= a < b < out.len() implies entry_key(post, e, #[trigger] out@[a]) != entry_key(
            post,
            e,
            #[trigger] out@[b],
        ) by {
            let da = out@[a];
            let db = out@[b];
            if da.source as int != i && db.source as int != i {
                assert(old_out[a] == da && old_out[b] == db);
                assert(entry_key(pre, e, da) != entry_key(pre, e, db));
            }
        }
        assert forall|kk: (Option<Seq<char>>, Seq<char>)| (post.contains(kk) || e.contains(kk)) implies exists|y: int|
            0 <= y < out.len() && #[trigger] entry_key(post, e, out@[y]) == kk by {
            if kk == k {
                match found {
                    Some(x) => {
                        assert(entry_key(post, e, out@[x as int]) == kk);
                    },
                    None => {
                        assert(entry_key(post, e, out@[old_out.len() as int]) == kk);
                    },
                }
            } else {
                let z = choose|z: int| 0 <= z < post.len() && post[z] == kk;
                assert(pre[z] == kk);
                assert(pre.contains(kk));
                let y = choose|y: int| 0 <= y < old_out.len() && #[trigger] entry_key(pre, e, old_out[y]) == kk;
                assert(old_out[y].source as int != i);
                assert(out@[y] == old_out[y]);
                assert(entry_key(post, e, out@[y]) == kk);
            }
        }
        i = i + 1;
    }
    assert(fv.take(fts.len() as int) =~= fv);
    let ghost n_fts = out.len();
    let mut j: usize = 0;
    assert(sv.take(0) =~= Seq::<(Option<Seq<char>>, Seq<char>)>::empty());
    while j < sem.len()
        invariant
            j <= sem.len(),
            fv == keys_view(fts@),
            sv == keys_view(sem@),
            fusion_of(fv, sv.take(j as int), out@),
        decreases sem.len() - j,
    {
        let ghost pre = sv.take(j as int);
        let ghost post = sv.take(j + 1);
        let ghost k = sv[j as int];
        assert(post.drop_last() =~= pre);
        assert(forall|x: int| 0 <= x < pre.len() ==> #[trigger] pre[x] == post[x]);
        let mut found: Option<usize> = None;
        let mut x: usize = 0;
        while x < out.len()
            invariant
                x <= out.len(),
                j < sem.len(),
                fv == keys_view(fts@),
                sv == keys_view(sem@),
                fusion_of(fv, pre, out@),
                pre == sv.take(j as int),
                found is None ==> forall|y: int| 0 <= y < x ==> entry_key(fv, pre, #[trigger] out@[y]) != sv[j as int],
                found matches Some(y) ==> y < out.len() && entry_key(fv, pre, out@[y as int]) == sv[j as int],
            decreases out.len() - x,
        {
            let d = out[x];
            let hit = if d.from_fts {
                same_key(&fts[d.source], &sem[j])
            } else {
                same_key(&sem[d.source], &sem[j])
            };
            if found.is_none() && hit {
                found = Some(x);
            }
            x = x + 1;
        }
        proof {
            lemma_last_in_step(sv, j as int, k);
            lemma_last_in_range(post, k);
            lemma_last_in_range(pre, k);
            lemma_last_in_range(fv, k);
        }
        let ghost old_out = out@;
        match found {
            Some(y) => {
                let d = out[y];
                out.set(y, FusedDoc { vec_rank: Some(j), ..d });
            },
            None => {
                out.push(FusedDoc { fts_rank: None, vec_rank: Some(j), from_fts: false, source: j });
            },
        }
        assert forall|y: int| 0 <= y < out.len() implies {
            let d = #[trigger] out@[y];
            &&& (if d.from_fts { d.source < fv.len() } else { d.source < post.len() })
            &&& d == fused_for(fv, post, entry_key(fv, post, d))
        } by {
            let d = out@[y];
            if y < old_out.len() {
                let od = old_out[y];
                let kk = entry_key(fv, pre, od);
                assert(entry_key(fv, post, d) == kk);
                lemma_last_in_step(sv, j as int, kk);
                lemma_last_in_range(pre, kk);
                lemma_last_in_range(fv, kk);
            } else {
                assert(entry_key(fv, post, d) == k);
            }
        }
        assert forall|a: int, b: int| 0 <= a < b < out.len() implies entry_key(fv, post, #[trigger] out@[a]) != entry_key(
            fv,
            post,
            #[trigger] out@[b],
        ) by {
            if b < old_out.len() {
                assert(entry_key(fv, post, out@[a]) == entry_key(fv, pre, old_out[a]));
                assert(entry_key(fv, post, out@[b]) == entry_key(fv, pre, old_out[b]));
            } else {
                assert(entry_key(fv, post, out@[a]) == entry_key(fv, pre, old_out[a]));
            }
        }
        assert forall|kk: (Option<Seq<char>>, Seq<char>)| (fv.contains(kk) || post.contains(kk)) implies exists|y: int|
            0 <= y < out.len() && #[trigger] entry_key(fv, post, out@[y]) == kk by {
            if kk == k {
                match found {
                    Some(y) => {
                        assert(entry_key(fv, post, out@[y as int]) == kk);
                    },
                    None => {
                        assert(entry_key(fv, post, out@[old_out.len() as int]) == kk);
                    },
                }
            } else {
                if post.contains(kk) {
                    let z = choose|z: int| 0 <= z < post.len() && post[z] == kk;
                    assert(z < pre.len());
                    assert(pre[z] == kk);
                    assert(pre.contains(kk));
                }
                assert(fv.contains(kk) || pre.contains(kk));
                let y = choose|y: int| 0 <= y < old_out.len() && #[trigger] entry_key(fv, pre, old_out[y]) == kk;
                let od = old_out[y];
                assert(if od.from_fts { od.source < fv.len() } else { od.source < pre.len() });
                assert(out@[y].from_fts == od.from_fts && out@[y].source == od.source);
                assert(entry_key(fv, post, out@[y]) == kk);
            }
        }
        j = j + 1;
    }
    assert(sv.take(sem.len() as int) =~= sv);
    out
}

// ─────────────────────────────────────────────────────────────────────────────
// Per-user recovery
// ─────────────────────────────────────────────────────────────────────────────

/// Whether a result's session belongs to a user: session ids are written
/// `user_id/session`, so the id starts with the user's id or holds `/` and
/// the user's id.
pub open spec fn belongs_to(session_id: Option<Seq<char>>, user_id: Seq<char>) -> bool {
    match session_id {
        Some(s) => user_id.is_prefix_of(s) || contains_seq(s, seq!['/'] + user_id),
        None => false,
    }
}

/// Whether the session of a result belongs to the user.
pub fn session_of_user(session_id: Option<&str>, user_id: &str) -> (r: bool)
    ensures
        r == belongs_to(
            match session_id {
                Some(s) => Some(s@),
                None => None,
            },
            user_id@,
        ),
{
    match session_id {
        None => false,
        Some(s) => {
            let sv = chars_of(s);
            let uv = chars_of(user_id);
            let mut prefix = uv.len() <= sv.len();
            let mut i: usize = 0;
            while prefix && i < uv.len()
                invariant
                    sv@ == s@,
                    uv@ == user_id@,
                    i <= uv.len(),
                    prefix ==> uv.len() <= sv.len(),
                    prefix ==> forall|k: int| 0 <= k < i ==> uv@[k] == sv@[k],
                    !prefix ==> !user_id@.is_prefix_of(s@),
                decreases uv.len() - i,
            {
                if uv[i] != sv[i] {
                    prefix = false;
                }
                i = i + 1;
            }
            if prefix {
                assert(user_id@.is_prefix_of(s@));
                true
            } else {
                let pat = concat("/", user_id);
                proof {
                    reveal_strlit("/");
                    assert(pat@ =~= seq!['/'] + user_id@);
                }
                contains_str(s, pat.as_str())
            }
        },
    }
}

/// The results kept when no query embedding is given: the first `limit`
/// keyword results.
pub fn keyword_fallback<T>(results: Vec<T>, limit: usize) -> (r: Vec<T>)
    ensures
        r@ == if limit <= results@.len() {
            results@.take(limit as int)
        } else {
            results@
        },
{
    let mut r = results;
    r.truncate(limit);
    r
}

/// The semantic results kept for fusion in per-user recovery: the first
/// `2 * limit` of them (twice the limit is also what each search fetches;
/// the limit must leave that within `usize`).
pub fn semantic_cap<T>(results: Vec<T>, limit: usize) -> (r: Vec<T>)
    requires
        limit <= usize::MAX / 2,
    ensures
        r@ == if 2 * limit <= results@.len() {
            results@.take(2 * limit)
        } else {
            results@
        },
{
    let mut r = results;
    r.truncate(limit * 2);
    r
}

/// The positions, in order, of the results whose session belongs to the
/// user.
pub open spec fn user_positions(sessions: Seq<Option<Seq<char>>>, user_id: Seq<char>) -> Seq<int>
    decreases sessions.len(),
{
    if sessions.len() == 0 {
        Seq::empty()
    } else {
        let rest = user_positions(sessions.drop_last(), user_id);
        if belongs_to(sessions.last(), user_id) {
            rest.push(sessions.len() - 1)
        } else {
            rest
        }
    }
}

/// The positions of a user's results among semantic results with the given
/// sessions, in order.
pub fn user_result_positions(sessions: &Vec<Option<String>>, user_id: &str) -> (r: Vec<usize>)
    ensures
        r@.map_values(|i: usize| i as int) == user_positions(
            sessions@.map_values(|o: Option<String>| match o {
                Some(s) => Some(s@),
                None => None,
            }),
            user_id@,
        ),
{
    let ghost sv = sessions@.map_values(|o: Option<String>| match o {
        Some(s) => Some(s@),
        None => None,
    });
    let mut out: Vec<usize> = Vec::new();
    let mut i: usize = 0;
    while i < sessions.len()
        invariant
            i <= sessions.len(),
            sv == sessions@.map_values(|o: Option<String>| match o {
                Some(s) => Some(s@),
                None => None,
            }),
            out@.map_values(|k: usize| k as int) == user_positions(sv.take(i as int), user_id@),
        decreases sessions.len() - i,
    {
        let b = match &sessions[i] {
            Some(s) => session_of_user(Some(s.as_str()), user_id),
            None => session_of_user(None, user_id),
        };
        proof {
            assert(sv.take(i + 1).drop_last() =~= sv.take(i as int));
            assert(sv.take(i + 1).last() == sv[i as int]);
        }
        let ghost before = out@;
        if b {
            out.push(i);
            assert(out@.map_values(|k: usize| k as int) =~= before.map_values(|k: usize| k as int).push(i as int));
        }
        i = i + 1;
    }
    assert(sv.take(sessions.len() as int) =~= sv);
    out
}

} // verus!
