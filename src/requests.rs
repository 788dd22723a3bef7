//! Collecting identifiers requested in an attribute: every identifier must
//! resolve, and a repeated one counts once, at its first position.
use vstd::prelude::*;

verus! {

/// The outcome of resolving a list of requests in order: `Err(k)` where the
/// entry at `k` is the first that did not resolve, otherwise the resolved
/// values without repetition, in order of first occurrence.
pub open spec fn collect_requests<T>(rs: Seq<Option<T>>) -> Result<Seq<T>, int>
    decreases rs.len(),
{
    if rs.len() == 0 {
        Ok(Seq::empty())
    } else {
        match collect_requests(rs.drop_last()) {
            Err(k) => Err(k),
            Ok(v) => match rs.last() {
                None => Err(rs.len() - 1),
                Some(x) => Ok(
                    if v.contains(x) {
                        v
                    } else {
                        v.push(x)
                    },
                ),
            },
        }
    }
}

/// A collection fails exactly at the first entry that did not resolve.
pub proof fn lemma_collect_fails_at_first_unresolved<T>(rs: Seq<Option<T>>)
    ensures
        collect_requests(rs) is Err <==> exists|i: int| 0 <= i < rs.len() && rs[i] is None,
        collect_requests(rs) matches Err(k) ==> {
            &&& 0 <= k < rs.len()
            &&& rs[k] is None
            &&& forall|i: int| 0 <= i < k ==> rs[i] is Some
        },
    decreases rs.len(),
{
    if rs.len() > 0 {
        let init = rs.drop_last();
        lemma_collect_fails_at_first_unresolved(init);
        assert forall|i: int| 0 <= i < init.len() implies init[i] == rs[i] by {}
        if exists|i: int| 0 <= i < init.len() && init[i] is None {
            let i = choose|i: int| 0 <= i < init.len() && init[i] is None;
            assert(rs[i] is None);
        }
        if collect_requests(init) is Ok {
            assert(forall|i: int| 0 <= i < init.len() ==> !(init[i] is None));
        }
    }
}

/// A successful collection repeats nothing and holds exactly the resolved values.
pub proof fn lemma_collect_contents<T>(rs: Seq<Option<T>>)
    ensures
        collect_requests(rs) matches Ok(v) ==> {
            &&& v.no_duplicates()
            &&& forall|x: T| v.contains(x) <==> exists|i: int| 0 <= i < rs.len() && rs[i] == Some(x)
        },
    decreases rs.len(),
{
    if rs.len() > 0 {
        let init = rs.drop_last();
        lemma_collect_contents(init);
        if let Ok(v) = collect_requests(rs) {
            let w = collect_requests(init)->Ok_0;
            let last = rs.last()->Some_0;
            assert forall|i: int| 0 <= i < init.len() implies init[i] == rs[i] by {}
            assert forall|x: T| v.contains(x) <==> exists|i: int| 0 <= i < rs.len() && rs[i] == Some(x) by {
                if v.contains(x) {
                    if w.contains(x) {
                        let i = choose|i: int| 0 <= i < init.len() && init[i] == Some(x);
                        assert(rs[i] == Some(x));
                    } else {
                        assert(x == last);
                        assert(rs[rs.len() - 1] == Some(x));
                    }
                }
                if exists|i: int| 0 <= i < rs.len() && rs[i] == Some(x) {
                    let i = choose|i: int| 0 <= i < rs.len() && rs[i] == Some(x);
                    if i < rs.len() - 1 {
                        assert(init[i] == Some(x));
                        assert(w.contains(x));
                        if !w.contains(last) {
                            assert(v[w.len() as int] == last);
                            let j = choose|j: int| 0 <= j < w.len() && w[j] == x;
                            assert(v[j] == x);
                        }
                    } else {
                        if !w.contains(last) {
                            assert(v[w.len() as int] == x);
                        }
                    }
                }
            }
            if !w.contains(last) {
                assert forall|a: int, b: int| 0 <= a < v.len() && 0 <= b < v.len() && a != b implies v[a] != v[b] by {
                    if a == w.len() {
                        assert(w[b] == v[b]);
                    } else if b == w.len() {
                        assert(w[a] == v[a]);
                    } else {
                        assert(w[a] == v[a] && w[b] == v[b]);
                    }
                }
            }
        }
    }
}

} // verus!
