//! Laws of the combinator algebra, stated over the filters' semantics.
use vstd::prelude::*;
use crate::filter::{AndThenFn, Filter, MapFn, RecoverOneFn, ThenFn};
use crate::and::And;
use crate::or::Or;
use crate::or_else::OrElse;
use crate::recover::Recover;
use crate::unify::Unify;
use crate::untuple_one::UntupleOne;
use crate::map::MapFilter;
use crate::reject::{Cause, cause_rank, combined, rejection_rank, well_formed};
use crate::route::Request;
use crate::value::{Arm, Value, either_of, is_single, tuple_of, unified, untupled};
use crate::and_then::AndThen;
use crate::then::Then;

verus! {

/// Sequencing concatenates: when both filters succeed, the values are the
/// first's followed by the second's, and the second starts where the first
/// stopped; when the first fails, its failure is the result and the second
/// plays no part; when the second fails, its failure is the result.
pub proof fn and_concatenates<T: Filter, U: Filter>(a: T, b: U, req: Request, idx: nat)
    ensures
        ({
            let r1 = a.extract(req, idx);
            let r2 = b.extract(req, r1.1);
            let r = (And { first: a, second: b }).extract(req, idx);
            &&& (r1.0 is Ok && r2.0 is Ok) ==> r == (Ok::<Seq<Value>, Seq<Cause>>(
                r1.0->Ok_0 + r2.0->Ok_0,
            ), r2.1)
            &&& r1.0 is Err ==> r == r1
            &&& (r1.0 is Ok && r2.0 is Err) ==> r == r2
        }),
{
}

/// Alternation: `Either::A` of the first filter's values when it succeeds,
/// whatever the second filter is; `Either::B` of the second's values when
/// only the second succeeds; the merged failure when both fail.
pub proof fn or_chooses<T: Filter, U: Filter>(a: T, b: U, req: Request, idx: nat)
    ensures
        ({
            let r1 = a.extract(req, idx);
            let r2 = b.extract(req, idx);
            let r = (Or { first: a, second: b }).extract(req, idx);
            &&& r1.0 is Ok ==> r == (Ok::<Seq<Value>, Seq<Cause>>(either_of(Arm::A, r1.0->Ok_0)), r1.1)
            &&& (r1.0 is Err && r2.0 is Ok) ==> r == (Ok::<Seq<Value>, Seq<Cause>>(
                either_of(Arm::B, r2.0->Ok_0),
            ), r2.1)
            &&& (r1.0 is Err && r2.0 is Err) ==> r.0 == Err::<Seq<Value>, Seq<Cause>>(
                combined(r1.0->Err_0, r2.0->Err_0),
            )
        }),
{
}

/// No cause of a failure outranks the failure.
pub proof fn lemma_rank_bounds(e: Seq<Cause>)
    ensures
        forall|i: int| 0 <= i < e.len() ==> cause_rank(#[trigger] e[i]) <= rejection_rank(e),
    decreases e.len(),
{
    if e.len() > 0 {
        lemma_rank_bounds(e.drop_last());
        assert forall|i: int| 0 <= i < e.len() implies cause_rank(#[trigger] e[i]) <= rejection_rank(e) by {
            if i < e.len() - 1 {
                assert(e[i] == e.drop_last()[i]);
            }
        }
    }
}

/// The rank of two failures' causes together is the higher of their ranks.
pub proof fn lemma_rank_concat(a: Seq<Cause>, b: Seq<Cause>)
    ensures
        rejection_rank(a + b) == if rejection_rank(a) >= rejection_rank(b) {
            rejection_rank(a)
        } else {
            rejection_rank(b)
        },
    decreases b.len(),
{
    if b.len() == 0 {
        assert(a + b =~= a);
    } else {
        lemma_rank_concat(a, b.drop_last());
        assert((a + b).drop_last() =~= a + b.drop_last());
        assert((a + b).last() == b.last());
    }
}

/// Merging two failures keeps the most specific: the merged failure has the
/// higher of the two ranks, each of its causes comes from one of the two, and
/// every cause of that rank, above a plain "not found", is kept.
pub proof fn combine_keeps_most_specific(e1: Seq<Cause>, e2: Seq<Cause>)
    ensures
        ({
            let c = combined(e1, e2);
            let top = if rejection_rank(e1) >= rejection_rank(e2) {
                rejection_rank(e1)
            } else {
                rejection_rank(e2)
            };
            &&& rejection_rank(c) == top
            &&& forall|i: int| 0 <= i < c.len() ==> e1.contains(#[trigger] c[i]) || e2.contains(c[i])
            &&& forall|i: int|
                0 <= i < e1.len() && cause_rank(#[trigger] e1[i]) == top && top > 0 ==> c.contains(e1[i])
            &&& forall|i: int|
                0 <= i < e2.len() && cause_rank(#[trigger] e2[i]) == top && top > 0 ==> c.contains(e2[i])
        }),
{
    let c = combined(e1, e2);
    lemma_rank_bounds(e1);
    lemma_rank_bounds(e2);
    lemma_rank_concat(e1, e2);
    assert forall|i: int| 0 <= i < c.len() implies e1.contains(#[trigger] c[i]) || e2.contains(c[i]) by {
        if c == e1 + e2 {
            if i < e1.len() {
                assert(c[i] == e1[i]);
            } else {
                assert(c[i] == e2[i - e1.len()]);
            }
        } else if c == e1 {
            assert(e1[i] == c[i]);
        } else {
            assert(e2[i] == c[i]);
        }
    }
    assert forall|i: int| 0 <= i < e1.len() && cause_rank(#[trigger] e1[i]) == rejection_rank(c)
        && rejection_rank(c) > 0 implies c.contains(e1[i]) by {
        if c == e1 + e2 {
            assert(c[i] == e1[i]);
        } else {
            assert(c[i] == e1[i]);
        }
    }
    assert forall|i: int| 0 <= i < e2.len() && cause_rank(#[trigger] e2[i]) == rejection_rank(c)
        && rejection_rank(c) > 0 implies c.contains(e2[i]) by {
        if c == e1 + e2 {
            assert(c[e1.len() + i] == e2[i]);
        } else {
            assert(c[i] == e2[i]);
        }
    }
}

/// Merging two well-formed failures gives a well-formed failure.
pub proof fn combine_well_formed(e1: Seq<Cause>, e2: Seq<Cause>)
    requires
        well_formed(e1),
        well_formed(e2),
    ensures
        well_formed(combined(e1, e2)),
{
    let c = combined(e1, e2);
    lemma_rank_concat(e1, e2);
    if c == e1 + e2 && !(c == e1) && !(c == e2) {
        assert forall|i: int| 0 <= i < c.len() implies #[trigger] cause_rank(c[i]) == rejection_rank(c) by {
            if i < e1.len() {
                assert(c[i] == e1[i]);
            } else {
                assert(c[i] == e2[i - e1.len()]);
            }
        }
    }
}

/// After a failed first branch, `or` starts the second branch at the index
/// recorded before the first began, however much of the path the first
/// consumed; when both fail, the index is rewound to that record.
pub proof fn or_rewinds<T: Filter, U: Filter>(a: T, b: U, req: Request, idx: nat)
    ensures
        ({
            let r1 = a.extract(req, idx);
            let r2 = b.extract(req, idx);
            let r = (Or { first: a, second: b }).extract(req, idx);
            &&& (r1.0 is Err && r2.0 is Ok) ==> r.1 == r2.1
            &&& (r1.0 is Err && r2.0 is Err) ==> r.1 == idx
        }),
{
}

/// After a failed first branch, `or_else` and `recover` start the callback's
/// computation at the index recorded before the filter began.
pub proof fn recovery_rewinds<T: Filter, F: RecoverOneFn>(a: T, callback: F, req: Request, idx: nat)
    ensures
        ({
            let r1 = a.extract(req, idx);
            let rc = callback.spec_resolves(r1.0->Err_0, req, idx);
            &&& r1.0 is Err ==> (OrElse { filter: a, callback }).extract(req, idx) == rc
            &&& r1.0 is Err ==> (Recover { filter: a, callback }).extract(req, idx).1 == rc.1
        }),
{
}

/// Collapsing an alternative recovers the values of the arm that matched.
pub proof fn unify_either(arm: Arm, x: Seq<Value>)
    ensures
        unified(either_of(arm, x)) == x,
{
    assert(either_of(arm, x).drop_first() =~= x);
}

/// `unify` after `or` yields the first filter's values when it succeeds and
/// the second's when only the second succeeds; after `recover`, the filter's
/// values or the recovered values alike.
pub proof fn unify_collapses<T: Filter, U: Filter, F: RecoverOneFn>(
    a: T,
    b: U,
    callback: F,
    req: Request,
    idx: nat,
)
    ensures
        ({
            let r1 = a.extract(req, idx);
            let r2 = b.extract(req, idx);
            let rc = callback.spec_resolves(r1.0->Err_0, req, idx);
            let ro = (Unify { filter: Or { first: a, second: b } }).extract(req, idx);
            let rr = (Unify { filter: Recover { filter: a, callback } }).extract(req, idx);
            &&& (r1.0 is Ok) ==> ro.0 == r1.0 && rr.0 == r1.0
            &&& (r1.0 is Err && r2.0 is Ok) ==> ro.0 == r2.0
            &&& (r1.0 is Err && rc.0 is Ok) ==> rr.0 == rc.0
        }),
{
    let r1 = a.extract(req, idx);
    let r2 = b.extract(req, idx);
    let rc = callback.spec_resolves(r1.0->Err_0, req, idx);
    if r1.0 is Ok {
        unify_either(Arm::A, r1.0->Ok_0);
    }
    if r1.0 is Err && r2.0 is Ok {
        unify_either(Arm::B, r2.0->Ok_0);
    }
    if r1.0 is Err && rc.0 is Ok {
        unify_either(Arm::B, rc.0->Ok_0);
    }
}

/// Opening a single tuple gives back its members.
pub proof fn untuple_tuple(x: Seq<Value>)
    ensures
        untupled(tuple_of(x)) == x,
{
    assert(tuple_of(x).drop_first() =~= x);
}

/// `map` with a callback that returns one tuple, followed by `untuple_one`,
/// behaves as a filter that yields the tuple's members directly.
pub proof fn map_untuple<T: Filter, F: MapFn>(
    a: T,
    callback: F,
    members: spec_fn(Seq<Value>) -> Seq<Value>,
    req: Request,
    idx: nat,
)
    requires
        forall|x: Seq<Value>| #[trigger] callback.spec_call(x) == tuple_of(members(x)),
    ensures
        ({
            let r1 = a.extract(req, idx);
            (UntupleOne { filter: MapFilter { filter: a, callback } }).extract(req, idx) == match r1.0 {
                Ok(x) => (Ok::<Seq<Value>, Seq<Cause>>(members(x)), r1.1),
                Err(e) => (Err::<Seq<Value>, Seq<Cause>>(e), r1.1),
            }
        }),
{
    let r1 = a.extract(req, idx);
    if r1.0 is Ok {
        untuple_tuple(members(r1.0->Ok_0));
    }
}

/// `map`, `and_then`, `then` and `recover` each yield a single value when
/// they succeed.
pub proof fn transforms_yield_single<T: Filter, M: MapFn, A: AndThenFn, H: ThenFn, R: RecoverOneFn>(
    a: T,
    map: M,
    and_then: A,
    then_cb: H,
    recover: R,
    req: Request,
    idx: nat,
)
    ensures
        ({
            let rm = (MapFilter { filter: a, callback: map }).extract(req, idx);
            let ra = (AndThen { filter: a, callback: and_then }).extract(req, idx);
            let rt = (Then { filter: a, callback: then_cb }).extract(req, idx);
            let rr = (Recover { filter: a, callback: recover }).extract(req, idx);
            &&& rm.0 is Ok ==> is_single(rm.0->Ok_0)
            &&& ra.0 is Ok ==> is_single(ra.0->Ok_0)
            &&& rt.0 is Ok ==> is_single(rt.0->Ok_0)
            &&& rr.0 is Ok ==> is_single(rr.0->Ok_0)
        }),
{
    let r1 = a.extract(req, idx);
    match r1.0 {
        Ok(x) => {
            map.lemma_single(x);
            and_then.lemma_single(x, req, r1.1);
        },
        Err(e) => {
            recover.lemma_single(e, req, idx);
        },
    }
    then_cb.lemma_single(r1.0, req, r1.1);
}

} // verus!
