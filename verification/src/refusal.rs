use vstd::prelude::*;

verus! {

/// Why a piece of SQL is not turned into a query.
#[derive(Debug, PartialEq)]
pub enum QueryRefusal {
    /// The SQL is valid but uses a construct outside the supported subset.
    OutsideSubset { construct: String },
    /// The SQL cannot be understood at all.
    Invalid { reason: String },
}

/// The mathematical model of a [`QueryRefusal`].
pub enum SpecRefusal {
    Outside(Seq<char>),
    Invalid(Seq<char>),
}

impl View for QueryRefusal {
    type V = SpecRefusal;

    open spec fn view(&self) -> SpecRefusal {
        match self {
            QueryRefusal::OutsideSubset { construct } => SpecRefusal::Outside(construct@),
            QueryRefusal::Invalid { reason } => SpecRefusal::Invalid(reason@),
        }
    }
}

/// A refusal for a construct outside the supported subset.
pub fn outside(construct: &str) -> (r: QueryRefusal)
    ensures
        r@ == SpecRefusal::Outside(construct@),
{
    QueryRefusal::OutsideSubset { construct: String::from_str(construct) }
}

/// A refusal for SQL that cannot be understood.
pub fn invalid(reason: &str) -> (r: QueryRefusal)
    ensures
        r@ == SpecRefusal::Invalid(reason@),
{
    QueryRefusal::Invalid { reason: String::from_str(reason) }
}

/// The model of a result that may be refused.
pub open spec fn outcome<T: View>(r: Result<T, QueryRefusal>) -> Result<T::V, SpecRefusal> {
    match r {
        Ok(t) => Ok(t@),
        Err(e) => Err(e@),
    }
}

pub open spec fn refuse<T>(construct: Seq<char>) -> Result<T, SpecRefusal> {
    Err(SpecRefusal::Outside(construct))
}

/// `f` applied to each item in turn, stopping at the first refusal.
pub open spec fn collect_all<A, B>(items: Seq<A>, f: spec_fn(A) -> Result<B, SpecRefusal>) -> Result<Seq<B>, SpecRefusal>
    decreases items.len(),
{
    if items.len() == 0 {
        Ok(Seq::empty())
    } else {
        match collect_all(items.drop_last(), f) {
            Err(e) => Err(e),
            Ok(done) => match f(items.last()) {
                Err(e) => Err(e),
                Ok(b) => Ok(done.push(b)),
            },
        }
    }
}

/// Collecting one more item extends the collection of the prefix before it.
pub proof fn lemma_collect_step<A, B>(items: Seq<A>, f: spec_fn(A) -> Result<B, SpecRefusal>, i: int)
    requires
        0 <= i < items.len(),
    ensures
        collect_all(items.take(i + 1), f) == (match collect_all(items.take(i), f) {
            Err(e) => Err(e),
            Ok(done) => match f(items[i]) {
                Err(e) => Err(e),
                Ok(b) => Ok(done.push(b)),
            },
        }),
{
    assert(items.take(i + 1).drop_last() =~= items.take(i));
}

/// A refusal while collecting a prefix is the refusal of the whole sequence.
pub proof fn lemma_collect_refused<A, B>(items: Seq<A>, f: spec_fn(A) -> Result<B, SpecRefusal>, k: int)
    requires
        0 <= k <= items.len(),
        collect_all(items.take(k), f) is Err,
    ensures
        collect_all(items, f) == collect_all(items.take(k), f),
    decreases items.len() - k,
{
    if k < items.len() {
        lemma_collect_step(items, f, k);
        lemma_collect_refused(items, f, k + 1);
    } else {
        assert(items.take(k) =~= items);
    }
}

/// What holds of every collected value holds of the whole collection.
pub proof fn lemma_collect_all_holds<A, B>(items: Seq<A>, f: spec_fn(A) -> Result<B, SpecRefusal>, p: spec_fn(B) -> bool)
    requires
        forall|i: int| 0 <= i < items.len() && (#[trigger] f(items[i])) is Ok ==> p(f(items[i])->Ok_0),
    ensures
        collect_all(items, f) is Ok ==> {
            let done = collect_all(items, f)->Ok_0;
            done.len() == items.len() && forall|i: int| 0 <= i < done.len() ==> #[trigger] p(done[i])
        },
    decreases items.len(),
{
    if items.len() > 0 {
        let rest = items.drop_last();
        assert forall|i: int| 0 <= i < rest.len() && (#[trigger] f(rest[i])) is Ok implies p(f(rest[i])->Ok_0) by {
            assert(rest[i] == items[i]);
        }
        lemma_collect_all_holds(rest, f, p);
        if collect_all(items, f) is Ok {
            let done = collect_all(rest, f)->Ok_0;
            assert(f(items[items.len() - 1]) is Ok);
            assert forall|i: int| 0 <= i < done.len() + 1 implies #[trigger] p(done.push(f(items.last())->Ok_0)[i]) by {
                if i < done.len() {
                    assert(p(done[i]));
                }
            }
        }
    }
}

/// What holds of every refusal of `f` holds of a refusal of the collection.
pub proof fn lemma_collect_all_refusal<A, B>(items: Seq<A>, f: spec_fn(A) -> Result<B, SpecRefusal>, q: spec_fn(SpecRefusal) -> bool)
    requires
        forall|i: int| 0 <= i < items.len() && (#[trigger] f(items[i])) is Err ==> q(f(items[i])->Err_0),
    ensures
        collect_all(items, f) is Err ==> q(collect_all(items, f)->Err_0),
    decreases items.len(),
{
    if items.len() > 0 {
        let rest = items.drop_last();
        assert forall|i: int| 0 <= i < rest.len() && (#[trigger] f(rest[i])) is Err implies q(f(rest[i])->Err_0) by {
            assert(rest[i] == items[i]);
        }
        lemma_collect_all_refusal(rest, f, q);
        assert(f(items[items.len() - 1]) is Err ==> q(f(items[items.len() - 1])->Err_0));
    }
}

/// A collection succeeds exactly when every item does, and then holds, in
/// order, the value of each item and nothing else.
pub proof fn lemma_collect_all_pointwise<A, B>(items: Seq<A>, f: spec_fn(A) -> Result<B, SpecRefusal>)
    ensures
        collect_all(items, f) is Ok <==> forall|i: int| 0 <= i < items.len() ==> (#[trigger] f(items[i])) is Ok,
        collect_all(items, f) is Ok ==> {
            let done = collect_all(items, f)->Ok_0;
            &&& done.len() == items.len()
            &&& forall|i: int| 0 <= i < items.len() ==> f(items[i]) == Ok::<B, SpecRefusal>(#[trigger] done[i])
        },
    decreases items.len(),
{
    if items.len() > 0 {
        let rest = items.drop_last();
        let n = items.len() - 1;
        lemma_collect_all_pointwise(rest, f);
        assert forall|i: int| 0 <= i < rest.len() implies rest[i] == items[i] by {}
        if forall|i: int| 0 <= i < items.len() ==> (#[trigger] f(items[i])) is Ok {
            assert forall|i: int| 0 <= i < rest.len() implies (#[trigger] f(rest[i])) is Ok by {
                assert(f(items[i]) is Ok);
            }
            assert(f(items[n]) is Ok);
        }
        if collect_all(items, f) is Ok {
            let done = collect_all(rest, f)->Ok_0;
            let b = f(items[n])->Ok_0;
            assert(collect_all(items, f)->Ok_0 == done.push(b));
            assert forall|i: int| 0 <= i < items.len() implies (#[trigger] f(items[i])) is Ok by {
                if i < n {
                    assert(f(rest[i]) is Ok);
                }
            }
            assert forall|i: int| 0 <= i < items.len() implies f(items[i]) == Ok::<B, SpecRefusal>(#[trigger] done.push(b)[i]) by {
                if i < n {
                    assert(f(rest[i]) == Ok::<B, SpecRefusal>(done[i]));
                }
            }
        }
    }
}

} // verus!
