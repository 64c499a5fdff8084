//! What a receiver hands out over the whole stream of values it pulls, and
//! the laws that hold of it.
use crate::bus::{step, RecvStep};
use tokio::sync::broadcast::error::RecvError;
use vstd::prelude::*;
use vstd::std_specs::convert::{FromSpec, TryFromSpec};

verus! {

/// What one pull ends a receive with: nothing when it is skipped.
pub open spec fn outcome<T>(s: RecvStep<T>) -> Seq<Result<T, RecvError>> {
    match s {
        RecvStep::Deliver(t) => seq![Ok(t)],
        RecvStep::Skip => seq![],
        RecvStep::Fail(e) => seq![Err(e)],
    }
}

/// The results of the successive receives of a `T` receiver whose
/// subscription yields `pulls`, in order: each receive pulls until a value
/// extracts to `T` or a pull fails.
pub open spec fn deliveries<E, T: TryFrom<E>>(pulls: Seq<Result<E, RecvError>>) -> Seq<
    Result<T, RecvError>,
>
    decreases pulls.len(),
{
    if pulls.len() == 0 {
        seq![]
    } else {
        deliveries::<E, T>(pulls.drop_last()) + outcome(step::<E, T>(pulls.last()))
    }
}

/// Receiving never reorders or merges: what a stream delivers is what its
/// first part delivers, then what the rest delivers, wherever it is cut.
pub proof fn lemma_deliveries_concat<E, T: TryFrom<E>>(
    a: Seq<Result<E, RecvError>>,
    b: Seq<Result<E, RecvError>>,
)
    ensures
        deliveries::<E, T>(a + b) == deliveries::<E, T>(a) + deliveries::<E, T>(b),
    decreases b.len(),
{
    if b.len() == 0 {
        assert(a + b == a);
        assert(deliveries::<E, T>(a) + deliveries::<E, T>(b) == deliveries::<E, T>(a));
    } else {
        assert((a + b).drop_last() == a + b.drop_last());
        assert((a + b).last() == b.last());
        lemma_deliveries_concat::<E, T>(a, b.drop_last());
        let x = outcome(step::<E, T>(b.last()));
        assert(deliveries::<E, T>(a + b) == deliveries::<E, T>(a) + deliveries::<E, T>(
            b.drop_last(),
        ) + x);
        assert(deliveries::<E, T>(a) + deliveries::<E, T>(b.drop_last()) + x
            == deliveries::<E, T>(a) + (deliveries::<E, T>(b.drop_last()) + x));
    }
}

/// A value sent by a `T` sender reaches a `T` receiver subscribed before the
/// send: once the receives for what came before it are done, the next one
/// hands out a value equal to it, and the stream goes on after it.
pub proof fn lemma_round_trip<E: From<T>, T: TryFrom<E>>(
    v: T,
    before: Seq<Result<E, RecvError>>,
    after: Seq<Result<E, RecvError>>,
)
    requires
        E::obeys_from_spec(),
        T::obeys_try_from_spec(),
        T::try_from_spec(E::from_spec(v)) == Ok::<T, <T as TryFrom<E>>::Error>(v),
    ensures
        deliveries::<E, T>(before + seq![Ok(E::from_spec(v))] + after) == deliveries::<E, T>(
            before,
        ) + seq![Ok(v)] + deliveries::<E, T>(after),
{
    let sent: Seq<Result<E, RecvError>> = seq![Ok(E::from_spec(v))];
    lemma_deliveries_concat::<E, T>(before + sent, after);
    lemma_deliveries_concat::<E, T>(before, sent);
    assert(sent.drop_last() =~= Seq::<Result<E, RecvError>>::empty());
    assert(deliveries::<E, T>(sent.drop_last()) == Seq::<Result<T, RecvError>>::empty());
    assert(step::<E, T>(sent.last()) == RecvStep::Deliver(v));
    assert(Seq::<Result<T, RecvError>>::empty() + seq![Ok::<T, RecvError>(v)] =~= seq![Ok(v)]);
    assert(deliveries::<E, T>(sent) == seq![Ok::<T, RecvError>(v)]);
}

/// A receiver only hands out values that some pulled wide value extracts to:
/// values of other narrow types are never observed.
pub proof fn lemma_filtering_purity<E, T: TryFrom<E>>(pulls: Seq<Result<E, RecvError>>, i: int)
    requires
        0 <= i < deliveries::<E, T>(pulls).len(),
        deliveries::<E, T>(pulls)[i] is Ok,
    ensures
        exists|j: int|
            0 <= j < pulls.len() && #[trigger] pulls[j] is Ok && T::try_from_spec(pulls[j]->Ok_0)
                == Ok::<T, <T as TryFrom<E>>::Error>(deliveries::<E, T>(pulls)[i]->Ok_0),
    decreases pulls.len(),
{
    let init = pulls.drop_last();
    let n = deliveries::<E, T>(init).len();
    if i < n {
        lemma_filtering_purity::<E, T>(init, i);
        let j = choose|j: int|
            0 <= j < init.len() && #[trigger] init[j] is Ok && T::try_from_spec(init[j]->Ok_0)
                == Ok::<T, <T as TryFrom<E>>::Error>(deliveries::<E, T>(init)[i]->Ok_0);
        assert(pulls[j] == init[j]);
    } else {
        let j = pulls.len() - 1;
        assert(pulls[j] == pulls.last());
    }
}

/// A failed pull, such as a lag report, is never retried past: it ends its
/// receive with that very failure, and later receives go on with the values
/// pulled after it.
pub proof fn lemma_failure_surfaces<E, T: TryFrom<E>>(
    before: Seq<Result<E, RecvError>>,
    e: RecvError,
    after: Seq<Result<E, RecvError>>,
)
    ensures
        deliveries::<E, T>(before + seq![Err(e)] + after) == deliveries::<E, T>(before) + seq![
            Err(e),
        ] + deliveries::<E, T>(after),
{
    let failed: Seq<Result<E, RecvError>> = seq![Err(e)];
    lemma_deliveries_concat::<E, T>(before + failed, after);
    lemma_deliveries_concat::<E, T>(before, failed);
    assert(failed.drop_last() =~= Seq::<Result<E, RecvError>>::empty());
    assert(deliveries::<E, T>(failed.drop_last()) == Seq::<Result<T, RecvError>>::empty());
    assert(step::<E, T>(failed.last()) == RecvStep::<T>::Fail(e));
    assert(Seq::<Result<T, RecvError>>::empty() + seq![Err::<T, RecvError>(e)] =~= seq![Err(e)]);
    assert(deliveries::<E, T>(failed) == seq![Err::<T, RecvError>(e)]);
}

} // verus!
