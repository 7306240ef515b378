use crate::event::LifecycleEvent;
use vstd::prelude::*;

verus! {

/// One call that the scheduler owes to the guest application. The host makes
/// the calls of a step in the order in which the step lists them.
#[derive(Debug, PartialEq, Eq)]
pub enum GuestCall<M, E> {
    /// The start-reset hook.
    ResetOnStart,
    /// The drawable changed from `old_size` to `new_size`.
    OnSizeChange { new_size: (usize, usize), old_size: (usize, usize) },
    /// Draw the frame of the render tick just reported.
    Draw,
    /// Advance by the update tick whose round of lifecycle events has ended.
    Update,
    /// The run is entering or leaving its pause.
    SignalPauseChange,
    /// The resume hook, after a pause has ended.
    Refresh,
    /// A pointer moved.
    Motion(M),
    /// A notification that the scheduler does not act on itself.
    Handle(LifecycleEvent<M, E>),
}

/// How many of `calls` are `Draw`.
pub open spec fn draws<M, E>(calls: Seq<GuestCall<M, E>>) -> nat
    decreases calls.len(),
{
    if calls.len() == 0 {
        0
    } else {
        draws(calls.drop_last()) + if calls.last() is Draw { 1nat } else { 0nat }
    }
}

/// How many of `calls` are `OnSizeChange`.
pub open spec fn resizes<M, E>(calls: Seq<GuestCall<M, E>>) -> nat
    decreases calls.len(),
{
    if calls.len() == 0 {
        0
    } else {
        resizes(calls.drop_last()) + if calls.last() is OnSizeChange { 1nat } else { 0nat }
    }
}

/// The size that `calls` announced last, and `None` where they announced
/// none.
pub open spec fn announced<M, E>(calls: Seq<GuestCall<M, E>>) -> Option<(usize, usize)>
    decreases calls.len(),
{
    if calls.len() == 0 {
        None
    } else {
        match calls.last() {
            GuestCall::OnSizeChange { new_size, .. } => Some(new_size),
            _ => announced(calls.drop_last()),
        }
    }
}

/// The draws of two sequences of calls add up.
pub proof fn lemma_draws_add<M, E>(a: Seq<GuestCall<M, E>>, b: Seq<GuestCall<M, E>>)
    ensures
        draws(a + b) == draws(a) + draws(b),
    decreases b.len(),
{
    if b.len() == 0 {
        assert(a + b =~= a);
    } else {
        assert((a + b).drop_last() =~= a + b.drop_last());
        lemma_draws_add(a, b.drop_last());
    }
}

/// The resizes of two sequences of calls add up.
pub proof fn lemma_resizes_add<M, E>(a: Seq<GuestCall<M, E>>, b: Seq<GuestCall<M, E>>)
    ensures
        resizes(a + b) == resizes(a) + resizes(b),
    decreases b.len(),
{
    if b.len() == 0 {
        assert(a + b =~= a);
    } else {
        assert((a + b).drop_last() =~= a + b.drop_last());
        lemma_resizes_add(a, b.drop_last());
    }
}

/// A sequence of calls without a draw counts no draw, and one without a
/// resize notice counts none.
pub proof fn lemma_counts_none<M, E>(calls: Seq<GuestCall<M, E>>)
    ensures
        draws(calls) == 0 <==> forall|i: int| 0 <= i < calls.len() ==> !(#[trigger] calls[i] is Draw),
        resizes(calls) == 0 <==> forall|i: int|
            0 <= i < calls.len() ==> !(#[trigger] calls[i] is OnSizeChange),
    decreases calls.len(),
{
    if calls.len() > 0 {
        lemma_counts_none(calls.drop_last());
        assert forall|i: int| 0 <= i < calls.len() - 1 implies calls.drop_last()[i] == calls[i] by {}
        if draws(calls) == 0 {
            assert forall|i: int| 0 <= i < calls.len() implies !(#[trigger] calls[i] is Draw) by {
                if i < calls.len() - 1 {
                    assert(calls.drop_last()[i] == calls[i]);
                }
            }
        }
        if resizes(calls) == 0 {
            assert forall|i: int| 0 <= i < calls.len() implies !(#[trigger] calls[i]
                is OnSizeChange) by {
                if i < calls.len() - 1 {
                    assert(calls.drop_last()[i] == calls[i]);
                }
            }
        }
    }
}

/// What a sequence of calls announced last is what its rear part announced
/// last, and what its front part did where the rear part announced nothing.
pub proof fn lemma_announced_add<M, E>(a: Seq<GuestCall<M, E>>, b: Seq<GuestCall<M, E>>)
    ensures
        announced(a + b) == if resizes(b) == 0 {
            announced(a)
        } else {
            announced(b)
        },
    decreases b.len(),
{
    if b.len() == 0 {
        assert(a + b =~= a);
    } else {
        assert((a + b).drop_last() =~= a + b.drop_last());
        lemma_announced_add(a, b.drop_last());
    }
}

} // verus!
