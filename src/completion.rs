//! A one-shot completion: the single place where a native callback (the
//! producer) hands its result to the suspended caller (the consumer).
//!
//! A completion starts out pending and is resolved at most once. A later
//! delivery is discarded, and a delivery after the consumer has gone away
//! is a harmless no-op.

use vstd::prelude::*;

verus! {

/// Where a completion stands. `Resolved` carries the delivered value, which
/// is itself absent when the native operation failed or returned nothing.
pub enum CompletionState<T> {
    Pending,
    Resolved(Option<T>),
    Consumed,
    Abandoned,
}

/// The state after a delivery of `value`: only a pending completion takes it.
pub open spec fn delivered<T>(s: CompletionState<T>, value: Option<T>) -> CompletionState<T> {
    match s {
        CompletionState::Pending => CompletionState::Resolved(value),
        _ => s,
    }
}

/// What a poll hands the consumer: the delivered value once it is there.
pub open spec fn poll_result<T>(s: CompletionState<T>) -> Option<Option<T>> {
    match s {
        CompletionState::Resolved(v) => Some(v),
        _ => None,
    }
}

/// The state after a poll: a resolved completion is consumed, any other is
/// left as it was.
pub open spec fn polled<T>(s: CompletionState<T>) -> CompletionState<T> {
    match s {
        CompletionState::Resolved(_) => CompletionState::Consumed,
        _ => s,
    }
}

/// The state after the consumer gives up: a value not yet taken is dropped.
pub open spec fn abandoned<T>(s: CompletionState<T>) -> CompletionState<T> {
    match s {
        CompletionState::Pending => CompletionState::Abandoned,
        CompletionState::Resolved(_) => CompletionState::Abandoned,
        _ => s,
    }
}

pub struct Completion<T> {
    state: CompletionState<T>,
}

impl<T> View for Completion<T> {
    type V = CompletionState<T>;

    closed spec fn view(&self) -> CompletionState<T> {
        self.state
    }
}

impl<T> Completion<T> {
    pub fn new() -> (r: Self)
        ensures
            r@ == CompletionState::<T>::Pending,
    {
        Completion { state: CompletionState::Pending }
    }

    /// Offers the producer's result. Returns whether it was taken, which
    /// happens only on the first delivery into a pending completion.
    pub fn deliver(&mut self, value: Option<T>) -> (honored: bool)
        ensures
            honored == (old(self)@ is Pending),
            final(self)@ == delivered(old(self)@, value),
    {
        match self.state {
            CompletionState::Pending => {
                self.state = CompletionState::Resolved(value);
                true
            },
            _ => false,
        }
    }

    /// Takes the delivered value if there is one (`Some`), or reports that
    /// the consumer must keep waiting (`None`).
    pub fn poll(&mut self) -> (r: Option<Option<T>>)
        ensures
            r == poll_result(old(self)@),
            final(self)@ == polled(old(self)@),
    {
        let mut state = CompletionState::Consumed;
        std::mem::swap(&mut self.state, &mut state);
        match state {
            CompletionState::Resolved(v) => Some(v),
            other => {
                self.state = other;
                None
            },
        }
    }

    /// Records that the consumer stopped waiting.
    pub fn abandon(&mut self)
        ensures
            final(self)@ == abandoned(old(self)@),
    {
        match self.state {
            CompletionState::Pending => {
                self.state = CompletionState::Abandoned;
            },
            CompletionState::Resolved(_) => {
                self.state = CompletionState::Abandoned;
            },
            _ => {},
        }
    }

    pub fn is_pending(&self) -> (r: bool)
        ensures
            r == (self@ is Pending),
    {
        match self.state {
            CompletionState::Pending => true,
            _ => false,
        }
    }
}

/// Only the first delivery counts: a second delivery, of any value, leaves
/// the completion exactly as the first one left it, and the consumer then
/// receives the first value.
pub proof fn lemma_first_delivery_wins<T>(s: CompletionState<T>, first: Option<T>, second: Option<T>)
    ensures
        delivered(delivered(s, first), second) == delivered(s, first),
        s is Pending ==> poll_result(delivered(delivered(s, first), second)) == Some(first),
{
}

/// A completion that nobody delivers into stays pending however often it
/// is polled, and a delivery that finally comes is still taken whole.
pub proof fn lemma_undelivered_stays_pending<T>(n: nat, value: Option<T>)
    ensures
        poll_result(CompletionState::<T>::Pending) is None,
        polls(CompletionState::<T>::Pending, n) == CompletionState::<T>::Pending,
        poll_result(delivered(polls(CompletionState::<T>::Pending, n), value)) == Some(value),
    decreases n,
{
    if n > 0 {
        lemma_undelivered_stays_pending::<T>((n - 1) as nat, value);
    }
}

/// The state after `n` polls in a row.
pub open spec fn polls<T>(s: CompletionState<T>, n: nat) -> CompletionState<T>
    decreases n,
{
    if n == 0 {
        s
    } else {
        polled(polls(s, (n - 1) as nat))
    }
}

/// Once the consumer has given up, a delivery is accepted without effect.
pub proof fn lemma_delivery_after_abandon_is_noop<T>(s: CompletionState<T>, value: Option<T>)
    ensures
        delivered(abandoned(s), value) == abandoned(s),
        poll_result(delivered(abandoned(s), value)) is None,
{
}

} // verus!
