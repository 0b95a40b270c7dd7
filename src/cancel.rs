use vstd::prelude::*;

verus! {

/// Why a session is being torn down.
#[derive(Clone, Copy, Debug, PartialEq, Eq, Structural)]
pub enum Reason {
    Exit,
    Reload,
}

/// The state that results from asking for cancellation with `reason` while
/// the authority held `state`: the first reason recorded wins.
pub open spec fn cancelled_with(state: Option<Reason>, reason: Reason) -> Option<Reason> {
    match state {
        Some(first) => Some(first),
        None => Some(reason),
    }
}

/// Shared shutdown flag of one session, with the reason it was raised for.
#[derive(Clone, Copy, Debug, PartialEq, Eq, Structural)]
pub struct CancellationAuthority {
    reason: Option<Reason>,
}

impl View for CancellationAuthority {
    type V = Option<Reason>;

    closed spec fn view(&self) -> Option<Reason> {
        self.reason
    }
}

impl CancellationAuthority {
    /// A fresh authority that has not been cancelled.
    pub fn new() -> (r: CancellationAuthority)
        ensures
            r@ == None::<Reason>,
    {
        CancellationAuthority { reason: None }
    }

    /// Raises the flag; only the first call records its reason.
    pub fn cancel(&mut self, reason: Reason)
        ensures
            final(self)@ == cancelled_with(old(self)@, reason),
    {
        if self.reason.is_none() {
            self.reason = Some(reason);
        }
    }

    pub fn is_cancelled(&self) -> (r: bool)
        ensures
            r == self@.is_some(),
    {
        self.reason.is_some()
    }

    /// The reason recorded by the first `cancel`, if any.
    pub fn reason(&self) -> (r: Option<Reason>)
        ensures
            r == self@,
    {
        self.reason
    }
}

/// Cancelling twice keeps the first reason, whichever the second one is, and
/// the flag stays raised after the first call.
pub proof fn lemma_cancel_first_wins(state: Option<Reason>, first: Reason, second: Reason)
    ensures
        cancelled_with(None, first) == Some(first),
        cancelled_with(cancelled_with(None, first), second) == Some(first),
        state.is_some() ==> cancelled_with(state, second) == state,
        cancelled_with(state, first).is_some(),
{
}

} // verus!
