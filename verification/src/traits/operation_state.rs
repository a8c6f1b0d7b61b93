use vstd::prelude::*;

verus! {

/// A connected, startable sender/receiver pair. `start` consumes the
/// operation state, so it can run at most once; ownership of the captured
/// resources passes to the running computation until completion fires.
pub trait OperationState: Sized {
    /// Holds when the captured receiver accepts the completion this operation
    /// will deliver, so that starting it cannot violate the receiver's
    /// completion contract.
    spec fn ready(self) -> bool;

    /// Begin the computation. Exactly one completion call on the captured
    /// receiver follows, synchronously or from another thread.
    fn start(self)
        requires
            self.ready(),
    ;
}

} // verus!
