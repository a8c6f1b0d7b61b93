use vstd::prelude::*;

use crate::consumers::WaitResult;
use crate::traits::OperationState;
use crate::traits::Receiver;

verus! {

/// A description of a deferred computation that delivers one completion of
/// type `WaitResult<I>` to a receiver of type `R`. Connecting consumes the
/// sender and produces an operation state; nothing runs until `start`.
pub trait Sender<I, R>: Sized where R: Receiver<I> {
    /// The operation state a connect call of this sender produces.
    type Op: OperationState;

    /// The one completion a started operation of this sender delivers.
    spec fn completion(self) -> WaitResult<I>;

    /// Package the sender and the receiver into a startable operation state.
    /// A pure transformation: it never starts the computation and never
    /// fails. The receiver must accept the completion this sender delivers.
    fn connect(self, receiver: R) -> (op: Self::Op)
        requires
            receiver.allows(self.completion()),
        ensures
            op.ready(),
    ;
}

} // verus!
