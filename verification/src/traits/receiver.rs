use vstd::prelude::*;

use crate::consumers::WaitResult;
use crate::Error;

verus! {

/// A single-use completion target with three mutually exclusive channels:
/// value, error, stopped. Each completion call consumes the receiver, so at
/// most one of them can ever run; which outcomes a given receiver is prepared
/// to accept is stated by `allows`.
pub trait Receiver<I>: Sized {
    /// Which completion outcomes this receiver accepts. A caller may invoke a
    /// completion channel only with an outcome the receiver allows.
    spec fn allows(self, completion: WaitResult<I>) -> bool;

    /// Deliver a value. Consumes the receiver: no second completion can follow.
    fn set_value(self, value: I)
        requires
            self.allows(WaitResult::Value(value)),
    ;

    /// Deliver an error. Consumes the receiver: no second completion can follow.
    fn set_error(self, error: Error)
        requires
            self.allows(WaitResult::Error(error)),
    ;

    /// Report that the operation stopped without a value or an error.
    /// Consumes the receiver: no second completion can follow.
    fn set_stopped(self)
        requires
            self.allows(WaitResult::<I>::Stopped),
    ;
}

} // verus!
