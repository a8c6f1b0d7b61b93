use vstd::prelude::*;

use crate::consumers::WaitResult;
use crate::traits::OperationState;
use crate::traits::Receiver;
use crate::traits::Sender;
use crate::Error;

verus! {

/// A sender holding one pre-held value: the minimal producer. Starting its
/// operation delivers the value synchronously, inline, on the calling thread,
/// with no failure path.
pub struct Just<T>(pub T);

/// A sender that delivers `value` through the value channel as soon as its
/// operation starts.
pub fn just<T>(value: T) -> (sender: Just<T>)
    ensures
        sender == Just(value),
{
    Just(value)
}

/// The operation state a just-sender produces: the value and the receiver it
/// will be delivered to.
pub struct JustOperationState<T, R> {
    value: T,
    receiver: R,
}

impl<T, R: Receiver<T>> JustOperationState<T, R> {
    pub fn new(value: T, receiver: R) -> (op: Self)
        ensures
            op.ready() == receiver.allows(WaitResult::Value(value)),
    {
        JustOperationState { value, receiver }
    }
}

impl<T, R: Receiver<T>> OperationState for JustOperationState<T, R> {
    closed spec fn ready(self) -> bool {
        self.receiver.allows(WaitResult::Value(self.value))
    }

    fn start(self) {
        let JustOperationState { value, receiver } = self;
        receiver.set_value(value);
    }
}

impl<T, R: Receiver<T>> Sender<T, R> for Just<T> {
    type Op = JustOperationState<T, R>;

    open spec fn completion(self) -> WaitResult<T> {
        WaitResult::Value(self.0)
    }

    fn connect(self, receiver: R) -> (op: JustOperationState<T, R>) {
        JustOperationState::new(self.0, receiver)
    }
}

/// A just-sender completes with exactly the value it holds: together with
/// `sync_wait`'s contract, waiting on `just(v)` yields `WaitResult::Value(v)`
/// for every transferable value `v`.
pub proof fn lemma_just_completes_with_its_value<T, R: Receiver<T>>(v: T)
    ensures
        <Just<T> as Sender<T, R>>::completion(Just(v)) == WaitResult::Value(v),
{
}

/// An operation state that immediately delivers one pre-chosen completion to
/// its receiver.
pub struct ImmediateOperationState<I, R> {
    completion: WaitResult<I>,
    receiver: R,
}

impl<I, R: Receiver<I>> ImmediateOperationState<I, R> {
    pub fn new(completion: WaitResult<I>, receiver: R) -> (op: Self)
        ensures
            op.ready() == receiver.allows(completion),
    {
        ImmediateOperationState { completion, receiver }
    }
}

impl<I, R: Receiver<I>> OperationState for ImmediateOperationState<I, R> {
    closed spec fn ready(self) -> bool {
        self.receiver.allows(self.completion)
    }

    fn start(self) {
        let ImmediateOperationState { completion, receiver } = self;
        match completion {
            WaitResult::Value(v) => receiver.set_value(v),
            WaitResult::Error(e) => receiver.set_error(e),
            WaitResult::Stopped => receiver.set_stopped(),
        }
    }
}

/// A sender that completes immediately through the error channel, delivering
/// the error it holds unchanged.
pub struct JustError(pub Error);

/// A sender whose operation calls `set_error(error)` as soon as it starts.
pub fn just_error(error: Error) -> (sender: JustError)
    ensures
        sender == JustError(error),
{
    JustError(error)
}

impl<I, R: Receiver<I>> Sender<I, R> for JustError {
    type Op = ImmediateOperationState<I, R>;

    open spec fn completion(self) -> WaitResult<I> {
        WaitResult::Error(self.0)
    }

    fn connect(self, receiver: R) -> (op: ImmediateOperationState<I, R>) {
        ImmediateOperationState::new(WaitResult::Error(self.0), receiver)
    }
}

/// A sender that completes immediately through the stopped channel: the
/// non-error, cancellation-like terminal outcome.
pub struct JustStopped;

/// A sender whose operation calls `set_stopped()` as soon as it starts.
pub fn just_stopped() -> (sender: JustStopped)
    ensures
        sender == JustStopped,
{
    JustStopped
}

impl<I, R: Receiver<I>> Sender<I, R> for JustStopped {
    type Op = ImmediateOperationState<I, R>;

    open spec fn completion(self) -> WaitResult<I> {
        WaitResult::<I>::Stopped
    }

    fn connect(self, receiver: R) -> (op: ImmediateOperationState<I, R>) {
        ImmediateOperationState::new(WaitResult::<I>::Stopped, receiver)
    }
}

} // verus!
