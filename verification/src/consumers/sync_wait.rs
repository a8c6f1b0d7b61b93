use vstd::prelude::*;

use std::sync::Arc;
use std::sync::Condvar;
use std::sync::Mutex;

use crate::traits::OperationState;
use crate::traits::Receiver;
use crate::traits::Sender;
use crate::Error;

verus! {

/// The outcome of a synchronously joined asynchronous chain: exactly one of a
/// delivered value, a delivered error, or a stop without either.
#[derive(Debug)]
pub enum WaitResult<V> {
    Value(V),
    Error(Error),
    Stopped,
}

impl<V> WaitResult<V> {
    /// Extract the delivered value. Extracting from a non-value result is a
    /// contract violation, so the result is required to hold a value.
    pub fn unwrap(self) -> (v: V)
        requires
            self is Value,
        ensures
            self == WaitResult::Value(v),
    {
        match self {
            WaitResult::Value(v) => v,
            _ => vstd::pervasive::unreached(),
        }
    }

    /// Extract the delivered error. Extracting from a non-error result is a
    /// contract violation, so the result is required to hold an error.
    pub fn unwrap_error(self) -> (e: Error)
        requires
            self is Error,
        ensures
            self == WaitResult::<V>::Error(e),
    {
        match self {
            WaitResult::Error(e) => e,
            _ => vstd::pervasive::unreached(),
        }
    }

    /// Check that the chain stopped. Anything else is a contract violation,
    /// so the result is required to be stopped.
    pub fn unwrap_stopped(self)
        requires
            self is Stopped,
    {
        match self {
            WaitResult::Stopped => {}
            _ => vstd::pervasive::unreached(),
        }
    }

    /// Fold the three outcomes into a `Result`: a value becomes `Ok(Some(v))`,
    /// a stop becomes `Ok(None)`, an error becomes `Err(e)`.
    pub fn into_result(self) -> (r: Result<Option<V>, Error>)
        ensures
            r == match self {
                WaitResult::Value(v) => Result::<Option<V>, Error>::Ok(Some(v)),
                WaitResult::Error(e) => Result::<Option<V>, Error>::Err(e),
                WaitResult::Stopped => Result::<Option<V>, Error>::Ok(None),
            },
    {
        match self {
            WaitResult::Value(v) => Ok(Some(v)),
            WaitResult::Error(e) => Err(e),
            WaitResult::Stopped => Ok(None),
        }
    }

    pub fn is_value(&self) -> (r: bool)
        ensures
            r == (self is Value),
    {
        matches!(self, WaitResult::Value(_))
    }

    pub fn is_stopped(&self) -> (r: bool)
        ensures
            r == (self is Stopped),
    {
        matches!(self, WaitResult::Stopped)
    }
}

impl<V> From<Result<Option<V>, Error>> for WaitResult<V> {
    /// The inverse of `into_result`: `Ok(Some(v))` becomes a value,
    /// `Ok(None)` becomes stopped, `Err(e)` becomes an error.
    fn from(r: Result<Option<V>, Error>) -> (w: Self) {
        match r {
            Ok(Some(v)) => WaitResult::Value(v),
            Ok(None) => WaitResult::Stopped,
            Err(e) => WaitResult::Error(e),
        }
    }
}

impl<V> vstd::std_specs::convert::FromSpecImpl<Result<Option<V>, Error>> for WaitResult<V> {
    open spec fn obeys_from_spec() -> bool {
        true
    }

    open spec fn from_spec(r: Result<Option<V>, Error>) -> WaitResult<V> {
        match r {
            Ok(Some(v)) => WaitResult::Value(v),
            Ok(None) => WaitResult::Stopped,
            Err(e) => WaitResult::Error(e),
        }
    }
}

#[verifier::external_type_specification]
#[verifier::external_body]
#[verifier::reject_recursive_types(T)]
pub struct ExMutex<T: ?Sized>(Mutex<T>);

#[verifier::external_type_specification]
#[verifier::external_body]
pub struct ExCondvar(Condvar);

/// Relies on std::sync::Mutex::new: a fresh lock around a slot that holds no
/// value yet.
#[verifier::external_body]
fn empty_cell<T>() -> Mutex<Option<T>> {
    Mutex::new(None)
}

/// Relies on std::sync::Condvar::new: a fresh condition signal.
#[verifier::external_body]
fn new_signal() -> Condvar {
    Condvar::new()
}

/// A one-shot slot: a shared, thread-safe container written at most once by
/// `set` and drained at most once by `take`, which blocks until a value is
/// present. A ghost predicate fixed at construction states which values the
/// slot admits; `set` demands it of the stored value, so it holds of every
/// value `take` can return, whichever thread stored it.
#[verifier::reject_recursive_types(T)]
pub struct AsyncValue<T> {
    value: Mutex<Option<T>>,
    cv: Condvar,
    admitted: Ghost<spec_fn(T) -> bool>,
}

impl<T> AsyncValue<T> {
    /// Which values this slot admits. Every `set` call stores such a value,
    /// so every `take` call returns one.
    pub closed spec fn can_hold(self, value: T) -> bool {
        (self.admitted@)(value)
    }

    /// An empty slot that admits every value.
    pub fn new() -> (slot: Self)
        ensures
            forall|v: T| slot.can_hold(v),
    {
        AsyncValue { value: empty_cell(), cv: new_signal(), admitted: Ghost(|v: T| true) }
    }

    /// An empty slot that admits exactly the values of `admitted`.
    pub fn new_admitting(Ghost(admitted): Ghost<spec_fn(T) -> bool>) -> (slot: Self)
        ensures
            forall|v: T| slot.can_hold(v) == admitted(v),
    {
        AsyncValue { value: empty_cell(), cv: new_signal(), admitted: Ghost(admitted) }
    }

    /// Stores the value, then wakes the blocked reader if one exists. Relies
    /// on std::sync::Mutex::lock and Condvar::notify_one; releasing the lock
    /// publishes the whole value to the reader, whichever thread it runs on.
    #[verifier::external_body]
    pub fn set(&self, value: T)
        requires
            self.can_hold(value),
    {
        {
            let mut stored = self.value.lock().unwrap();
            *stored = Some(value);
        }
        self.cv.notify_one();
    }

    /// Blocks until a value is present, then removes and returns it. Relies
    /// on std::sync::Condvar::wait_while: it returns, holding the lock, only
    /// once the slot is no longer empty, so no absent value can come back and
    /// a caller blocked before any `set` sleeps until one runs. The value
    /// itself was stored by `set`, the one writer, which admitted it.
    #[verifier::external_body]
    pub fn take(&self) -> (result: T)
        ensures
            self.can_hold(result),
    {
        let stored = self.value.lock().unwrap();
        let mut stored = self.cv.wait_while(stored, |slot| slot.is_none()).unwrap();
        stored.take().unwrap()
    }
}

/// The completion state shared between the caller blocked in `sync_wait` and
/// the private receiver that the eventual completion call runs: a one-shot
/// slot pinned, by its ghost predicate, to the one completion the connected
/// sender declares.
#[verifier::reject_recursive_types(T)]
pub struct State<T> {
    value: AsyncValue<WaitResult<T>>,
    expected: Ghost<WaitResult<T>>,
}

impl<T> State<T> {
    /// The one completion this state's slot admits.
    pub closed spec fn expected_completion(self) -> WaitResult<T> {
        self.expected@
    }

    /// The slot admits exactly the expected completion: whatever lands in it,
    /// and so whatever `wait_result` returns, is that completion.
    pub closed spec fn wf(self) -> bool {
        forall|c: WaitResult<T>|
            self.value.can_hold(c) <==> c == self.expected@
    }

    /// A shared completion state whose slot admits exactly `expected`.
    pub(crate) fn new(Ghost(expected): Ghost<WaitResult<T>>) -> (state: Arc<State<T>>)
        ensures
            (*state).wf(),
            (*state).expected_completion() == expected,
    {
        Arc::new(
            State {
                value: AsyncValue::new_admitting(Ghost(|c: WaitResult<T>| c == expected)),
                expected: Ghost(expected),
            },
        )
    }

    /// Blocks until the completion call lands, then returns what it stored:
    /// necessarily the one completion the slot admits.
    pub(crate) fn wait_result(&self) -> (result: WaitResult<T>)
        requires
            self.wf(),
        ensures
            result == self.expected_completion(),
    {
        self.value.take()
    }

    fn set_result(&self, result: WaitResult<T>)
        requires
            self.wf(),
            result == self.expected_completion(),
    {
        self.value.set(result);
    }
}

/// The private receiver behind `sync_wait`: each completion channel wraps its
/// payload as a `WaitResult` and delivers it into the shared one-shot slot.
#[verifier::reject_recursive_types(T)]
pub struct SyncWaitReceiver<T> {
    state: Arc<State<T>>,
}

impl<T> SyncWaitReceiver<T> {
    fn new(state: Arc<State<T>>) -> (receiver: Self)
        ensures
            receiver.state == state,
    {
        SyncWaitReceiver { state }
    }
}

impl<T> Receiver<T> for SyncWaitReceiver<T> {
    /// This receiver accepts exactly the completion its slot was pinned to.
    closed spec fn allows(self, completion: WaitResult<T>) -> bool {
        (*self.state).wf() && completion == (*self.state).expected_completion()
    }

    fn set_value(self, value: T) {
        self.state.set_result(WaitResult::Value(value));
    }

    fn set_error(self, error: Error) {
        self.state.set_result(WaitResult::Error(error));
    }

    fn set_stopped(self) {
        self.state.set_result(WaitResult::<T>::Stopped);
    }
}

/// At most one outcome per receiver: any two completions a sync-wait receiver
/// allows coincide. Together with each completion channel consuming the
/// receiver, a started operation delivers exactly one completion, exactly
/// once.
pub proof fn lemma_receiver_allows_one_completion<T>(
    receiver: SyncWaitReceiver<T>,
    first: WaitResult<T>,
    second: WaitResult<T>,
)
    requires
        receiver.allows(first),
        receiver.allows(second),
    ensures
        first == second,
{
}

/// Connects the sender to a private receiver backed by a shared one-shot
/// slot, starts the resulting operation, blocks the calling thread until the
/// one completion call lands, and returns that completion, whichever thread
/// performed the call.
pub fn sync_wait<T, S: Sender<T, SyncWaitReceiver<T>>>(sender: S) -> (result: WaitResult<T>)
    ensures
        result == sender.completion(),
{
    let ghost expected = sender.completion();
    let state = State::<T>::new(Ghost(expected));
    let receiver = SyncWaitReceiver::new(Arc::clone(&state));
    let operation = sender.connect(receiver);
    operation.start();
    state.wait_result()
}

} // verus!
