//! Asynchronous operations: the task capability, its status codes, and the
//! two readings of a status code that a task's control calls return. Also
//! the enumerator of shadow copy objects, and the enumerations that the
//! shadow copy service speaks in.

use crate::safe_com_component::{CorrectInterface, LayeredView, SafeCOMComponent};
use crate::{HRESULT, S_FALSE, S_OK};
use std::marker::PhantomData;
use vstd::prelude::*;
use vstd::std_specs::convert::FromSpec;
use vstd::std_specs::convert::FromSpecImpl;
use vstd::std_specs::convert::TryFromSpecImpl;

verus! {

/// Status code of a task that is still running.
pub const VSS_S_ASYNC_PENDING: HRESULT = 0x0004_2309;

/// Status code of a task that completed.
pub const VSS_S_ASYNC_FINISHED: HRESULT = 0x0004_230A;

/// Status code of a task that was canceled.
pub const VSS_S_ASYNC_CANCELLED: HRESULT = 0x0004_230B;

/// The timeout value that stands for "wait without limit".
pub const INFINITE: u32 = 0xFFFF_FFFF;

/// The task capability: `Cancel`, `Wait` and `QueryStatus`.
#[derive(Debug)]
pub struct IVssAsync;

impl CorrectInterface for IVssAsync {
    fn uuidof() -> (id: u128)
        ensures
            id == 0x507c37b4_cf5b_4e95_b0af_14eb9767467e,
    {
        0x507c37b4_cf5b_4e95_b0af_14eb9767467e
    }
}

/// The state that a task reports.
#[derive(Clone, Copy, Debug, PartialEq, Eq, PartialOrd, Ord, Structural)]
pub enum AsyncStatus {
    /// The task was canceled.
    Canceled,
    /// The task completed.
    Finished,
    /// The task is still running.
    Pending,
}

impl AsyncStatus {
    /// The status code that stands for the state.
    pub open spec fn code(self) -> HRESULT {
        match self {
            AsyncStatus::Canceled => VSS_S_ASYNC_CANCELLED,
            AsyncStatus::Finished => VSS_S_ASYNC_FINISHED,
            AsyncStatus::Pending => VSS_S_ASYNC_PENDING,
        }
    }

    /// The state that a status code stands for, if it is one of the three.
    pub open spec fn of_code(value: HRESULT) -> Option<AsyncStatus> {
        if value == VSS_S_ASYNC_CANCELLED {
            Some(AsyncStatus::Canceled)
        } else if value == VSS_S_ASYNC_FINISHED {
            Some(AsyncStatus::Finished)
        } else if value == VSS_S_ASYNC_PENDING {
            Some(AsyncStatus::Pending)
        } else {
            None
        }
    }

    /// A task leaves `Pending` once and never leaves the state it then
    /// reached.
    pub open spec fn is_terminal(self) -> bool {
        self != AsyncStatus::Pending
    }
}

impl TryFrom<HRESULT> for AsyncStatus {
    type Error = ();

    fn try_from(value: HRESULT) -> (r: Result<Self, ()>) {
        if value == VSS_S_ASYNC_CANCELLED {
            Ok(AsyncStatus::Canceled)
        } else if value == VSS_S_ASYNC_FINISHED {
            Ok(AsyncStatus::Finished)
        } else if value == VSS_S_ASYNC_PENDING {
            Ok(AsyncStatus::Pending)
        } else {
            Err(())
        }
    }
}

impl TryFromSpecImpl<HRESULT> for AsyncStatus {
    open spec fn obeys_try_from_spec() -> bool {
        true
    }

    open spec fn try_from_spec(value: HRESULT) -> Result<Self, ()> {
        match AsyncStatus::of_code(value) {
            Some(status) => Ok(status),
            None => Err(()),
        }
    }
}

impl From<AsyncStatus> for HRESULT {
    fn from(value: AsyncStatus) -> (r: HRESULT) {
        match value {
            AsyncStatus::Canceled => VSS_S_ASYNC_CANCELLED,
            AsyncStatus::Finished => VSS_S_ASYNC_FINISHED,
            AsyncStatus::Pending => VSS_S_ASYNC_PENDING,
        }
    }
}

impl FromSpecImpl<AsyncStatus> for HRESULT {
    open spec fn obeys_from_spec() -> bool {
        true
    }

    open spec fn from_spec(value: AsyncStatus) -> HRESULT {
        value.code()
    }
}

/// A status code and its state determine each other.
pub proof fn lemma_status_code_round_trip(status: AsyncStatus, value: HRESULT)
    ensures
        AsyncStatus::of_code(status.code()) == Some(status),
        AsyncStatus::of_code(value) matches Some(s) ==> s.code() == value,
{
}

/// A status code, read as a failure of a task's `Wait` call.
#[derive(Clone, Copy, Debug, PartialEq, Eq, Structural)]
pub struct WaitError(pub HRESULT);

/// A status code, read as a failure of a task's `QueryStatus` call.
#[derive(Clone, Copy, Debug, PartialEq, Eq, Structural)]
pub struct QueryStatusError(pub HRESULT);

/// A status code, read as a failure of a task's `Cancel` call.
#[derive(Clone, Copy, Debug, PartialEq, Eq, Structural)]
pub struct CancelError(pub HRESULT);

impl From<HRESULT> for WaitError {
    fn from(value: HRESULT) -> (r: WaitError) {
        WaitError(value)
    }
}

impl FromSpecImpl<HRESULT> for WaitError {
    open spec fn obeys_from_spec() -> bool {
        true
    }

    open spec fn from_spec(value: HRESULT) -> WaitError {
        WaitError(value)
    }
}

impl From<HRESULT> for QueryStatusError {
    fn from(value: HRESULT) -> (r: QueryStatusError) {
        QueryStatusError(value)
    }
}

impl FromSpecImpl<HRESULT> for QueryStatusError {
    open spec fn obeys_from_spec() -> bool {
        true
    }

    open spec fn from_spec(value: HRESULT) -> QueryStatusError {
        QueryStatusError(value)
    }
}

impl From<HRESULT> for CancelError {
    fn from(value: HRESULT) -> (r: CancelError) {
        CancelError(value)
    }
}

impl FromSpecImpl<HRESULT> for CancelError {
    open spec fn obeys_from_spec() -> bool {
        true
    }

    open spec fn from_spec(value: HRESULT) -> CancelError {
        CancelError(value)
    }
}

/// A status code that a control call of a task returned in place of
/// success.
///
/// The code alone does not say whether the control call itself failed or
/// whether the operation that started the task reports its own failure
/// through it. So the code is kept as it came, and read on demand: as `A`,
/// a failure of the control call, or as `E`, a failure of the operation.
#[derive(Debug)]
pub struct VssAsyncError<A, E> {
    hresult: HRESULT,
    error_types: PhantomData<(A, E)>,
}

impl<A, E> View for VssAsyncError<A, E> {
    type V = HRESULT;

    /// The status code as it came.
    closed spec fn view(&self) -> HRESULT {
        self.hresult
    }
}

impl<A, E> Clone for VssAsyncError<A, E> {
    fn clone(&self) -> (r: Self)
        ensures
            r == *self,
    {
        VssAsyncError { hresult: self.hresult, error_types: PhantomData }
    }
}

impl<A, E> Copy for VssAsyncError<A, E> {

}

impl<A, E> VssAsyncError<A, E> {
    /// Keeps `value` for later reading.
    pub fn new(value: HRESULT) -> (r: Self)
        ensures
            r@ == value,
    {
        VssAsyncError { hresult: value, error_types: PhantomData }
    }

    /// The status code as it came.
    pub fn hresult(&self) -> (value: HRESULT)
        ensures
            value == self@,
    {
        self.hresult
    }
}

impl<A: From<HRESULT>, E> VssAsyncError<A, E> {
    /// Reads the code as a failure of the control call. The stored code
    /// does not change.
    pub fn async_error(self) -> (r: A)
        ensures
            A::obeys_from_spec() ==> r == A::from_spec(self@),
    {
        A::from(self.hresult)
    }
}

impl<A, E: From<HRESULT>> VssAsyncError<A, E> {
    /// Reads the code as a failure of the operation that started the task.
    /// The stored code does not change.
    pub fn underlying_error(self) -> (r: E)
        ensures
            E::obeys_from_spec() ==> r == E::from_spec(self@),
    {
        E::from(self.hresult)
    }
}

impl<A, E> From<HRESULT> for VssAsyncError<A, E> {
    fn from(value: HRESULT) -> (r: Self) {
        VssAsyncError { hresult: value, error_types: PhantomData }
    }
}

impl<A, E> FromSpecImpl<HRESULT> for VssAsyncError<A, E> {
    open spec fn obeys_from_spec() -> bool {
        true
    }

    closed spec fn from_spec(value: HRESULT) -> Self {
        VssAsyncError { hresult: value, error_types: PhantomData }
    }
}

impl<A, E> From<VssAsyncError<A, E>> for HRESULT {
    fn from(value: VssAsyncError<A, E>) -> (r: HRESULT) {
        value.hresult
    }
}

impl<A, E> FromSpecImpl<VssAsyncError<A, E>> for HRESULT {
    open spec fn obeys_from_spec() -> bool {
        true
    }

    open spec fn from_spec(value: VssAsyncError<A, E>) -> HRESULT {
        value@
    }
}

/// The error that a status code converts to holds that code, and converts
/// back to it.
pub proof fn lemma_error_keeps_code<A, E>(value: HRESULT)
    ensures
        <VssAsyncError<A, E> as FromSpec<HRESULT>>::from_spec(value)@ == value,
        <HRESULT as FromSpec<VssAsyncError<A, E>>>::from_spec(
            <VssAsyncError<A, E> as FromSpec<HRESULT>>::from_spec(value),
        ) == value,
{
}

/// One of the three control calls that a task accepts.
#[derive(Clone, Copy, Debug, PartialEq, Eq, Structural)]
pub enum AsyncCall {
    /// Block until the task leaves `Pending` or the time is up.
    Wait { milliseconds: u32 },
    /// Ask for the state of the task without blocking.
    QueryStatus,
    /// Ask the task to stop.
    Cancel,
}

/// Why a wait did not end with the task in a terminal state.
#[derive(Debug)]
pub enum WaitFailure<E> {
    /// The foreign wait came back with success and the task was still
    /// pending: the time was up. A cancel has been asked for. This is neither
    /// a failure of the control call nor one of the operation.
    TimedOut,
    /// A control call returned this code in place of success.
    Failed(VssAsyncError<WaitError, E>),
}

/// Where a wait stands after an answer of the task.
#[derive(Debug)]
pub enum WaitStep<E> {
    /// The caller performs this call next and reports its answer.
    Call(AsyncCall),
    /// The wait is over.
    Done(Result<(), WaitFailure<E>>),
}

/// A [`WaitStep`] without its type parameter, for use in contracts.
pub enum WaitVerdict {
    /// This call is due next.
    Call(AsyncCall),
    /// The wait is over and the task is in a terminal state.
    Completed,
    /// The wait is over: the time was up.
    TimedOut,
    /// The wait is over: a control call returned this code.
    Failed(HRESULT),
}

impl<E> View for WaitStep<E> {
    type V = WaitVerdict;

    open spec fn view(&self) -> WaitVerdict {
        match *self {
            WaitStep::Call(call) => WaitVerdict::Call(call),
            WaitStep::Done(Ok(())) => WaitVerdict::Completed,
            WaitStep::Done(Err(WaitFailure::TimedOut)) => WaitVerdict::TimedOut,
            WaitStep::Done(Err(WaitFailure::Failed(error))) => WaitVerdict::Failed(error@),
        }
    }
}

/// The call that starts a wait: the given limit, or [`INFINITE`] for none.
pub open spec fn wait_call(milliseconds: Option<u32>) -> AsyncCall {
    AsyncCall::Wait {
        milliseconds: match milliseconds {
            Some(limit) => limit,
            None => INFINITE,
        },
    }
}

/// What follows the answer `hr` of the foreign wait. The foreign wait
/// reports success both when the task left `Pending` and when the time was
/// up, so on success the state of the task is asked for.
pub open spec fn after_wait(hr: HRESULT) -> WaitVerdict {
    if hr == S_OK {
        WaitVerdict::Call(AsyncCall::QueryStatus)
    } else {
        WaitVerdict::Failed(hr)
    }
}

/// What follows the answer of the status query that a successful wait
/// is checked with: `hr` is what the query returned, `status` the state code
/// it wrote. A task that is still pending gets a cancel.
pub open spec fn after_wait_status(hr: HRESULT, status: HRESULT) -> WaitVerdict {
    if hr != S_OK {
        WaitVerdict::Failed(hr)
    } else {
        match AsyncStatus::of_code(status) {
            Some(AsyncStatus::Pending) => WaitVerdict::Call(AsyncCall::Cancel),
            Some(_) => WaitVerdict::Completed,
            None => WaitVerdict::Failed(status),
        }
    }
}

/// What follows the answer `hr` of the cancel that a timed-out wait asks
/// for: the wait is over and has timed out, whatever the cancel answered.
pub open spec fn after_wait_cancel(hr: HRESULT) -> WaitVerdict {
    WaitVerdict::TimedOut
}

/// How a whole wait ends, given the answers of the foreign wait, of the
/// status query (if it came to that), and of the cancel (if it came to
/// that).
pub open spec fn wait_outcome(
    wait_hr: HRESULT,
    query_hr: HRESULT,
    status: HRESULT,
    cancel_hr: HRESULT,
) -> WaitVerdict {
    match after_wait(wait_hr) {
        WaitVerdict::Call(_) => match after_wait_status(query_hr, status) {
            WaitVerdict::Call(_) => after_wait_cancel(cancel_hr),
            verdict => verdict,
        },
        verdict => verdict,
    }
}

/// What a status query means: `hr` is what the query returned, `status` the
/// state code it wrote. The state is owed when the query succeeded and the
/// code is one of the three; otherwise the offending code is the error.
pub open spec fn status_of(hr: HRESULT, status: HRESULT) -> Result<AsyncStatus, HRESULT> {
    if hr != S_OK {
        Err(hr)
    } else {
        match AsyncStatus::of_code(status) {
            Some(state) => Ok(state),
            None => Err(status),
        }
    }
}

/// A handle to a task that the foreign system drives, together with the
/// type `E` as which failures of the operation that started it are read.
///
/// Giving up the handle neither cancels the task nor waits for it.
#[derive(Debug)]
pub struct VssAsync<E> {
    component: SafeCOMComponent<IVssAsync>,
    error: PhantomData<E>,
}

impl<E> View for VssAsync<E> {
    type V = usize;

    /// The address of the task.
    closed spec fn view(&self) -> usize {
        self.component@
    }
}

/// What an operation that starts a task returns: the task, or the
/// operation's own error.
pub type IVssAsyncResult<E> = Result<VssAsync<E>, E>;

impl<E: From<HRESULT>> VssAsync<E> {
    /// Reads the answer of an operation that starts a task: `hr` is what the
    /// operation returned, `task` the pointer it wrote. On [`S_OK`] the task
    /// is adopted, and its pointer must not be null; any other code is the
    /// operation's error, read as `E`.
    pub fn started(hr: HRESULT, task: usize) -> (r: IVssAsyncResult<E>)
        requires
            hr == S_OK ==> task != 0,
        ensures
            r is Ok <==> hr == S_OK,
            r is Ok ==> r->Ok_0@ == task,
            r is Err && E::obeys_from_spec() ==> r->Err_0 == E::from_spec(hr),
    {
        if hr == S_OK {
            Ok(VssAsync::new(SafeCOMComponent::new(task)))
        } else {
            Err(E::from(hr))
        }
    }
}

impl<E> VssAsync<E> {
    /// Wraps the handle to a task that an operation returned.
    pub fn new(com: SafeCOMComponent<IVssAsync>) -> (r: Self)
        ensures
            r@ == com@,
    {
        VssAsync { component: com, error: PhantomData }
    }

    /// The handle to the task.
    pub fn component(&self) -> (com: &SafeCOMComponent<IVssAsync>)
        ensures
            com@ == self@,
    {
        &self.component
    }

    /// Unwraps the handle to the task, to release it.
    pub fn into_component(self) -> (com: SafeCOMComponent<IVssAsync>)
        ensures
            com@ == self@,
    {
        self.component
    }

    /// Reads failures of the operation as raw status codes from now on. The
    /// task is the same.
    pub fn untyped_errors(self) -> (r: VssAsync<HRESULT>)
        ensures
            r@ == self@,
    {
        VssAsync { component: self.component, error: PhantomData }
    }

    /// Reads failures of the operation as `E2` from now on. The task is the
    /// same.
    pub fn errors_as<E2>(self) -> (r: VssAsync<E2>)
        ensures
            r@ == self@,
    {
        VssAsync { component: self.component, error: PhantomData }
    }

    /// Starts a wait for the task: the result is the call to perform, a
    /// foreign wait of at most `milliseconds`, or without limit for `None`.
    /// Its answer goes to [`VssAsync::wait_returned`].
    pub fn wait(&self, milliseconds: Option<u32>) -> (call: AsyncCall)
        ensures
            call == wait_call(milliseconds),
    {
        self.component.as_view().wait(milliseconds)
    }

    /// Continues a wait with the answer `hr` of the foreign wait. On
    /// success a status query is due, whose answer goes to
    /// [`VssAsync::wait_status`]; any other code ends the wait as a failure.
    pub fn wait_returned(&self, hr: HRESULT) -> (step: WaitStep<E>)
        ensures
            step@ == after_wait(hr),
    {
        self.component.as_view().wait_returned(hr)
    }

    /// Continues a wait with the answer of the status query. A task in a
    /// terminal state ends the wait with success. A task that is still
    /// pending has outlasted the wait: a cancel is due, whose answer goes to
    /// [`VssAsync::wait_canceled`]. A failed query, or a state code that is
    /// none of the three, ends the wait as a failure with that code.
    pub fn wait_status(&self, hr: HRESULT, status: HRESULT) -> (step: WaitStep<E>)
        ensures
            step@ == after_wait_status(hr, status),
    {
        self.component.as_view().wait_status(hr, status)
    }

    /// Ends a wait that timed out, after the cancel. The cancel is a best
    /// effort: whatever it answered, the outcome is
    /// [`WaitFailure::TimedOut`].
    pub fn wait_canceled(&self, hr: HRESULT) -> (step: WaitStep<E>)
        ensures
            step@ == after_wait_cancel(hr),
    {
        self.component.as_view().wait_canceled(hr)
    }

    /// Reads the answer of a status query: `hr` is what the query returned,
    /// `status` the state code it wrote.
    pub fn query_status(&self, hr: HRESULT, status: HRESULT) -> (r: Result<
        AsyncStatus,
        VssAsyncError<QueryStatusError, E>,
    >)
        ensures
            r is Ok <==> status_of(hr, status) is Ok,
            r is Ok ==> r->Ok_0 == status_of(hr, status)->Ok_0,
            r is Err ==> r->Err_0@ == status_of(hr, status)->Err_0,
    {
        self.component.as_view().query_status(hr, status)
    }

    /// Reads the answer `hr` of a cancel: success, or the code as the error.
    pub fn cancel(&self, hr: HRESULT) -> (r: Result<(), VssAsyncError<CancelError, E>>)
        ensures
            r is Ok <==> hr == S_OK,
            r is Err ==> r->Err_0@ == hr,
    {
        self.component.as_view().cancel(hr)
    }
}

/// A borrowed view of a task. What [`VssAsync`] decides, it decides here;
/// the view leaves open as which type `E` failures of the operation are
/// read, so each call names it.
pub type IAsync<'a> = LayeredView<'a, IVssAsync>;

impl<'a> LayeredView<'a, IVssAsync> {
    /// Starts a wait, as [`VssAsync::wait`] does.
    pub fn wait(&self, milliseconds: Option<u32>) -> (call: AsyncCall)
        ensures
            call == wait_call(milliseconds),
    {
        match milliseconds {
            Some(limit) => AsyncCall::Wait { milliseconds: limit },
            None => AsyncCall::Wait { milliseconds: INFINITE },
        }
    }

    /// Continues a wait with the answer of the foreign wait, as
    /// [`VssAsync::wait_returned`] does.
    pub fn wait_returned<E>(&self, hr: HRESULT) -> (step: WaitStep<E>)
        ensures
            step@ == after_wait(hr),
    {
        if hr == S_OK {
            WaitStep::Call(AsyncCall::QueryStatus)
        } else {
            WaitStep::Done(Err(WaitFailure::Failed(VssAsyncError::new(hr))))
        }
    }

    /// Continues a wait with the answer of the status query, as
    /// [`VssAsync::wait_status`] does.
    pub fn wait_status<E>(&self, hr: HRESULT, status: HRESULT) -> (step: WaitStep<E>)
        ensures
            step@ == after_wait_status(hr, status),
    {
        if hr != S_OK {
            return WaitStep::Done(Err(WaitFailure::Failed(VssAsyncError::new(hr))));
        }
        match AsyncStatus::try_from(status) {
            Ok(AsyncStatus::Pending) => WaitStep::Call(AsyncCall::Cancel),
            Ok(_) => WaitStep::Done(Ok(())),
            Err(_) => WaitStep::Done(Err(WaitFailure::Failed(VssAsyncError::new(status)))),
        }
    }

    /// Ends a wait that timed out, as [`VssAsync::wait_canceled`] does.
    pub fn wait_canceled<E>(&self, hr: HRESULT) -> (step: WaitStep<E>)
        ensures
            step@ == after_wait_cancel(hr),
    {
        WaitStep::Done(Err(WaitFailure::TimedOut))
    }

    /// Reads the answer of a status query, as [`VssAsync::query_status`]
    /// does.
    pub fn query_status<E>(&self, hr: HRESULT, status: HRESULT) -> (r: Result<
        AsyncStatus,
        VssAsyncError<QueryStatusError, E>,
    >)
        ensures
            r is Ok <==> status_of(hr, status) is Ok,
            r is Ok ==> r->Ok_0 == status_of(hr, status)->Ok_0,
            r is Err ==> r->Err_0@ == status_of(hr, status)->Err_0,
    {
        if hr != S_OK {
            return Err(VssAsyncError::new(hr));
        }
        match AsyncStatus::try_from(status) {
            Ok(state) => Ok(state),
            Err(_) => Err(VssAsyncError::new(status)),
        }
    }

    /// Reads the answer of a cancel, as [`VssAsync::cancel`] does.
    pub fn cancel<E>(&self, hr: HRESULT) -> (r: Result<(), VssAsyncError<CancelError, E>>)
        ensures
            r is Ok <==> hr == S_OK,
            r is Err ==> r->Err_0@ == hr,
    {
        if hr == S_OK {
            Ok(())
        } else {
            Err(VssAsyncError::new(hr))
        }
    }
}

/// What can happen to a task between two looks at it.
pub enum TaskEvent {
    /// The task runs to completion.
    Completes,
    /// The task accepts a request to cancel.
    AcceptsCancel,
    /// Anything that leaves the state alone: a wait, a status query, a
    /// request to cancel that the task does not act on.
    Idles,
}

/// The state of a task after `event`. Only a pending task changes state.
pub open spec fn task_step(status: AsyncStatus, event: TaskEvent) -> AsyncStatus {
    match (status, event) {
        (AsyncStatus::Pending, TaskEvent::Completes) => AsyncStatus::Finished,
        (AsyncStatus::Pending, TaskEvent::AcceptsCancel) => AsyncStatus::Canceled,
        _ => status,
    }
}

/// The state of a task after `events`, in order.
pub open spec fn task_run(status: AsyncStatus, events: Seq<TaskEvent>) -> AsyncStatus
    decreases events.len(),
{
    if events.len() == 0 {
        status
    } else {
        task_step(task_run(status, events.drop_last()), events.last())
    }
}

/// Terminal states are sticky. Once a status query has shown a task as
/// finished or canceled, then whatever happens to the task afterwards, it
/// is in that same state and a later status query shows that same state.
pub proof fn lemma_terminal_states_are_sticky(status: AsyncStatus, events: Seq<TaskEvent>)
    requires
        status.is_terminal(),
    ensures
        task_run(status, events) == status,
        status_of(S_OK, task_run(status, events).code()) == Ok::<AsyncStatus, HRESULT>(status),
    decreases events.len(),
{
    if events.len() > 0 {
        lemma_terminal_states_are_sticky(status, events.drop_last());
    }
}

/// A wait ends as timed out exactly when the foreign wait and the status
/// query both succeeded and the task was still pending. Then, and only
/// then, a cancel was asked for on the way.
pub proof fn lemma_timeout_means_pending(
    wait_hr: HRESULT,
    query_hr: HRESULT,
    status: HRESULT,
    cancel_hr: HRESULT,
)
    ensures
        wait_outcome(wait_hr, query_hr, status, cancel_hr) is TimedOut <==> wait_hr == S_OK
            && query_hr == S_OK && status == VSS_S_ASYNC_PENDING,
        wait_outcome(wait_hr, query_hr, status, cancel_hr) is TimedOut <==> after_wait(wait_hr)
            == WaitVerdict::Call(AsyncCall::QueryStatus) && after_wait_status(query_hr, status)
            == WaitVerdict::Call(AsyncCall::Cancel),
        wait_outcome(wait_hr, query_hr, status, cancel_hr) is Completed <==> wait_hr == S_OK
            && query_hr == S_OK && (status == VSS_S_ASYNC_FINISHED || status
            == VSS_S_ASYNC_CANCELLED),
        !(wait_outcome(wait_hr, query_hr, status, cancel_hr) is Call),
{
}

/// Timeout disambiguation. A task that never completes is waited for with
/// a limit. When the limit is up the foreign wait reports success and the
/// task reports pending: the wait asks for a cancel and ends as timed out,
/// not as success, whatever the cancel answers. Afterwards, as long as the
/// task does not complete, a status query shows it as canceled or as
/// pending, never as finished.
pub proof fn lemma_timeout_disambiguation(
    limit: u32,
    cancel_hr: HRESULT,
    accepted: bool,
    later: Seq<TaskEvent>,
)
    requires
        forall|i: int| 0 <= i < later.len() ==> !(#[trigger] later[i] is Completes),
    ensures
        wait_call(Some(limit)) == (AsyncCall::Wait { milliseconds: limit }),
        after_wait_status(S_OK, AsyncStatus::Pending.code()) == WaitVerdict::Call(
            AsyncCall::Cancel,
        ),
        wait_outcome(S_OK, S_OK, AsyncStatus::Pending.code(), cancel_hr) == WaitVerdict::TimedOut,
        ({
            let canceled = task_step(
                AsyncStatus::Pending,
                if accepted {
                    TaskEvent::AcceptsCancel
                } else {
                    TaskEvent::Idles
                },
            );
            let seen = task_run(canceled, later);
            &&& seen != AsyncStatus::Finished
            &&& status_of(S_OK, seen.code()) == Ok::<AsyncStatus, HRESULT>(seen)
        }),
    decreases later.len(),
{
    if later.len() > 0 {
        let shorter = later.drop_last();
        assert forall|i: int| 0 <= i < shorter.len() implies !(#[trigger] shorter[i] is Completes) by {
            assert(shorter[i] == later[i]);
        }
        lemma_timeout_disambiguation(limit, cancel_hr, accepted, shorter);
    }
}

/// The enumerator capability: `Next`, `Skip`, `Reset` and `Clone` over a
/// list of objects.
#[derive(Debug)]
pub struct IVssEnumObject;

impl CorrectInterface for IVssEnumObject {
    fn uuidof() -> (id: u128)
        ensures
            id == 0xae1c7110_2f60_11d3_8a39_00c04f72d8e3,
    {
        0xae1c7110_2f60_11d3_8a39_00c04f72d8e3
    }
}

/// A borrowed view of an enumerator.
pub type IEnumObject<'a> = LayeredView<'a, IVssEnumObject>;

/// What a call of `Next` brought.
#[derive(Clone, Copy, Debug, PartialEq, Eq, Structural)]
pub struct EnumObjectNextResult {
    /// The number of elements that were written to the buffer.
    pub fetched: usize,
    /// `true` if the end of the list has been reached.
    pub done: bool,
}

/// What the answer of `Next` means: `hr` is what the call returned,
/// `fetched` the count it wrote. [`S_OK`] and [`S_FALSE`] both bring
/// elements, the second with the end of the list reached; every other code
/// is the error.
pub open spec fn next_result(hr: HRESULT, fetched: u32) -> Result<EnumObjectNextResult, HRESULT> {
    if hr == S_OK || hr == S_FALSE {
        Ok(EnumObjectNextResult { fetched: fetched as usize, done: hr == S_FALSE })
    } else {
        Err(hr)
    }
}

/// What the answer `hr` of `Skip` means: `Ok(true)` if the skip went past
/// the end of the list, `Ok(false)` if it did not, and every code other than
/// [`S_OK`] and [`S_FALSE`] is the error.
pub open spec fn skip_result(hr: HRESULT) -> Result<bool, HRESULT> {
    if hr == S_OK || hr == S_FALSE {
        Ok(hr == S_FALSE)
    } else {
        Err(hr)
    }
}

impl<'a> LayeredView<'a, IVssEnumObject> {
    /// The number of elements to ask `Next` for, given a buffer of
    /// `buffer_len` elements: all of them, as far as 32 bits can say.
    pub fn next_wanted(&self, buffer_len: usize) -> (wanted: u32)
        ensures
            wanted == if buffer_len <= u32::MAX {
                buffer_len as int
            } else {
                u32::MAX as int
            },
    {
        if buffer_len > 0xFFFF_FFFF {
            0xFFFF_FFFF
        } else {
            buffer_len as u32
        }
    }

    /// Reads the answer of `Next`.
    pub fn next(&self, hr: HRESULT, fetched: u32) -> (r: Result<EnumObjectNextResult, HRESULT>)
        ensures
            r == next_result(hr, fetched),
    {
        let done = hr == S_FALSE;
        if done || hr == S_OK {
            Ok(EnumObjectNextResult { fetched: fetched as usize, done })
        } else {
            Err(hr)
        }
    }

    /// Reads the answer of `Skip`.
    pub fn skip(&self, hr: HRESULT) -> (r: Result<bool, HRESULT>)
        ensures
            r == skip_result(hr),
    {
        let too_far = hr == S_FALSE;
        if hr == S_OK || too_far {
            Ok(too_far)
        } else {
            Err(hr)
        }
    }
}

/// What an [`EnumObjectIterator`] asks of its caller.
#[derive(Clone, Copy, Debug, PartialEq, Eq, Structural)]
pub enum IteratorStep {
    /// Hand out the element at this index of the buffer.
    Take(usize),
    /// The buffer is used up: call `Next` with the whole buffer and report
    /// to [`EnumObjectIterator::fetched`].
    Fetch,
    /// The enumeration is over.
    End,
}

/// The state of an [`EnumObjectIterator`] as the contracts see it.
pub struct EnumObjectIteratorView {
    /// The number of elements that the buffer holds room for.
    pub buffer_size: nat,
    /// The index of the next element to hand out.
    pub position: nat,
    /// The number of elements that the last `Next` wrote.
    pub length: nat,
}

impl EnumObjectIteratorView {
    /// What is due in this state.
    pub open spec fn due(self) -> IteratorStep {
        if self.position < self.length {
            IteratorStep::Take(self.position as usize)
        } else if self.position > 0 && self.length < self.buffer_size {
            IteratorStep::End
        } else {
            IteratorStep::Fetch
        }
    }

    /// The state after what is due has been asked for: handing out an
    /// element moves on by one, anything else leaves the state alone.
    pub open spec fn advanced(self) -> EnumObjectIteratorView {
        if self.position < self.length {
            EnumObjectIteratorView { position: self.position + 1, ..self }
        } else {
            self
        }
    }

    /// The state after `Next` wrote `fetched` elements: the first of them,
    /// if there is one, is handed out at once.
    pub open spec fn refilled(self, fetched: nat) -> EnumObjectIteratorView {
        EnumObjectIteratorView { position: 1, length: fetched, ..self }
    }

    /// The position never runs more than one past the fetched elements,
    /// which fit the buffer, which is not empty.
    pub open spec fn wf(self) -> bool {
        &&& 0 < self.buffer_size
        &&& self.length <= self.buffer_size
        &&& self.position <= self.length + 1
    }
}

/// Walks an enumerator through a buffer of fixed size: the elements that one
/// call of `Next` wrote are handed out one by one, then the buffer is
/// filled again, until a call brings fewer elements than the buffer holds.
#[derive(Debug)]
pub struct EnumObjectIterator {
    buffer_size: usize,
    position: usize,
    length: usize,
}

impl View for EnumObjectIterator {
    type V = EnumObjectIteratorView;

    closed spec fn view(&self) -> EnumObjectIteratorView {
        EnumObjectIteratorView {
            buffer_size: self.buffer_size as nat,
            position: self.position as nat,
            length: self.length as nat,
        }
    }
}

impl EnumObjectIterator {
    #[verifier::type_invariant]
    spec fn inv(&self) -> bool {
        self@.wf()
    }

    /// An iterator over a buffer of `buffer_size` elements, which must not
    /// be zero. Nothing has been fetched yet.
    pub fn new(buffer_size: usize) -> (r: Self)
        requires
            buffer_size != 0,
        ensures
            r@ == (EnumObjectIteratorView { buffer_size: buffer_size as nat, position: 0, length: 0 }),
            r@.wf(),
    {
        EnumObjectIterator { buffer_size, position: 0, length: 0 }
    }

    /// The number of elements that the buffer holds room for.
    pub fn buffer_size(&self) -> (size: usize)
        ensures
            size == self@.buffer_size,
            size != 0,
    {
        proof {
            use_type_invariant(self);
        }
        self.buffer_size
    }

    /// What is due next: an element of the buffer, a new call of `Next`, or
    /// the end.
    pub fn next(&mut self) -> (step: IteratorStep)
        ensures
            step == old(self)@.due(),
            final(self)@ == old(self)@.advanced(),
            final(self)@.wf(),
    {
        proof {
            use_type_invariant(&*self);
        }
        if self.position < self.length {
            let index = self.position;
            self.position = self.position + 1;
            IteratorStep::Take(index)
        } else if self.position > 0 && self.length < self.buffer_size {
            IteratorStep::End
        } else {
            IteratorStep::Fetch
        }
    }

    /// Records that `Next` wrote `fetched` elements, which cannot be more
    /// than the buffer holds. The result is the index of the element to hand
    /// out at once, or `None` if nothing was written: the enumeration is
    /// over.
    ///
    /// A `Next` that failed is not recorded: the iterator then asks for a
    /// new call.
    pub fn fetched(&mut self, fetched: usize) -> (first: Option<usize>)
        requires
            fetched <= old(self)@.buffer_size,
        ensures
            final(self)@ == old(self)@.refilled(fetched as nat),
            final(self)@.wf(),
            first == if fetched == 0 {
                None::<usize>
            } else {
                Some(0usize)
            },
    {
        proof {
            use_type_invariant(&*self);
        }
        self.position = 1;
        self.length = fetched;
        if fetched == 0 {
            None
        } else {
            Some(0)
        }
    }
}

/// The state that `count` more steps lead to when none of them is a
/// fetch.
pub open spec fn advanced_by(state: EnumObjectIteratorView, count: nat) -> EnumObjectIteratorView
    decreases count,
{
    if count == 0 {
        state
    } else {
        advanced_by(state, (count - 1) as nat).advanced()
    }
}

/// Elements leave the buffer in order, each once. After a call of `Next`
/// that wrote `fetched` elements, of which the first was handed out at once,
/// the step after `count` further ones hands out the element at `count + 1`,
/// as long as there is one. When there is none left, what is due is a new
/// call if the buffer was full, and the end if it was not.
pub proof fn lemma_elements_in_order(state: EnumObjectIteratorView, fetched: nat, count: nat)
    requires
        state.wf(),
        0 < fetched <= state.buffer_size,
        state.buffer_size <= usize::MAX,
        count + 1 <= fetched,
    ensures
        advanced_by(state.refilled(fetched), count).position == count + 1,
        advanced_by(state.refilled(fetched), count).length == fetched,
        advanced_by(state.refilled(fetched), count).buffer_size == state.buffer_size,
        count + 1 < fetched ==> advanced_by(state.refilled(fetched), count).due()
            == IteratorStep::Take((count + 1) as usize),
        count + 1 == fetched ==> advanced_by(state.refilled(fetched), count).due() == if fetched
            < state.buffer_size {
            IteratorStep::End
        } else {
            IteratorStep::Fetch
        },
    decreases count,
{
    if count > 0 {
        lemma_elements_in_order(state, fetched, (count - 1) as nat);
    }
}

/// Specifies how a shadow copy is to be created, queried, or deleted and
/// the degree of writer involvement.
#[derive(Clone, Copy, Debug, PartialEq, Eq, PartialOrd, Ord, Structural)]
pub enum SnapshotContext {
    /// The foreign value `VSS_CTX_BACKUP`.
    Backup,
    /// The foreign value `VSS_CTX_FILE_SHARE_BACKUP`.
    FileShareBackup,
    /// The foreign value `VSS_CTX_NAS_ROLLBACK`.
    NasRollback,
    /// The foreign value `VSS_CTX_APP_ROLLBACK`.
    AppRollback,
    /// The foreign value `VSS_CTX_CLIENT_ACCESSIBLE`.
    ClientAccessible,
    /// The foreign value `VSS_CTX_CLIENT_ACCESSIBLE_WRITERS`.
    ClientAccessibleWriters,
    /// The foreign value `VSS_CTX_ALL`.
    All,
}

impl SnapshotContext {
    /// The foreign value that stands for the variant.
    pub open spec fn raw(self) -> u32 {
        match self {
            SnapshotContext::Backup => 0,
            SnapshotContext::FileShareBackup => 0x10,
            SnapshotContext::NasRollback => 0x19,
            SnapshotContext::AppRollback => 9,
            SnapshotContext::ClientAccessible => 0x1D,
            SnapshotContext::ClientAccessibleWriters => 0xD,
            SnapshotContext::All => 0xFFFFFFFF,
        }
    }

    /// The variant that a foreign value stands for, if it stands for one.
    pub open spec fn of_raw(value: u32) -> Option<SnapshotContext> {
        if value == 0 {
            Some(SnapshotContext::Backup)
        } else if value == 0x10 {
            Some(SnapshotContext::FileShareBackup)
        } else if value == 0x19 {
            Some(SnapshotContext::NasRollback)
        } else if value == 9 {
            Some(SnapshotContext::AppRollback)
        } else if value == 0x1D {
            Some(SnapshotContext::ClientAccessible)
        } else if value == 0xD {
            Some(SnapshotContext::ClientAccessibleWriters)
        } else if value == 0xFFFFFFFF {
            Some(SnapshotContext::All)
        } else {
            None
        }
    }
}

impl TryFrom<u32> for SnapshotContext {
    type Error = ();

    /// Reads a foreign value; one that stands for no variant is refused.
    fn try_from(value: u32) -> (r: Result<SnapshotContext, ()>) {
        if value == 0 {
            Ok(SnapshotContext::Backup)
        } else if value == 0x10 {
            Ok(SnapshotContext::FileShareBackup)
        } else if value == 0x19 {
            Ok(SnapshotContext::NasRollback)
        } else if value == 9 {
            Ok(SnapshotContext::AppRollback)
        } else if value == 0x1D {
            Ok(SnapshotContext::ClientAccessible)
        } else if value == 0xD {
            Ok(SnapshotContext::ClientAccessibleWriters)
        } else if value == 0xFFFFFFFF {
            Ok(SnapshotContext::All)
        } else {
            Err(())
        }
    }
}

impl TryFromSpecImpl<u32> for SnapshotContext {
    open spec fn obeys_try_from_spec() -> bool {
        true
    }

    open spec fn try_from_spec(value: u32) -> Result<SnapshotContext, ()> {
        match SnapshotContext::of_raw(value) {
            Some(variant) => Ok(variant),
            None => Err(()),
        }
    }
}

impl From<SnapshotContext> for u32 {
    fn from(value: SnapshotContext) -> (r: u32) {
        match value {
            SnapshotContext::Backup => 0,
            SnapshotContext::FileShareBackup => 0x10,
            SnapshotContext::NasRollback => 0x19,
            SnapshotContext::AppRollback => 9,
            SnapshotContext::ClientAccessible => 0x1D,
            SnapshotContext::ClientAccessibleWriters => 0xD,
            SnapshotContext::All => 0xFFFFFFFF,
        }
    }
}

impl FromSpecImpl<SnapshotContext> for u32 {
    open spec fn obeys_from_spec() -> bool {
        true
    }

    open spec fn from_spec(value: SnapshotContext) -> u32 {
        value.raw()
    }
}

impl Default for SnapshotContext {
    fn default() -> (r: SnapshotContext)
        ensures
            r == SnapshotContext::Backup,
    {
        SnapshotContext::Backup
    }
}

/// Every variant of [`SnapshotContext`] reads back from its foreign value, and a
/// foreign value that stands for a variant is the value of that variant.
pub proof fn lemma_snapshot_context_round_trip(variant: SnapshotContext, value: u32)
    ensures
        SnapshotContext::of_raw(variant.raw()) == Some(variant),
        SnapshotContext::of_raw(value) matches Some(v) ==> v.raw() == value,
{
}

/// Indicates the type of backup to be performed using VSS writer/requester
/// coordination.
#[derive(Clone, Copy, Debug, PartialEq, Eq, PartialOrd, Ord, Structural)]
pub enum BackupType {
    /// The foreign value `VSS_BT_UNDEFINED`.
    Undefined,
    /// The foreign value `VSS_BT_FULL`.
    Full,
    /// The foreign value `VSS_BT_INCREMENTAL`.
    Incremental,
    /// The foreign value `VSS_BT_DIFFERENTIAL`.
    Differential,
    /// The foreign value `VSS_BT_LOG`.
    Log,
    /// The foreign value `VSS_BT_COPY`.
    Copy,
    /// The foreign value `VSS_BT_OTHER`.
    Other,
}

impl BackupType {
    /// The foreign value that stands for the variant.
    pub open spec fn raw(self) -> u32 {
        match self {
            BackupType::Undefined => 0,
            BackupType::Full => 1,
            BackupType::Incremental => 2,
            BackupType::Differential => 3,
            BackupType::Log => 4,
            BackupType::Copy => 5,
            BackupType::Other => 6,
        }
    }

    /// The variant that a foreign value stands for, if it stands for one.
    pub open spec fn of_raw(value: u32) -> Option<BackupType> {
        if value == 0 {
            Some(BackupType::Undefined)
        } else if value == 1 {
            Some(BackupType::Full)
        } else if value == 2 {
            Some(BackupType::Incremental)
        } else if value == 3 {
            Some(BackupType::Differential)
        } else if value == 4 {
            Some(BackupType::Log)
        } else if value == 5 {
            Some(BackupType::Copy)
        } else if value == 6 {
            Some(BackupType::Other)
        } else {
            None
        }
    }
}

impl From<u32> for BackupType {
    /// Reads a foreign value; one that stands for no variant reads as
    /// [`BackupType::Undefined`].
    fn from(value: u32) -> (r: BackupType) {
        if value == 0 {
            BackupType::Undefined
        } else if value == 1 {
            BackupType::Full
        } else if value == 2 {
            BackupType::Incremental
        } else if value == 3 {
            BackupType::Differential
        } else if value == 4 {
            BackupType::Log
        } else if value == 5 {
            BackupType::Copy
        } else if value == 6 {
            BackupType::Other
        } else {
            BackupType::Undefined
        }
    }
}

impl FromSpecImpl<u32> for BackupType {
    open spec fn obeys_from_spec() -> bool {
        true
    }

    open spec fn from_spec(value: u32) -> BackupType {
        match BackupType::of_raw(value) {
            Some(variant) => variant,
            None => BackupType::Undefined,
        }
    }
}

impl From<BackupType> for u32 {
    fn from(value: BackupType) -> (r: u32) {
        match value {
            BackupType::Undefined => 0,
            BackupType::Full => 1,
            BackupType::Incremental => 2,
            BackupType::Differential => 3,
            BackupType::Log => 4,
            BackupType::Copy => 5,
            BackupType::Other => 6,
        }
    }
}

impl FromSpecImpl<BackupType> for u32 {
    open spec fn obeys_from_spec() -> bool {
        true
    }

    open spec fn from_spec(value: BackupType) -> u32 {
        value.raw()
    }
}

/// Every variant of [`BackupType`] reads back from its foreign value, and a
/// foreign value that stands for a variant is the value of that variant.
pub proof fn lemma_backup_type_round_trip(variant: BackupType, value: u32)
    ensures
        BackupType::of_raw(variant.raw()) == Some(variant),
        BackupType::of_raw(value) matches Some(v) ==> v.raw() == value,
{
}

/// Used by requesters to identify an object as a shadow copy set, shadow copy,
/// or provider.
#[derive(Clone, Copy, Debug, PartialEq, Eq, PartialOrd, Ord, Structural)]
pub enum ObjectType {
    /// The foreign value `VSS_OBJECT_UNKNOWN`.
    Unknown,
    /// The foreign value `VSS_OBJECT_NONE`.
    NoObject,
    /// The foreign value `VSS_OBJECT_SNAPSHOT_SET`.
    SnapshotSet,
    /// The foreign value `VSS_OBJECT_SNAPSHOT`.
    Snapshot,
    /// The foreign value `VSS_OBJECT_PROVIDER`.
    Provider,
    /// The foreign value `VSS_OBJECT_TYPE_COUNT`.
    TypeCount,
}

impl ObjectType {
    /// The foreign value that stands for the variant.
    pub open spec fn raw(self) -> u32 {
        match self {
            ObjectType::Unknown => 0,
            ObjectType::NoObject => 1,
            ObjectType::SnapshotSet => 2,
            ObjectType::Snapshot => 3,
            ObjectType::Provider => 4,
            ObjectType::TypeCount => 5,
        }
    }

    /// The variant that a foreign value stands for, if it stands for one.
    pub open spec fn of_raw(value: u32) -> Option<ObjectType> {
        if value == 0 {
            Some(ObjectType::Unknown)
        } else if value == 1 {
            Some(ObjectType::NoObject)
        } else if value == 2 {
            Some(ObjectType::SnapshotSet)
        } else if value == 3 {
            Some(ObjectType::Snapshot)
        } else if value == 4 {
            Some(ObjectType::Provider)
        } else if value == 5 {
            Some(ObjectType::TypeCount)
        } else {
            None
        }
    }
}

impl From<u32> for ObjectType {
    /// Reads a foreign value; one that stands for no variant reads as
    /// [`ObjectType::Unknown`].
    fn from(value: u32) -> (r: ObjectType) {
        if value == 0 {
            ObjectType::Unknown
        } else if value == 1 {
            ObjectType::NoObject
        } else if value == 2 {
            ObjectType::SnapshotSet
        } else if value == 3 {
            ObjectType::Snapshot
        } else if value == 4 {
            ObjectType::Provider
        } else if value == 5 {
            ObjectType::TypeCount
        } else {
            ObjectType::Unknown
        }
    }
}

impl FromSpecImpl<u32> for ObjectType {
    open spec fn obeys_from_spec() -> bool {
        true
    }

    open spec fn from_spec(value: u32) -> ObjectType {
        match ObjectType::of_raw(value) {
            Some(variant) => variant,
            None => ObjectType::Unknown,
        }
    }
}

impl From<ObjectType> for u32 {
    fn from(value: ObjectType) -> (r: u32) {
        match value {
            ObjectType::Unknown => 0,
            ObjectType::NoObject => 1,
            ObjectType::SnapshotSet => 2,
            ObjectType::Snapshot => 3,
            ObjectType::Provider => 4,
            ObjectType::TypeCount => 5,
        }
    }
}

impl FromSpecImpl<ObjectType> for u32 {
    open spec fn obeys_from_spec() -> bool {
        true
    }

    open spec fn from_spec(value: ObjectType) -> u32 {
        value.raw()
    }
}

/// Every variant of [`ObjectType`] reads back from its foreign value, and a
/// foreign value that stands for a variant is the value of that variant.
pub proof fn lemma_object_type_round_trip(variant: ObjectType, value: u32)
    ensures
        ObjectType::of_raw(variant.raw()) == Some(variant),
        ObjectType::of_raw(value) matches Some(v) ==> v.raw() == value,
{
}

/// Indicates the current state of the writer.
///
/// # Remarks
///
/// A requester determines the state of a writer through
/// `IVssBackupComponents::GetWriterStatus`.
#[derive(Clone, Copy, Debug, PartialEq, Eq, PartialOrd, Ord, Structural)]
pub enum WriterState {
    /// The foreign value `VSS_WS_UNKNOWN`.
    Unknown,
    /// The foreign value `VSS_WS_STABLE`.
    Stable,
    /// The foreign value `VSS_WS_WAITING_FOR_FREEZE`.
    WaitingForFreeze,
    /// The foreign value `VSS_WS_WAITING_FOR_THAW`.
    WaitingForThaw,
    /// The foreign value `VSS_WS_WAITING_FOR_POST_SNAPSHOT`.
    WaitingForPostSnapshot,
    /// The foreign value `VSS_WS_WAITING_FOR_BACKUP_COMPLETE`.
    WaitingForBackupComplete,
    /// The foreign value `VSS_WS_FAILED_AT_IDENTIFY`.
    FailedAtIdentify,
    /// The foreign value `VSS_WS_FAILED_AT_PREPARE_BACKUP`.
    FailedAtPrepareBackup,
    /// The foreign value `VSS_WS_FAILED_AT_PREPARE_SNAPSHOT`.
    FailedAtPrepareSnapshot,
    /// The foreign value `VSS_WS_FAILED_AT_FREEZE`.
    FailedAtFreeze,
    /// The foreign value `VSS_WS_FAILED_AT_THAW`.
    FailedAtThaw,
    /// The foreign value `VSS_WS_FAILED_AT_POST_SNAPSHOT`.
    FailedAtPostSnapshot,
    /// The foreign value `VSS_WS_FAILED_AT_BACKUP_COMPLETE`.
    FailedAtBackupComplete,
    /// The foreign value `VSS_WS_FAILED_AT_PRE_RESTORE`.
    FailedAtPreRestore,
    /// The foreign value `VSS_WS_FAILED_AT_POST_RESTORE`.
    FailedAtPostRestore,
    /// The foreign value `VSS_WS_FAILED_AT_BACKUPSHUTDOWN`.
    FailedAtBackupShutdown,
    /// The foreign value `VSS_WS_COUNT`.
    COUNT,
}

impl WriterState {
    /// The foreign value that stands for the variant.
    pub open spec fn raw(self) -> u32 {
        match self {
            WriterState::Unknown => 0,
            WriterState::Stable => 1,
            WriterState::WaitingForFreeze => 2,
            WriterState::WaitingForThaw => 3,
            WriterState::WaitingForPostSnapshot => 4,
            WriterState::WaitingForBackupComplete => 5,
            WriterState::FailedAtIdentify => 6,
            WriterState::FailedAtPrepareBackup => 7,
            WriterState::FailedAtPrepareSnapshot => 8,
            WriterState::FailedAtFreeze => 9,
            WriterState::FailedAtThaw => 0xA,
            WriterState::FailedAtPostSnapshot => 0xB,
            WriterState::FailedAtBackupComplete => 0xC,
            WriterState::FailedAtPreRestore => 0xD,
            WriterState::FailedAtPostRestore => 0xE,
            WriterState::FailedAtBackupShutdown => 0xF,
            WriterState::COUNT => 0x10,
        }
    }

    /// The variant that a foreign value stands for, if it stands for one.
    pub open spec fn of_raw(value: u32) -> Option<WriterState> {
        if value == 0 {
            Some(WriterState::Unknown)
        } else if value == 1 {
            Some(WriterState::Stable)
        } else if value == 2 {
            Some(WriterState::WaitingForFreeze)
        } else if value == 3 {
            Some(WriterState::WaitingForThaw)
        } else if value == 4 {
            Some(WriterState::WaitingForPostSnapshot)
        } else if value == 5 {
            Some(WriterState::WaitingForBackupComplete)
        } else if value == 6 {
            Some(WriterState::FailedAtIdentify)
        } else if value == 7 {
            Some(WriterState::FailedAtPrepareBackup)
        } else if value == 8 {
            Some(WriterState::FailedAtPrepareSnapshot)
        } else if value == 9 {
            Some(WriterState::FailedAtFreeze)
        } else if value == 0xA {
            Some(WriterState::FailedAtThaw)
        } else if value == 0xB {
            Some(WriterState::FailedAtPostSnapshot)
        } else if value == 0xC {
            Some(WriterState::FailedAtBackupComplete)
        } else if value == 0xD {
            Some(WriterState::FailedAtPreRestore)
        } else if value == 0xE {
            Some(WriterState::FailedAtPostRestore)
        } else if value == 0xF {
            Some(WriterState::FailedAtBackupShutdown)
        } else if value == 0x10 {
            Some(WriterState::COUNT)
        } else {
            None
        }
    }
}

impl From<u32> for WriterState {
    /// Reads a foreign value; one that stands for no variant reads as
    /// [`WriterState::Unknown`].
    fn from(value: u32) -> (r: WriterState) {
        if value == 0 {
            WriterState::Unknown
        } else if value == 1 {
            WriterState::Stable
        } else if value == 2 {
            WriterState::WaitingForFreeze
        } else if value == 3 {
            WriterState::WaitingForThaw
        } else if value == 4 {
            WriterState::WaitingForPostSnapshot
        } else if value == 5 {
            WriterState::WaitingForBackupComplete
        } else if value == 6 {
            WriterState::FailedAtIdentify
        } else if value == 7 {
            WriterState::FailedAtPrepareBackup
        } else if value == 8 {
            WriterState::FailedAtPrepareSnapshot
        } else if value == 9 {
            WriterState::FailedAtFreeze
        } else if value == 0xA {
            WriterState::FailedAtThaw
        } else if value == 0xB {
            WriterState::FailedAtPostSnapshot
        } else if value == 0xC {
            WriterState::FailedAtBackupComplete
        } else if value == 0xD {
            WriterState::FailedAtPreRestore
        } else if value == 0xE {
            WriterState::FailedAtPostRestore
        } else if value == 0xF {
            WriterState::FailedAtBackupShutdown
        } else if value == 0x10 {
            WriterState::COUNT
        } else {
            WriterState::Unknown
        }
    }
}

impl FromSpecImpl<u32> for WriterState {
    open spec fn obeys_from_spec() -> bool {
        true
    }

    open spec fn from_spec(value: u32) -> WriterState {
        match WriterState::of_raw(value) {
            Some(variant) => variant,
            None => WriterState::Unknown,
        }
    }
}

impl From<WriterState> for u32 {
    fn from(value: WriterState) -> (r: u32) {
        match value {
            WriterState::Unknown => 0,
            WriterState::Stable => 1,
            WriterState::WaitingForFreeze => 2,
            WriterState::WaitingForThaw => 3,
            WriterState::WaitingForPostSnapshot => 4,
            WriterState::WaitingForBackupComplete => 5,
            WriterState::FailedAtIdentify => 6,
            WriterState::FailedAtPrepareBackup => 7,
            WriterState::FailedAtPrepareSnapshot => 8,
            WriterState::FailedAtFreeze => 9,
            WriterState::FailedAtThaw => 0xA,
            WriterState::FailedAtPostSnapshot => 0xB,
            WriterState::FailedAtBackupComplete => 0xC,
            WriterState::FailedAtPreRestore => 0xD,
            WriterState::FailedAtPostRestore => 0xE,
            WriterState::FailedAtBackupShutdown => 0xF,
            WriterState::COUNT => 0x10,
        }
    }
}

impl FromSpecImpl<WriterState> for u32 {
    open spec fn obeys_from_spec() -> bool {
        true
    }

    open spec fn from_spec(value: WriterState) -> u32 {
        value.raw()
    }
}

/// Every variant of [`WriterState`] reads back from its foreign value, and a
/// foreign value that stands for a variant is the value of that variant.
pub proof fn lemma_writer_state_round_trip(variant: WriterState, value: u32)
    ensures
        WriterState::of_raw(variant.raw()) == Some(variant),
        WriterState::of_raw(value) matches Some(v) ==> v.raw() == value,
{
}

/// Used by a requester to indicate the type of roll-forward operation it is
/// about to perform.
#[derive(Clone, Copy, Debug, PartialEq, Eq, PartialOrd, Ord, Structural)]
pub enum RollForwardType {
    /// The foreign value `VSS_RF_UNDEFINED`.
    Undefined,
    /// The foreign value `VSS_RF_NONE`.
    NoRollForward,
    /// The foreign value `VSS_RF_ALL`.
    All,
    /// The foreign value `VSS_RF_PARTIAL`.
    Partial,
}

impl RollForwardType {
    /// The foreign value that stands for the variant.
    pub open spec fn raw(self) -> u32 {
        match self {
            RollForwardType::Undefined => 0,
            RollForwardType::NoRollForward => 1,
            RollForwardType::All => 2,
            RollForwardType::Partial => 3,
        }
    }

    /// The variant that a foreign value stands for, if it stands for one.
    pub open spec fn of_raw(value: u32) -> Option<RollForwardType> {
        if value == 0 {
            Some(RollForwardType::Undefined)
        } else if value == 1 {
            Some(RollForwardType::NoRollForward)
        } else if value == 2 {
            Some(RollForwardType::All)
        } else if value == 3 {
            Some(RollForwardType::Partial)
        } else {
            None
        }
    }
}

impl From<u32> for RollForwardType {
    /// Reads a foreign value; one that stands for no variant reads as
    /// [`RollForwardType::Undefined`].
    fn from(value: u32) -> (r: RollForwardType) {
        if value == 0 {
            RollForwardType::Undefined
        } else if value == 1 {
            RollForwardType::NoRollForward
        } else if value == 2 {
            RollForwardType::All
        } else if value == 3 {
            RollForwardType::Partial
        } else {
            RollForwardType::Undefined
        }
    }
}

impl FromSpecImpl<u32> for RollForwardType {
    open spec fn obeys_from_spec() -> bool {
        true
    }

    open spec fn from_spec(value: u32) -> RollForwardType {
        match RollForwardType::of_raw(value) {
            Some(variant) => variant,
            None => RollForwardType::Undefined,
        }
    }
}

impl From<RollForwardType> for u32 {
    fn from(value: RollForwardType) -> (r: u32) {
        match value {
            RollForwardType::Undefined => 0,
            RollForwardType::NoRollForward => 1,
            RollForwardType::All => 2,
            RollForwardType::Partial => 3,
        }
    }
}

impl FromSpecImpl<RollForwardType> for u32 {
    open spec fn obeys_from_spec() -> bool {
        true
    }

    open spec fn from_spec(value: RollForwardType) -> u32 {
        value.raw()
    }
}

/// Every variant of [`RollForwardType`] reads back from its foreign value, and a
/// foreign value that stands for a variant is the value of that variant.
pub proof fn lemma_roll_forward_type_round_trip(variant: RollForwardType, value: u32)
    ensures
        RollForwardType::of_raw(variant.raw()) == Some(variant),
        RollForwardType::of_raw(value) matches Some(v) ==> v.raw() == value,
{
}

/// The values of `VSS_PROVIDER_TYPE`.
#[derive(Clone, Copy, Debug, PartialEq, Eq, PartialOrd, Ord, Structural)]
pub enum ProviderType {
    /// The provider type is unknown.
    ///
    /// This indicates an error in the application or the VSS service, or
    /// that no provider is available.
    ///
    /// The foreign value `VSS_PROV_UNKNOWN`.
    Unknown,
    /// The default provider that ships with Windows.
    ///
    /// The foreign value `VSS_PROV_SYSTEM`.
    System,
    /// A software provider.
    ///
    /// The foreign value `VSS_PROV_SOFTWARE`.
    Software,
    /// A hardware provider.
    ///
    /// The foreign value `VSS_PROV_HARDWARE`.
    Hardware,
    /// A file share provider.
    ///
    /// `Windows 7, Windows Server 2008 R2, Windows Vista, Windows Server 2008,
    /// Windows XP and Windows Server 2003`:  This enumeration value is not
    /// supported until Windows 8 and Windows Server 2012.
    ///
    /// The foreign value `VSS_PROV_FILESHARE`.
    FileShare,
}

impl ProviderType {
    /// The foreign value that stands for the variant.
    pub open spec fn raw(self) -> u32 {
        match self {
            ProviderType::Unknown => 0,
            ProviderType::System => 1,
            ProviderType::Software => 2,
            ProviderType::Hardware => 3,
            ProviderType::FileShare => 4,
        }
    }

    /// The variant that a foreign value stands for, if it stands for one.
    pub open spec fn of_raw(value: u32) -> Option<ProviderType> {
        if value == 0 {
            Some(ProviderType::Unknown)
        } else if value == 1 {
            Some(ProviderType::System)
        } else if value == 2 {
            Some(ProviderType::Software)
        } else if value == 3 {
            Some(ProviderType::Hardware)
        } else if value == 4 {
            Some(ProviderType::FileShare)
        } else {
            None
        }
    }
}

impl From<u32> for ProviderType {
    /// Reads a foreign value; one that stands for no variant reads as
    /// [`ProviderType::Unknown`].
    fn from(value: u32) -> (r: ProviderType) {
        if value == 0 {
            ProviderType::Unknown
        } else if value == 1 {
            ProviderType::System
        } else if value == 2 {
            ProviderType::Software
        } else if value == 3 {
            ProviderType::Hardware
        } else if value == 4 {
            ProviderType::FileShare
        } else {
            ProviderType::Unknown
        }
    }
}

impl FromSpecImpl<u32> for ProviderType {
    open spec fn obeys_from_spec() -> bool {
        true
    }

    open spec fn from_spec(value: u32) -> ProviderType {
        match ProviderType::of_raw(value) {
            Some(variant) => variant,
            None => ProviderType::Unknown,
        }
    }
}

impl From<ProviderType> for u32 {
    fn from(value: ProviderType) -> (r: u32) {
        match value {
            ProviderType::Unknown => 0,
            ProviderType::System => 1,
            ProviderType::Software => 2,
            ProviderType::Hardware => 3,
            ProviderType::FileShare => 4,
        }
    }
}

impl FromSpecImpl<ProviderType> for u32 {
    open spec fn obeys_from_spec() -> bool {
        true
    }

    open spec fn from_spec(value: ProviderType) -> u32 {
        value.raw()
    }
}

/// Every variant of [`ProviderType`] reads back from its foreign value, and a
/// foreign value that stands for a variant is the value of that variant.
pub proof fn lemma_provider_type_round_trip(variant: ProviderType, value: u32)
    ensures
        ProviderType::of_raw(variant.raw()) == Some(variant),
        ProviderType::of_raw(value) matches Some(v) ==> v.raw() == value,
{
}

/// Returned by a provider to specify the state of a given shadow copy
/// operation.
#[derive(Clone, Copy, Debug, PartialEq, Eq, PartialOrd, Ord, Structural)]
pub enum SnapshotState {
    /// The foreign value `VSS_SS_UNKNOWN`.
    Unknown,
    /// The foreign value `VSS_SS_PREPARING`.
    Preparing,
    /// The foreign value `VSS_SS_PROCESSING_PREPARE`.
    ProcessingPrepare,
    /// The foreign value `VSS_SS_PREPARED`.
    Prepared,
    /// The foreign value `VSS_SS_PROCESSING_PRECOMMIT`.
    ProcessingPreCommit,
    /// The foreign value `VSS_SS_PRECOMMITTED`.
    PreCommitted,
    /// The foreign value `VSS_SS_PROCESSING_COMMIT`.
    ProcessingCommit,
    /// The foreign value `VSS_SS_COMMITTED`.
    Committed,
    /// The foreign value `VSS_SS_PROCESSING_POSTCOMMIT`.
    ProcessingPostCommit,
    /// The foreign value `VSS_SS_PROCESSING_PREFINALCOMMIT`.
    ProcessingPreFinalCommit,
    /// The foreign value `VSS_SS_PREFINALCOMMITTED`.
    PreFinalCommitted,
    /// The foreign value `VSS_SS_PROCESSING_POSTFINALCOMMIT`.
    ProcessingPostFinalCommit,
    /// The foreign value `VSS_SS_CREATED`.
    Created,
    /// The foreign value `VSS_SS_ABORTED`.
    Aborted,
    /// The foreign value `VSS_SS_DELETED`.
    Deleted,
    /// The foreign value `VSS_SS_POSTCOMMITTED`.
    PostCommitted,
    /// The foreign value `VSS_SS_COUNT`.
    Count,
}

impl SnapshotState {
    /// The foreign value that stands for the variant.
    pub open spec fn raw(self) -> u32 {
        match self {
            SnapshotState::Unknown => 0,
            SnapshotState::Preparing => 1,
            SnapshotState::ProcessingPrepare => 2,
            SnapshotState::Prepared => 3,
            SnapshotState::ProcessingPreCommit => 4,
            SnapshotState::PreCommitted => 5,
            SnapshotState::ProcessingCommit => 6,
            SnapshotState::Committed => 7,
            SnapshotState::ProcessingPostCommit => 8,
            SnapshotState::ProcessingPreFinalCommit => 9,
            SnapshotState::PreFinalCommitted => 0xA,
            SnapshotState::ProcessingPostFinalCommit => 0xB,
            SnapshotState::Created => 0xC,
            SnapshotState::Aborted => 0xD,
            SnapshotState::Deleted => 0xE,
            SnapshotState::PostCommitted => 0xF,
            SnapshotState::Count => 0x10,
        }
    }

    /// The variant that a foreign value stands for, if it stands for one.
    pub open spec fn of_raw(value: u32) -> Option<SnapshotState> {
        if value == 0 {
            Some(SnapshotState::Unknown)
        } else if value == 1 {
            Some(SnapshotState::Preparing)
        } else if value == 2 {
            Some(SnapshotState::ProcessingPrepare)
        } else if value == 3 {
            Some(SnapshotState::Prepared)
        } else if value == 4 {
            Some(SnapshotState::ProcessingPreCommit)
        } else if value == 5 {
            Some(SnapshotState::PreCommitted)
        } else if value == 6 {
            Some(SnapshotState::ProcessingCommit)
        } else if value == 7 {
            Some(SnapshotState::Committed)
        } else if value == 8 {
            Some(SnapshotState::ProcessingPostCommit)
        } else if value == 9 {
            Some(SnapshotState::ProcessingPreFinalCommit)
        } else if value == 0xA {
            Some(SnapshotState::PreFinalCommitted)
        } else if value == 0xB {
            Some(SnapshotState::ProcessingPostFinalCommit)
        } else if value == 0xC {
            Some(SnapshotState::Created)
        } else if value == 0xD {
            Some(SnapshotState::Aborted)
        } else if value == 0xE {
            Some(SnapshotState::Deleted)
        } else if value == 0xF {
            Some(SnapshotState::PostCommitted)
        } else if value == 0x10 {
            Some(SnapshotState::Count)
        } else {
            None
        }
    }
}

impl From<u32> for SnapshotState {
    /// Reads a foreign value; one that stands for no variant reads as
    /// [`SnapshotState::Unknown`].
    fn from(value: u32) -> (r: SnapshotState) {
        if value == 0 {
            SnapshotState::Unknown
        } else if value == 1 {
            SnapshotState::Preparing
        } else if value == 2 {
            SnapshotState::ProcessingPrepare
        } else if value == 3 {
            SnapshotState::Prepared
        } else if value == 4 {
            SnapshotState::ProcessingPreCommit
        } else if value == 5 {
            SnapshotState::PreCommitted
        } else if value == 6 {
            SnapshotState::ProcessingCommit
        } else if value == 7 {
            SnapshotState::Committed
        } else if value == 8 {
            SnapshotState::ProcessingPostCommit
        } else if value == 9 {
            SnapshotState::ProcessingPreFinalCommit
        } else if value == 0xA {
            SnapshotState::PreFinalCommitted
        } else if value == 0xB {
            SnapshotState::ProcessingPostFinalCommit
        } else if value == 0xC {
            SnapshotState::Created
        } else if value == 0xD {
            SnapshotState::Aborted
        } else if value == 0xE {
            SnapshotState::Deleted
        } else if value == 0xF {
            SnapshotState::PostCommitted
        } else if value == 0x10 {
            SnapshotState::Count
        } else {
            SnapshotState::Unknown
        }
    }
}

impl FromSpecImpl<u32> for SnapshotState {
    open spec fn obeys_from_spec() -> bool {
        true
    }

    open spec fn from_spec(value: u32) -> SnapshotState {
        match SnapshotState::of_raw(value) {
            Some(variant) => variant,
            None => SnapshotState::Unknown,
        }
    }
}

impl From<SnapshotState> for u32 {
    fn from(value: SnapshotState) -> (r: u32) {
        match value {
            SnapshotState::Unknown => 0,
            SnapshotState::Preparing => 1,
            SnapshotState::ProcessingPrepare => 2,
            SnapshotState::Prepared => 3,
            SnapshotState::ProcessingPreCommit => 4,
            SnapshotState::PreCommitted => 5,
            SnapshotState::ProcessingCommit => 6,
            SnapshotState::Committed => 7,
            SnapshotState::ProcessingPostCommit => 8,
            SnapshotState::ProcessingPreFinalCommit => 9,
            SnapshotState::PreFinalCommitted => 0xA,
            SnapshotState::ProcessingPostFinalCommit => 0xB,
            SnapshotState::Created => 0xC,
            SnapshotState::Aborted => 0xD,
            SnapshotState::Deleted => 0xE,
            SnapshotState::PostCommitted => 0xF,
            SnapshotState::Count => 0x10,
        }
    }
}

impl FromSpecImpl<SnapshotState> for u32 {
    open spec fn obeys_from_spec() -> bool {
        true
    }

    open spec fn from_spec(value: SnapshotState) -> u32 {
        value.raw()
    }
}

/// Every variant of [`SnapshotState`] reads back from its foreign value, and a
/// foreign value that stands for a variant is the value of that variant.
pub proof fn lemma_snapshot_state_round_trip(variant: SnapshotState, value: u32)
    ensures
        SnapshotState::of_raw(variant.raw()) == Some(variant),
        SnapshotState::of_raw(value) matches Some(v) ==> v.raw() == value,
{
}

/// Used by a requester to indicate the type of restore operation it is
/// about to perform.
#[derive(Clone, Copy, Debug, PartialEq, Eq, PartialOrd, Ord, Structural)]
pub enum RestoreType {
    /// The foreign value `VSS_RTYPE_UNDEFINED`.
    Undefined,
    /// The foreign value `VSS_RTYPE_BY_COPY`.
    ByCopy,
    /// The foreign value `VSS_RTYPE_IMPORT`.
    Import,
    /// The foreign value `VSS_RTYPE_OTHER`.
    Other,
}

impl RestoreType {
    /// The foreign value that stands for the variant.
    pub open spec fn raw(self) -> u32 {
        match self {
            RestoreType::Undefined => 0,
            RestoreType::ByCopy => 1,
            RestoreType::Import => 2,
            RestoreType::Other => 3,
        }
    }

    /// The variant that a foreign value stands for, if it stands for one.
    pub open spec fn of_raw(value: u32) -> Option<RestoreType> {
        if value == 0 {
            Some(RestoreType::Undefined)
        } else if value == 1 {
            Some(RestoreType::ByCopy)
        } else if value == 2 {
            Some(RestoreType::Import)
        } else if value == 3 {
            Some(RestoreType::Other)
        } else {
            None
        }
    }
}

impl From<u32> for RestoreType {
    /// Reads a foreign value; one that stands for no variant reads as
    /// [`RestoreType::Undefined`].
    fn from(value: u32) -> (r: RestoreType) {
        if value == 0 {
            RestoreType::Undefined
        } else if value == 1 {
            RestoreType::ByCopy
        } else if value == 2 {
            RestoreType::Import
        } else if value == 3 {
            RestoreType::Other
        } else {
            RestoreType::Undefined
        }
    }
}

impl FromSpecImpl<u32> for RestoreType {
    open spec fn obeys_from_spec() -> bool {
        true
    }

    open spec fn from_spec(value: u32) -> RestoreType {
        match RestoreType::of_raw(value) {
            Some(variant) => variant,
            None => RestoreType::Undefined,
        }
    }
}

impl From<RestoreType> for u32 {
    fn from(value: RestoreType) -> (r: u32) {
        match value {
            RestoreType::Undefined => 0,
            RestoreType::ByCopy => 1,
            RestoreType::Import => 2,
            RestoreType::Other => 3,
        }
    }
}

impl FromSpecImpl<RestoreType> for u32 {
    open spec fn obeys_from_spec() -> bool {
        true
    }

    open spec fn from_spec(value: RestoreType) -> u32 {
        value.raw()
    }
}

impl Default for RestoreType {
    fn default() -> (r: RestoreType)
        ensures
            r == RestoreType::Undefined,
    {
        RestoreType::Undefined
    }
}

/// Every variant of [`RestoreType`] reads back from its foreign value, and a
/// foreign value that stands for a variant is the value of that variant.
pub proof fn lemma_restore_type_round_trip(variant: RestoreType, value: u32)
    ensures
        RestoreType::of_raw(variant.raw()) == Some(variant),
        RestoreType::of_raw(value) matches Some(v) ==> v.raw() == value,
{
}

/// The member of an object's union that its type tag selects.
#[derive(Clone, Copy, Debug, PartialEq, Eq, Structural)]
pub enum ObjectUnionKind {
    /// The properties of a shadow copy.
    Snapshot,
    /// The properties of a provider.
    Provider,
}

impl ObjectType {
    /// Which member of the union holds the properties of an object of this
    /// type: a shadow copy's for [`ObjectType::Snapshot`], a provider's for
    /// [`ObjectType::Provider`], and none for every other type, whose union
    /// must not be read.
    pub fn union_member(self) -> (member: Option<ObjectUnionKind>)
        ensures
            member == match self {
                ObjectType::Snapshot => Some(ObjectUnionKind::Snapshot),
                ObjectType::Provider => Some(ObjectUnionKind::Provider),
                _ => None,
            },
    {
        match self {
            ObjectType::Snapshot => Some(ObjectUnionKind::Snapshot),
            ObjectType::Provider => Some(ObjectUnionKind::Provider),
            _ => None,
        }
    }
}

} // verus!
