//! How a computation ends: the exceptions it can raise, how a raised payload
//! is turned into an exception, and which continuation receives the outcome.
use vstd::prelude::*;

verus! {

/// A raised error with its message.
#[derive(Clone, Debug, PartialEq, Eq)]
pub struct Exception {
    pub message: String,
}

impl Exception {
    /// An exception that carries `message`.
    pub fn new(message: String) -> (ex: Exception)
        ensures
            ex.message@ == message@,
    {
        Exception { message }
    }
}

/// Raised when a computation observes that its cancellation was requested.
#[derive(Clone, Copy, Debug, PartialEq, Eq)]
pub struct OperationCanceledException {}

/// Raised when a child computation does not finish within its time limit.
#[derive(Clone, Copy, Debug, PartialEq, Eq)]
pub struct TimeoutException {}

/// Raised when a delay below the one value meaning "never" is asked for.
#[derive(Clone, Copy, Debug, PartialEq, Eq)]
pub struct ArgumentOutOfRangeException {}

/// What a computation raised, as far as the runtime tells payloads apart.
#[derive(Clone, Debug, PartialEq, Eq)]
pub enum PanicPayload {
    /// A plain text message.
    Message(String),
    /// An exception raised by user code.
    Exception(Exception),
    /// The cancellation exception.
    Canceled(OperationCanceledException),
    /// Anything else.
    Other,
}

/// The message of the exception that stands for a payload the runtime does
/// not recognise.
pub open spec fn unknown_error_message() -> Seq<char> {
    "Unknown error"@
}

/// The message of the exception raised when a continuation-based computation
/// returns without calling any of its continuations.
pub open spec fn no_continuation_message() -> Seq<char> {
    "Async.FromContinuations: no continuation called"@
}

/// The message of the exception that `get_ex` makes of a payload.
pub open spec fn exception_message_of(payload: PanicPayload) -> Seq<char> {
    match payload {
        PanicPayload::Message(s) => s@,
        PanicPayload::Exception(ex) => ex.message@,
        _ => unknown_error_message(),
    }
}

/// Turns a raised payload into an exception: a text becomes the message, an
/// exception is kept, and anything else (the cancellation exception too)
/// becomes an "Unknown error".
pub fn get_ex(err: PanicPayload) -> (ex: Exception)
    ensures
        ex.message@ == exception_message_of(err),
{
    match err {
        PanicPayload::Message(s) => Exception::new(s),
        PanicPayload::Exception(ex) => ex,
        _ => Exception::new("Unknown error".to_owned()),
    }
}

/// The outcome of a computation as its continuations see it.
#[derive(Clone, Debug, PartialEq, Eq)]
pub enum ContinuationResult<T> {
    Success(T),
    Error(Exception),
    Cancel(OperationCanceledException),
}

/// Which continuation receives the result of running a computation: a value
/// goes to the success continuation, the cancellation exception to the
/// cancellation continuation, and any other payload, made an exception by
/// `get_ex`, to the exception continuation.
pub fn continuation_route<T>(result: Result<T, PanicPayload>) -> (route: ContinuationResult<T>)
    ensures
        match result {
            Ok(v) => route == ContinuationResult::<T>::Success(v),
            Err(PanicPayload::Canceled(c)) => route == ContinuationResult::<T>::Cancel(c),
            Err(p) => route matches ContinuationResult::Error(ex) && ex.message@
                == exception_message_of(p),
        },
{
    match result {
        Ok(v) => ContinuationResult::Success(v),
        Err(PanicPayload::Canceled(c)) => ContinuationResult::Cancel(c),
        Err(p) => ContinuationResult::Error(get_ex(p)),
    }
}

/// The result of a computation whose raised payloads are caught: a value
/// stays a value, a payload becomes the exception that `get_ex` makes of it.
pub fn catch_outcome<T>(result: Result<T, PanicPayload>) -> (caught: Result<T, Exception>)
    ensures
        match result {
            Ok(v) => caught == Ok::<T, Exception>(v),
            Err(p) => caught matches Err(ex) && ex.message@ == exception_message_of(p),
        },
{
    match result {
        Ok(v) => Ok(v),
        Err(p) => Err(get_ex(p)),
    }
}

/// The result of waiting for a child computation under a time limit: the
/// child's value if it finished first (`Some`), the timeout otherwise.
pub fn child_outcome<T>(finished_first: Option<T>) -> (r: Result<T, TimeoutException>)
    ensures
        match finished_first {
            Some(v) => r == Ok::<T, TimeoutException>(v),
            None => r == Err::<T, TimeoutException>(TimeoutException {}),
        },
{
    match finished_first {
        Some(v) => Ok(v),
        None => Err(TimeoutException {}),
    }
}

/// The slot in which the three continuations of a continuation-based
/// computation leave their result.
pub struct ContinuationSlot<T> {
    result: Option<ContinuationResult<T>>,
}

impl<T> View for ContinuationSlot<T> {
    type V = Option<ContinuationResult<T>>;

    closed spec fn view(&self) -> Option<ContinuationResult<T>> {
        self.result
    }
}

impl<T> ContinuationSlot<T> {
    /// A slot that no continuation has written yet.
    pub fn new() -> (slot: Self)
        ensures
            slot@ == None::<ContinuationResult<T>>,
    {
        ContinuationSlot { result: None }
    }

    /// The success continuation: leaves `value`, replacing what was there.
    pub fn on_success(&mut self, value: T)
        ensures
            final(self)@ == Some(ContinuationResult::<T>::Success(value)),
    {
        self.result = Some(ContinuationResult::Success(value));
    }

    /// The exception continuation: leaves `ex`, replacing what was there.
    pub fn on_error(&mut self, ex: Exception)
        ensures
            final(self)@ == Some(ContinuationResult::<T>::Error(ex)),
    {
        self.result = Some(ContinuationResult::Error(ex));
    }

    /// The cancellation continuation: leaves `ex`, replacing what was there.
    pub fn on_cancel(&mut self, ex: OperationCanceledException)
        ensures
            final(self)@ == Some(ContinuationResult::<T>::Cancel(ex)),
    {
        self.result = Some(ContinuationResult::Cancel(ex));
    }

    /// The outcome left by the last continuation that ran, or, when none ran,
    /// the exception that says so.
    pub fn outcome(self) -> (r: Result<ContinuationResult<T>, Exception>)
        ensures
            match self@ {
                Some(o) => r == Ok::<ContinuationResult<T>, Exception>(o),
                None => r matches Err(ex) && ex.message@ == no_continuation_message(),
            },
    {
        match self.result {
            Some(o) => Ok(o),
            None => Err(Exception::new("Async.FromContinuations: no continuation called".to_owned())),
        }
    }
}

} // verus!
