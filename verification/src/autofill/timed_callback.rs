//! A callback handler that the caller waits on, with a deadline.

use vstd::prelude::*;

use crate::autofill::assertion::PasskeyAssertionResponse;
use crate::autofill::assertion::PreparePasskeyAssertionCallback;
use crate::autofill::lock_status::GetLockStatusCallback;
use crate::autofill::lock_status::LockStatusResponse;
use crate::autofill::registration::PasskeyRegistrationResponse;
use crate::autofill::registration::PreparePasskeyRegistrationCallback;
use crate::autofill::window_handle_query::GetWindowHandleQueryCallback;
use crate::autofill::window_handle_query::WindowHandleQueryResponse;
use crate::autofill::BitwardenError;
use crate::autofill::CallbackError;
use crate::json::JsonValue;

verus! {

/// How a wait on a callback ended.
#[derive(Debug, Clone, Copy, PartialEq, Eq)]
pub enum WaitEnd {
    /// A response arrived before the deadline.
    Responded,
    /// The cancellation signal fired first.
    Cancelled,
    /// The deadline passed.
    TimedOut,
    /// Nobody is left who could respond or cancel.
    Abandoned,
}

/// An implementation of a callback handler that can take a deadline. It takes
/// one response; once the wait has ended, a response that comes late is
/// dropped.
pub struct TimedCallback<T> {
    response: Option<Result<T, BitwardenError>>,
    closed: bool,
    told: Ghost<Seq<Result<T, BitwardenError>>>,
}

/// What a wait returns: the response where one is held and the wait ended
/// with it; otherwise the error that fits the end of the wait.
pub open spec fn wait_outcome<T>(held: Option<Result<T, BitwardenError>>, ended: WaitEnd) -> Result<
    Result<T, BitwardenError>,
    CallbackError,
> {
    match (held, ended) {
        (Some(response), WaitEnd::Responded) => Ok(response),
        (_, WaitEnd::TimedOut) => Err(CallbackError::Timeout),
        _ => Err(CallbackError::Cancelled),
    }
}

impl<T> TimedCallback<T> {
    /// The response that is held for the one who waits.
    pub closed spec fn held(&self) -> Option<Result<T, BitwardenError>> {
        self.response
    }

    /// Every response that the handler was given so far, in order, those
    /// that it dropped too.
    pub closed spec fn history(&self) -> Seq<Result<T, BitwardenError>> {
        self.told@
    }

    /// The invariant: until the wait ends, the response held is the first
    /// that the handler was given; afterwards none is held.
    #[verifier::type_invariant]
    pub closed spec fn wf(&self) -> bool {
        if self.closed {
            self.response is None
        } else if self.told@.len() > 0 {
            self.response == Some(self.told@[0])
        } else {
            self.response is None
        }
    }

    /// Whether the wait has ended.
    pub closed spec fn is_closed(&self) -> bool {
        self.closed
    }

    /// Whether a response would be accepted: none is held and the wait has
    /// not ended.
    pub open spec fn accepts(&self) -> bool {
        self.held() is None && !self.is_closed()
    }

    /// Instantiates a new callback handler.
    pub fn new() -> (callback: Self)
        ensures
            callback.held() is None,
            !callback.is_closed(),
            callback.history() == Seq::<Result<T, BitwardenError>>::empty(),
    {
        TimedCallback { response: None, closed: false, told: Ghost(Seq::empty()) }
    }

    /// Takes a response for the one who waits. Only the first response
    /// before the end of the wait is accepted; any other is dropped.
    pub fn send(&mut self, response: Result<T, BitwardenError>) -> (accepted: bool)
        ensures
            accepted == old(self).accepts(),
            final(self).is_closed() == old(self).is_closed(),
            final(self).held() == (if accepted {
                Some(response)
            } else {
                old(self).held()
            }),
            final(self).history() == old(self).history().push(response),
    {
        proof {
            use_type_invariant(&*self);
        }
        let ghost told = self.told@.push(response);
        if self.closed || self.response.is_some() {
            self.told = Ghost(told);
            false
        } else {
            *self = TimedCallback { response: Some(response), closed: false, told: Ghost(told) };
            true
        }
    }

    /// Ends the wait. The caller blocks until a response arrives, the
    /// cancellation signal fires or the deadline passes, and says which.
    pub fn wait_for_response(&mut self, ended: WaitEnd) -> (outcome: Result<
        Result<T, BitwardenError>,
        CallbackError,
    >)
        ensures
            outcome == wait_outcome(old(self).held(), ended),
            final(self).is_closed(),
            final(self).held() is None,
            final(self).history() == old(self).history(),
    {
        let mut before = TimedCallback { response: None, closed: true, told: Ghost(self.told@) };
        core::mem::swap(self, &mut before);
        let held = before.response;
        match ended {
            WaitEnd::Responded => match held {
                Some(response) => Ok(response),
                None => Err(CallbackError::Cancelled),
            },
            WaitEnd::TimedOut => Err(CallbackError::Timeout),
            WaitEnd::Cancelled => Err(CallbackError::Cancelled),
            WaitEnd::Abandoned => Err(CallbackError::Cancelled),
        }
    }
}

impl<T> TimedCallback<T> {
    /// What is delivered reaches the one who waits: until the wait ends, the
    /// response held is the first that the handler was given, so that a wait
    /// which ends with a response returns that one; once the wait has ended,
    /// none is held.
    pub proof fn lemma_first_given_is_held(&self, ended: WaitEnd)
        requires
            self.wf(),
        ensures
            !self.is_closed() && self.history().len() > 0 ==> self.held() == Some(
                self.history()[0],
            ) && wait_outcome(self.held(), WaitEnd::Responded) == Ok::<
                Result<T, BitwardenError>,
                CallbackError,
            >(self.history()[0]),
            !self.is_closed() && self.history().len() == 0 ==> self.held() is None,
            self.is_closed() ==> self.held() is None && wait_outcome(self.held(), ended) is Err,
    {
    }
}

impl<T> Default for TimedCallback<T> {
    fn default() -> (callback: Self)
        ensures
            callback.held() is None,
            !callback.is_closed(),
            callback.history() == Seq::<Result<T, BitwardenError>>::empty(),
    {
        TimedCallback::new()
    }
}

impl PreparePasskeyRegistrationCallback for TimedCallback<PasskeyRegistrationResponse> {
    open spec fn told(&self) -> Seq<Result<PasskeyRegistrationResponse, BitwardenError>> {
        self.history()
    }

    fn on_complete(&mut self, credential: PasskeyRegistrationResponse)
        ensures
            final(self).is_closed() == old(self).is_closed(),
            final(self).held() == (if old(self).accepts() {
                Some(Ok::<PasskeyRegistrationResponse, BitwardenError>(credential))
            } else {
                old(self).held()
            }),
    {
        self.send(Ok(credential));
    }

    fn on_error(&mut self, error: BitwardenError)
        ensures
            final(self).is_closed() == old(self).is_closed(),
            final(self).held() == (if old(self).accepts() {
                Some(Err::<PasskeyRegistrationResponse, BitwardenError>(error))
            } else {
                old(self).held()
            }),
    {
        self.send(Err(error));
    }
}

impl PreparePasskeyAssertionCallback for TimedCallback<PasskeyAssertionResponse> {
    open spec fn told(&self) -> Seq<Result<PasskeyAssertionResponse, BitwardenError>> {
        self.history()
    }

    fn on_complete(&mut self, credential: PasskeyAssertionResponse)
        ensures
            final(self).is_closed() == old(self).is_closed(),
            final(self).held() == (if old(self).accepts() {
                Some(Ok::<PasskeyAssertionResponse, BitwardenError>(credential))
            } else {
                old(self).held()
            }),
    {
        self.send(Ok(credential));
    }

    fn on_error(&mut self, error: BitwardenError)
        ensures
            final(self).is_closed() == old(self).is_closed(),
            final(self).held() == (if old(self).accepts() {
                Some(Err::<PasskeyAssertionResponse, BitwardenError>(error))
            } else {
                old(self).held()
            }),
    {
        self.send(Err(error));
    }
}

impl GetLockStatusCallback for TimedCallback<LockStatusResponse> {
    open spec fn told(&self) -> Seq<Result<LockStatusResponse, BitwardenError>> {
        self.history()
    }

    fn on_complete(&mut self, response: LockStatusResponse)
        ensures
            final(self).is_closed() == old(self).is_closed(),
            final(self).held() == (if old(self).accepts() {
                Some(Ok::<LockStatusResponse, BitwardenError>(response))
            } else {
                old(self).held()
            }),
    {
        self.send(Ok(response));
    }

    fn on_error(&mut self, error: BitwardenError)
        ensures
            final(self).is_closed() == old(self).is_closed(),
            final(self).held() == (if old(self).accepts() {
                Some(Err::<LockStatusResponse, BitwardenError>(error))
            } else {
                old(self).held()
            }),
    {
        self.send(Err(error));
    }
}

impl GetWindowHandleQueryCallback for TimedCallback<WindowHandleQueryResponse> {
    open spec fn told(&self) -> Seq<Result<WindowHandleQueryResponse, BitwardenError>> {
        self.history()
    }

    fn on_complete(&mut self, response: WindowHandleQueryResponse)
        ensures
            final(self).is_closed() == old(self).is_closed(),
            final(self).held() == (if old(self).accepts() {
                Some(Ok::<WindowHandleQueryResponse, BitwardenError>(response))
            } else {
                old(self).held()
            }),
    {
        self.send(Ok(response));
    }

    fn on_error(&mut self, error: BitwardenError)
        ensures
            final(self).is_closed() == old(self).is_closed(),
            final(self).held() == (if old(self).accepts() {
                Some(Err::<WindowHandleQueryResponse, BitwardenError>(error))
            } else {
                old(self).held()
            }),
    {
        self.send(Err(error));
    }
}

/// Whether a callback that had been told `before` has been told `after`
/// once an outcome was handed to it: one thing more where the outcome was
/// delivered, and nothing more where it was not.
pub open spec fn told_after<T>(
    before: Seq<Result<T, BitwardenError>>,
    after: Seq<Result<T, BitwardenError>>,
    delivered: bool,
) -> bool {
    if delivered {
        after.len() > 0 && after == before.push(after.last())
    } else {
        after == before
    }
}

/// Hands the outcome of a lock status request to its callback: an error as
/// it is, a value once it is read as a response. Returns whether the value
/// could be read; where it could, the callback is told once, the response
/// that the value holds or the error, and where it could not, the callback
/// is not called.
pub fn deliver_lock_status<C: GetLockStatusCallback>(
    callback: &mut C,
    value: Result<JsonValue, BitwardenError>,
) -> (delivered: bool)
    ensures
        delivered == match value {
            Ok(held) => exists|response: LockStatusResponse| response.describes(held@),
            Err(_) => true,
        },
        told_after(old(callback).told(), final(callback).told(), delivered),
        delivered ==> match (value, final(callback).told().last()) {
            (Ok(held), Ok(response)) => response.describes(held@),
            (Err(error), Err(told)) => told == error,
            _ => false,
        },
{
    match value {
        Ok(held) => match LockStatusResponse::from_json(&held) {
            Some(response) => {
                callback.on_complete(response);
                true
            },
            None => false,
        },
        Err(error) => {
            callback.on_error(error);
            true
        },
    }
}

/// Hands the outcome of a window handle query to its callback, as
/// `deliver_lock_status` does.
pub fn deliver_window_handle<C: GetWindowHandleQueryCallback>(
    callback: &mut C,
    value: Result<JsonValue, BitwardenError>,
) -> (delivered: bool)
    ensures
        delivered == match value {
            Ok(held) => exists|response: WindowHandleQueryResponse| response.describes(held@),
            Err(_) => true,
        },
        told_after(old(callback).told(), final(callback).told(), delivered),
        delivered ==> match (value, final(callback).told().last()) {
            (Ok(held), Ok(response)) => response.describes(held@),
            (Err(error), Err(told)) => told == error,
            _ => false,
        },
{
    match value {
        Ok(held) => match WindowHandleQueryResponse::from_json(&held) {
            Some(response) => {
                callback.on_complete(response);
                true
            },
            None => false,
        },
        Err(error) => {
            callback.on_error(error);
            true
        },
    }
}

/// Hands the outcome of a passkey registration to its callback, as
/// `deliver_lock_status` does.
pub fn deliver_registration<C: PreparePasskeyRegistrationCallback>(
    callback: &mut C,
    value: Result<JsonValue, BitwardenError>,
) -> (delivered: bool)
    ensures
        delivered == match value {
            Ok(held) => exists|response: PasskeyRegistrationResponse| response.describes(held@),
            Err(_) => true,
        },
        told_after(old(callback).told(), final(callback).told(), delivered),
        delivered ==> match (value, final(callback).told().last()) {
            (Ok(held), Ok(response)) => response.describes(held@),
            (Err(error), Err(told)) => told == error,
            _ => false,
        },
{
    match value {
        Ok(held) => match PasskeyRegistrationResponse::from_json(&held) {
            Some(response) => {
                callback.on_complete(response);
                true
            },
            None => false,
        },
        Err(error) => {
            callback.on_error(error);
            true
        },
    }
}

/// Hands the outcome of a passkey assertion to its callback, as
/// `deliver_lock_status` does.
pub fn deliver_assertion<C: PreparePasskeyAssertionCallback>(
    callback: &mut C,
    value: Result<JsonValue, BitwardenError>,
) -> (delivered: bool)
    ensures
        delivered == match value {
            Ok(held) => exists|response: PasskeyAssertionResponse| response.describes(held@),
            Err(_) => true,
        },
        told_after(old(callback).told(), final(callback).told(), delivered),
        delivered ==> match (value, final(callback).told().last()) {
            (Ok(held), Ok(response)) => response.describes(held@),
            (Err(error), Err(told)) => told == error,
            _ => false,
        },
{
    match value {
        Ok(held) => match PasskeyAssertionResponse::from_json(&held) {
            Some(response) => {
                callback.on_complete(response);
                true
            },
            None => false,
        },
        Err(error) => {
            callback.on_error(error);
            true
        },
    }
}

} // verus!
