//! What the service answers: a result or a structured error, and the ways in
//! which an exchange with it can fail.

use vstd::prelude::*;
use vstd::string::*;

use crate::json::{json, member, text_member, Json};
use crate::text::same_text;

verus! {

/// A structured error, as the service sent it.  The service does not say
/// which members an error has; only `code` is ever looked at.
#[derive(Debug, PartialEq, Eq)]
pub struct ApiErrorPayload(pub serde_json::Value);

impl View for ApiErrorPayload {
    type V = Json;

    open spec fn view(&self) -> Json {
        json(self.0)
    }
}

/// The error code that a payload carries: the text of its member `code`.
pub open spec fn code_of(payload: Json) -> Option<Seq<char>> {
    text_member(payload, "code"@)
}

/// Whether a payload says that the event queue is unknown to the service or
/// has expired.
pub open spec fn queue_expired(payload: Json) -> bool {
    code_of(payload) == Some("BAD_EVENT_QUEUE_ID"@)
}

impl ApiErrorPayload {
    /// The error code: the text of the member `code`, if there is one and it
    /// is a string.
    pub fn code(&self) -> (code: Option<&str>)
        ensures
            match code {
                Some(text) => code_of(self@) == Some(text@),
                None => code_of(self@) is None,
            },
    {
        match member(&self.0, "code") {
            Some(found) => found.as_str(),
            None => None,
        }
    }

    /// Whether this error says that the event queue is unknown to the service
    /// or has expired: the one error that a fresh registration cures.
    pub fn is_bad_event_queue_id(&self) -> (expired: bool)
        ensures
            expired == queue_expired(self@),
    {
        match self.code() {
            Some(text) => same_text(text, "BAD_EVENT_QUEUE_ID"),
            None => false,
        }
    }
}

/// The request could not be completed, or the answer could not be read.
#[derive(Debug, PartialEq, Eq)]
pub struct TransportError {
    pub message: String,
}

impl View for TransportError {
    type V = Seq<char>;

    open spec fn view(&self) -> Seq<char> {
        self.message@
    }
}

/// Why a site is no longer watched.
#[derive(Debug, PartialEq, Eq)]
pub enum WatchError {
    /// The request could not be completed, or the answer could not be read.
    Transport(TransportError),
    /// The service answered with an error that this client cannot cure.
    Api(ApiErrorPayload),
}

/// A [`WatchError`], over views.
pub enum WatchErrorView {
    Transport(Seq<char>),
    Api(Json),
}

impl View for WatchError {
    type V = WatchErrorView;

    open spec fn view(&self) -> WatchErrorView {
        match self {
            WatchError::Transport(error) => WatchErrorView::Transport(error@),
            WatchError::Api(payload) => WatchErrorView::Api(payload@),
        }
    }
}

/// The body of an answer: the result that was asked for, or a structured
/// error.
#[derive(Debug, PartialEq, Eq)]
pub enum ApiResult<T> {
    Success(T),
    Error(ApiErrorPayload),
}

/// An [`ApiResult`], over the view of what it carries.
pub enum ApiResultView<V> {
    Success(V),
    Error(Json),
}

impl<T: View> View for ApiResult<T> {
    type V = ApiResultView<T::V>;

    open spec fn view(&self) -> ApiResultView<T::V> {
        match self {
            ApiResult::Success(value) => ApiResultView::Success(value@),
            ApiResult::Error(payload) => ApiResultView::Error(payload@),
        }
    }
}

impl<T> ApiResult<T> {
    /// The result that was asked for, or the structured error as the reason
    /// of failure.
    pub fn into_result(self) -> (result: Result<T, WatchError>)
        ensures
            match self {
                ApiResult::Success(value) => result == Ok::<T, WatchError>(value),
                ApiResult::Error(payload) => result == Err::<T, WatchError>(
                    WatchError::Api(payload),
                ),
            },
    {
        match self {
            ApiResult::Success(value) => Ok(value),
            ApiResult::Error(payload) => Err(WatchError::Api(payload)),
        }
    }
}

/// The view of a value that may not be there.
pub open spec fn viewed<T: View>(value: Option<T>) -> Option<T::V> {
    match value {
        Some(value) => Some(value@),
        None => None,
    }
}

/// What came of one request: what the service answered, or why no answer
/// could be had.
pub type Reply<T> = Result<ApiResult<T>, TransportError>;

/// A [`Reply`], over the view of what it carries.
pub open spec fn reply_view<T: View>(reply: Reply<T>) -> Result<ApiResultView<T::V>, Seq<char>> {
    match reply {
        Ok(answer) => Ok(answer@),
        Err(error) => Err(error@),
    }
}

} // verus!
