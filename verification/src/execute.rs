//! The answer to one executed call: the uniform envelope, how it is
//! classified, and what a failure means for a retry.

use crate::types::primitive::Integer;
use vstd::prelude::*;
use vstd::string::StringExecFns;

verus! {

/// Why an executed call did not yield a decoded result.
#[derive(Debug, Clone, PartialEq, Eq)]
pub enum ExecuteError {
    /// The call never completed: connection failure or timeout.
    Transport(String),
    /// The remote answered outside the uniform envelope, with this status and body.
    Http(u16, String),
    /// The envelope reported a failure of the call itself.
    ApiError { code: i64, description: String, retry_after: Option<i64> },
    /// The envelope reported success but its result could not be decoded.
    Decode(String),
}

/// Whether and how a failed poll may be tried again.
#[derive(Debug, Clone, Copy, PartialEq, Eq)]
pub enum Retry {
    /// Try again after the loop's own increasing delay.
    Backoff,
    /// Try again, waiting at least this many seconds.
    After(u64),
    /// Trying again cannot help.
    Fatal,
}

impl ExecuteError {
    /// The retry class of an error.
    ///
    /// A transport failure, and an answer outside the envelope, are transient
    /// and retried with backoff. A reported failure is retried only when the
    /// remote named a delay, which is then the least wait (a negative one
    /// counts as zero); without one it is fatal. A result that does not
    /// decode is fatal: the same answer would come again.
    pub open spec fn retry_spec(&self) -> Retry {
        match self {
            ExecuteError::Transport(_) => Retry::Backoff,
            ExecuteError::Http(_, _) => Retry::Backoff,
            ExecuteError::ApiError { retry_after: Some(seconds), .. } => Retry::After(
                if *seconds < 0 {
                    0u64
                } else {
                    *seconds as u64
                },
            ),
            ExecuteError::ApiError { retry_after: None, .. } => Retry::Fatal,
            ExecuteError::Decode(_) => Retry::Fatal,
        }
    }

    /// Classifies the error for the caller's retry policy.
    pub fn retry(&self) -> (r: Retry)
        ensures
            r == self.retry_spec(),
    {
        match self {
            ExecuteError::Transport(_) => Retry::Backoff,
            ExecuteError::Http(_, _) => Retry::Backoff,
            ExecuteError::ApiError { retry_after: Some(seconds), .. } => {
                if *seconds < 0 {
                    Retry::After(0)
                } else {
                    Retry::After(*seconds as u64)
                }
            },
            ExecuteError::ApiError { retry_after: None, .. } => Retry::Fatal,
            ExecuteError::Decode(_) => Retry::Fatal,
        }
    }
}

/// What the remote adds to a reported failure.
#[derive(Debug, Clone, Copy, PartialEq, Eq)]
pub struct ResponseParameters {
    /// Seconds to wait before the call may be repeated.
    pub retry_after: Option<Integer>,
    /// The identifier of the supergroup that a group was migrated to.
    pub migrate_to_chat_id: Option<Integer>,
}

/// The uniform envelope of every answer. `T` is the result as it arrived,
/// before it is decoded into the shape that the method expects.
#[derive(Debug, Clone, PartialEq, Eq)]
pub struct Envelope<T> {
    pub ok: bool,
    pub result: Option<T>,
    pub error_code: Option<Integer>,
    pub description: Option<String>,
    pub parameters: Option<ResponseParameters>,
}

/// The delay that an envelope names, if any.
pub open spec fn named_delay(parameters: Option<ResponseParameters>) -> Option<Integer> {
    match parameters {
        Some(p) => p.retry_after,
        None => None,
    }
}

/// Whether `r` is the classification of `envelope`.
///
/// Success with a result is that result. Success without one is a decode
/// failure. Anything else is the reported failure with its code (zero
/// where none was sent), its description (empty where none was sent) and
/// the delay that the remote named.
pub open spec fn classifies<T>(envelope: Envelope<T>, r: Result<T, ExecuteError>) -> bool {
    if envelope.ok {
        match envelope.result {
            Some(result) => r == Ok::<T, ExecuteError>(result),
            None => r matches Err(ExecuteError::Decode(cause)) && cause@ == "result is missing"@,
        }
    } else {
        r matches Err(ExecuteError::ApiError { code, description, retry_after }) && {
            &&& code == match envelope.error_code {
                Some(c) => c,
                None => 0,
            }
            &&& description@ == match envelope.description {
                Some(d) => d@,
                None => Seq::<char>::empty(),
            }
            &&& retry_after == named_delay(envelope.parameters)
        }
    }
}

/// Classifies an envelope: the one place where a failure that the remote
/// reports becomes an error.
pub fn classify<T>(envelope: Envelope<T>) -> (r: Result<T, ExecuteError>)
    ensures
        classifies(envelope, r),
{
    if envelope.ok {
        match envelope.result {
            Some(result) => Ok(result),
            None => Err(ExecuteError::Decode(String::from_str("result is missing"))),
        }
    } else {
        let code = match envelope.error_code {
            Some(c) => c,
            None => 0,
        };
        let description = match envelope.description {
            Some(d) => d,
            None => String::new(),
        };
        let retry_after = match envelope.parameters {
            Some(p) => p.retry_after,
            None => None,
        };
        Err(ExecuteError::ApiError { code, description, retry_after })
    }
}

/// The result of decoding: a result that does not decode into the expected
/// shape is an error, with the decoder's complaint as its cause.
pub fn decoded<R>(outcome: Result<R, String>) -> (r: Result<R, ExecuteError>)
    ensures
        match outcome {
            Ok(value) => r == Ok::<R, ExecuteError>(value),
            Err(cause) => r == Err::<R, ExecuteError>(ExecuteError::Decode(cause)),
        },
{
    match outcome {
        Ok(value) => Ok(value),
        Err(cause) => Err(ExecuteError::Decode(cause)),
    }
}

/// What came back from the transport.
#[derive(Debug, Clone, PartialEq, Eq)]
pub enum Reply<T> {
    /// The call never completed.
    Unreachable(String),
    /// An answer that is no envelope, with its status and body.
    Unparsed(u16, String),
    /// An envelope.
    Parsed(Envelope<T>),
}

/// Whether `r` is the outcome of `reply`.
pub open spec fn answers<T>(reply: Reply<T>, r: Result<T, ExecuteError>) -> bool {
    match reply {
        Reply::Unreachable(cause) => r == Err::<T, ExecuteError>(ExecuteError::Transport(cause)),
        Reply::Unparsed(status, body) => r == Err::<T, ExecuteError>(
            ExecuteError::Http(status, body),
        ),
        Reply::Parsed(envelope) => classifies(envelope, r),
    }
}

/// Turns what came back from the transport into the undecoded result or
/// the error of the call. Nothing is retried here.
pub fn outcome<T>(reply: Reply<T>) -> (r: Result<T, ExecuteError>)
    ensures
        answers(reply, r),
{
    match reply {
        Reply::Unreachable(cause) => Err(ExecuteError::Transport(cause)),
        Reply::Unparsed(status, body) => Err(ExecuteError::Http(status, body)),
        Reply::Parsed(envelope) => classify(envelope),
    }
}

/// A failure that the remote reports is retried exactly when it names a
/// delay, and then no sooner than after that delay.
pub proof fn lemma_reported_failure_retry<T>(envelope: Envelope<T>, r: Result<T, ExecuteError>)
    requires
        !envelope.ok,
        classifies(envelope, r),
    ensures
        r is Err,
        match named_delay(envelope.parameters) {
            Some(seconds) => r->Err_0.retry_spec() == Retry::After(
                if seconds < 0 {
                    0u64
                } else {
                    seconds as u64
                },
            ),
            None => r->Err_0.retry_spec() == Retry::Fatal,
        },
{
}

} // verus!
