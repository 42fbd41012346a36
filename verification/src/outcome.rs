//! How an HTTP exchange with a validation service becomes a present or an
//! absent result.
//!
//! A validation call can go wrong in four ways: the transport fails, the
//! server answers with a status other than 200 or 304, the response body
//! cannot be read, or the body does not decode into the expected shape. The
//! failures are told apart here as [`FetchFailure`] values, and then
//! collapsed into a single absent result at the public boundary, so a caller
//! sees either a parsed result or nothing.

use vstd::prelude::*;

verus! {

/// Why a validation call produced no result.
#[derive(Debug, PartialEq, Eq)]
pub enum FetchFailure {
    /// The transport failed before any status was received: connection
    /// refused, resolution failure, or timeout.
    Transport,
    /// The server answered with a status other than 200 or 304.
    HttpStatus(u16),
    /// The body of an accepted response could not be read, or did not decode
    /// into the expected shape.
    Decode,
}

/// What came back from one HTTP exchange, as far as the transport got.
pub enum ResponseEvent<R> {
    /// The transport failed before any status was received.
    Failed,
    /// A response arrived with this status and, where its body was read and
    /// decoded, the decoded payload.
    Received(u16, Option<R>),
}

/// The statuses on which a parse of the body is attempted.
pub open spec fn spec_status_accepted(status: u16) -> bool {
    status == 200 || status == 304
}

pub fn status_accepted(status: u16) -> (r: bool)
    ensures
        r == spec_status_accepted(status),
{
    status == 200 || status == 304
}

/// The outcome of one exchange: a payload, or the first failure met, in the
/// order transport, status, decode.
pub open spec fn spec_classify<R>(event: ResponseEvent<R>) -> Result<R, FetchFailure> {
    match event {
        ResponseEvent::Failed => Err(FetchFailure::Transport),
        ResponseEvent::Received(status, decoded) => if !spec_status_accepted(status) {
            Err(FetchFailure::HttpStatus(status))
        } else {
            match decoded {
                Some(payload) => Ok(payload),
                None => Err(FetchFailure::Decode),
            }
        },
    }
}

/// Tell the four failure causes apart. A rejected status wins over whatever
/// payload came with it: a body that happens to decode is discarded when the
/// status is not accepted.
pub fn classify_response<R>(event: ResponseEvent<R>) -> (r: Result<R, FetchFailure>)
    ensures
        r == spec_classify(event),
{
    match event {
        ResponseEvent::Failed => Err(FetchFailure::Transport),
        ResponseEvent::Received(status, decoded) => if !status_accepted(status) {
            Err(FetchFailure::HttpStatus(status))
        } else {
            match decoded {
                Some(payload) => Ok(payload),
                None => Err(FetchFailure::Decode),
            }
        },
    }
}

/// The collapse applied at the public boundary: every failure becomes the
/// one absent value.
pub open spec fn spec_collapse<R>(outcome: Result<R, FetchFailure>) -> Option<R> {
    match outcome {
        Ok(payload) => Some(payload),
        Err(_) => None,
    }
}

pub fn collapse_outcome<R>(outcome: Result<R, FetchFailure>) -> (r: Option<R>)
    ensures
        r == spec_collapse(outcome),
{
    match outcome {
        Ok(payload) => Some(payload),
        Err(_) => None,
    }
}

/// What a validation operation answers for one exchange: the decoded payload
/// on an accepted status, and nothing on any failure.
pub fn resolve_response<R>(event: ResponseEvent<R>) -> (r: Option<R>)
    ensures
        r == spec_collapse(spec_classify(event)),
{
    let outcome = classify_response(event);
    collapse_outcome(outcome)
}

/// A response whose status is neither 200 nor 304 yields an absent result,
/// never a parsed one, whatever payload came with it.
pub proof fn lemma_rejected_status_yields_absent<R>(status: u16, decoded: Option<R>)
    requires
        !spec_status_accepted(status),
    ensures
        spec_collapse(spec_classify(ResponseEvent::Received(status, decoded))) is None,
{
}

/// An accepted response whose body did not decode yields an absent result,
/// not a partially populated one.
pub proof fn lemma_decode_failure_yields_absent<R>(status: u16)
    ensures
        spec_collapse(spec_classify(ResponseEvent::<R>::Received(status, None))) is None,
{
}

/// A transport failure yields an absent result.
pub proof fn lemma_transport_failure_yields_absent<R>()
    ensures
        spec_collapse(spec_classify(ResponseEvent::<R>::Failed)) is None,
{
}

/// A result is present exactly when a response arrived, its status was
/// accepted, and its body decoded; and then it is the decoded payload.
pub proof fn lemma_present_iff_decoded_on_accepted_status<R>(event: ResponseEvent<R>)
    ensures
        spec_collapse(spec_classify(event)) is Some <==> (event matches ResponseEvent::Received(
            status,
            decoded,
        ) && spec_status_accepted(status) && decoded is Some),
        forall|status: u16, payload: R|
            spec_status_accepted(status) ==> spec_collapse(
                spec_classify(ResponseEvent::Received(status, Some(payload))),
            ) == Some(payload),
{
}

} // verus!
