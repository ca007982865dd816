//! The fetch client's rules: how many fetches may run at once, and what a
//! fetch does at each of its checkpoints when the run is cancelled.

use vstd::prelude::*;

verus! {

/// The body and the content type of a fetched resource.
#[derive(Debug)]
pub struct Response {
    pub content_type: Option<String>,
    pub body: Vec<u8>,
}

/// Why a fetch gave nothing.
#[derive(Clone, Copy, Debug, PartialEq, Eq, Structural)]
pub enum FetchError {
    /// The cancellation signal was set at a checkpoint.
    Interrupted,
}

/// The places at which a fetch looks at the cancellation signal.
#[derive(Clone, Copy, Debug, PartialEq, Eq, Structural)]
pub enum Checkpoint {
    /// A permit is held and nothing was sent yet.
    Entry,
    /// The headers have come.
    Headers,
    /// The body is complete.
    Body,
}

/// What a fetch does after a checkpoint that let it pass.
#[derive(Clone, Copy, Debug, PartialEq, Eq, Structural)]
pub enum Proceed {
    /// Tell the host that the resource is loading, then send the request.
    Request,
    /// Keep the content type and read the body.
    ReadBody,
    /// Release the permit and hand the response out.
    Deliver,
}

/// The step that follows each checkpoint.
pub open spec fn step_after(at: Checkpoint) -> Proceed {
    match at {
        Checkpoint::Entry => Proceed::Request,
        Checkpoint::Headers => Proceed::ReadBody,
        Checkpoint::Body => Proceed::Deliver,
    }
}

/// The number of permits of a client that was asked for `requested`
/// fetches at once, where the permit pool holds no more than `cap`.
pub fn permit_count(requested: usize, cap: usize) -> (n: usize)
    ensures
        n <= requested,
        n <= cap,
        n == requested || n == cap,
{
    if requested <= cap {
        requested
    } else {
        cap
    }
}

/// Decides at a checkpoint: an interrupted fetch stops, any other goes on
/// with the step that follows.
pub fn checkpoint(at: Checkpoint, cancelled: bool) -> (result: Result<Proceed, FetchError>)
    ensures
        cancelled ==> result == Err::<Proceed, FetchError>(FetchError::Interrupted),
        !cancelled ==> result == Ok::<Proceed, FetchError>(step_after(at)),
{
    if cancelled {
        return Err(FetchError::Interrupted);
    }
    match at {
        Checkpoint::Entry => Ok(Proceed::Request),
        Checkpoint::Headers => Ok(Proceed::ReadBody),
        Checkpoint::Body => Ok(Proceed::Deliver),
    }
}

/// The last checkpoint: the response is handed out whole, or not at all.
pub fn deliver(content_type: Option<String>, body: Vec<u8>, cancelled: bool) -> (result: Result<
    Response,
    FetchError,
>)
    ensures
        match result {
            Ok(r) => !cancelled && r.content_type == content_type && r.body == body,
            Err(e) => cancelled && e == FetchError::Interrupted,
        },
{
    match checkpoint(Checkpoint::Body, cancelled) {
        Ok(_) => Ok(Response { content_type, body }),
        Err(e) => Err(e),
    }
}

} // verus!
