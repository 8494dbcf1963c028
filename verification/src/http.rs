//! What a handler hands back to the HTTP layer.

use vstd::prelude::*;
use vstd::string::*;

verus! {

/// Status of a request that was served.
pub const STATUS_OK: u16 = 200;

/// Status of a redirect to another location.
pub const STATUS_FOUND: u16 = 302;

/// Status of a request that failed on the device's side.
pub const STATUS_INTERNAL_SERVER_ERROR: u16 = 500;

/// A response to send: the status, the body, and where a redirect leads.
#[derive(Debug, Clone, PartialEq, Eq)]
pub struct Response {
    pub status: u16,
    pub body: String,
    pub location: Option<String>,
}

/// A [`Response`] as contracts see it.
pub struct ResponseView {
    pub status: u16,
    pub body: Seq<char>,
    pub location: Option<Seq<char>>,
}

impl View for Response {
    type V = ResponseView;

    open spec fn view(&self) -> ResponseView {
        ResponseView {
            status: self.status,
            body: self.body@,
            location: match self.location {
                Some(url) => Some(url@),
                None => None,
            },
        }
    }
}

impl ResponseView {
    /// Status 200 with `body`.
    pub open spec fn ok(body: Seq<char>) -> ResponseView {
        ResponseView { status: STATUS_OK, body, location: None }
    }

    /// Status 302 to `location`, without a body.
    pub open spec fn redirect(location: Seq<char>) -> ResponseView {
        ResponseView { status: STATUS_FOUND, body: Seq::empty(), location: Some(location) }
    }
}

impl Response {
    /// Status 200 with `body`.
    pub fn ok(body: String) -> (response: Response)
        ensures
            response@ == ResponseView::ok(body@),
    {
        Response { status: STATUS_OK, body, location: None }
    }

    /// Status 302 to `location`, without a body.
    pub fn redirect(location: String) -> (response: Response)
        ensures
            response@ == ResponseView::redirect(location@),
    {
        Response { status: STATUS_FOUND, body: String::new(), location: Some(location) }
    }
}

/// An error that is nothing but its message.
#[derive(Debug, Clone, PartialEq, Eq)]
pub struct StringError(pub String);

impl View for StringError {
    type V = Seq<char>;

    open spec fn view(&self) -> Seq<char> {
        self.0@
    }
}

impl StringError {
    /// The message.
    pub fn description(&self) -> (text: &str)
        ensures
            text@ == self@,
    {
        self.0.as_str()
    }
}

/// A request that failed: the error, and the status to answer with.
#[derive(Debug, Clone, PartialEq, Eq)]
pub struct Failure {
    pub error: StringError,
    pub status: u16,
}

/// A [`Failure`] as contracts see it.
pub struct FailureView {
    pub description: Seq<char>,
    pub status: u16,
}

impl View for Failure {
    type V = FailureView;

    open spec fn view(&self) -> FailureView {
        FailureView { description: self.error@, status: self.status }
    }
}

impl FailureView {
    /// Status 500 with `description`.
    pub open spec fn internal(description: Seq<char>) -> FailureView {
        FailureView { description, status: STATUS_INTERNAL_SERVER_ERROR }
    }

    /// The response that reports the failure to the client: its status, and
    /// its description as the body.
    pub open spec fn response(self) -> ResponseView {
        ResponseView { status: self.status, body: self.description, location: None }
    }
}

impl Failure {
    /// Status 500 with `description`.
    pub fn internal(description: String) -> (failure: Failure)
        ensures
            failure@ == FailureView::internal(description@),
    {
        Failure { error: StringError(description), status: STATUS_INTERNAL_SERVER_ERROR }
    }

    /// The response that reports the failure to the client.
    pub fn into_response(self) -> (response: Response)
        ensures
            response@ == self@.response(),
    {
        Response { status: self.status, body: self.error.0, location: None }
    }
}

/// What a handler returns: the response, or the failure.
pub type Outcome = Result<Response, Failure>;

/// An [`Outcome`] as contracts see it.
pub open spec fn outcome_view(outcome: Outcome) -> Result<ResponseView, FailureView> {
    match outcome {
        Ok(response) => Ok(response@),
        Err(failure) => Err(failure@),
    }
}

} // verus!
