//! The failures that end the whole process, and the notice that reports one.

use vstd::prelude::*;
use vstd::string::*;

verus! {

/// The kinds of fatal failure. Each means that the channel pair to the
/// network worker, or the HTTP server itself, can no longer be trusted.
#[derive(Debug, Clone, PartialEq, Eq)]
pub enum ErrorKind {
    /// No answer to an `Activate` could be received.
    RecvAccessPointSSIDs,
    /// The list of networks could not be written as JSON.
    SerializeAccessPointSSIDs,
    /// The `Activate` command could not be sent.
    SendNetworkCommandActivate,
    /// The `Connect` command could not be sent.
    SendNetworkCommandConnect,
    /// The HTTP server could not be started on the address, for the reason.
    StartHTTPServer(String, String),
}

/// An [`ErrorKind`] as contracts see it.
pub enum ErrorKindView {
    RecvAccessPointSSIDs,
    SerializeAccessPointSSIDs,
    SendNetworkCommandActivate,
    SendNetworkCommandConnect,
    StartHTTPServer(Seq<char>, Seq<char>),
}

impl View for ErrorKind {
    type V = ErrorKindView;

    open spec fn view(&self) -> ErrorKindView {
        match *self {
            ErrorKind::RecvAccessPointSSIDs => ErrorKindView::RecvAccessPointSSIDs,
            ErrorKind::SerializeAccessPointSSIDs => ErrorKindView::SerializeAccessPointSSIDs,
            ErrorKind::SendNetworkCommandActivate => ErrorKindView::SendNetworkCommandActivate,
            ErrorKind::SendNetworkCommandConnect => ErrorKindView::SendNetworkCommandConnect,
            ErrorKind::StartHTTPServer(address, reason) => ErrorKindView::StartHTTPServer(
                address@,
                reason@,
            ),
        }
    }
}

impl ErrorKindView {
    /// The fixed description of the kind. It names no address, no cause and
    /// nothing else of the failure at hand, so it can be shown to a client.
    pub open spec fn description(self) -> Seq<char> {
        match self {
            ErrorKindView::RecvAccessPointSSIDs => "Receiving access point SSIDs failed"@,
            ErrorKindView::SerializeAccessPointSSIDs => "Serializing access point SSIDs failed"@,
            ErrorKindView::SendNetworkCommandActivate => "Sending Command::Activate failed"@,
            ErrorKindView::SendNetworkCommandConnect => "Sending Command::Connect failed"@,
            ErrorKindView::StartHTTPServer(_, _) => "Cannot start HTTP server"@,
        }
    }
}

impl ErrorKind {
    /// The fixed description of the kind.
    pub fn description(&self) -> (text: String)
        ensures
            text@ == self@.description(),
    {
        match self {
            ErrorKind::RecvAccessPointSSIDs => String::from_str(
                "Receiving access point SSIDs failed",
            ),
            ErrorKind::SerializeAccessPointSSIDs => String::from_str(
                "Serializing access point SSIDs failed",
            ),
            ErrorKind::SendNetworkCommandActivate => String::from_str(
                "Sending Command::Activate failed",
            ),
            ErrorKind::SendNetworkCommandConnect => String::from_str(
                "Sending Command::Connect failed",
            ),
            ErrorKind::StartHTTPServer(_, _) => String::from_str("Cannot start HTTP server"),
        }
    }
}

/// The notice that asks the supervisor to bring the process down: the kind
/// of failure and, where another error led to it, that error's own words.
#[derive(Debug, Clone, PartialEq, Eq)]
pub struct ExitSignal {
    pub kind: ErrorKind,
    pub cause: Option<String>,
}

/// An [`ExitSignal`] as contracts see it.
pub struct ExitSignalView {
    pub kind: ErrorKindView,
    pub cause: Option<Seq<char>>,
}

impl View for ExitSignal {
    type V = ExitSignalView;

    open spec fn view(&self) -> ExitSignalView {
        ExitSignalView {
            kind: self.kind@,
            cause: match self.cause {
                Some(text) => Some(text@),
                None => None,
            },
        }
    }
}

impl ExitSignal {
    /// The notice for a failure of `kind` that `cause` led to.
    pub fn caused(kind: ErrorKind, cause: String) -> (signal: ExitSignal)
        ensures
            signal@ == (ExitSignalView { kind: kind@, cause: Some(cause@) }),
    {
        ExitSignal { kind, cause: Some(cause) }
    }

    /// The notice for an HTTP server that could not be started on `address`.
    pub fn start_failure(address: String, reason: String) -> (signal: ExitSignal)
        ensures
            signal@ == (ExitSignalView {
                kind: ErrorKindView::StartHTTPServer(address@, reason@),
                cause: None,
            }),
    {
        ExitSignal { kind: ErrorKind::StartHTTPServer(address, reason), cause: None }
    }
}

} // verus!
