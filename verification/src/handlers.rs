//! The two request handlers and the escalation of their fatal failures.
//!
//! A handler works on the shared state through `&mut`: what it does on the
//! queues is one unbroken block of the journal, and its contract says what
//! that block is and which outcome goes with it.

use vstd::prelude::*;
use vstd::string::*;
use crate::command::{Command, CommandResult};
use crate::error::{ErrorKind, ErrorKindView, ExitSignal, ExitSignalView};
use crate::exchange::{connect_exchange, encoding, ssid_exchange};
use crate::http::{outcome_view, Failure, FailureView, Outcome, Response, ResponseView};
use crate::json::{json_text, to_json};
use crate::params::ConnectRequest;
use crate::state::{Effect, RequestSharedState};

verus! {

/// Reports a fatal failure: writes one notice of `kind`, with `cause`, to
/// the exit queue, and fails the request with status 500 and the kind's
/// fixed description. Nothing of `cause` reaches the client.
pub fn exit_with_error(state: &mut RequestSharedState, cause: String, kind: ErrorKind) -> (outcome:
    Outcome)
    ensures
        final(state).gateway_address() == old(state).gateway_address(),
        final(state).journal() == old(state).journal().push(
            Effect::Exited { signal: ExitSignalView { kind: kind@, cause: Some(cause@) } },
        ),
        outcome_view(outcome) == Err::<ResponseView, FailureView>(
            FailureView::internal(kind@.description()),
        ),
{
    let description = kind.description();
    state.exit(ExitSignal::caused(kind, cause));
    Err(Failure::internal(description))
}

/// Answers a list-networks request from the encoding of the list: the text
/// as the body of a 200, or the escalation of the encoder's error.
pub fn encoded_reply(state: &mut RequestSharedState, encoded: Result<String, String>) -> (outcome:
    Outcome)
    ensures
        final(state).gateway_address() == old(state).gateway_address(),
        match encoded {
            Ok(text) => {
                &&& final(state).journal() == old(state).journal()
                &&& outcome_view(outcome) == Ok::<ResponseView, FailureView>(
                    ResponseView::ok(text@),
                )
            },
            Err(cause) => {
                &&& final(state).journal() == old(state).journal().push(
                    Effect::Exited {
                        signal: ExitSignalView {
                            kind: ErrorKindView::SerializeAccessPointSSIDs,
                            cause: Some(cause@),
                        },
                    },
                )
                &&& outcome_view(outcome) == Err::<ResponseView, FailureView>(
                    FailureView::internal(ErrorKindView::SerializeAccessPointSSIDs.description()),
                )
            },
        },
{
    match encoded {
        Ok(text) => Ok(Response::ok(text)),
        Err(cause) => exit_with_error(state, cause, ErrorKind::SerializeAccessPointSSIDs),
    }
}

/// Answers a list-networks request from what the receive brought: the
/// encoded list, or the escalation of the queue's error.
pub fn networks_reply(
    state: &mut RequestSharedState,
    received: Result<CommandResult, String>,
) -> (outcome: Outcome)
    ensures
        final(state).gateway_address() == old(state).gateway_address(),
        old(state).journal().is_prefix_of(final(state).journal()),
        match received {
            Ok(CommandResult::NetworkList(names)) => encoding(
                final(state).journal().skip(old(state).journal().len() as int),
                json_text(names.deep_view()),
                outcome_view(outcome),
            ),
            Err(cause) => {
                &&& final(state).journal() == old(state).journal().push(
                    Effect::Exited {
                        signal: ExitSignalView {
                            kind: ErrorKindView::RecvAccessPointSSIDs,
                            cause: Some(cause@),
                        },
                    },
                )
                &&& outcome_view(outcome) == Err::<ResponseView, FailureView>(
                    FailureView::internal(ErrorKindView::RecvAccessPointSSIDs.description()),
                )
            },
        },
{
    match received {
        Ok(CommandResult::NetworkList(names)) => {
            let encoded = match to_json(&names) {
                Ok(text) => Ok(text),
                Err(e) => Err(e.to_string()),
            };
            let outcome = encoded_reply(state, encoded);
            assert(encoded is Err ==> state.journal().skip(old(state).journal().len() as int)
                =~= seq![state.journal().last()]);
            outcome
        },
        Err(cause) => exit_with_error(state, cause, ErrorKind::RecvAccessPointSSIDs),
    }
}

/// The list-networks handler: sends `Activate`, waits for the answer, and
/// answers 200 with the list as JSON. A queue that fails, or a list that
/// cannot be encoded, is escalated and answered with 500.
pub fn ssid(state: &mut RequestSharedState) -> (outcome: Outcome)
    ensures
        final(state).gateway_address() == old(state).gateway_address(),
        old(state).journal().is_prefix_of(final(state).journal()),
        ssid_exchange(
            final(state).journal().skip(old(state).journal().len() as int),
            outcome_view(outcome),
        ),
{
    let ghost before = state.journal();
    match state.send_command(Command::Activate) {
        Ok(()) => {
            let received = state.receive();
            let ghost awaited = state.journal();
            let outcome = networks_reply(state, received);
            proof {
                let block = state.journal().skip(before.len() as int);
                assert(block.skip(1).skip(1) =~= state.journal().skip(awaited.len() as int));
            }
            outcome
        },
        Err(cause) => {
            let outcome = exit_with_error(state, cause, ErrorKind::SendNetworkCommandActivate);
            proof {
                let block = state.journal().skip(before.len() as int);
                assert(block.skip(1) =~= seq![state.journal().last()]);
            }
            outcome
        },
    }
}

/// The sending half of the submit-connection handler, for a request whose
/// form was complete and whose document has been stored: sends one
/// `Connect` for the request's network and passphrase and answers an empty
/// 200 as soon as the queue has taken it. Whether the worker then joins the
/// network cannot be seen here. A queue that fails is escalated and
/// answered with 500.
pub fn connect(state: &mut RequestSharedState, request: ConnectRequest) -> (outcome: Outcome)
    ensures
        final(state).gateway_address() == old(state).gateway_address(),
        old(state).journal().is_prefix_of(final(state).journal()),
        connect_exchange(
            final(state).journal().skip(old(state).journal().len() as int),
            request@.ssid,
            request@.passphrase,
            outcome_view(outcome),
        ),
{
    let ghost before = state.journal();
    let command = Command::Connect { ssid: request.ssid, passphrase: request.passphrase };
    match state.send_command(command) {
        Ok(()) => {
            proof {
                let block = state.journal().skip(before.len() as int);
                assert(block =~= seq![state.journal().last()]);
            }
            Ok(Response::ok(String::new()))
        },
        Err(cause) => {
            let outcome = exit_with_error(state, cause, ErrorKind::SendNetworkCommandConnect);
            proof {
                let block = state.journal().skip(before.len() as int);
                assert(block.skip(1) =~= seq![state.journal().last()]);
            }
            outcome
        },
    }
}

} // verus!
