//! What one request may leave in the journal, and what follows from it.
//!
//! The queues carry no mark that ties an answer to a command. That an
//! answer belongs to the request that reads it rests on two things: each
//! request's operations form one block of the journal, of the shape given
//! here, and the blocks of different requests do not overlap.

use vstd::prelude::*;
use crate::command::{CommandResultView, CommandView};
use crate::error::ErrorKindView;
use crate::http::{FailureView, ResponseView, STATUS_INTERNAL_SERVER_ERROR};
use crate::json::json_text;
use crate::params::{connect_request_of, lookup, FieldValueView, FormFieldView};
use crate::state::Effect;

verus! {

/// `block` is one notice of a failure of `kind`, with a cause, and
/// `outcome` is the failure with the kind's fixed description.
pub open spec fn escalation(
    block: Seq<Effect>,
    kind: ErrorKindView,
    outcome: Result<ResponseView, FailureView>,
) -> bool {
    &&& block.len() == 1
    &&& block[0] matches Effect::Exited { signal }
    &&& signal.kind == kind
    &&& signal.cause is Some
    &&& outcome == Err::<ResponseView, FailureView>(FailureView::internal(kind.description()))
}

/// What follows the encoding of a list of networks: the list as the body of
/// a 200 where there is a text, an escalation where there is none.
pub open spec fn encoding(
    block: Seq<Effect>,
    encoded: Option<Seq<char>>,
    outcome: Result<ResponseView, FailureView>,
) -> bool {
    match encoded {
        Some(text) => block.len() == 0 && outcome == Ok::<ResponseView, FailureView>(
            ResponseView::ok(text),
        ),
        None => escalation(block, ErrorKindView::SerializeAccessPointSSIDs, outcome),
    }
}

/// What follows a delivered `Activate`: one receive, then the encoding of
/// what it brought, or an escalation where it brought nothing.
pub open spec fn reception(block: Seq<Effect>, outcome: Result<ResponseView, FailureView>) -> bool {
    &&& block.len() >= 1
    &&& block[0] matches Effect::Received { result }
    &&& match result {
        Some(CommandResultView::NetworkList(names)) => encoding(
            block.skip(1),
            json_text(names),
            outcome,
        ),
        None => escalation(block.skip(1), ErrorKindView::RecvAccessPointSSIDs, outcome),
    }
}

/// The exchange of one list-networks request: one `Activate` is sent; where
/// the queue took it, the answer is received; any failure on the way is
/// escalated.
pub open spec fn ssid_exchange(block: Seq<Effect>, outcome: Result<ResponseView, FailureView>) -> bool {
    &&& block.len() >= 1
    &&& block[0] matches Effect::Sent { command, delivered }
    &&& command == CommandView::Activate
    &&& if delivered {
        reception(block.skip(1), outcome)
    } else {
        escalation(block.skip(1), ErrorKindView::SendNetworkCommandActivate, outcome)
    }
}

/// The exchange of one submit-connection request: one `Connect` with the
/// request's network and passphrase is sent, and no answer is awaited. The
/// outcome is an empty 200 where the queue took the command, and an
/// escalation where it did not.
pub open spec fn connect_exchange(
    block: Seq<Effect>,
    ssid: Seq<char>,
    passphrase: Seq<char>,
    outcome: Result<ResponseView, FailureView>,
) -> bool {
    &&& block.len() >= 1
    &&& block[0] matches Effect::Sent { command, delivered }
    &&& command == (CommandView::Connect { ssid, passphrase })
    &&& if delivered {
        block.len() == 1 && outcome == Ok::<ResponseView, FailureView>(
            ResponseView::ok(Seq::empty()),
        )
    } else {
        escalation(block.skip(1), ErrorKindView::SendNetworkCommandConnect, outcome)
    }
}

/// The commands in `block` that were handed to the command queue, taken or
/// not.
pub open spec fn commands_sent(block: Seq<Effect>) -> nat
    decreases block.len(),
{
    if block.len() == 0 {
        0
    } else {
        (if block[0] is Sent {
            1nat
        } else {
            0nat
        }) + commands_sent(block.skip(1))
    }
}

/// The answers in `block` that were taken off the response queue.
pub open spec fn results_consumed(block: Seq<Effect>) -> nat
    decreases block.len(),
{
    if block.len() == 0 {
        0
    } else {
        (if block[0] matches Effect::Received { result: Some(_) } {
            1nat
        } else {
            0nat
        }) + results_consumed(block.skip(1))
    }
}

/// The notices in `block` that were written to the exit queue.
pub open spec fn exit_notices(block: Seq<Effect>) -> nat
    decreases block.len(),
{
    if block.len() == 0 {
        0
    } else {
        (if block[0] is Exited {
            1nat
        } else {
            0nat
        }) + exit_notices(block.skip(1))
    }
}

/// The command queue took the command that `block` starts with.
pub open spec fn delivered(block: Seq<Effect>) -> bool {
    block.len() >= 1 && block[0] matches Effect::Sent { delivered: true, .. }
}

/// The worker answered the command that `block` starts with.
pub open spec fn answered(block: Seq<Effect>) -> bool {
    delivered(block) && block.len() >= 2 && block[1] matches Effect::Received { result: Some(_) }
}

/// The worker was gone when the command of `block` was sent, or when its
/// answer was awaited.
pub open spec fn disconnected(block: Seq<Effect>) -> bool {
    ||| block.len() >= 1 && block[0] matches Effect::Sent { delivered: false, .. }
    ||| block.len() >= 2 && block[1] matches Effect::Received { result: None }
}

/// A list-networks request sends exactly one command, an `Activate`. It
/// takes an answer off the response queue only after the command queue took
/// that `Activate`, and never more than one. Where the worker answered, it
/// takes exactly one; where the request succeeds, the body is the JSON text
/// of exactly that answer's list.
pub proof fn lemma_one_result_per_activate(
    block: Seq<Effect>,
    outcome: Result<ResponseView, FailureView>,
)
    requires
        ssid_exchange(block, outcome),
    ensures
        commands_sent(block) == 1,
        block[0] matches Effect::Sent { command: CommandView::Activate, .. },
        results_consumed(block) == (if answered(block) {
            1nat
        } else {
            0nat
        }),
        outcome matches Ok(response) ==> {
            &&& answered(block)
            &&& block[1] matches Effect::Received {
                result: Some(CommandResultView::NetworkList(names)),
            }
            &&& json_text(names) == Some(response.body)
            &&& response == ResponseView::ok(response.body)
        },
{
    reveal_with_fuel(commands_sent, 4);
    reveal_with_fuel(results_consumed, 4);
}

/// A list-networks request that finds the worker gone, before the command
/// or before the answer, fails with status 500 and writes exactly one
/// notice to the exit queue.
pub proof fn lemma_disconnect_is_escalated_once(
    block: Seq<Effect>,
    outcome: Result<ResponseView, FailureView>,
)
    requires
        ssid_exchange(block, outcome),
        disconnected(block),
    ensures
        outcome matches Err(failure) && failure.status == STATUS_INTERNAL_SERVER_ERROR,
        exit_notices(block) == 1,
{
    reveal_with_fuel(exit_notices, 4);
}

/// Whatever a list-networks request meets, it fails exactly if it wrote a
/// notice to the exit queue, it writes at most one, and it fails with
/// status 500 and the fixed description of one of the three kinds.
pub proof fn lemma_ssid_fails_with_one_notice(
    block: Seq<Effect>,
    outcome: Result<ResponseView, FailureView>,
)
    requires
        ssid_exchange(block, outcome),
    ensures
        exit_notices(block) == (if outcome is Err {
            1nat
        } else {
            0nat
        }),
        outcome matches Err(failure) ==> {
            &&& failure.status == STATUS_INTERNAL_SERVER_ERROR
            &&& {
                ||| failure.description
                    == ErrorKindView::SendNetworkCommandActivate.description()
                ||| failure.description == ErrorKindView::RecvAccessPointSSIDs.description()
                ||| failure.description == ErrorKindView::SerializeAccessPointSSIDs.description()
            }
        },
{
    reveal_with_fuel(exit_notices, 4);
}

/// A submit-connection request sends exactly one command, the `Connect` for
/// its network and passphrase, and awaits no answer. It succeeds with an
/// empty 200 exactly if the command queue took the command; else it fails
/// with status 500 and writes exactly one notice to the exit queue.
pub proof fn lemma_connect_sends_once(
    block: Seq<Effect>,
    ssid: Seq<char>,
    passphrase: Seq<char>,
    outcome: Result<ResponseView, FailureView>,
)
    requires
        connect_exchange(block, ssid, passphrase, outcome),
    ensures
        commands_sent(block) == 1,
        block[0] matches Effect::Sent { command, .. } && command == (CommandView::Connect {
            ssid,
            passphrase,
        }),
        results_consumed(block) == 0,
        outcome is Ok <==> delivered(block),
        outcome matches Ok(response) ==> response == ResponseView::ok(Seq::empty()),
        outcome matches Err(failure) ==> failure == FailureView::internal(
            ErrorKindView::SendNetworkCommandConnect.description(),
        ),
        exit_notices(block) == (if outcome is Err {
            1nat
        } else {
            0nat
        }),
{
    reveal_with_fuel(commands_sent, 4);
    reveal_with_fuel(results_consumed, 4);
    reveal_with_fuel(exit_notices, 4);
}

/// A submit-connection request as a whole, from the form that it carried.
/// It is served in two steps with the storing of the document between
/// them: the form is read, and the command of the request that was read is
/// sent. A form that is refused ends the request at the first step: the
/// outcome is the refusal, and nothing is done on the queues.
pub open spec fn submission(
    form: Seq<FormFieldView>,
    block: Seq<Effect>,
    outcome: Result<ResponseView, FailureView>,
) -> bool {
    match connect_request_of(form) {
        Ok(request) => connect_exchange(block, request.ssid, request.passphrase, outcome),
        Err(failure) => block.len() == 0 && outcome == Err::<ResponseView, FailureView>(failure),
    }
}

/// A submit-connection request whose form lacks `secret`, or holds it as
/// something else than text, fails with status 500, sends no command and
/// writes no notice to the exit queue.
pub proof fn lemma_submission_without_secret_stays_local(
    form: Seq<FormFieldView>,
    block: Seq<Effect>,
    outcome: Result<ResponseView, FailureView>,
)
    requires
        submission(form, block, outcome),
        !(lookup(form, "secret"@) matches Some(FieldValueView::Text(_))),
    ensures
        outcome matches Err(failure) && failure.status == STATUS_INTERNAL_SERVER_ERROR,
        commands_sent(block) == 0,
        exit_notices(block) == 0,
        block == Seq::<Effect>::empty(),
{
}

} // verus!
