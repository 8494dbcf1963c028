//! The state that all request handlers share: the gateway address and the
//! endpoints of the three queues. Whoever holds it exclusively may talk to
//! the network worker; the journal records what was said.

use vstd::prelude::*;
use std::sync::mpsc::{Receiver, Sender};
use crate::command::{Command, CommandResult, CommandResultView, CommandView};
use crate::error::{ExitSignal, ExitSignalView};
use crate::gateway::Gateway;

verus! {

/// One operation on the queues, with what came back.
pub enum Effect {
    /// A command was handed to the command queue, which took it or not.
    Sent { command: CommandView, delivered: bool },
    /// An answer was awaited on the response queue: the answer, or `None`
    /// where the worker was gone.
    Received { result: Option<CommandResultView> },
    /// A notice was written to the exit queue.
    Exited { signal: ExitSignalView },
}

/// The shared coordination state. There is one per process; a handler works
/// on it through `&mut`, so no two handlers use the queues at once.
pub struct RequestSharedState {
    gateway: Gateway,
    server_rx: Receiver<CommandResult>,
    network_tx: Sender<Command>,
    exit_tx: Sender<ExitSignal>,
    journal: Ghost<Seq<Effect>>,
}

impl RequestSharedState {
    /// Every operation made on the queues through this state, oldest first.
    pub closed spec fn journal(&self) -> Seq<Effect> {
        self.journal@
    }

    /// The gateway address.
    pub closed spec fn gateway_address(&self) -> Gateway {
        self.gateway
    }

    /// The state for `gateway` and the three endpoints. Nothing has been
    /// done on the queues through it yet.
    pub fn new(
        gateway: Gateway,
        server_rx: Receiver<CommandResult>,
        network_tx: Sender<Command>,
        exit_tx: Sender<ExitSignal>,
    ) -> (state: RequestSharedState)
        ensures
            state.gateway_address() == gateway,
            state.journal() == Seq::<Effect>::empty(),
    {
        RequestSharedState { gateway, server_rx, network_tx, exit_tx, journal: Ghost(Seq::empty()) }
    }

    /// The gateway address.
    pub fn gateway(&self) -> (gateway: Gateway)
        ensures
            gateway == self.gateway_address(),
    {
        self.gateway
    }

    /// Hands `command` to the command queue. Returns the queue's own words
    /// where it did not take it.
    pub fn send_command(&mut self, command: Command) -> (sent: Result<(), String>)
        ensures
            final(self).gateway_address() == old(self).gateway_address(),
            final(self).journal() == old(self).journal().push(
                Effect::Sent { command: command@, delivered: sent is Ok },
            ),
    {
        let ghost sent_command = command@;
        match self.network_tx.send(command) {
            Ok(()) => {
                self.journal = Ghost(
                    self.journal@.push(Effect::Sent { command: sent_command, delivered: true }),
                );
                Ok(())
            },
            Err(e) => {
                self.journal = Ghost(
                    self.journal@.push(Effect::Sent { command: sent_command, delivered: false }),
                );
                Err(e.to_string())
            },
        }
    }

    /// Waits for the next answer on the response queue. Returns the queue's
    /// own words where the worker is gone. It waits as long as the worker
    /// lives and does not answer: there is no timeout.
    pub fn receive(&mut self) -> (received: Result<CommandResult, String>)
        ensures
            final(self).gateway_address() == old(self).gateway_address(),
            final(self).journal() == old(self).journal().push(
                Effect::Received {
                    result: match received {
                        Ok(result) => Some(result@),
                        Err(_) => None,
                    },
                },
            ),
    {
        match self.server_rx.recv() {
            Ok(result) => {
                self.journal = Ghost(self.journal@.push(Effect::Received { result: Some(result@) }));
                Ok(result)
            },
            Err(e) => {
                self.journal = Ghost(self.journal@.push(Effect::Received { result: None }));
                Err(e.to_string())
            },
        }
    }

    /// Writes `signal` to the exit queue. A supervisor that is gone is not
    /// an error: the notice is then lost, and the journal still holds it.
    pub fn exit(&mut self, signal: ExitSignal)
        ensures
            final(self).gateway_address() == old(self).gateway_address(),
            final(self).journal() == old(self).journal().push(Effect::Exited { signal: signal@ }),
    {
        let ghost notice = signal@;
        let _ = self.exit_tx.send(signal);
        self.journal = Ghost(self.journal@.push(Effect::Exited { signal: notice }));
    }
}

} // verus!
