//! What the handlers ask of the network worker, and what it answers.

use vstd::prelude::*;

verus! {

/// A request to the network worker. The worker takes commands in the order
/// in which they were sent; nothing in a command says which HTTP request it
/// belongs to.
#[derive(Debug, Clone, PartialEq, Eq)]
pub enum Command {
    /// Ask for the networks that are visible now.
    Activate,
    /// Join the network `ssid` with `passphrase`.
    Connect { ssid: String, passphrase: String },
}

/// A [`Command`] as contracts see it.
pub enum CommandView {
    Activate,
    Connect { ssid: Seq<char>, passphrase: Seq<char> },
}

impl View for Command {
    type V = CommandView;

    open spec fn view(&self) -> CommandView {
        match *self {
            Command::Activate => CommandView::Activate,
            Command::Connect { ssid, passphrase } => CommandView::Connect {
                ssid: ssid@,
                passphrase: passphrase@,
            },
        }
    }
}

/// An answer of the network worker. It answers each `Activate` with one
/// result, in the order of the commands.
#[derive(Debug, Clone, PartialEq, Eq)]
pub enum CommandResult {
    /// The names of the networks that were visible, in the worker's order.
    NetworkList(Vec<String>),
}

/// A [`CommandResult`] as contracts see it.
pub enum CommandResultView {
    NetworkList(Seq<Seq<char>>),
}

impl View for CommandResult {
    type V = CommandResultView;

    open spec fn view(&self) -> CommandResultView {
        match *self {
            CommandResult::NetworkList(names) => CommandResultView::NetworkList(names.deep_view()),
        }
    }
}

} // verus!
