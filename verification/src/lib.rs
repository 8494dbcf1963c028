//! The coordination layer of a captive-portal configuration daemon: what the
//! HTTP handlers decide, what they send to the network worker, and what they
//! answer.
//!
//! A device without a network opens an access point of its own. A client
//! joins it, asks the portal for the networks in reach and submits the
//! credentials of one. Each request becomes a command for the network
//! worker, which lives on a thread of its own behind a pair of queues; a
//! queue that fails is reported to the supervisor on a third queue.

pub mod channel;
pub mod command;
pub mod config;
pub mod error;
pub mod exchange;
pub mod exclusion;
pub mod gateway;
pub mod handlers;
pub mod http;
pub mod json;
pub mod params;
pub mod redirect;
pub mod state;
pub mod text;

pub use command::{Command, CommandResult};
pub use error::{ErrorKind, ExitSignal};
pub use gateway::Gateway;
pub use handlers::{connect, encoded_reply, exit_with_error, networks_reply, ssid};
pub use http::{
    Failure, Outcome, Response, StringError, STATUS_FOUND, STATUS_INTERNAL_SERVER_ERROR, STATUS_OK,
};
pub use params::{connect_request, find, get_param, ConnectRequest, FieldValue, FormField};
pub use redirect::RedirectMiddleware;
pub use state::RequestSharedState;
