//! The captive-portal redirect: a client that asked for another host and
//! got an error is sent to the portal.
//!
//! A device that has just joined a network probes some host of its vendor
//! to see whether it is online. The portal does not serve that host, so the
//! probe fails; answering it with a redirect to the gateway is what makes
//! the device show the portal page.

use vstd::prelude::*;
use crate::gateway::Gateway;
use crate::http::{outcome_view, Failure, FailureView, Outcome, Response, ResponseView};
use crate::state::RequestSharedState;

verus! {

/// A request with this `Host` header did not address the portal at
/// `gateway`: the header is there and its host name is not the gateway's
/// dotted decimal text. The comparison is exact, letter for letter; the
/// header's port plays no part.
pub open spec fn addresses_another_host(gateway: Gateway, host: Option<&String>) -> bool {
    host matches Some(hostname) && hostname@ != gateway.text()
}

/// Runs after the handlers, on their outcome.
#[derive(Debug, Clone, Copy)]
pub struct RedirectMiddleware;

impl RedirectMiddleware {
    /// Decides what becomes of a failed request. Where the request
    /// addressed another host, the failure is dropped and the answer is a
    /// 302 to the portal's root; else the failure stays as it is.
    pub fn catch(&self, state: &RequestSharedState, host: Option<&String>, err: Failure) -> (outcome:
        Outcome)
        ensures
            addresses_another_host(state.gateway_address(), host) ==> outcome_view(outcome) == Ok::<
                ResponseView,
                FailureView,
            >(ResponseView::redirect(state.gateway_address().root_url())),
            !addresses_another_host(state.gateway_address(), host) ==> outcome == Err::<
                Response,
                Failure,
            >(err),
    {
        let gateway = state.gateway();
        if let Some(hostname) = host {
            let text = gateway.to_text();
            if *hostname != text {
                return Ok(Response::redirect(gateway.to_root_url()));
            }
        }
        Err(err)
    }

    /// Settles the outcome of a handler: a successful one is passed on as
    /// it is, a failed one is decided as [`RedirectMiddleware::catch`]
    /// decides it.
    pub fn settle(&self, state: &RequestSharedState, host: Option<&String>, outcome: Outcome) -> (last:
        Outcome)
        ensures
            outcome is Ok ==> last == outcome,
            outcome is Err && addresses_another_host(state.gateway_address(), host)
                ==> outcome_view(last) == Ok::<ResponseView, FailureView>(
                ResponseView::redirect(state.gateway_address().root_url()),
            ),
            outcome is Err && !addresses_another_host(state.gateway_address(), host) ==> last
                == outcome,
    {
        match outcome {
            Ok(response) => Ok(response),
            Err(err) => self.catch(state, host, err),
        }
    }
}

} // verus!
