//! What the contract keeps between callbacks.

use crate::channel::{Endpoint, EndpointView};
use cosmwasm_std::StdError;
use vstd::prelude::*;

verus! {

/// The counter, and the one slot for the counterparty's endpoint of the
/// channel that the contract is bound to. The slot is empty until a handshake
/// completes and is filled once.
#[derive(Clone, Debug, PartialEq, Eq)]
pub struct State {
    pub count: i32,
    pub endpoint: Option<Endpoint>,
}

/// A [`State`] with the counter as an integer and the endpoint by its view.
pub struct StateView {
    pub count: int,
    pub endpoint: Option<EndpointView>,
}

impl StateView {
    /// Whether the channel slot holds an endpoint.
    pub open spec fn is_bound(self) -> bool {
        self.endpoint is Some
    }

    /// This state with `endpoint` in the channel slot.
    pub open spec fn bind(self, endpoint: EndpointView) -> StateView {
        StateView { count: self.count, endpoint: Some(endpoint) }
    }

    /// This state with the counter one higher.
    pub open spec fn increment(self) -> StateView {
        StateView { count: self.count + 1, endpoint: self.endpoint }
    }
}

impl View for State {
    type V = StateView;

    open spec fn view(&self) -> StateView {
        StateView {
            count: self.count as int,
            endpoint: match self.endpoint {
                Some(endpoint) => Some(endpoint@),
                None => None,
            },
        }
    }
}

/// What reading the stored state gave, with the state by its view.
pub open spec fn stored_view(stored: Result<State, StdError>) -> Result<StateView, StdError> {
    match stored {
        Ok(state) => Ok(state@),
        Err(e) => Err(e),
    }
}

} // verus!
