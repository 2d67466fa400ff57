//! The contract's own operation on the counter, as a local caller reaches it.

use crate::error::ContractError;
use crate::msg::ExecuteMsg;
use crate::state::{stored_view, State, StateView};
use cosmwasm_std::StdError;
use vstd::prelude::*;

verus! {

/// Where a callback runs: the address of the contract itself.
#[derive(Clone, Debug, PartialEq, Eq)]
pub struct Env {
    pub contract_address: String,
}

/// An [`Env`] with the address as a sequence of characters.
pub struct EnvView {
    pub contract_address: Seq<char>,
}

impl View for Env {
    type V = EnvView;

    open spec fn view(&self) -> EnvView {
        EnvView { contract_address: self.contract_address@ }
    }
}

/// An amount of one denomination.
#[derive(Clone, Debug, PartialEq, Eq)]
pub struct Coin {
    pub denom: String,
    pub amount: u128,
}

/// A [`Coin`] with the denomination as a sequence of characters.
pub struct CoinView {
    pub denom: Seq<char>,
    pub amount: u128,
}

impl View for Coin {
    type V = CoinView;

    open spec fn view(&self) -> CoinView {
        CoinView { denom: self.denom@, amount: self.amount }
    }
}

/// Who calls an operation, and the funds sent along.
#[derive(Clone, Debug, PartialEq, Eq)]
pub struct MessageInfo {
    pub sender: String,
    pub funds: Vec<Coin>,
}

/// A [`MessageInfo`] with the sender as a sequence of characters and the
/// funds by their views, in their order.
#[verifier::ext_equal]
pub struct MessageInfoView {
    pub sender: Seq<char>,
    pub funds: Seq<CoinView>,
}

impl View for MessageInfo {
    type V = MessageInfoView;

    open spec fn view(&self) -> MessageInfoView {
        MessageInfoView {
            sender: self.sender@,
            funds: self.funds@.map_values(|coin: Coin| coin@),
        }
    }
}

/// The caller under which the contract in `env` calls itself: the sender is
/// the contract's own address, and no funds are attached.
pub open spec fn own_caller(env: EnvView) -> MessageInfoView {
    MessageInfoView { sender: env.contract_address, funds: Seq::empty() }
}

/// The caller under which the contract calls itself.
pub fn own_call(env: &Env) -> (info: MessageInfo)
    ensures
        info@ =~= own_caller(env@),
{
    MessageInfo { sender: env.contract_address.clone(), funds: Vec::new() }
}

/// What the operation `msg` answers to the caller `info` on what reading the
/// stored state gave: the state to write, or the error of the read. Any
/// caller may raise the counter, with or without funds.
pub open spec fn executed(
    stored: Result<StateView, StdError>,
    info: MessageInfoView,
    msg: ExecuteMsg,
) -> Result<StateView, ContractError> {
    match stored {
        Err(e) => Err(ContractError::Std(e)),
        Ok(state) => match msg {
            ExecuteMsg::Increment {  } => Ok(state.increment()),
        },
    }
}

/// Runs the operation `msg` for the caller `info` on what reading the stored
/// state gave. The counter must have room for one more.
#[allow(unused_variables)]
pub fn execute(stored: Result<State, StdError>, env: &Env, info: MessageInfo, msg: ExecuteMsg) -> (r:
    Result<State, ContractError>)
    requires
        stored matches Ok(state) ==> state.count < i32::MAX,
    ensures
        match executed(stored_view(stored), info@, msg) {
            Ok(next) => r matches Ok(state) && state@ == next,
            Err(e) => r matches Err(x) && x == e,
        },
{
    let state = match stored {
        Ok(state) => state,
        Err(e) => {
            return Err(ContractError::Std(e));
        },
    };
    match msg {
        ExecuteMsg::Increment {  } => Ok(State { count: state.count + 1, endpoint: state.endpoint }),
    }
}

} // verus!
