//! Request and response shapes exchanged with the host, modelled as plain
//! values. The host's own wire encoding of these shapes is its concern; the
//! contracts here speak only of the values.

use vstd::prelude::*;
use crate::state::{Entry, Priority, Status};

verus! {

/// Caller identity and attached funds for one request, as the host reports
/// them. The registry reads only the sender.
#[derive(Debug)]
pub struct MessageInfo {
    pub sender: String,
    pub funds: Vec<Coin>,
}

/// One fungible balance: an amount of a named denomination.
#[derive(Debug, PartialEq)]
pub struct Coin {
    pub denom: String,
    pub amount: u128,
}

impl Clone for Coin {
    /// The clone keeps both fields, so it equals the original.
    fn clone(&self) -> (res: Self)
        ensures
            res == *self,
    {
        Coin { denom: self.denom.clone(), amount: self.amount }
    }
}

/// One observable key/value attribute of a successful call.
#[derive(Debug, PartialEq)]
pub struct Attribute {
    pub key: String,
    pub value: String,
}

/// An outbound instruction for the host's ledger, executed atomically with
/// the state commit.
#[derive(Debug, PartialEq)]
pub enum BankMsg {
    /// Destroy the given balances held by the contract itself.
    Burn { amount: Vec<Coin> },
}

/// What a successful call hands back to the host: observable attributes and
/// any outbound ledger instructions.
#[derive(Debug, PartialEq)]
pub struct Response {
    pub attributes: Vec<Attribute>,
    pub messages: Vec<BankMsg>,
}

/// Initialization input. With no owner supplied (or one the host rejects),
/// the initiating caller becomes owner.
#[derive(Debug)]
pub struct InstantiateMsg {
    pub owner: Option<String>,
}

/// The mutating request variants.
#[derive(Debug)]
#[allow(inconsistent_fields)]
pub enum ExecuteMsg {
    NewEntry { description: String, priority: Option<Priority> },
    UpdateEntry {
        id: u64,
        description: Option<String>,
        status: Option<Status>,
        priority: Option<Priority>,
    },
    DeleteEntry { id: u64 },
    TransferContractOwnership { new_owner: String },
    BurnContractBalance {},
}

/// The host's answers for one mutating request, gathered before dispatch:
/// whether the transfer target (if the request names one) is a well-formed
/// identity, and the balances the contract itself currently holds.
#[derive(Debug)]
pub struct HostInput {
    pub new_owner_valid: bool,
    pub balances: Vec<Coin>,
}

/// The read request variants. Reads are open to anyone.
#[derive(Debug)]
pub enum QueryMsg {
    QueryEntry { id: u64 },
    QueryList { start_after: Option<u64>, limit: Option<u32> },
}

/// A single entry, as a read request reports it.
#[derive(Debug, PartialEq)]
pub struct EntryResponse {
    pub id: u64,
    pub description: String,
    pub status: Status,
    pub priority: Priority,
}

/// One page of entries, ascending by id.
#[derive(Debug, PartialEq)]
pub struct ListResponse {
    pub entries: Vec<Entry>,
}

/// The answer to a read request.
#[derive(Debug, PartialEq)]
pub enum QueryResponse {
    Entry(EntryResponse),
    List(ListResponse),
}

} // verus!
