use vstd::prelude::*;

use crate::state::AccountId;

verus! {

/// Notification of a new registration.
#[derive(Clone, Debug, PartialEq, Eq)]
pub struct OracleRegistered {
    pub authority: AccountId,
    pub name: String,
    pub mcp_endpoint: String,
    pub stake_amount: u64,
}

/// Notification of a recorded query.
#[derive(Clone, Debug, PartialEq, Eq)]
pub struct QueryRecorded {
    pub query_id: String,
    pub payment_amount: u64,
    pub new_reputation: u16,
}

/// Notification of a misbehaviour report.
#[derive(Clone, Debug, PartialEq, Eq)]
pub struct OracleReported {
    pub reporter: AccountId,
    pub reason: String,
    pub new_reputation: u16,
    pub is_active: bool,
    pub slashed_amount: u64,
}

/// Notification that an oracle's stake went back to its authority.
#[derive(Clone, Copy, Debug, PartialEq, Eq)]
pub struct StakeWithdrawn {
    pub authority: AccountId,
    pub amount: u64,
}

/// Notification of a heartbeat.
#[derive(Clone, Copy, Debug, PartialEq, Eq)]
pub struct HeartbeatEvent {
    pub timestamp: i64,
}

/// Notification of a slash for missed heartbeats.
#[derive(Clone, Copy, Debug, PartialEq, Eq)]
pub struct OracleSlashed {
    pub reporter: AccountId,
    pub amount: u64,
}

} // verus!
