use vstd::prelude::*;

verus! {

/// The 32-byte identity of a ledger account (an authority or a reporter).
#[derive(Clone, Copy, Debug, PartialEq, Eq)]
pub struct AccountId {
    pub bytes: [u8; 32],
}

impl AccountId {
    /// Whether two identities are the same account.
    pub fn same_as(&self, other: &AccountId) -> (r: bool)
        ensures
            r == (self.bytes@ == other.bytes@),
    {
        broadcast use vstd::array::group_array_axioms;
        let mut i: usize = 0;
        while i < 32
            invariant
                0 <= i <= 32,
                self.bytes@.len() == 32,
                other.bytes@.len() == 32,
                forall|j: int| 0 <= j < i ==> self.bytes@[j] == other.bytes@[j],
            decreases 32 - i,
        {
            if self.bytes[i] != other.bytes[i] {
                return false;
            }
            i += 1;
        }
        assert(self.bytes@ =~= other.bytes@);
        true
    }
}

/// Smallest stake, in base units, that an oracle may register with; an
/// oracle reported below it is deactivated.
pub const MIN_STAKE: u64 = 100_000_000;

/// Longest accepted oracle name, in UTF-8 bytes.
pub const MAX_NAME_LEN: usize = 32;

/// Longest accepted endpoint, in UTF-8 bytes.
pub const MAX_ENDPOINT_LEN: usize = 128;

/// Longest accepted data-type label, in UTF-8 bytes.
pub const MAX_DATA_TYPE_LEN: usize = 32;

/// Reputation of a freshly registered oracle.
pub const INITIAL_REPUTATION: u16 = 100;

/// Reputation never rises above this.
pub const MAX_REPUTATION: u16 = 200;

/// Below this reputation an oracle may not record paid queries.
pub const EARNING_FLOOR: u16 = 50;

/// Below this reputation a penalised oracle is deactivated.
pub const DEACTIVATION_FLOOR: u16 = 20;

/// Reputation lost on a misbehaviour report.
pub const REPORT_PENALTY: u16 = 50;

/// Reputation lost when slashed for missing heartbeats.
pub const INACTIVITY_PENALTY: u16 = 100;

/// Expected heartbeat cadence given to a new oracle, in seconds.
pub const DEFAULT_HEARTBEAT_INTERVAL: i64 = 300;

/// One registered oracle.
#[derive(Clone, Debug, PartialEq, Eq)]
pub struct Oracle {
    pub authority: AccountId,
    pub name: String,
    pub mcp_endpoint: String,
    pub data_type: String,
    pub stake_amount: u64,
    pub reputation_score: u16,
    pub queries_served: u64,
    pub successful_queries: u64,
    pub last_heartbeat: i64,
    pub heartbeat_interval: i64,
    pub created_at: i64,
    pub is_active: bool,
    pub bump: u8,
}

/// The length of a text in UTF-8 bytes.
pub open spec fn byte_len(s: Seq<char>) -> nat {
    vstd::utf8::encode_utf8(s).len()
}

/// `a - b`, or 0 where `b` exceeds `a`.
pub open spec fn floored_sub(a: int, b: int) -> int {
    if a >= b {
        a - b
    } else {
        0
    }
}

/// Reputation after one more successful query.
pub open spec fn raised_reputation(r: u16) -> u16 {
    if r < MAX_REPUTATION {
        (r + 1) as u16
    } else {
        r
    }
}

/// The stake removed by one report or one inactivity slash: a tenth, rounded down.
pub open spec fn slash_of(stake: u64) -> u64 {
    stake / 10
}

/// The part of a report's slash paid to the reporter: half, rounded down.
pub open spec fn report_reward_of(stake: u64) -> u64 {
    slash_of(stake) / 2
}

/// Whether more than three heartbeat intervals have passed since the last heartbeat.
pub open spec fn overdue(now: i64, last_heartbeat: i64, interval: i64) -> bool {
    now - last_heartbeat > 3 * interval
}

impl Oracle {
    /// The invariant every live record keeps: metadata within its limits,
    /// reputation at most the ceiling, both query counters equal, and an
    /// active oracle at or above the deactivation floor.
    pub open spec fn wf(&self) -> bool {
        &&& byte_len(self.name@) <= MAX_NAME_LEN
        &&& byte_len(self.mcp_endpoint@) <= MAX_ENDPOINT_LEN
        &&& byte_len(self.data_type@) <= MAX_DATA_TYPE_LEN
        &&& self.reputation_score <= MAX_REPUTATION
        &&& self.queries_served == self.successful_queries
        &&& self.is_active ==> self.reputation_score >= DEACTIVATION_FLOOR
    }

    /// The record after one recorded query.
    pub open spec fn after_query(self) -> Oracle {
        Oracle {
            queries_served: (self.queries_served + 1) as u64,
            successful_queries: (self.successful_queries + 1) as u64,
            reputation_score: raised_reputation(self.reputation_score),
            ..self
        }
    }

    /// The record after one misbehaviour report.
    pub open spec fn after_report(self) -> Oracle {
        let rep = floored_sub(self.reputation_score as int, REPORT_PENALTY as int) as u16;
        let stake = (self.stake_amount - slash_of(self.stake_amount)) as u64;
        Oracle {
            reputation_score: rep,
            stake_amount: stake,
            is_active: self.is_active && !(rep < DEACTIVATION_FLOOR || stake < MIN_STAKE),
            ..self
        }
    }

    /// The record after one slash for inactivity.
    pub open spec fn after_inactivity_slash(self) -> Oracle {
        let rep = floored_sub(self.reputation_score as int, INACTIVITY_PENALTY as int) as u16;
        Oracle {
            reputation_score: rep,
            stake_amount: (self.stake_amount - slash_of(self.stake_amount)) as u64,
            is_active: self.is_active && rep >= DEACTIVATION_FLOOR,
            ..self
        }
    }

    /// The record after a heartbeat at time `now`.
    pub open spec fn after_heartbeat(self, now: i64) -> Oracle {
        Oracle { last_heartbeat: now, ..self }
    }
}

/// Why an operation on the registry was refused.
#[derive(Clone, Copy, Debug, PartialEq, Eq)]
pub enum PyxisError {
    NameTooLong,
    EndpointTooLong,
    DataTypeTooLong,
    InsufficientStake,
    OracleInactive,
    OracleStillActive,
    ReputationTooLowToEarn,
    /// The caller is not the oracle's authority.
    Unauthorized,
    /// An oracle with this authority and name already exists.
    OracleAlreadyExists,
    /// The authority cannot pay the stake it offers.
    InsufficientFunds,
}

impl PyxisError {
    /// The message that explains the error.
    pub fn message(&self) -> (r: &'static str)
        ensures
            match *self {
            PyxisError::NameTooLong => r@ == "Oracle name too long (max 32 chars)"@,
            PyxisError::EndpointTooLong => r@ == "MCP endpoint too long (max 128 chars)"@,
            PyxisError::DataTypeTooLong => r@ == "Data type too long (max 32 chars)"@,
            PyxisError::InsufficientStake => r@ == "Insufficient stake amount (min 0.1 SOL)"@,
            PyxisError::OracleInactive => r@ == "Oracle is inactive"@,
            PyxisError::OracleStillActive => r@ == "Oracle is still active, deactivate first"@,
            PyxisError::ReputationTooLowToEarn => r@ == "Reputation too low to process paid queries"@,
            PyxisError::Unauthorized => r@ == "Caller is not the oracle's authority"@,
            PyxisError::OracleAlreadyExists => r@ == "Oracle already registered under this name"@,
            PyxisError::InsufficientFunds => r@ == "Authority cannot pay the stake"@,
            },
    {
        match self {
            PyxisError::NameTooLong => "Oracle name too long (max 32 chars)",
            PyxisError::EndpointTooLong => "MCP endpoint too long (max 128 chars)",
            PyxisError::DataTypeTooLong => "Data type too long (max 32 chars)",
            PyxisError::InsufficientStake => "Insufficient stake amount (min 0.1 SOL)",
            PyxisError::OracleInactive => "Oracle is inactive",
            PyxisError::OracleStillActive => "Oracle is still active, deactivate first",
            PyxisError::ReputationTooLowToEarn => "Reputation too low to process paid queries",
            PyxisError::Unauthorized => "Caller is not the oracle's authority",
            PyxisError::OracleAlreadyExists => "Oracle already registered under this name",
            PyxisError::InsufficientFunds => "Authority cannot pay the stake",
        }
    }
}

} // verus!
