use vstd::prelude::*;

use crate::events::{
    HeartbeatEvent, OracleRegistered, OracleReported, OracleSlashed, QueryRecorded, StakeWithdrawn,
};
use crate::state::{
    byte_len, floored_sub, overdue, report_reward_of, slash_of, AccountId, Oracle, PyxisError,
    DEACTIVATION_FLOOR, DEFAULT_HEARTBEAT_INTERVAL, EARNING_FLOOR, INACTIVITY_PENALTY,
    INITIAL_REPUTATION, MAX_DATA_TYPE_LEN, MAX_ENDPOINT_LEN, MAX_NAME_LEN, MAX_REPUTATION,
    MIN_STAKE, REPORT_PENALTY,
};

verus! {

/// A ledger account as the registry sees it: its identity and its balance.
#[derive(Clone, Copy, Debug, PartialEq, Eq)]
pub struct Wallet {
    pub key: AccountId,
    pub lamports: u64,
}

/// What a registration touches: the paying authority, the slot for the
/// record keyed by (authority, name), the stake vault, and the time.
#[derive(Clone, Debug, PartialEq, Eq)]
pub struct RegisterOracle {
    pub authority: Wallet,
    pub oracle: Option<Oracle>,
    pub stake_vault: u64,
    pub now: i64,
    pub bump: u8,
}

/// The record a successful registration creates.
pub open spec fn registered_record(
    authority: AccountId,
    name: String,
    mcp_endpoint: String,
    data_type: String,
    stake_amount: u64,
    now: i64,
    bump: u8,
) -> Oracle {
    Oracle {
        authority,
        name,
        mcp_endpoint,
        data_type,
        stake_amount,
        reputation_score: INITIAL_REPUTATION,
        queries_served: 0,
        successful_queries: 0,
        last_heartbeat: now,
        heartbeat_interval: DEFAULT_HEARTBEAT_INTERVAL,
        created_at: now,
        is_active: true,
        bump,
    }
}

/// The error a registration meets, checked in this order, or `None`.
/// Text lengths are counted in UTF-8 bytes, as the record stores them.
pub open spec fn register_error(
    ctx: RegisterOracle,
    name: Seq<char>,
    mcp_endpoint: Seq<char>,
    data_type: Seq<char>,
    stake_amount: u64,
) -> Option<PyxisError> {
    if ctx.oracle is Some {
        Some(PyxisError::OracleAlreadyExists)
    } else if byte_len(name) > MAX_NAME_LEN {
        Some(PyxisError::NameTooLong)
    } else if byte_len(mcp_endpoint) > MAX_ENDPOINT_LEN {
        Some(PyxisError::EndpointTooLong)
    } else if stake_amount < MIN_STAKE {
        Some(PyxisError::InsufficientStake)
    } else if byte_len(data_type) > MAX_DATA_TYPE_LEN {
        Some(PyxisError::DataTypeTooLong)
    } else if ctx.authority.lamports < stake_amount {
        Some(PyxisError::InsufficientFunds)
    } else {
        None
    }
}

/// Registers a new oracle owned by the paying authority and moves its
/// stake from the authority into the vault.
pub fn register_oracle(
    ctx: &mut RegisterOracle,
    name: String,
    mcp_endpoint: String,
    data_type: String,
    stake_amount: u64,
) -> (r: Result<OracleRegistered, PyxisError>)
    requires
        old(ctx).stake_vault + stake_amount <= u64::MAX,
    ensures
        match r {
            Err(e) => {
                &&& register_error(*old(ctx), name@, mcp_endpoint@, data_type@, stake_amount)
                    == Some(e)
                &&& *final(ctx) == *old(ctx)
            },
            Ok(ev) => {
                &&& register_error(*old(ctx), name@, mcp_endpoint@, data_type@, stake_amount)
                    is None
                &&& final(ctx).oracle == Some(
                    registered_record(
                        old(ctx).authority.key,
                        name,
                        mcp_endpoint,
                        data_type,
                        stake_amount,
                        old(ctx).now,
                        old(ctx).bump,
                    ),
                )
                &&& final(ctx).stake_vault == old(ctx).stake_vault + stake_amount
                &&& final(ctx).authority.key == old(ctx).authority.key
                &&& final(ctx).authority.lamports == old(ctx).authority.lamports - stake_amount
                &&& final(ctx).now == old(ctx).now
                &&& final(ctx).bump == old(ctx).bump
                &&& ev == (OracleRegistered {
                    authority: old(ctx).authority.key,
                    name,
                    mcp_endpoint,
                    stake_amount,
                })
            },
        },
        r is Ok ==> final(ctx).oracle->Some_0.wf(),
        r is Ok ==> final(ctx).stake_vault >= final(ctx).oracle->Some_0.stake_amount,
        (old(ctx).oracle is None && byte_len(name@) <= MAX_NAME_LEN && byte_len(mcp_endpoint@)
            <= MAX_ENDPOINT_LEN && byte_len(data_type@) <= MAX_DATA_TYPE_LEN && stake_amount
            >= MIN_STAKE && old(ctx).authority.lamports >= stake_amount) ==> {
            &&& r is Ok
            &&& final(ctx).oracle->Some_0.reputation_score == INITIAL_REPUTATION
            &&& final(ctx).oracle->Some_0.is_active
            &&& final(ctx).stake_vault == old(ctx).stake_vault + stake_amount
        },
{
    if ctx.oracle.is_some() {
        return Err(PyxisError::OracleAlreadyExists);
    }
    if name.as_str().as_bytes().len() > MAX_NAME_LEN {
        return Err(PyxisError::NameTooLong);
    }
    if mcp_endpoint.as_str().as_bytes().len() > MAX_ENDPOINT_LEN {
        return Err(PyxisError::EndpointTooLong);
    }
    if stake_amount < MIN_STAKE {
        return Err(PyxisError::InsufficientStake);
    }
    if data_type.as_str().as_bytes().len() > MAX_DATA_TYPE_LEN {
        return Err(PyxisError::DataTypeTooLong);
    }
    if ctx.authority.lamports < stake_amount {
        return Err(PyxisError::InsufficientFunds);
    }
    let ev = OracleRegistered {
        authority: ctx.authority.key,
        name: name.clone(),
        mcp_endpoint: mcp_endpoint.clone(),
        stake_amount,
    };
    ctx.oracle = Some(
        Oracle {
            authority: ctx.authority.key,
            name,
            mcp_endpoint,
            data_type,
            stake_amount,
            reputation_score: INITIAL_REPUTATION,
            queries_served: 0,
            successful_queries: 0,
            last_heartbeat: ctx.now,
            heartbeat_interval: DEFAULT_HEARTBEAT_INTERVAL,
            created_at: ctx.now,
            is_active: true,
            bump: ctx.bump,
        },
    );
    ctx.authority.lamports = ctx.authority.lamports - stake_amount;
    ctx.stake_vault = ctx.stake_vault + stake_amount;
    Ok(ev)
}

/// What recording a query touches: the calling account and its oracle.
#[derive(Clone, Debug, PartialEq, Eq)]
pub struct RecordQuery {
    pub authority: AccountId,
    pub oracle: Oracle,
}

/// The error recording a query meets, checked in this order, or `None`.
pub open spec fn record_query_error(ctx: RecordQuery) -> Option<PyxisError> {
    if ctx.authority.bytes@ != ctx.oracle.authority.bytes@ {
        Some(PyxisError::Unauthorized)
    } else if !ctx.oracle.is_active {
        Some(PyxisError::OracleInactive)
    } else if ctx.oracle.reputation_score < EARNING_FLOOR {
        Some(PyxisError::ReputationTooLowToEarn)
    } else {
        None
    }
}

/// Records a query that the oracle served: both counters rise by one and
/// the reputation by one, up to the ceiling.
pub fn record_query(ctx: &mut RecordQuery, query_id: String, payment_amount: u64) -> (r: Result<
    QueryRecorded,
    PyxisError,
>)
    requires
        old(ctx).oracle.queries_served < u64::MAX,
        old(ctx).oracle.successful_queries < u64::MAX,
    ensures
        match r {
            Err(e) => record_query_error(*old(ctx)) == Some(e) && *final(ctx) == *old(ctx),
            Ok(ev) => {
                &&& record_query_error(*old(ctx)) is None
                &&& final(ctx).oracle == old(ctx).oracle.after_query()
                &&& final(ctx).authority == old(ctx).authority
                &&& ev == (QueryRecorded {
                    query_id,
                    payment_amount,
                    new_reputation: final(ctx).oracle.reputation_score,
                })
            },
        },
        old(ctx).oracle.wf() ==> final(ctx).oracle.wf(),
        final(ctx).oracle.reputation_score >= old(ctx).oracle.reputation_score,
        old(ctx).oracle.reputation_score <= MAX_REPUTATION ==> final(ctx).oracle.reputation_score
            <= MAX_REPUTATION,
        old(ctx).oracle.queries_served == old(ctx).oracle.successful_queries
            ==> final(ctx).oracle.queries_served == final(ctx).oracle.successful_queries,
        (old(ctx).authority.bytes@ == old(ctx).oracle.authority.bytes@ && !old(ctx).oracle.is_active)
            ==> r == Err::<QueryRecorded, PyxisError>(PyxisError::OracleInactive),
        (old(ctx).authority.bytes@ == old(ctx).oracle.authority.bytes@ && old(ctx).oracle.is_active
            && old(ctx).oracle.reputation_score < EARNING_FLOOR) ==> r == Err::<
            QueryRecorded,
            PyxisError,
        >(PyxisError::ReputationTooLowToEarn),
{
    if !ctx.authority.same_as(&ctx.oracle.authority) {
        return Err(PyxisError::Unauthorized);
    }
    if !ctx.oracle.is_active {
        return Err(PyxisError::OracleInactive);
    }
    if ctx.oracle.reputation_score < EARNING_FLOOR {
        return Err(PyxisError::ReputationTooLowToEarn);
    }
    ctx.oracle.queries_served = ctx.oracle.queries_served + 1;
    ctx.oracle.successful_queries = ctx.oracle.successful_queries + 1;
    if ctx.oracle.reputation_score < MAX_REPUTATION {
        ctx.oracle.reputation_score = ctx.oracle.reputation_score + 1;
    }
    Ok(QueryRecorded { query_id, payment_amount, new_reputation: ctx.oracle.reputation_score })
}

/// What a misbehaviour report touches: the reporter, the oracle and its vault.
#[derive(Clone, Debug, PartialEq, Eq)]
pub struct ReportOracle {
    pub reporter: Wallet,
    pub oracle: Oracle,
    pub stake_vault: u64,
}

/// Reports bad data from an oracle. Anyone may report, at any time: the
/// reputation falls by 50 (not below 0), a tenth of the stake is slashed,
/// half of the slash goes from the vault to the reporter, and the oracle
/// is deactivated once its reputation is below 20 or its stake below the
/// minimum.
pub fn report_oracle(ctx: &mut ReportOracle, reason: String) -> (r: Result<
    OracleReported,
    PyxisError,
>)
    requires
        old(ctx).stake_vault >= old(ctx).oracle.stake_amount,
        old(ctx).reporter.lamports + report_reward_of(old(ctx).oracle.stake_amount) <= u64::MAX,
    ensures
        r is Ok,
        final(ctx).oracle == old(ctx).oracle.after_report(),
        final(ctx).stake_vault == old(ctx).stake_vault - report_reward_of(
            old(ctx).oracle.stake_amount,
        ),
        final(ctx).reporter.key == old(ctx).reporter.key,
        final(ctx).reporter.lamports == old(ctx).reporter.lamports + report_reward_of(
            old(ctx).oracle.stake_amount,
        ),
        final(ctx).stake_vault >= final(ctx).oracle.stake_amount,
        old(ctx).oracle.wf() ==> final(ctx).oracle.wf(),
        final(ctx).oracle.stake_amount == old(ctx).oracle.stake_amount - old(
            ctx,
        ).oracle.stake_amount / 10,
        final(ctx).oracle.reputation_score == floored_sub(
            old(ctx).oracle.reputation_score as int,
            REPORT_PENALTY as int,
        ),
        final(ctx).oracle.is_active == (old(ctx).oracle.is_active
            && final(ctx).oracle.reputation_score >= DEACTIVATION_FLOOR
            && final(ctx).oracle.stake_amount >= MIN_STAKE),
        r == Ok::<OracleReported, PyxisError>(
            OracleReported {
                reporter: old(ctx).reporter.key,
                reason,
                new_reputation: final(ctx).oracle.reputation_score,
                is_active: final(ctx).oracle.is_active,
                slashed_amount: slash_of(old(ctx).oracle.stake_amount),
            },
        ),
{
    ctx.oracle.reputation_score = ctx.oracle.reputation_score.saturating_sub(REPORT_PENALTY);
    let slash_amount = ctx.oracle.stake_amount / 10;
    ctx.oracle.stake_amount = ctx.oracle.stake_amount.saturating_sub(slash_amount);
    let reward_amount = slash_amount / 2;
    ctx.stake_vault = ctx.stake_vault - reward_amount;
    ctx.reporter.lamports = ctx.reporter.lamports + reward_amount;
    if ctx.oracle.reputation_score < DEACTIVATION_FLOOR || ctx.oracle.stake_amount < MIN_STAKE {
        ctx.oracle.is_active = false;
    }
    Ok(
        OracleReported {
            reporter: ctx.reporter.key,
            reason,
            new_reputation: ctx.oracle.reputation_score,
            is_active: ctx.oracle.is_active,
            slashed_amount: slash_amount,
        },
    )
}

/// What a withdrawal touches: the calling authority, the record (gone
/// once withdrawn) and its vault.
#[derive(Clone, Debug, PartialEq, Eq)]
pub struct WithdrawStake {
    pub authority: Wallet,
    pub oracle: Option<Oracle>,
    pub stake_vault: u64,
}

/// The error a withdrawal meets, checked in this order, or `None`.
pub open spec fn withdraw_error(ctx: WithdrawStake) -> Option<PyxisError> {
    if ctx.authority.key.bytes@ != ctx.oracle->Some_0.authority.bytes@ {
        Some(PyxisError::Unauthorized)
    } else if ctx.oracle->Some_0.is_active {
        Some(PyxisError::OracleStillActive)
    } else {
        None
    }
}

/// The accounts after a successful withdrawal: the recorded stake leaves
/// the vault for the authority and the record is gone.
pub open spec fn withdrawn(ctx: WithdrawStake) -> WithdrawStake {
    let stake = ctx.oracle->Some_0.stake_amount;
    WithdrawStake {
        authority: Wallet { key: ctx.authority.key, lamports: (ctx.authority.lamports + stake) as u64 },
        oracle: None,
        stake_vault: (ctx.stake_vault - stake) as u64,
    }
}

/// Returns the whole recorded stake of a deactivated oracle to its
/// authority and closes the record. Only the recorded stake leaves the
/// vault: the half of each report's slash that was not paid to the
/// reporter stays in the vault and is not returned.
pub fn withdraw_stake(ctx: &mut WithdrawStake) -> (r: Result<StakeWithdrawn, PyxisError>)
    requires
        old(ctx).oracle is Some,
        old(ctx).stake_vault >= old(ctx).oracle->Some_0.stake_amount,
        old(ctx).authority.lamports + old(ctx).oracle->Some_0.stake_amount <= u64::MAX,
    ensures
        match r {
            Err(e) => withdraw_error(*old(ctx)) == Some(e) && *final(ctx) == *old(ctx),
            Ok(ev) => {
                let stake = old(ctx).oracle->Some_0.stake_amount;
                &&& withdraw_error(*old(ctx)) is None
                &&& final(ctx).oracle is None
                &&& final(ctx).stake_vault == old(ctx).stake_vault - stake
                &&& final(ctx).authority.key == old(ctx).authority.key
                &&& final(ctx).authority.lamports == old(ctx).authority.lamports + stake
                &&& *final(ctx) == withdrawn(*old(ctx))
                &&& ev == (StakeWithdrawn { authority: old(ctx).authority.key, amount: stake })
            },
        },
{
    let stake_amount = match &ctx.oracle {
        Some(oracle) => {
            if !ctx.authority.key.same_as(&oracle.authority) {
                return Err(PyxisError::Unauthorized);
            }
            if oracle.is_active {
                return Err(PyxisError::OracleStillActive);
            }
            oracle.stake_amount
        },
        None => 0,
    };
    ctx.stake_vault = ctx.stake_vault - stake_amount;
    ctx.authority.lamports = ctx.authority.lamports + stake_amount;
    ctx.oracle = None;
    Ok(StakeWithdrawn { authority: ctx.authority.key, amount: stake_amount })
}

/// What a heartbeat touches: the calling account, its oracle and the time.
#[derive(Clone, Debug, PartialEq, Eq)]
pub struct SendHeartbeat {
    pub authority: AccountId,
    pub oracle: Oracle,
    pub now: i64,
}

/// The error a heartbeat meets, checked in this order, or `None`.
pub open spec fn heartbeat_error(ctx: SendHeartbeat) -> Option<PyxisError> {
    if ctx.authority.bytes@ != ctx.oracle.authority.bytes@ {
        Some(PyxisError::Unauthorized)
    } else if !ctx.oracle.is_active {
        Some(PyxisError::OracleInactive)
    } else {
        None
    }
}

/// Records proof of life: the oracle's last heartbeat becomes now.
pub fn send_heartbeat(ctx: &mut SendHeartbeat) -> (r: Result<HeartbeatEvent, PyxisError>)
    ensures
        match r {
            Err(e) => heartbeat_error(*old(ctx)) == Some(e) && *final(ctx) == *old(ctx),
            Ok(ev) => {
                &&& heartbeat_error(*old(ctx)) is None
                &&& final(ctx).oracle == old(ctx).oracle.after_heartbeat(old(ctx).now)
                &&& final(ctx).authority == old(ctx).authority
                &&& final(ctx).now == old(ctx).now
                &&& ev == (HeartbeatEvent { timestamp: old(ctx).now })
            },
        },
        old(ctx).oracle.wf() ==> final(ctx).oracle.wf(),
{
    if !ctx.authority.same_as(&ctx.oracle.authority) {
        return Err(PyxisError::Unauthorized);
    }
    if !ctx.oracle.is_active {
        return Err(PyxisError::OracleInactive);
    }
    ctx.oracle.last_heartbeat = ctx.now;
    Ok(HeartbeatEvent { timestamp: ctx.now })
}

/// What a slash for inactivity touches: the reporter, the oracle, its
/// vault and the time.
#[derive(Clone, Debug, PartialEq, Eq)]
pub struct SlashInactive {
    pub reporter: Wallet,
    pub oracle: Oracle,
    pub stake_vault: u64,
    pub now: i64,
}

/// Slashes an oracle that has missed three heartbeat intervals: a tenth of
/// its stake goes from the vault to the reporter, its reputation falls by
/// 100 (not below 0), and it is deactivated once below 20.
pub fn slash_inactive_oracle(ctx: &mut SlashInactive) -> (r: Result<OracleSlashed, PyxisError>)
    requires
        old(ctx).stake_vault >= old(ctx).oracle.stake_amount,
        old(ctx).reporter.lamports + slash_of(old(ctx).oracle.stake_amount) <= u64::MAX,
    ensures
        match r {
            Err(e) => {
                &&& e == PyxisError::OracleStillActive
                &&& !overdue(old(ctx).now, old(ctx).oracle.last_heartbeat, old(ctx).oracle.heartbeat_interval)
                &&& *final(ctx) == *old(ctx)
            },
            Ok(ev) => {
                let penalty = slash_of(old(ctx).oracle.stake_amount);
                &&& overdue(old(ctx).now, old(ctx).oracle.last_heartbeat, old(ctx).oracle.heartbeat_interval)
                &&& final(ctx).oracle == old(ctx).oracle.after_inactivity_slash()
                &&& final(ctx).stake_vault == old(ctx).stake_vault - penalty
                &&& final(ctx).reporter.key == old(ctx).reporter.key
                &&& final(ctx).reporter.lamports == old(ctx).reporter.lamports + penalty
                &&& final(ctx).now == old(ctx).now
                &&& final(ctx).stake_vault >= final(ctx).oracle.stake_amount
                &&& ev == (OracleSlashed { reporter: old(ctx).reporter.key, amount: penalty })
            },
        },
        old(ctx).oracle.wf() ==> final(ctx).oracle.wf(),
{
    let elapsed: i128 = ctx.now as i128 - ctx.oracle.last_heartbeat as i128;
    if elapsed <= ctx.oracle.heartbeat_interval as i128 * 3 {
        return Err(PyxisError::OracleStillActive);
    }
    let penalty = ctx.oracle.stake_amount / 10;
    ctx.oracle.stake_amount = ctx.oracle.stake_amount - penalty;
    ctx.oracle.reputation_score = ctx.oracle.reputation_score.saturating_sub(INACTIVITY_PENALTY);
    if ctx.oracle.reputation_score < DEACTIVATION_FLOOR {
        ctx.oracle.is_active = false;
    }
    ctx.stake_vault = ctx.stake_vault - penalty;
    ctx.reporter.lamports = ctx.reporter.lamports + penalty;
    Ok(OracleSlashed { reporter: ctx.reporter.key, amount: penalty })
}

} // verus!
