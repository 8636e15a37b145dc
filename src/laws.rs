use vstd::prelude::*;

use crate::registry::{
    record_query_error, register_error, registered_record, withdraw_error, withdrawn, RecordQuery,
    RegisterOracle, WithdrawStake,
};
use crate::state::{
    byte_len, floored_sub, report_reward_of, slash_of, Oracle, DEACTIVATION_FLOOR,
    EARNING_FLOOR, MAX_DATA_TYPE_LEN, MAX_ENDPOINT_LEN, MAX_NAME_LEN, MAX_REPUTATION, MIN_STAKE,
};

verus! {

/// The record after `n` recorded queries in a row.
pub open spec fn after_queries(o: Oracle, n: nat) -> Oracle
    decreases n,
{
    if n == 0 {
        o
    } else {
        after_queries(o, (n - 1) as nat).after_query()
    }
}

/// A registration with enough stake, enough funds, a free slot, a fresh
/// vault and fields within their limits succeeds, and yields an active,
/// well-formed record with reputation 100 whose vault holds exactly its stake.
pub proof fn registration_yields_active_record(
    ctx: RegisterOracle,
    name: String,
    mcp_endpoint: String,
    data_type: String,
    stake_amount: u64,
)
    requires
        ctx.oracle is None,
        ctx.stake_vault == 0,
        byte_len(name@) <= MAX_NAME_LEN,
        byte_len(mcp_endpoint@) <= MAX_ENDPOINT_LEN,
        byte_len(data_type@) <= MAX_DATA_TYPE_LEN,
        stake_amount >= MIN_STAKE,
        ctx.authority.lamports >= stake_amount,
    ensures
        ({
            let o = registered_record(
                ctx.authority.key,
                name,
                mcp_endpoint,
                data_type,
                stake_amount,
                ctx.now,
                ctx.bump,
            );
            &&& register_error(ctx, name@, mcp_endpoint@, data_type@, stake_amount) is None
            &&& o.reputation_score == 100
            &&& o.is_active
            &&& o.wf()
            &&& ctx.stake_vault + stake_amount == o.stake_amount
        }),
{
}

/// Over any run of successful queries the reputation never falls and
/// never passes 200: after `n` of them it is `min(r + n, 200)`. The two
/// query counters stay equal and each rises by `n`.
pub proof fn queries_raise_reputation_within_ceiling(o: Oracle, n: nat)
    requires
        o.wf(),
        o.queries_served + n <= u64::MAX,
    ensures
        after_queries(o, n).wf(),
        after_queries(o, n).reputation_score >= o.reputation_score,
        after_queries(o, n).reputation_score <= MAX_REPUTATION,
        after_queries(o, n).reputation_score == (if o.reputation_score
            + n <= MAX_REPUTATION {
            o.reputation_score + n
        } else {
            MAX_REPUTATION as int
        }),
        after_queries(o, n).queries_served == after_queries(o, n).successful_queries,
        after_queries(o, n).queries_served == o.queries_served + n,
        forall|k: nat|
            k < n ==> #[trigger] after_queries(o, k + 1).reputation_score >= after_queries(
                o,
                k,
            ).reputation_score,
    decreases n,
{
    if n > 0 {
        queries_raise_reputation_within_ceiling(o, (n - 1) as nat);
        assert forall|k: nat| k < n implies #[trigger] after_queries(o, k + 1).reputation_score
            >= after_queries(o, k).reputation_score by {
            if k + 1 < n {
            } else {
                assert(after_queries(o, k + 1) == after_queries(o, k).after_query());
            }
        }
    }
}

/// Recording a query is refused, and so leaves everything as it was,
/// whenever the oracle is inactive or its reputation is below 50.
pub proof fn query_refused_when_inactive_or_low(ctx: RecordQuery)
    requires
        !ctx.oracle.is_active || ctx.oracle.reputation_score < EARNING_FLOOR,
    ensures
        record_query_error(ctx) is Some,
{
}

/// A report removes exactly a tenth of the stake (rounded down), pays
/// half of that to the reporter, takes 50 from the reputation (not below
/// 0), and leaves the oracle inactive exactly when it was already inactive,
/// or its new reputation is below 20, or its new stake is below the minimum.
pub proof fn report_penalties(o: Oracle)
    ensures
        o.after_report().stake_amount == o.stake_amount - o.stake_amount / 10,
        report_reward_of(o.stake_amount) == (o.stake_amount / 10) / 2,
        o.after_report().reputation_score == floored_sub(o.reputation_score as int, 50),
        o.after_report().is_active == (o.is_active && o.after_report().reputation_score
            >= DEACTIVATION_FLOOR && o.after_report().stake_amount >= MIN_STAKE),
{
}

/// A slash for inactivity removes a tenth of the stake (rounded down), the
/// whole of which is the reporter's bounty, and takes 100 from the
/// reputation (not below 0).
pub proof fn inactivity_slash_penalties(o: Oracle)
    ensures
        o.after_inactivity_slash().stake_amount == o.stake_amount - slash_of(o.stake_amount),
        slash_of(o.stake_amount) == o.stake_amount / 10,
        o.after_inactivity_slash().reputation_score == floored_sub(o.reputation_score as int, 100),
{
}

/// The authority's withdrawal succeeds exactly when the oracle is
/// inactive, and afterwards the record is gone. Where the vault holds
/// exactly the recorded stake (no report has left part of a slash in it),
/// the vault is empty afterwards.
pub proof fn withdrawal_only_when_inactive(ctx: WithdrawStake)
    requires
        ctx.oracle is Some,
        ctx.authority.key.bytes@ == ctx.oracle->Some_0.authority.bytes@,
    ensures
        withdraw_error(ctx) is None <==> !ctx.oracle->Some_0.is_active,
        withdrawn(ctx).oracle is None,
        ctx.stake_vault == ctx.oracle->Some_0.stake_amount ==> withdrawn(ctx).stake_vault == 0,
{
}

} // verus!
