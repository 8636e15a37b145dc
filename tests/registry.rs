use pyxis::events::{HeartbeatEvent, OracleSlashed, QueryRecorded, StakeWithdrawn};
use pyxis::registry::{
    record_query, register_oracle, report_oracle, send_heartbeat, slash_inactive_oracle,
    withdraw_stake, RecordQuery, RegisterOracle, ReportOracle, SendHeartbeat, SlashInactive,
    Wallet, WithdrawStake,
};
use pyxis::state::{AccountId, Oracle, PyxisError, MIN_STAKE};

fn id(b: u8) -> AccountId {
    AccountId { bytes: [b; 32] }
}

fn wallet(b: u8, lamports: u64) -> Wallet {
    Wallet { key: id(b), lamports }
}

fn registered(stake: u64) -> Oracle {
    let mut ctx = RegisterOracle {
        authority: wallet(1, 10_000_000_000),
        oracle: None,
        stake_vault: 0,
        now: 1_000,
        bump: 254,
    };
    register_oracle(
        &mut ctx,
        "weather".to_string(),
        "https://mcp.example/weather".to_string(),
        "temperature".to_string(),
        stake,
    )
    .unwrap();
    ctx.oracle.unwrap()
}

#[test]
fn register_sets_initial_state() {
    let mut ctx = RegisterOracle {
        authority: wallet(1, 500_000_000),
        oracle: None,
        stake_vault: 0,
        now: 1_700_000_000,
        bump: 7,
    };
    let ev = register_oracle(
        &mut ctx,
        "feed".to_string(),
        "https://e".to_string(),
        "price".to_string(),
        200_000_000,
    )
    .unwrap();
    let o = ctx.oracle.clone().unwrap();
    assert_eq!(o.reputation_score, 100);
    assert!(o.is_active);
    assert_eq!(o.stake_amount, 200_000_000);
    assert_eq!(o.queries_served, 0);
    assert_eq!(o.successful_queries, 0);
    assert_eq!(o.last_heartbeat, 1_700_000_000);
    assert_eq!(o.created_at, 1_700_000_000);
    assert_eq!(o.heartbeat_interval, 300);
    assert_eq!(o.bump, 7);
    assert_eq!(o.authority, id(1));
    assert_eq!(ctx.stake_vault, 200_000_000);
    assert_eq!(ctx.authority.lamports, 300_000_000);
    assert_eq!(ev.stake_amount, 200_000_000);
    assert_eq!(ev.name, "feed");
    assert_eq!(ev.mcp_endpoint, "https://e");
}

#[test]
fn register_accepts_exact_limits() {
    let mut ctx = RegisterOracle {
        authority: wallet(1, MIN_STAKE),
        oracle: None,
        stake_vault: 0,
        now: 0,
        bump: 0,
    };
    let r = register_oracle(&mut ctx, "n".repeat(32), "e".repeat(128), "d".repeat(32), MIN_STAKE);
    assert!(r.is_ok());
    assert_eq!(ctx.authority.lamports, 0);
    assert_eq!(ctx.stake_vault, MIN_STAKE);
}

#[test]
fn register_counts_bytes_not_characters() {
    let base = RegisterOracle {
        authority: wallet(1, MIN_STAKE),
        oracle: None,
        stake_vault: 0,
        now: 0,
        bump: 0,
    };
    // each 'é' takes two bytes
    let mut ctx = base.clone();
    let r = register_oracle(&mut ctx, "é".repeat(17), "e".to_string(), "d".to_string(), MIN_STAKE);
    assert_eq!(r, Err(PyxisError::NameTooLong));
    assert_eq!(ctx, base);

    let mut ctx = base.clone();
    let r = register_oracle(&mut ctx, "n".to_string(), "é".repeat(65), "d".to_string(), MIN_STAKE);
    assert_eq!(r, Err(PyxisError::EndpointTooLong));

    let mut ctx = base.clone();
    let r = register_oracle(&mut ctx, "n".to_string(), "e".to_string(), "é".repeat(17), MIN_STAKE);
    assert_eq!(r, Err(PyxisError::DataTypeTooLong));

    let mut ctx = base.clone();
    let r = register_oracle(&mut ctx, "é".repeat(16), "é".repeat(64), "é".repeat(16), MIN_STAKE);
    assert!(r.is_ok());
}

#[test]
fn register_checks_stake_before_data_type() {
    let base = RegisterOracle {
        authority: wallet(1, MIN_STAKE),
        oracle: None,
        stake_vault: 0,
        now: 0,
        bump: 0,
    };
    let mut ctx = base.clone();
    let r = register_oracle(&mut ctx, "n".to_string(), "e".to_string(), "d".repeat(33), 0);
    assert_eq!(r, Err(PyxisError::InsufficientStake));
    assert_eq!(ctx, base);
}

#[test]
fn register_rejections() {
    let base = RegisterOracle {
        authority: wallet(1, 1_000_000_000),
        oracle: None,
        stake_vault: 0,
        now: 0,
        bump: 0,
    };
    let cases: Vec<(String, String, String, u64, PyxisError)> = vec![
        ("n".repeat(33), "e".to_string(), "d".to_string(), MIN_STAKE, PyxisError::NameTooLong),
        ("n".to_string(), "e".repeat(129), "d".to_string(), MIN_STAKE, PyxisError::EndpointTooLong),
        ("n".to_string(), "e".to_string(), "d".repeat(33), MIN_STAKE, PyxisError::DataTypeTooLong),
        ("n".to_string(), "e".to_string(), "d".to_string(), MIN_STAKE - 1, PyxisError::InsufficientStake),
        ("n".to_string(), "e".to_string(), "d".to_string(), 2_000_000_000, PyxisError::InsufficientFunds),
        ("n".repeat(33), "e".repeat(129), "d".to_string(), 0, PyxisError::NameTooLong),
    ];
    for (name, endpoint, data_type, stake, err) in cases {
        let mut ctx = base.clone();
        assert_eq!(register_oracle(&mut ctx, name, endpoint, data_type, stake), Err(err));
        assert_eq!(ctx, base);
    }
}

#[test]
fn register_twice_is_refused() {
    let mut ctx = RegisterOracle {
        authority: wallet(1, 1_000_000_000),
        oracle: Some(registered(MIN_STAKE)),
        stake_vault: MIN_STAKE,
        now: 0,
        bump: 0,
    };
    let before = ctx.clone();
    let r = register_oracle(&mut ctx, "weather".to_string(), "e".to_string(), "d".to_string(), MIN_STAKE);
    assert_eq!(r, Err(PyxisError::OracleAlreadyExists));
    assert_eq!(ctx, before);
}

#[test]
fn record_query_raises_reputation_to_ceiling() {
    let mut o = registered(MIN_STAKE);
    o.reputation_score = 199;
    let mut ctx = RecordQuery { authority: id(1), oracle: o };
    let ev = record_query(&mut ctx, "q1".to_string(), 42).unwrap();
    assert_eq!(
        ev,
        QueryRecorded { query_id: "q1".to_string(), payment_amount: 42, new_reputation: 200 }
    );
    record_query(&mut ctx, "q2".to_string(), 0).unwrap();
    assert_eq!(ctx.oracle.reputation_score, 200);
    assert_eq!(ctx.oracle.queries_served, 2);
    assert_eq!(ctx.oracle.successful_queries, 2);
}

#[test]
fn record_query_rejections_leave_state() {
    let mut low = registered(MIN_STAKE);
    low.reputation_score = 49;
    let mut inactive = registered(MIN_STAKE);
    inactive.is_active = false;
    let cases = vec![
        (RecordQuery { authority: id(1), oracle: low }, PyxisError::ReputationTooLowToEarn),
        (RecordQuery { authority: id(1), oracle: inactive }, PyxisError::OracleInactive),
        (RecordQuery { authority: id(9), oracle: registered(MIN_STAKE) }, PyxisError::Unauthorized),
    ];
    for (ctx0, err) in cases {
        let mut ctx = ctx0.clone();
        assert_eq!(record_query(&mut ctx, "q".to_string(), 1), Err(err));
        assert_eq!(ctx, ctx0);
    }
    let mut at_floor = registered(MIN_STAKE);
    at_floor.reputation_score = 50;
    let mut ctx = RecordQuery { authority: id(1), oracle: at_floor };
    assert!(record_query(&mut ctx, "q".to_string(), 1).is_ok());
    assert_eq!(ctx.oracle.reputation_score, 51);
}

#[test]
fn report_slashes_and_rewards() {
    let mut ctx = ReportOracle {
        reporter: wallet(2, 10),
        oracle: registered(1_000_000_005),
        stake_vault: 1_000_000_005,
    };
    let ev = report_oracle(&mut ctx, "stale".to_string()).unwrap();
    assert_eq!(ev.slashed_amount, 100_000_000);
    assert_eq!(ctx.oracle.stake_amount, 900_000_005);
    assert_eq!(ctx.reporter.lamports, 50_000_010);
    assert_eq!(ctx.stake_vault, 950_000_005);
    assert_eq!(ctx.oracle.reputation_score, 50);
    assert!(ctx.oracle.is_active);
    assert_eq!(ev.reporter, id(2));
    assert_eq!(ev.reason, "stale");
}

#[test]
fn report_floors_reputation_at_zero() {
    let mut o = registered(MIN_STAKE * 10);
    o.reputation_score = 30;
    let mut ctx = ReportOracle { reporter: wallet(2, 0), oracle: o, stake_vault: MIN_STAKE * 10 };
    let ev = report_oracle(&mut ctx, "bad".to_string()).unwrap();
    assert_eq!(ctx.oracle.reputation_score, 0);
    assert!(!ctx.oracle.is_active);
    assert!(!ev.is_active);
}

#[test]
fn report_deactivates_on_low_stake() {
    let mut ctx = ReportOracle {
        reporter: wallet(2, 0),
        oracle: registered(MIN_STAKE),
        stake_vault: MIN_STAKE,
    };
    report_oracle(&mut ctx, "bad".to_string()).unwrap();
    assert_eq!(ctx.oracle.reputation_score, 50);
    assert_eq!(ctx.oracle.stake_amount, 90_000_000);
    assert!(!ctx.oracle.is_active);
}

#[test]
fn heartbeat_updates_time() {
    let mut ctx = SendHeartbeat { authority: id(1), oracle: registered(MIN_STAKE), now: 5_000 };
    assert_eq!(send_heartbeat(&mut ctx), Ok(HeartbeatEvent { timestamp: 5_000 }));
    assert_eq!(ctx.oracle.last_heartbeat, 5_000);

    let mut o = registered(MIN_STAKE);
    o.is_active = false;
    let mut ctx = SendHeartbeat { authority: id(1), oracle: o.clone(), now: 5_000 };
    assert_eq!(send_heartbeat(&mut ctx), Err(PyxisError::OracleInactive));
    assert_eq!(ctx.oracle, o);

    let mut ctx = SendHeartbeat { authority: id(3), oracle: registered(MIN_STAKE), now: 5_000 };
    assert_eq!(send_heartbeat(&mut ctx), Err(PyxisError::Unauthorized));
}

#[test]
fn slash_inactive_requires_three_missed_intervals() {
    // last heartbeat at 1_000, interval 300: overdue only after 1_900
    let mut ctx = SlashInactive {
        reporter: wallet(2, 0),
        oracle: registered(MIN_STAKE),
        stake_vault: MIN_STAKE,
        now: 1_900,
    };
    let before = ctx.clone();
    assert_eq!(slash_inactive_oracle(&mut ctx), Err(PyxisError::OracleStillActive));
    assert_eq!(ctx, before);

    ctx.now = 1_901;
    let ev = slash_inactive_oracle(&mut ctx).unwrap();
    assert_eq!(ev, OracleSlashed { reporter: id(2), amount: 10_000_000 });
    assert_eq!(ctx.reporter.lamports, 10_000_000);
    assert_eq!(ctx.stake_vault, 90_000_000);
    assert_eq!(ctx.oracle.stake_amount, 90_000_000);
    assert_eq!(ctx.oracle.reputation_score, 0);
    assert!(!ctx.oracle.is_active);
}

#[test]
fn slash_inactive_keeps_high_reputation_active() {
    let mut o = registered(MIN_STAKE);
    o.reputation_score = 150;
    let mut ctx = SlashInactive { reporter: wallet(2, 0), oracle: o, stake_vault: MIN_STAKE, now: 10_000 };
    slash_inactive_oracle(&mut ctx).unwrap();
    assert_eq!(ctx.oracle.reputation_score, 50);
    assert!(ctx.oracle.is_active);
}

#[test]
fn slash_inactive_extreme_times_do_not_overflow() {
    let mut o = registered(MIN_STAKE);
    o.last_heartbeat = i64::MIN;
    o.heartbeat_interval = i64::MAX;
    let mut ctx = SlashInactive { reporter: wallet(2, 0), oracle: o, stake_vault: MIN_STAKE, now: i64::MAX };
    // elapsed is 2^64 - 1, three intervals are 3 * (2^63 - 1): not overdue
    assert_eq!(slash_inactive_oracle(&mut ctx), Err(PyxisError::OracleStillActive));
}

#[test]
fn withdraw_only_when_inactive() {
    let mut ctx = WithdrawStake {
        authority: wallet(1, 0),
        oracle: Some(registered(MIN_STAKE)),
        stake_vault: MIN_STAKE,
    };
    let before = ctx.clone();
    assert_eq!(withdraw_stake(&mut ctx), Err(PyxisError::OracleStillActive));
    assert_eq!(ctx, before);

    let mut o = registered(MIN_STAKE);
    o.is_active = false;
    let mut ctx = WithdrawStake { authority: wallet(3, 0), oracle: Some(o.clone()), stake_vault: MIN_STAKE };
    assert_eq!(withdraw_stake(&mut ctx), Err(PyxisError::Unauthorized));

    let mut ctx = WithdrawStake { authority: wallet(1, 5), oracle: Some(o), stake_vault: MIN_STAKE };
    assert_eq!(withdraw_stake(&mut ctx), Ok(StakeWithdrawn { authority: id(1), amount: MIN_STAKE }));
    assert_eq!(ctx.oracle, None);
    assert_eq!(ctx.stake_vault, 0);
    assert_eq!(ctx.authority.lamports, MIN_STAKE + 5);
}

#[test]
fn full_lifecycle() {
    let authority_start: u64 = 1_000_000_000;
    let mut reg = RegisterOracle {
        authority: wallet(1, authority_start),
        oracle: None,
        stake_vault: 0,
        now: 1_000,
        bump: 255,
    };
    register_oracle(&mut reg, "feed".to_string(), "https://e".to_string(), "price".to_string(), 100_000_000)
        .unwrap();
    assert_eq!(reg.authority.lamports, 900_000_000);

    let mut q = RecordQuery { authority: id(1), oracle: reg.oracle.clone().unwrap() };
    for i in 0..5 {
        record_query(&mut q, format!("q{}", i), 1_000).unwrap();
    }
    assert_eq!(q.oracle.reputation_score, 105);
    assert_eq!(q.oracle.queries_served, 5);

    let mut rep = ReportOracle { reporter: wallet(2, 0), oracle: q.oracle, stake_vault: reg.stake_vault };
    report_oracle(&mut rep, "wrong price".to_string()).unwrap();
    assert_eq!(rep.oracle.stake_amount, 90_000_000);
    assert_eq!(rep.reporter.lamports, 5_000_000);
    assert_eq!(rep.oracle.reputation_score, 55);
    // 90_000_000 is below the minimum stake, so the first report already deactivates
    assert!(!rep.oracle.is_active);

    report_oracle(&mut rep, "wrong again".to_string()).unwrap();
    assert_eq!(rep.oracle.stake_amount, 81_000_000);
    assert_eq!(rep.oracle.reputation_score, 5);
    assert!(!rep.oracle.is_active);

    let mut w = WithdrawStake { authority: reg.authority, oracle: Some(rep.oracle), stake_vault: rep.stake_vault };
    let ev = withdraw_stake(&mut w).unwrap();
    assert_eq!(ev.amount, 81_000_000);
    assert_eq!(w.authority.lamports, 900_000_000 + 81_000_000);
    assert_eq!(w.oracle, None);
    // the half of each report's slash that was not paid out stays in the vault
    assert_eq!(w.stake_vault, 9_500_000);
}

#[test]
fn error_messages() {
    assert_eq!(PyxisError::OracleInactive.message(), "Oracle is inactive");
    assert_eq!(PyxisError::NameTooLong.message(), "Oracle name too long (max 32 chars)");
}
