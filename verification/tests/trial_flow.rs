use vpn_bot_tg::database::{DatabaseError, TrialClaimDecision};
use vpn_bot_tg::remnawave::{find_squad, InternalSquad, RemnawaveError, RemnawaveUser, UserTraffic};
use vpn_bot_tg::time::Instant;
use vpn_bot_tg::trial::{
    trial_squad, trial_step, TrialAction, TrialError, TrialEvent, TrialFlow, TrialIssueResult,
    TrialParams,
};

const NOW: Instant = Instant { secs: 1_700_000_000, nanos: 0 };

fn params(telegram_id: u64) -> TrialParams {
    TrialParams {
        telegram_id,
        days: 3,
        traffic_gib: 10,
        hwid_limit: 2,
        squad_uuid: "squad-uuid".to_string(),
    }
}

fn user(id: i64, tag: Option<&str>, status: &str, expire_at: &str) -> RemnawaveUser {
    RemnawaveUser {
        id,
        username: format!("user_{id}"),
        status: status.to_string(),
        traffic_limit_bytes: 0,
        expire_at: expire_at.to_string(),
        telegram_id: Some(42),
        hwid_device_limit: Some(2),
        subscription_url: "https://example.invalid/sub".to_string(),
        tag: tag.map(str::to_string),
        user_traffic: UserTraffic {
            used_traffic_bytes: 0,
            lifetime_used_traffic_bytes: 0,
            online_at: None,
            first_connected_at: None,
        },
    }
}

fn http(message: &str) -> RemnawaveError {
    RemnawaveError::Http(message.to_string())
}

/// Starts a flow and hands back its first action.
fn start(p: TrialParams) -> (TrialFlow, TrialAction) {
    trial_step(TrialFlow::new(p), TrialEvent::Begin)
}

fn claimed(telegram_id: u64) -> (TrialFlow, TrialAction) {
    let (flow, action) = start(params(telegram_id));
    assert!(matches!(action, TrialAction::ClaimTrial { telegram_id: 42 }));
    let (flow, action) = trial_step(flow, TrialEvent::Claimed(Ok(TrialClaimDecision::Acquired)));
    assert!(matches!(action, TrialAction::FindUsers { telegram_id: 42 }));
    (flow, action)
}

fn finish(action: TrialAction) -> Result<TrialIssueResult, TrialError> {
    match action {
        TrialAction::Finish(outcome) => outcome,
        other => panic!("expected the end, got {other:?}"),
    }
}

#[test]
fn telegram_id_beyond_bigint_is_refused_at_once() {
    let (_, action) = start(params(u64::MAX));
    assert!(matches!(finish(action), Err(TrialError::InvalidTelegramId)));
}

#[test]
fn claim_that_is_not_acquired_ends_the_request() {
    for (decision, expected) in [
        (TrialClaimDecision::AlreadyUsed, "used"),
        (TrialClaimDecision::Ineligible, "ineligible"),
        (TrialClaimDecision::InProgress, "progress"),
    ] {
        let (flow, _) = start(params(42));
        let (_, action) = trial_step(flow, TrialEvent::Claimed(Ok(decision)));
        let outcome = finish(action);
        match expected {
            "used" => assert!(matches!(outcome, Ok(TrialIssueResult::AlreadyUsed))),
            "ineligible" => assert!(matches!(outcome, Ok(TrialIssueResult::Ineligible))),
            _ => assert!(matches!(outcome, Ok(TrialIssueResult::InProgress))),
        }
    }
    let (flow, _) = start(params(42));
    let (_, action) =
        trial_step(flow, TrialEvent::Claimed(Err(DatabaseError::Sqlx("down".to_string()))));
    assert!(matches!(finish(action), Err(TrialError::Database(DatabaseError::Sqlx(_)))));
}

#[test]
fn new_user_gets_a_trial_user_created() {
    let (flow, _) = claimed(42);
    let (flow, action) =
        trial_step(flow, TrialEvent::UsersListed { users: Ok(vec![]), now: NOW });
    let request = match action {
        TrialAction::CreateUser(request) => request,
        other => panic!("expected creation, got {other:?}"),
    };
    assert_eq!(request.username, "trial_42");
    assert_eq!(request.status, "ACTIVE");
    assert_eq!(request.traffic_limit_bytes, 10 * 1024 * 1024 * 1024);
    assert_eq!(request.traffic_limit_strategy, "NO_RESET");
    assert_eq!(request.expire_at, "2023-11-17T22:13:20+00:00");
    assert_eq!(request.description, "Пробная подписка, созданная VPNBotTG");
    assert_eq!(request.tag, "TRIAL");
    assert_eq!(request.telegram_id, 42);
    assert_eq!(request.hwid_device_limit, 2);
    assert_eq!(request.active_internal_squads, vec!["squad-uuid".to_string()]);

    let created = user(7, Some("TRIAL"), "ACTIVE", &request.expire_at);
    let (flow, action) = trial_step(flow, TrialEvent::Created(Ok(created)));
    match action {
        TrialAction::MarkActive { telegram_id, remnawave_user_id, expires_at } => {
            assert_eq!(telegram_id, 42);
            assert_eq!(remnawave_user_id, 7);
            assert_eq!(expires_at, Instant { secs: 1_700_259_200, nanos: 0 });
        }
        other => panic!("expected marking, got {other:?}"),
    }
    let (_, action) = trial_step(flow, TrialEvent::Marked(Ok(())));
    match finish(action) {
        Ok(TrialIssueResult::Created(user)) => assert_eq!(user.id, 7),
        other => panic!("unexpected {other:?}"),
    }
}

#[test]
fn existing_active_trial_is_recovered_and_expired_one_is_used() {
    for (expire_at, recovered) in
        [("2023-11-20T00:00:00Z", true), ("2023-11-01T00:00:00Z", false)]
    {
        let (flow, _) = claimed(42);
        let users = vec![user(5, Some("PAID"), "ACTIVE", expire_at), user(6, Some("TRIAL"), "ACTIVE", expire_at)];
        let (flow, action) = trial_step(flow, TrialEvent::UsersListed { users: Ok(users), now: NOW });
        assert!(matches!(
            action,
            TrialAction::MarkActive { telegram_id: 42, remnawave_user_id: 6, .. }
        ));
        let (_, action) = trial_step(flow, TrialEvent::Marked(Ok(())));
        let outcome = finish(action);
        if recovered {
            assert!(matches!(outcome, Ok(TrialIssueResult::Recovered(u)) if u.id == 6));
        } else {
            assert!(matches!(outcome, Ok(TrialIssueResult::AlreadyUsed)));
        }
    }
}

#[test]
fn disabled_trial_user_counts_as_used() {
    let (flow, _) = claimed(42);
    let users = vec![user(6, Some("TRIAL"), "DISABLED", "2030-01-01T00:00:00Z")];
    let (flow, _) = trial_step(flow, TrialEvent::UsersListed { users: Ok(users), now: NOW });
    let (_, action) = trial_step(flow, TrialEvent::Marked(Ok(())));
    assert!(matches!(finish(action), Ok(TrialIssueResult::AlreadyUsed)));
}

#[test]
fn trial_user_with_unreadable_date_is_an_error() {
    let (flow, _) = claimed(42);
    let users = vec![user(6, Some("TRIAL"), "ACTIVE", "tomorrow")];
    let (_, action) = trial_step(flow, TrialEvent::UsersListed { users: Ok(users), now: NOW });
    assert!(matches!(finish(action), Err(TrialError::InvalidExpiration(_))));
}

#[test]
fn other_subscription_makes_the_user_ineligible() {
    let (flow, _) = claimed(42);
    let users = vec![user(5, None, "ACTIVE", "2030-01-01T00:00:00Z")];
    let (flow, action) = trial_step(flow, TrialEvent::UsersListed { users: Ok(users), now: NOW });
    assert!(matches!(action, TrialAction::MarkIneligible { telegram_id: 42 }));
    let (_, action) = trial_step(flow, TrialEvent::Marked(Ok(())));
    assert!(matches!(finish(action), Ok(TrialIssueResult::Ineligible)));
}

#[test]
fn panel_failure_on_first_look_marks_the_claim_failed() {
    let (flow, _) = claimed(42);
    let (flow, action) =
        trial_step(flow, TrialEvent::UsersListed { users: Err(http("timeout")), now: NOW });
    assert!(matches!(action, TrialAction::MarkFailed { telegram_id: 42 }));
    let (_, action) = trial_step(flow, TrialEvent::FailureRecorded);
    assert!(matches!(finish(action), Err(TrialError::Remnawave(RemnawaveError::Http(m))) if m == "timeout"));
}

#[test]
fn failed_creation_recovers_a_user_the_call_did_create() {
    let (flow, _) = claimed(42);
    let (flow, _) = trial_step(flow, TrialEvent::UsersListed { users: Ok(vec![]), now: NOW });
    let (flow, action) = trial_step(flow, TrialEvent::Created(Err(http("reset"))));
    assert!(matches!(action, TrialAction::FindUsers { telegram_id: 42 }));
    let users = vec![user(9, Some("TRIAL"), "ACTIVE", "2023-11-17T22:13:20Z")];
    let (flow, action) = trial_step(flow, TrialEvent::UsersListed { users: Ok(users), now: NOW });
    assert!(matches!(action, TrialAction::MarkActive { remnawave_user_id: 9, .. }));
    let (_, action) = trial_step(flow, TrialEvent::Marked(Ok(())));
    assert!(matches!(finish(action), Ok(TrialIssueResult::Recovered(u)) if u.id == 9));
}

#[test]
fn failed_creation_without_a_user_reports_the_creation_error() {
    for recheck in [Ok(vec![]), Err(http("still down"))] {
        let (flow, _) = claimed(42);
        let (flow, _) = trial_step(flow, TrialEvent::UsersListed { users: Ok(vec![]), now: NOW });
        let (flow, _) = trial_step(flow, TrialEvent::Created(Err(http("reset"))));
        let (flow, action) = trial_step(flow, TrialEvent::UsersListed { users: recheck, now: NOW });
        assert!(matches!(action, TrialAction::MarkFailed { telegram_id: 42 }));
        let (_, action) = trial_step(flow, TrialEvent::FailureRecorded);
        assert!(matches!(finish(action), Err(TrialError::Remnawave(RemnawaveError::Http(m))) if m == "reset"));
    }
}

#[test]
fn database_error_when_marking_is_reported() {
    let (flow, _) = claimed(42);
    let users = vec![user(5, None, "ACTIVE", "2030-01-01T00:00:00Z")];
    let (flow, _) = trial_step(flow, TrialEvent::UsersListed { users: Ok(users), now: NOW });
    let (_, action) =
        trial_step(flow, TrialEvent::Marked(Err(DatabaseError::Sqlx("down".to_string()))));
    assert!(matches!(finish(action), Err(TrialError::Database(_))));
}

#[test]
fn traffic_limit_that_overflows_is_refused() {
    let mut p = params(42);
    p.traffic_gib = u64::MAX;
    let (flow, _) = start(p);
    let (flow, _) = trial_step(flow, TrialEvent::Claimed(Ok(TrialClaimDecision::Acquired)));
    let (_, action) = trial_step(flow, TrialEvent::UsersListed { users: Ok(vec![]), now: NOW });
    assert!(matches!(finish(action), Err(TrialError::InvalidTrafficLimit)));
}

#[test]
fn trial_squad_is_found_by_its_name() {
    let squad = |uuid: &str, name: &str| InternalSquad { uuid: uuid.to_string(), name: name.to_string() };
    let squads = vec![squad("u1", "Default"), squad("u2", "Trial"), squad("u3", "Trial")];
    assert_eq!(find_squad(squads.clone(), "Trial").unwrap().uuid, "u2");
    assert!(find_squad(squads, "trial").is_none());
    assert!(find_squad(vec![], "Trial").is_none());

    assert_eq!(trial_squad(Ok(Some(squad("u2", "Trial"))), "Trial").unwrap(), "u2");
    assert!(matches!(
        trial_squad(Ok(None), "Trial"),
        Err(TrialError::InternalSquadNotFound(name)) if name == "Trial"
    ));
    assert!(matches!(
        trial_squad(Err(http("down")), "Trial"),
        Err(TrialError::Remnawave(RemnawaveError::Http(_)))
    ));
}
