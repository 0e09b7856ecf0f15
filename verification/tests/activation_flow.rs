use vpn_bot_tg::activation::{
    activation_step, traffic_limit_bytes, ActivationAction, ActivationError, ActivationEvent,
    ActivationFlow, ActivationResult,
};
use vpn_bot_tg::database::{Activation, DatabaseError, Order, UserProfile};
use vpn_bot_tg::remnawave::{InternalSquad, RemnawaveError, RemnawaveUser, UserTraffic};
use vpn_bot_tg::time::Instant;

const NOW: Instant = Instant { secs: 1_700_000_000, nanos: 0 };

fn order(status: &str) -> Order {
    Order {
        id: 11,
        telegram_id: 42,
        tariff_code: "month".to_string(),
        tariff_name: "Месяц".to_string(),
        tariff_description: "30 дней".to_string(),
        price_kopecks: 300_00,
        currency: "RUB".to_string(),
        duration_days: 30,
        traffic_gib: Some(100),
        hwid_limit: 3,
        internal_squad_names: vec!["Default".to_string(), "Premium".to_string()],
        status: status.to_string(),
        created_at: NOW,
        updated_at: NOW,
    }
}

fn activation(status: &str, target: Option<Instant>) -> Activation {
    Activation { id: 21, order_id: 11, status: status.to_string(), target_expire_at: target }
}

fn profile(remnawave_user_id: Option<i64>) -> UserProfile {
    UserProfile {
        telegram_id: 42,
        remnawave_user_id,
        registered_at: NOW,
        current_tariff_code: None,
        status: "active".to_string(),
        updated_at: NOW,
    }
}

fn user(id: i64, tag: &str, expire_at: &str) -> RemnawaveUser {
    RemnawaveUser {
        id,
        username: format!("user_{id}"),
        status: "ACTIVE".to_string(),
        traffic_limit_bytes: 0,
        expire_at: expire_at.to_string(),
        telegram_id: Some(42),
        hwid_device_limit: Some(3),
        subscription_url: "https://example.invalid/sub".to_string(),
        tag: Some(tag.to_string()),
        user_traffic: UserTraffic {
            used_traffic_bytes: 0,
            lifetime_used_traffic_bytes: 0,
            online_at: None,
            first_connected_at: None,
        },
    }
}

fn squad(uuid: &str) -> Option<InternalSquad> {
    Some(InternalSquad { uuid: uuid.to_string(), name: uuid.to_string() })
}

fn step(flow: ActivationFlow, event: ActivationEvent) -> (ActivationFlow, ActivationAction) {
    activation_step(flow, event)
}

fn db_error() -> DatabaseError {
    DatabaseError::Sqlx("down".to_string())
}

/// Runs an activation of a paid order up to the point where the user's
/// profile is asked for.
fn to_profile(o: Order, a: Activation) -> (ActivationFlow, ActivationAction) {
    let (flow, action) = step(ActivationFlow::new(11), ActivationEvent::Begin);
    assert!(matches!(action, ActivationAction::GetOrder { order_id: 11 }));
    let (flow, action) = step(flow, ActivationEvent::OrderLoaded(Ok(Some(o))));
    assert!(matches!(action, ActivationAction::GetOrCreateActivation { order_id: 11 }));
    let (flow, action) = step(flow, ActivationEvent::ActivationLoaded(Ok(a)));
    assert!(matches!(action, ActivationAction::MarkProcessing { activation_id: 21 }));
    let (flow, action) = step(flow, ActivationEvent::Marked(Ok(())));
    assert!(matches!(&action, ActivationAction::FindSquad { name } if name == "Default"));
    let (flow, action) = step(flow, ActivationEvent::SquadFound(Ok(squad("uuid-default"))));
    assert!(matches!(&action, ActivationAction::FindSquad { name } if name == "Premium"));
    let (flow, action) = step(flow, ActivationEvent::SquadFound(Ok(squad("uuid-premium"))));
    assert!(matches!(action, ActivationAction::EnsureUser { telegram_id: 42 }));
    (flow, action)
}

fn finish(action: ActivationAction) -> Result<ActivationResult, ActivationError> {
    match action {
        ActivationAction::Finish(outcome) => outcome,
        other => panic!("expected the end, got {other:?}"),
    }
}

fn failure(action: ActivationAction) -> ActivationError {
    match action {
        ActivationAction::Fail { activation_id, error } => {
            assert_eq!(activation_id, 21);
            error
        }
        other => panic!("expected a failure, got {other:?}"),
    }
}

#[test]
fn missing_unpaid_and_done_orders_end_early() {
    let (flow, _) = step(ActivationFlow::new(11), ActivationEvent::Begin);
    let (_, action) = step(flow, ActivationEvent::OrderLoaded(Ok(None)));
    assert!(matches!(finish(action), Err(ActivationError::OrderNotFound(11))));

    let (flow, _) = step(ActivationFlow::new(11), ActivationEvent::Begin);
    let (_, action) = step(flow, ActivationEvent::OrderLoaded(Ok(Some(order("pending")))));
    assert!(matches!(finish(action), Err(ActivationError::OrderNotPaid(s)) if s == "pending"));

    let (flow, _) = step(ActivationFlow::new(11), ActivationEvent::Begin);
    let (_, action) = step(flow, ActivationEvent::OrderLoaded(Err(db_error())));
    assert!(matches!(finish(action), Err(ActivationError::Database(_))));

    let (flow, _) = step(ActivationFlow::new(11), ActivationEvent::Begin);
    let (flow, _) = step(flow, ActivationEvent::OrderLoaded(Ok(Some(order("paid")))));
    let (_, action) =
        step(flow, ActivationEvent::ActivationLoaded(Ok(activation("succeeded", None))));
    assert!(matches!(finish(action), Ok(ActivationResult::AlreadyActivated)));
}

#[test]
fn linked_user_is_extended_from_its_later_end_date() {
    let (flow, _) = to_profile(order("paid"), activation("pending", None));
    let (flow, action) = step(flow, ActivationEvent::ProfileLoaded(Ok(profile(Some(7)))));
    assert!(matches!(action, ActivationAction::GetUser { remnawave_user_id: 7 }));
    let current = user(7, "PAID", "2023-11-20T00:00:00Z");
    let (flow, action) =
        step(flow, ActivationEvent::LinkedUser { user: Ok(Some(current)), now: NOW });
    let plan = match action {
        ActivationAction::SetPlan(plan) => plan,
        other => panic!("expected a plan, got {other:?}"),
    };
    assert_eq!(plan.activation_id, 21);
    assert_eq!(plan.kind, "update");
    assert_eq!(plan.remnawave_user_id, Some(7));
    // 2023-11-20T00:00:00Z plus 30 days.
    assert_eq!(plan.target_expire_at, Instant { secs: 1_700_438_400 + 30 * 86_400, nanos: 0 });
    assert_eq!(plan.target_traffic_limit_bytes, 100 * 1024 * 1024 * 1024);
    assert_eq!(plan.hwid_limit, 3);
    assert_eq!(plan.squad_uuids, vec!["uuid-default".to_string(), "uuid-premium".to_string()]);

    let (flow, action) = step(flow, ActivationEvent::Planned(Ok(activation("processing", None))));
    let request = match action {
        ActivationAction::UpdateUser(request) => request,
        other => panic!("expected an update, got {other:?}"),
    };
    assert_eq!(request.id, 7);
    assert_eq!(request.status, "ACTIVE");
    assert_eq!(request.expire_at, "2023-12-20T00:00:00+00:00");
    assert_eq!(request.description, "Платная подписка SilentOkVPN, заказ #11");
    assert_eq!(request.tag, "PAID");
    assert_eq!(request.telegram_id, 42);
    assert_eq!(request.hwid_device_limit, 3);
    assert_eq!(request.traffic_limit_strategy, "NO_RESET");

    let (flow, action) = step(flow, ActivationEvent::UserSaved(Ok(user(7, "PAID", "x"))));
    assert!(matches!(
        &action,
        ActivationAction::SetSubscription { telegram_id: 42, remnawave_user_id: 7, tariff_code }
            if tariff_code == "month"
    ));
    let (flow, action) = step(flow, ActivationEvent::Marked(Ok(())));
    assert!(matches!(
        action,
        ActivationAction::MarkSucceeded { activation_id: 21, remnawave_user_id: 7 }
    ));
    let (_, action) = step(flow, ActivationEvent::Marked(Ok(())));
    assert!(matches!(finish(action), Ok(ActivationResult::Updated(u)) if u.id == 7));
}

#[test]
fn new_user_is_created_from_now() {
    let (flow, _) = to_profile(order("paid"), activation("pending", None));
    let (flow, action) = step(flow, ActivationEvent::ProfileLoaded(Ok(profile(None))));
    assert!(matches!(action, ActivationAction::FindUsers { telegram_id: 42 }));
    let (flow, action) = step(flow, ActivationEvent::UsersListed { users: Ok(vec![]), now: NOW });
    let plan = match action {
        ActivationAction::SetPlan(plan) => plan,
        other => panic!("expected a plan, got {other:?}"),
    };
    assert_eq!(plan.kind, "create");
    assert_eq!(plan.remnawave_user_id, None);
    assert_eq!(plan.target_expire_at, Instant { secs: 1_700_000_000 + 30 * 86_400, nanos: 0 });
    let (flow, action) = step(flow, ActivationEvent::Planned(Ok(activation("processing", None))));
    let request = match action {
        ActivationAction::CreateUser(request) => request,
        other => panic!("expected a creation, got {other:?}"),
    };
    assert_eq!(request.username, "user_42");
    assert_eq!(request.active_internal_squads.len(), 2);
    let (flow, _) = step(flow, ActivationEvent::UserSaved(Ok(user(8, "PAID", "x"))));
    let (flow, _) = step(flow, ActivationEvent::Marked(Ok(())));
    let (_, action) = step(flow, ActivationEvent::Marked(Ok(())));
    assert!(matches!(finish(action), Ok(ActivationResult::Created(u)) if u.id == 8));
}

#[test]
fn stored_plan_keeps_its_end_date_on_retry() {
    let planned = Instant { secs: 1_800_000_000, nanos: 0 };
    let (flow, _) = to_profile(order("paid"), activation("failed", Some(planned)));
    let (flow, _) = step(flow, ActivationEvent::ProfileLoaded(Ok(profile(None))));
    let later = user(7, "PAID", "2030-01-01T00:00:00Z");
    let (_, action) =
        step(flow, ActivationEvent::UsersListed { users: Ok(vec![later]), now: NOW });
    assert!(matches!(action, ActivationAction::SetPlan(plan) if plan.target_expire_at == planned));
}

#[test]
fn failed_creation_recovers_a_paid_user_the_call_did_create() {
    let (flow, _) = to_profile(order("paid"), activation("pending", None));
    let (flow, _) = step(flow, ActivationEvent::ProfileLoaded(Ok(profile(None))));
    let (flow, _) = step(flow, ActivationEvent::UsersListed { users: Ok(vec![]), now: NOW });
    let (flow, _) = step(flow, ActivationEvent::Planned(Ok(activation("processing", None))));
    let (flow, action) = step(
        flow,
        ActivationEvent::UserSaved(Err(RemnawaveError::Http("reset".to_string()))),
    );
    assert!(matches!(action, ActivationAction::FindUsers { telegram_id: 42 }));
    let (_, action) = step(
        flow,
        ActivationEvent::UsersListed { users: Ok(vec![user(9, "PAID", "x")]), now: NOW },
    );
    assert!(matches!(action, ActivationAction::SetSubscription { remnawave_user_id: 9, .. }));
}

#[test]
fn failed_creation_without_a_user_fails_with_the_creation_error() {
    let (flow, _) = to_profile(order("paid"), activation("pending", None));
    let (flow, _) = step(flow, ActivationEvent::ProfileLoaded(Ok(profile(None))));
    let (flow, _) = step(flow, ActivationEvent::UsersListed { users: Ok(vec![]), now: NOW });
    let (flow, _) = step(flow, ActivationEvent::Planned(Ok(activation("processing", None))));
    let (flow, _) = step(
        flow,
        ActivationEvent::UserSaved(Err(RemnawaveError::Http("reset".to_string()))),
    );
    let (_, action) = step(
        flow,
        ActivationEvent::UsersListed { users: Ok(vec![user(9, "TRIAL", "x")]), now: NOW },
    );
    assert!(matches!(
        failure(action),
        ActivationError::Remnawave(RemnawaveError::Http(m)) if m == "reset"
    ));
}

#[test]
fn missing_squad_and_several_users_fail_the_activation() {
    let (flow, _) = step(ActivationFlow::new(11), ActivationEvent::Begin);
    let (flow, _) = step(flow, ActivationEvent::OrderLoaded(Ok(Some(order("paid")))));
    let (flow, _) = step(flow, ActivationEvent::ActivationLoaded(Ok(activation("pending", None))));
    let (flow, _) = step(flow, ActivationEvent::Marked(Ok(())));
    let (flow, _) = step(flow, ActivationEvent::SquadFound(Ok(squad("uuid-default"))));
    let (_, action) = step(flow, ActivationEvent::SquadFound(Ok(None)));
    assert!(matches!(failure(action), ActivationError::InternalSquadNotFound(n) if n == "Premium"));

    let (flow, _) = to_profile(order("paid"), activation("pending", None));
    let (flow, _) = step(flow, ActivationEvent::ProfileLoaded(Ok(profile(None))));
    let users = vec![user(1, "PAID", "x"), user(2, "PAID", "x")];
    let (_, action) = step(flow, ActivationEvent::UsersListed { users: Ok(users), now: NOW });
    assert!(matches!(
        failure(action),
        ActivationError::MultipleRemnawaveUsers { telegram_id: 42, count: 2 }
    ));
}

#[test]
fn unreadable_end_date_and_bad_order_values_fail() {
    let (flow, _) = to_profile(order("paid"), activation("pending", None));
    let (flow, _) = step(flow, ActivationEvent::ProfileLoaded(Ok(profile(Some(7)))));
    let (_, action) = step(
        flow,
        ActivationEvent::LinkedUser { user: Ok(Some(user(7, "PAID", "someday"))), now: NOW },
    );
    assert!(matches!(failure(action), ActivationError::InvalidExpiration(_)));

    let mut negative = order("paid");
    negative.telegram_id = -1;
    let (flow, _) = step(ActivationFlow::new(11), ActivationEvent::Begin);
    let (flow, _) = step(flow, ActivationEvent::OrderLoaded(Ok(Some(negative))));
    let (flow, _) = step(flow, ActivationEvent::ActivationLoaded(Ok(activation("pending", None))));
    let (_, action) = step(flow, ActivationEvent::Marked(Ok(())));
    assert!(matches!(failure(action), ActivationError::InvalidTelegramId));

    let mut no_squads = order("paid");
    no_squads.internal_squad_names = Vec::new();
    no_squads.traffic_gib = Some(-5);
    let (flow, _) = step(ActivationFlow::new(11), ActivationEvent::Begin);
    let (flow, _) = step(flow, ActivationEvent::OrderLoaded(Ok(Some(no_squads))));
    let (flow, _) = step(flow, ActivationEvent::ActivationLoaded(Ok(activation("pending", None))));
    let (_, action) = step(flow, ActivationEvent::Marked(Ok(())));
    assert!(matches!(failure(action), ActivationError::InvalidTrafficLimit));

    let (flow, _) = to_profile(order("paid"), activation("pending", None));
    let (_, action) = step(flow, ActivationEvent::ProfileLoaded(Err(db_error())));
    assert!(matches!(failure(action), ActivationError::Database(_)));
}

#[test]
fn traffic_limit_in_bytes() {
    assert_eq!(traffic_limit_bytes(None).unwrap(), 0);
    assert_eq!(traffic_limit_bytes(Some(1)).unwrap(), 1024 * 1024 * 1024);
    assert!(matches!(traffic_limit_bytes(Some(-1)), Err(ActivationError::InvalidTrafficLimit)));
    assert!(matches!(
        traffic_limit_bytes(Some(i64::MAX)),
        Err(ActivationError::InvalidTrafficLimit)
    ));
}
