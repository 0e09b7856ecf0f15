use vpn_bot_tg::config::PlategaConfig;
use vpn_bot_tg::database::{DatabaseError, MarkPaymentPaidResult, Order, Payment};
use vpn_bot_tg::device::{
    device_step, device_token, DeviceAction, DeviceError, DeviceEvent, DeviceFlow, DeviceOutcome,
    DeviceRequest,
};
use vpn_bot_tg::payment::{
    prepare_step, PaymentError, PrepareAction, PrepareEvent, PrepareFlow,
};
use vpn_bot_tg::remnawave::{HwidDevice, HwidDevices, RemnawaveUser, UserTraffic};
use vpn_bot_tg::time::Instant;
use vpn_bot_tg::webhook::{
    webhook_step, PlategaCallback, WebhookAction, WebhookEvent, WebhookFlow,
};

const T: Instant = Instant { secs: 1_700_000_000, nanos: 0 };

fn order() -> Order {
    Order {
        id: 11,
        telegram_id: 42,
        tariff_code: "month".to_string(),
        tariff_name: "Месяц".to_string(),
        tariff_description: "30 дней".to_string(),
        price_kopecks: 300_00,
        currency: "RUB".to_string(),
        duration_days: 30,
        traffic_gib: None,
        hwid_limit: 3,
        internal_squad_names: vec!["Default".to_string()],
        status: "pending".to_string(),
        created_at: T,
        updated_at: T,
    }
}

fn payment(provider_data: bool) -> Payment {
    Payment {
        id: 5,
        order_id: 11,
        provider: "platega".to_string(),
        provider_payment_id: if provider_data { Some("tx-1".to_string()) } else { None },
        idempotency_key: "order:11:platega".to_string(),
        amount_kopecks: 300_00,
        currency: "RUB".to_string(),
        status: "pending".to_string(),
        payment_url: if provider_data { Some("https://pay.example/tx-1".to_string()) } else { None },
        created_at: T,
        updated_at: T,
        paid_at: None,
    }
}

fn platega(configured: bool) -> PlategaConfig {
    PlategaConfig {
        base_url: "https://app.platega.io/".to_string(),
        merchant_id: if configured { Some("merchant".to_string()) } else { None },
        api_key: if configured { Some("secret".to_string()) } else { None },
        webhook_bind: "127.0.0.1:8080".to_string(),
        callback_url: "https://bot.example/platega/webhook".to_string(),
        return_url: "https://bot.example/payment/success".to_string(),
        failed_url: "https://bot.example/payment/failed".to_string(),
    }
}

fn begin_prepare(configured: bool) -> (PrepareFlow, PrepareAction) {
    let (flow, action) = prepare_step(PrepareFlow::new(platega(configured), order()), PrepareEvent::Begin);
    assert!(matches!(&action, PrepareAction::FindPayment { key } if key == "order:11:platega"));
    (flow, action)
}

#[test]
fn prepared_payment_with_a_transaction_is_returned_as_it_is() {
    let (flow, _) = begin_prepare(true);
    let (_, action) = prepare_step(flow, PrepareEvent::PaymentFound(Ok(Some(payment(true)))));
    match action {
        PrepareAction::Finish(Ok(p)) => {
            assert_eq!(p.id, 5);
            assert_eq!(p.payment_url.as_deref(), Some("https://pay.example/tx-1"));
        }
        other => panic!("expected the payment, got {other:?}"),
    }
}

#[test]
fn new_payment_is_created_sent_and_stored() {
    let (flow, _) = begin_prepare(true);
    let (flow, action) = prepare_step(flow, PrepareEvent::PaymentFound(Ok(None)));
    match &action {
        PrepareAction::CreatePayment(np) => {
            assert_eq!(np.idempotency_key, "order:11:platega");
            assert_eq!(np.amount_kopecks, 300_00);
        }
        other => panic!("expected a new payment, got {other:?}"),
    }
    let (flow, action) = prepare_step(flow, PrepareEvent::PaymentCreated(Ok(payment(false))));
    match &action {
        PrepareAction::SendTransaction { draft, merchant_id, api_key } => {
            assert_eq!(draft.endpoint, "https://app.platega.io/v2/transaction/process");
            assert_eq!(draft.payload, "order:11;payment:5");
            assert_eq!(merchant_id, "merchant");
            assert_eq!(api_key, "secret");
        }
        other => panic!("expected a transaction, got {other:?}"),
    }
    let (flow, action) = prepare_step(flow, PrepareEvent::Sent(Ok(200)));
    assert!(matches!(action, PrepareAction::ReadReply));
    let reply = ("tx-1".to_string(), "https://Pay.Example/tx-1".to_string());
    let (flow, action) = prepare_step(flow, PrepareEvent::ReplyRead(Ok(reply)));
    assert!(matches!(
        &action,
        PrepareAction::StoreProviderData { payment_id: 5, transaction_id, payment_url }
            if transaction_id == "tx-1" && payment_url == "https://pay.example/tx-1"
    ));
    let (_, action) = prepare_step(flow, PrepareEvent::Stored(Ok(payment(true))));
    assert!(matches!(action, PrepareAction::Finish(Ok(p)) if p.id == 5));
}

#[test]
fn preparation_errors_are_reported() {
    let (flow, _) = begin_prepare(false);
    let (_, action) = prepare_step(flow, PrepareEvent::PaymentFound(Ok(Some(payment(false)))));
    assert!(matches!(action, PrepareAction::Finish(Err(PaymentError::NotConfigured))));

    let (flow, _) = begin_prepare(true);
    let (_, action) = prepare_step(
        flow,
        PrepareEvent::PaymentFound(Err(DatabaseError::Sqlx("down".to_string()))),
    );
    assert!(matches!(action, PrepareAction::Finish(Err(PaymentError::Database(_)))));

    let (flow, _) = begin_prepare(true);
    let (flow, _) = prepare_step(flow, PrepareEvent::PaymentFound(Ok(Some(payment(false)))));
    let (_, action) = prepare_step(flow, PrepareEvent::Sent(Ok(500)));
    assert!(matches!(action, PrepareAction::Finish(Err(PaymentError::ApiStatus(500)))));

    let (flow, _) = begin_prepare(true);
    let (flow, _) = prepare_step(flow, PrepareEvent::PaymentFound(Ok(Some(payment(false)))));
    let (flow, _) = prepare_step(flow, PrepareEvent::Sent(Ok(201)));
    let reply = ("tx-1".to_string(), "http://pay.example/tx-1".to_string());
    let (_, action) = prepare_step(flow, PrepareEvent::ReplyRead(Ok(reply)));
    assert!(matches!(action, PrepareAction::Finish(Err(PaymentError::InvalidResponse))));

    let (flow, _) = begin_prepare(true);
    let (flow, _) = prepare_step(flow, PrepareEvent::PaymentFound(Ok(Some(payment(false)))));
    let (_, action) = prepare_step(flow, PrepareEvent::Sent(Err("timeout".to_string())));
    assert!(matches!(action, PrepareAction::Finish(Err(PaymentError::Http(m))) if m == "timeout"));
}

fn received(body: &str, merchant: Option<&str>, secret: Option<&str>) -> WebhookEvent {
    WebhookEvent::Received {
        body: body.as_bytes().to_vec(),
        header_merchant_id: merchant.map(str::to_string),
        header_secret: secret.map(str::to_string),
    }
}

fn callback(status: &str) -> PlategaCallback {
    PlategaCallback {
        id: "tx-1".to_string(),
        currency: "RUB".to_string(),
        status: status.to_string(),
        payload: Some("order:11;payment:5".to_string()),
    }
}

fn webhook() -> WebhookFlow {
    WebhookFlow::new(Some("merchant".to_string()), Some("secret".to_string()))
}

/// Runs a callback with `status` up to the lookup of its payment.
fn to_payment(status: &str) -> (WebhookFlow, WebhookAction) {
    let (flow, action) = webhook_step(webhook(), received("{}", Some("merchant"), Some("secret")));
    assert!(matches!(action, WebhookAction::ParseBody));
    let (flow, action) =
        webhook_step(flow, WebhookEvent::Parsed(Some((callback(status), Some(300_00)))));
    assert!(matches!(&action, WebhookAction::FindPayment { transaction_id } if transaction_id == "tx-1"));
    webhook_step(flow, WebhookEvent::PaymentFound(Ok(Some(payment(true)))))
}

#[test]
fn callback_gate_answers_before_anything_is_read() {
    let (_, action) = webhook_step(webhook(), received("  ", None, None));
    assert!(matches!(action, WebhookAction::Answer(200)));
    let (_, action) = webhook_step(webhook(), received("{}", Some("merchant"), Some("wrong")));
    assert!(matches!(action, WebhookAction::Answer(401)));
    let (_, action) = webhook_step(
        WebhookFlow::new(None, None),
        received("{}", Some("merchant"), Some("secret")),
    );
    assert!(matches!(action, WebhookAction::Answer(503)));
    let (flow, _) = webhook_step(webhook(), received("{}", Some("merchant"), Some("secret")));
    let (_, action) = webhook_step(flow, WebhookEvent::Parsed(None));
    assert!(matches!(action, WebhookAction::Answer(400)));
}

#[test]
fn confirmed_callback_marks_paid_and_activates() {
    let (flow, action) = to_payment("CONFIRMED");
    assert!(matches!(action, WebhookAction::MarkPaid { payment_id: 5 }));
    let (flow, action) =
        webhook_step(flow, WebhookEvent::MarkedPaid(Ok(MarkPaymentPaidResult::Applied)));
    assert!(matches!(action, WebhookAction::Activate { order_id: 11 }));
    let (_, action) = webhook_step(flow, WebhookEvent::Activated(false));
    assert!(matches!(action, WebhookAction::Answer(503)));

    let (flow, _) = to_payment("CONFIRMED");
    let (_, action) =
        webhook_step(flow, WebhookEvent::MarkedPaid(Ok(MarkPaymentPaidResult::OrderNotPayable)));
    assert!(matches!(action, WebhookAction::Answer(409)));
}

#[test]
fn other_statuses_are_stored_or_answered() {
    let (flow, action) = to_payment("CANCELED");
    assert!(matches!(action, WebhookAction::MarkCancelled { payment_id: 5 }));
    let (_, action) = webhook_step(flow, WebhookEvent::Stored(Ok(())));
    assert!(matches!(action, WebhookAction::Answer(200)));
    let (flow, action) = to_payment("CHARGEBACK");
    assert!(matches!(action, WebhookAction::MarkChargeback { payment_id: 5 }));
    let (_, action) =
        webhook_step(flow, WebhookEvent::Stored(Err(DatabaseError::Sqlx("down".to_string()))));
    assert!(matches!(action, WebhookAction::Answer(500)));
    let (_, action) = to_payment("PENDING");
    assert!(matches!(action, WebhookAction::Answer(200)));
    let (_, action) = to_payment("UNKNOWN");
    assert!(matches!(action, WebhookAction::Answer(400)));
}

#[test]
fn callback_for_another_amount_or_no_payment_is_refused() {
    let (flow, _) = webhook_step(webhook(), received("{}", Some("merchant"), Some("secret")));
    let (flow, _) =
        webhook_step(flow, WebhookEvent::Parsed(Some((callback("CONFIRMED"), Some(1)))));
    let (_, action) = webhook_step(flow, WebhookEvent::PaymentFound(Ok(Some(payment(true)))));
    assert!(matches!(action, WebhookAction::Answer(409)));
    let (flow, _) = webhook_step(webhook(), received("{}", Some("merchant"), Some("secret")));
    let (flow, _) =
        webhook_step(flow, WebhookEvent::Parsed(Some((callback("CONFIRMED"), Some(300_00)))));
    let (_, action) = webhook_step(flow, WebhookEvent::PaymentFound(Ok(None)));
    assert!(matches!(action, WebhookAction::Answer(404)));
}

fn user(id: i64, telegram_id: u64) -> RemnawaveUser {
    RemnawaveUser {
        id,
        username: "test-user".to_string(),
        status: "ACTIVE".to_string(),
        traffic_limit_bytes: 0,
        expire_at: "2026-10-01T00:00:00Z".to_string(),
        telegram_id: Some(telegram_id),
        hwid_device_limit: Some(5),
        subscription_url: "https://example.invalid/subscription".to_string(),
        tag: Some("PAID".to_string()),
        user_traffic: UserTraffic {
            used_traffic_bytes: 0,
            lifetime_used_traffic_bytes: 0,
            online_at: None,
            first_connected_at: None,
        },
    }
}

fn device(user_id: i64, hwid: &str) -> HwidDevice {
    HwidDevice {
        user_id,
        hwid: hwid.to_string(),
        platform: Some("Android".to_string()),
        os_version: Some("16".to_string()),
        device_model: Some("Телефон".to_string()),
        user_agent: None,
        created_at: "2026-09-16T00:00:00Z".to_string(),
        updated_at: "2026-09-16T01:00:00Z".to_string(),
    }
}

fn reported(devices: Vec<HwidDevice>) -> HwidDevices {
    HwidDevices { total: devices.len(), devices }
}

/// Runs `request` up to the listing of the devices of user 7.
fn to_devices(request: DeviceRequest) -> DeviceFlow {
    let (flow, action) = device_step(DeviceFlow::new(42, request), DeviceEvent::Begin);
    assert!(matches!(action, DeviceAction::FindUsers { telegram_id: 42 }));
    let (flow, action) =
        device_step(flow, DeviceEvent::UsersListed(Some(Ok(vec![user(7, 42)]))));
    assert!(matches!(action, DeviceAction::GetDevices { user_id: 7 }));
    flow
}

#[test]
fn malformed_device_token_contacts_nothing() {
    for token in ["", "7:phone", "../../", "неверная-кнопка"] {
        let (_, action) = device_step(
            DeviceFlow::new(42, DeviceRequest::Delete { token: token.to_string() }),
            DeviceEvent::Begin,
        );
        assert!(matches!(action, DeviceAction::Finish(Err(DeviceError::DeviceNotFound))));
    }
}

#[test]
fn device_requests_check_the_subscription() {
    let (flow, _) = device_step(DeviceFlow::new(42, DeviceRequest::List), DeviceEvent::Begin);
    let (_, action) = device_step(flow, DeviceEvent::UsersListed(None));
    assert!(matches!(action, DeviceAction::Finish(Err(DeviceError::Timeout))));
    let (flow, _) = device_step(DeviceFlow::new(42, DeviceRequest::List), DeviceEvent::Begin);
    let (_, action) = device_step(flow, DeviceEvent::UsersListed(Some(Ok(vec![user(7, 99)]))));
    assert!(matches!(action, DeviceAction::Finish(Err(DeviceError::OwnershipMismatch))));
}

#[test]
fn device_list_and_lookup_run_through_the_flow() {
    let flow = to_devices(DeviceRequest::List);
    let (_, action) = device_step(
        flow,
        DeviceEvent::DevicesListed(Ok(reported(vec![device(7, "phone"), device(7, "laptop")]))),
    );
    match action {
        DeviceAction::Finish(Ok(DeviceOutcome::Listed(list))) => {
            let hwids: Vec<&str> = list.devices.iter().map(|d| d.hwid.as_str()).collect();
            assert_eq!(hwids, vec!["laptop", "phone"]);
        }
        other => panic!("expected the list, got {other:?}"),
    }
    let token = device_token(&device(7, "phone"));
    let flow = to_devices(DeviceRequest::Get { token });
    let (_, action) = device_step(
        flow,
        DeviceEvent::DevicesListed(Ok(reported(vec![device(7, "laptop"), device(7, "phone")]))),
    );
    assert!(matches!(action, DeviceAction::Finish(Ok(DeviceOutcome::Found(d))) if d.hwid == "phone"));
}

#[test]
fn deletion_names_the_device_and_is_confirmed() {
    let token = device_token(&device(7, "phone"));
    let flow = to_devices(DeviceRequest::Delete { token: token.clone() });
    let (flow, action) = device_step(
        flow,
        DeviceEvent::DevicesListed(Ok(reported(vec![device(7, "laptop"), device(7, "phone")]))),
    );
    assert!(matches!(&action, DeviceAction::DeleteDevice { user_id: 7, hwid } if hwid == "phone"));
    let (_, action) = device_step(flow, DeviceEvent::Deleted(Ok(reported(vec![device(7, "laptop")]))));
    assert!(matches!(action, DeviceAction::Finish(Ok(DeviceOutcome::Listed(l))) if l.devices.len() == 1));

    let flow = to_devices(DeviceRequest::Delete { token: token.clone() });
    let (flow, _) = device_step(flow, DeviceEvent::DevicesListed(Ok(reported(vec![device(7, "phone")]))));
    let (_, action) = device_step(flow, DeviceEvent::Deleted(Ok(reported(vec![device(7, "phone")]))));
    assert!(matches!(action, DeviceAction::Finish(Err(DeviceError::DeletionNotApplied))));

    let flow = to_devices(DeviceRequest::Delete { token: token.clone() });
    let (_, action) = device_step(flow, DeviceEvent::DevicesListed(Ok(reported(vec![device(8, "phone")]))));
    assert!(matches!(action, DeviceAction::Finish(Err(DeviceError::OwnershipMismatch))));

    let flow = to_devices(DeviceRequest::Delete { token });
    let (_, action) = device_step(flow, DeviceEvent::DevicesListed(Ok(reported(vec![device(7, "laptop")]))));
    assert!(matches!(action, DeviceAction::Finish(Err(DeviceError::DeviceNotFound))));
}
