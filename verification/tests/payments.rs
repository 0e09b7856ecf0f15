use vpn_bot_tg::database::{
    claim_by_rows, claim_by_status, db_telegram_id, mark_paid_by_order, mark_paid_by_payment,
    new_payment, ClaimStep, DatabaseError, MarkPaymentPaidResult, NewOrder, Order, Payment,
    TrialClaimDecision,
};
use vpn_bot_tg::payment::{
    accept_transaction, check_status, draft_transaction, has_transaction, payload, PaymentError,
    PROVIDER_PLATEGA,
};
use vpn_bot_tg::time::Instant;
use vpn_bot_tg::webhook::{
    after_activation, after_mark_paid, callback_action, check_callback, gate_callback,
    simple_answer, CallbackAction, PlategaCallback,
};

const T: Instant = Instant { secs: 1_700_000_000, nanos: 0 };

fn order() -> Order {
    Order {
        id: 11,
        telegram_id: 42,
        tariff_code: "month".to_string(),
        tariff_name: "Месяц".to_string(),
        tariff_description: "30 дней".to_string(),
        price_kopecks: 300_00,
        currency: "RUB".to_string(),
        duration_days: 30,
        traffic_gib: None,
        hwid_limit: 3,
        internal_squad_names: vec!["Default".to_string()],
        status: "pending".to_string(),
        created_at: T,
        updated_at: T,
    }
}

fn payment() -> Payment {
    Payment {
        id: 5,
        order_id: 11,
        provider: PROVIDER_PLATEGA.to_string(),
        provider_payment_id: None,
        idempotency_key: "order:11:platega".to_string(),
        amount_kopecks: 300_00,
        currency: "RUB".to_string(),
        status: "pending".to_string(),
        payment_url: None,
        created_at: T,
        updated_at: T,
        paid_at: None,
    }
}

fn some(s: &str) -> Option<String> {
    Some(s.to_string())
}

fn draft(base_url: &str, merchant: Option<String>, key: Option<String>, p: &Payment) -> Result<vpn_bot_tg::payment::TransactionDraft, PaymentError> {
    draft_transaction(
        base_url,
        &merchant,
        &key,
        "https://bot.example/payment/success",
        "https://bot.example/payment/failed",
        &order(),
        p,
    )
}

#[test]
fn payment_is_keyed_by_order_and_provider() {
    let p = new_payment(&order(), PROVIDER_PLATEGA);
    assert_eq!(p.order_id, 11);
    assert_eq!(p.provider, "platega");
    assert_eq!(p.amount_kopecks, 300_00);
    assert_eq!(p.currency, "RUB");
    assert_eq!(p.idempotency_key, "order:11:platega");
}

#[test]
fn transaction_needs_both_credentials_roubles_and_an_amount() {
    let p = payment();
    let base = "https://app.platega.io/";
    assert!(matches!(draft(base, None, some("k"), &p), Err(PaymentError::NotConfigured)));
    assert!(matches!(draft(base, some("m"), None, &p), Err(PaymentError::NotConfigured)));
    let mut usd = payment();
    usd.currency = "USD".to_string();
    assert!(matches!(draft(base, some("m"), some("k"), &usd), Err(PaymentError::UnsupportedCurrency)));
    let mut free = payment();
    free.amount_kopecks = 0;
    assert!(matches!(draft(base, some("m"), some("k"), &free), Err(PaymentError::InvalidAmount)));
    assert!(matches!(draft("relative/path", some("m"), some("k"), &p), Err(PaymentError::InvalidEndpoint)));
}

#[test]
fn transaction_draft_carries_the_order() {
    let d = draft("https://app.platega.io/api/", some("m"), some("k"), &payment()).unwrap();
    assert_eq!(d.endpoint, "https://app.platega.io/api/v2/transaction/process");
    assert_eq!(d.amount_kopecks, 300_00);
    assert_eq!(d.currency, "RUB");
    assert_eq!(d.description, "SilentOkVPN, заказ #11");
    assert_eq!(d.return_url, "https://bot.example/payment/success");
    assert_eq!(d.failed_url, "https://bot.example/payment/failed");
    assert_eq!(d.payload, "order:11;payment:5");
    assert_eq!(d.user_id, "42");
    let d = draft("https://app.platega.io/api", some("m"), some("k"), &payment()).unwrap();
    assert_eq!(d.endpoint, "https://app.platega.io/v2/transaction/process");
}

#[test]
fn payload_names_order_and_payment() {
    assert_eq!(payload(11, 5), "order:11;payment:5");
    assert_eq!(payload(-1, 0), "order:-1;payment:0");
}

#[test]
fn existing_transaction_is_reused() {
    let mut p = payment();
    assert!(!has_transaction(&p));
    p.provider_payment_id = some("tx");
    assert!(!has_transaction(&p));
    p.payment_url = some("https://pay.example/tx");
    assert!(has_transaction(&p));
}

#[test]
fn provider_reply_is_checked() {
    assert!(check_status(200).is_ok());
    assert!(check_status(299).is_ok());
    assert!(matches!(check_status(400), Err(PaymentError::ApiStatus(400))));
    assert!(matches!(check_status(302), Err(PaymentError::ApiStatus(302))));
    let ok = accept_transaction("tx-1".to_string(), "https://Pay.Example/tx".to_string()).unwrap();
    assert_eq!(ok.transaction_id, "tx-1");
    assert_eq!(ok.payment_url, "https://pay.example/tx");
    for (id, url) in [
        (" ", "https://pay.example/tx"),
        ("tx-1", ""),
        ("tx-1", "http://pay.example/tx"),
        ("tx-1", "not a url"),
    ] {
        assert!(matches!(
            accept_transaction(id.to_string(), url.to_string()),
            Err(PaymentError::InvalidResponse)
        ));
    }
}

#[test]
fn callback_gate_checks_body_configuration_and_headers() {
    let m = some("merchant");
    let k = some("secret");
    assert_eq!(gate_callback(b"", &None, &None, &None, &None), Some(200));
    assert_eq!(gate_callback(b" \r\n\t", &m, &k, &None, &None), Some(200));
    assert_eq!(gate_callback(b"{}", &None, &k, &some("merchant"), &some("secret")), Some(503));
    assert_eq!(gate_callback(b"{}", &m, &None, &some("merchant"), &some("secret")), Some(503));
    assert_eq!(gate_callback(b"{}", &m, &k, &some("merchant"), &some("wrong")), Some(401));
    assert_eq!(gate_callback(b"{}", &m, &k, &None, &some("secret")), Some(401));
    assert_eq!(gate_callback(b"{}", &m, &k, &some("merchant"), &some("secret")), None);
}

#[test]
fn callback_must_match_the_payment() {
    let callback = |currency: &str, payload: Option<&str>| PlategaCallback {
        id: "tx".to_string(),
        currency: currency.to_string(),
        status: "CONFIRMED".to_string(),
        payload: payload.map(str::to_string),
    };
    let p = payment();
    assert_eq!(check_callback(&p, None, &callback("RUB", None)), Some(400));
    assert_eq!(check_callback(&p, Some(299_99), &callback("RUB", None)), Some(409));
    assert_eq!(check_callback(&p, Some(300_00), &callback("USD", None)), Some(409));
    assert_eq!(
        check_callback(&p, Some(300_00), &callback("RUB", Some("order:11;payment:6"))),
        Some(409)
    );
    assert_eq!(check_callback(&p, Some(300_00), &callback("RUB", Some("order:11;payment:5"))), None);
    assert_eq!(check_callback(&p, Some(300_00), &callback("RUB", None)), None);
}

#[test]
fn callback_status_decides_the_action() {
    assert_eq!(callback_action("PENDING"), CallbackAction::Acknowledge);
    assert_eq!(callback_action("CANCELED"), CallbackAction::Cancel);
    assert_eq!(callback_action("CHARGEBACKED"), CallbackAction::Chargeback);
    assert_eq!(callback_action("CHARGEBACK"), CallbackAction::Chargeback);
    assert_eq!(callback_action("CONFIRMED"), CallbackAction::Confirm);
    assert_eq!(callback_action("confirmed"), CallbackAction::Reject);
    assert_eq!(simple_answer(CallbackAction::Acknowledge, false), 200);
    assert_eq!(simple_answer(CallbackAction::Reject, true), 400);
    assert_eq!(simple_answer(CallbackAction::Cancel, true), 200);
    assert_eq!(simple_answer(CallbackAction::Chargeback, false), 500);
}

#[test]
fn confirmed_payment_is_activated_even_when_paid_before() {
    assert_eq!(after_mark_paid(&Ok(MarkPaymentPaidResult::Applied)), None);
    assert_eq!(after_mark_paid(&Ok(MarkPaymentPaidResult::AlreadyPaid)), None);
    assert_eq!(after_mark_paid(&Ok(MarkPaymentPaidResult::OrderNotPayable)), Some(409));
    assert_eq!(after_mark_paid(&Ok(MarkPaymentPaidResult::NotFound)), Some(404));
    assert_eq!(after_mark_paid(&Err(DatabaseError::Sqlx("down".to_string()))), Some(500));
    assert_eq!(after_activation(true), 200);
    assert_eq!(after_activation(false), 503);
}

#[test]
fn marking_paid_depends_on_payment_and_order() {
    assert_eq!(mark_paid_by_payment(&None), Some(MarkPaymentPaidResult::NotFound));
    let mut paid = payment();
    paid.status = "paid".to_string();
    assert_eq!(mark_paid_by_payment(&Some(paid)), Some(MarkPaymentPaidResult::AlreadyPaid));
    assert_eq!(mark_paid_by_payment(&Some(payment())), None);
    assert_eq!(mark_paid_by_order("pending"), MarkPaymentPaidResult::Applied);
    assert_eq!(mark_paid_by_order("cancelled"), MarkPaymentPaidResult::OrderNotPayable);
}

#[test]
fn trial_claims_follow_their_status() {
    assert_eq!(claim_by_rows(1), TrialClaimDecision::Acquired);
    assert_eq!(claim_by_rows(0), TrialClaimDecision::InProgress);
    assert_eq!(
        claim_by_status("active").unwrap(),
        ClaimStep::Decided(TrialClaimDecision::AlreadyUsed)
    );
    assert_eq!(
        claim_by_status("ineligible").unwrap(),
        ClaimStep::Decided(TrialClaimDecision::Ineligible)
    );
    assert_eq!(claim_by_status("failed").unwrap(), ClaimStep::Reacquire);
    assert_eq!(claim_by_status("creating").unwrap(), ClaimStep::Reacquire);
    assert!(matches!(claim_by_status("odd"), Err(DatabaseError::UnknownTrialStatus(s)) if s == "odd"));
}

#[test]
fn values_must_fit_the_columns() {
    assert_eq!(db_telegram_id(42).unwrap(), 42);
    assert!(matches!(db_telegram_id(u64::MAX), Err(DatabaseError::InvalidTelegramId)));
    let new_order = NewOrder {
        telegram_id: 42,
        tariff_code: "month".to_string(),
        tariff_name: "Месяц".to_string(),
        tariff_description: "30 дней".to_string(),
        price_kopecks: 300_00,
        duration_days: 30,
        traffic_gib: Some(100),
        hwid_limit: 3,
        internal_squad_names: vec!["Default".to_string()],
    };
    let v = new_order.values().unwrap();
    assert_eq!((v.telegram_id, v.price_kopecks, v.duration_days, v.traffic_gib, v.hwid_limit), (42, 300_00, 30, Some(100), 3));
    let mut big = new_order.clone();
    big.duration_days = i64::from(i32::MAX) + 1;
    assert!(matches!(big.values(), Err(DatabaseError::InvalidOrderValue)));
    let mut big = new_order.clone();
    big.hwid_limit = u32::MAX;
    assert!(matches!(big.values(), Err(DatabaseError::InvalidOrderValue)));
    let mut foreign = new_order;
    foreign.telegram_id = u64::MAX;
    foreign.price_kopecks = u64::MAX;
    assert!(matches!(foreign.values(), Err(DatabaseError::InvalidTelegramId)));
}
