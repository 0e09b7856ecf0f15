use vstd::prelude::*;

use crate::database::{DatabaseError, MarkPaymentPaidResult, Payment};
use crate::payment::{payload, payload_of};
use crate::text::str_eq;

verus! {

pub const STATUS_OK: u16 = 200;
pub const STATUS_BAD_REQUEST: u16 = 400;
pub const STATUS_UNAUTHORIZED: u16 = 401;
pub const STATUS_NOT_FOUND: u16 = 404;
pub const STATUS_CONFLICT: u16 = 409;
pub const STATUS_INTERNAL_SERVER_ERROR: u16 = 500;
pub const STATUS_SERVICE_UNAVAILABLE: u16 = 503;

/// A callback of the payment provider, as far as it is checked; the amount
/// is given to `check_callback` in kopecks.
#[derive(Debug, Clone)]
pub struct PlategaCallback {
    pub id: String,
    pub currency: String,
    pub status: String,
    pub payload: Option<String>,
}

/// `b` is ASCII white space (`u8::is_ascii_whitespace`).
pub open spec fn ascii_space(b: u8) -> bool {
    b == 0x20 || b == 0x09 || b == 0x0A || b == 0x0C || b == 0x0D
}

/// The body holds nothing but ASCII white space.
pub open spec fn empty_body(body: Seq<u8>) -> bool {
    forall|i: int| 0 <= i < body.len() ==> ascii_space(#[trigger] body[i])
}

/// A header is present and holds exactly `expected`.
pub open spec fn header_is(h: Option<String>, expected: Seq<char>) -> bool {
    match h {
        Some(x) => x@ == expected,
        None => false,
    }
}

/// The answer to a callback decided before its body is read: an empty body
/// is acknowledged; without both credentials the endpoint is unavailable; a
/// callback that does not carry both of them is unauthorized. `None`: go on.
pub open spec fn gate_answer(
    body: Seq<u8>,
    merchant_id: Option<String>,
    api_key: Option<String>,
    header_merchant_id: Option<String>,
    header_secret: Option<String>,
) -> Option<u16> {
    if empty_body(body) {
        Some(STATUS_OK)
    } else if merchant_id is None || api_key is None {
        Some(STATUS_SERVICE_UNAVAILABLE)
    } else if !header_is(header_merchant_id, merchant_id->0@) || !header_is(
        header_secret,
        api_key->0@,
    ) {
        Some(STATUS_UNAUTHORIZED)
    } else {
        None
    }
}

pub fn gate_callback(
    body: &[u8],
    merchant_id: &Option<String>,
    api_key: &Option<String>,
    header_merchant_id: &Option<String>,
    header_secret: &Option<String>,
) -> (r: Option<u16>)
    ensures
        r == gate_answer(body@, *merchant_id, *api_key, *header_merchant_id, *header_secret),
{
    let mut i: usize = 0;
    let mut all_space = true;
    while i < body.len()
        invariant
            i <= body.len(),
            all_space == (forall|j: int| 0 <= j < i ==> ascii_space(#[trigger] body@[j])),
        decreases body.len() - i,
    {
        let b = body[i];
        if !(b == 0x20 || b == 0x09 || b == 0x0A || b == 0x0C || b == 0x0D) {
            all_space = false;
        }
        i = i + 1;
    }
    if all_space {
        return Some(STATUS_OK);
    }
    let (merchant, key) = match (merchant_id, api_key) {
        (Some(m), Some(k)) => (m, k),
        _ => {
            return Some(STATUS_SERVICE_UNAVAILABLE);
        },
    };
    let merchant_ok = match header_merchant_id {
        Some(h) => str_eq(h.as_str(), merchant.as_str()),
        None => false,
    };
    let secret_ok = match header_secret {
        Some(h) => str_eq(h.as_str(), key.as_str()),
        None => false,
    };
    if !merchant_ok || !secret_ok {
        Some(STATUS_UNAUTHORIZED)
    } else {
        None
    }
}

/// The answer to a callback whose payment was found, decided by comparing
/// it with the payment: an amount that is not a positive whole number of
/// kopecks is a bad request; another amount or currency, or a payload naming
/// another order or payment, is a conflict. `None`: the callback matches.
pub open spec fn callback_check(payment: Payment, amount_kopecks: Option<i64>, callback: PlategaCallback) -> Option<u16> {
    match amount_kopecks {
        None => Some(STATUS_BAD_REQUEST),
        Some(a) => if a != payment.amount_kopecks || callback.currency@ != payment.currency@ {
            Some(STATUS_CONFLICT)
        } else {
            match callback.payload {
                Some(p) => if p@ != payload_of(payment.order_id, payment.id) {
                    Some(STATUS_CONFLICT)
                } else {
                    None
                },
                None => None,
            }
        },
    }
}

pub fn check_callback(payment: &Payment, amount_kopecks: Option<i64>, callback: &PlategaCallback) -> (r: Option<u16>)
    ensures
        r == callback_check(*payment, amount_kopecks, *callback),
        r is None ==> amount_kopecks == Some(payment.amount_kopecks) && callback.currency@
            == payment.currency@,
        amount_kopecks matches Some(a) && a != payment.amount_kopecks ==> r == Some(409u16),
{
    let amount = match amount_kopecks {
        None => {
            return Some(STATUS_BAD_REQUEST);
        },
        Some(a) => a,
    };
    if amount != payment.amount_kopecks || !str_eq(
        callback.currency.as_str(),
        payment.currency.as_str(),
    ) {
        return Some(STATUS_CONFLICT);
    }
    match &callback.payload {
        Some(p) => {
            let expected = payload(payment.order_id, payment.id);
            if !str_eq(p.as_str(), expected.as_str()) {
                Some(STATUS_CONFLICT)
            } else {
                None
            }
        },
        None => None,
    }
}

/// What a callback's status asks for.
#[derive(Debug, Clone, Copy, PartialEq, Eq, Structural)]
pub enum CallbackAction {
    Acknowledge,
    Cancel,
    Chargeback,
    Confirm,
    Reject,
}

/// `PENDING` is only acknowledged, `CANCELED` cancels, `CHARGEBACKED` or
/// `CHARGEBACK` records a chargeback, `CONFIRMED` confirms; any other status
/// is a bad request.
pub open spec fn action_of(status: Seq<char>) -> CallbackAction {
    if status == "PENDING"@ {
        CallbackAction::Acknowledge
    } else if status == "CANCELED"@ {
        CallbackAction::Cancel
    } else if status == "CHARGEBACKED"@ || status == "CHARGEBACK"@ {
        CallbackAction::Chargeback
    } else if status == "CONFIRMED"@ {
        CallbackAction::Confirm
    } else {
        CallbackAction::Reject
    }
}

pub fn callback_action(status: &str) -> (r: CallbackAction)
    ensures
        r == action_of(status@),
{
    if str_eq(status, "PENDING") {
        CallbackAction::Acknowledge
    } else if str_eq(status, "CANCELED") {
        CallbackAction::Cancel
    } else if str_eq(status, "CHARGEBACKED") || str_eq(status, "CHARGEBACK") {
        CallbackAction::Chargeback
    } else if str_eq(status, "CONFIRMED") {
        CallbackAction::Confirm
    } else {
        CallbackAction::Reject
    }
}

/// The answer for an action without a further step: acknowledged, or, for
/// a status change, acknowledged when stored and an internal error if not.
pub open spec fn answer_of(action: CallbackAction, stored: bool) -> u16 {
    match action {
        CallbackAction::Acknowledge => STATUS_OK,
        CallbackAction::Reject => STATUS_BAD_REQUEST,
        _ => if stored {
            STATUS_OK
        } else {
            STATUS_INTERNAL_SERVER_ERROR
        },
    }
}

pub fn simple_answer(action: CallbackAction, stored: bool) -> (r: u16)
    ensures
        r == answer_of(action, stored),
{
    match action {
        CallbackAction::Acknowledge => STATUS_OK,
        CallbackAction::Reject => STATUS_BAD_REQUEST,
        _ => if stored {
            STATUS_OK
        } else {
            STATUS_INTERNAL_SERVER_ERROR
        },
    }
}

/// After a confirmed payment was marked paid: `None` means activate the
/// order (newly paid or paid before, so that a repeated callback finishes an
/// activation that failed); otherwise the answer.
pub open spec fn paid_answer(result: Result<MarkPaymentPaidResult, DatabaseError>) -> Option<u16> {
    match result {
        Err(_) => Some(STATUS_INTERNAL_SERVER_ERROR),
        Ok(MarkPaymentPaidResult::Applied) => None,
        Ok(MarkPaymentPaidResult::AlreadyPaid) => None,
        Ok(MarkPaymentPaidResult::OrderNotPayable) => Some(STATUS_CONFLICT),
        Ok(MarkPaymentPaidResult::NotFound) => Some(STATUS_NOT_FOUND),
    }
}

pub fn after_mark_paid(result: &Result<MarkPaymentPaidResult, DatabaseError>) -> (r: Option<u16>)
    ensures
        r == paid_answer(*result),
{
    match result {
        Err(_) => Some(STATUS_INTERNAL_SERVER_ERROR),
        Ok(MarkPaymentPaidResult::Applied) => None,
        Ok(MarkPaymentPaidResult::AlreadyPaid) => None,
        Ok(MarkPaymentPaidResult::OrderNotPayable) => Some(STATUS_CONFLICT),
        Ok(MarkPaymentPaidResult::NotFound) => Some(STATUS_NOT_FOUND),
    }
}

/// After the activation of a paid order: acknowledged when it succeeded,
/// else unavailable, so that the provider sends the callback again.
pub fn after_activation(activated: bool) -> (r: u16)
    ensures
        r == (if activated { STATUS_OK } else { STATUS_SERVICE_UNAVAILABLE }),
{
    if activated {
        STATUS_OK
    } else {
        STATUS_SERVICE_UNAVAILABLE
    }
}

} // verus!

verus! {

// ---------------------------------------------------------------------------
// Handling one callback
// ---------------------------------------------------------------------------

/// Where the handling of one callback stands.
#[derive(Debug)]
pub enum WebhookStage {
    Start,
    AwaitParsed,
    AwaitPayment { callback: PlategaCallback, amount_kopecks: Option<i64> },
    AwaitStored { action: CallbackAction },
    AwaitMarkedPaid { order_id: i64 },
    AwaitActivated,
    Finished,
}

/// The handling of one callback, with the credentials it must carry.
#[derive(Debug)]
pub struct WebhookFlow {
    pub merchant_id: Option<String>,
    pub api_key: Option<String>,
    pub stage: WebhookStage,
}

/// What came back from the last action.
#[derive(Debug)]
pub enum WebhookEvent {
    /// The request: its body and the two credential headers.
    Received { body: Vec<u8>, header_merchant_id: Option<String>, header_secret: Option<String> },
    /// The body read as a callback, with its amount in kopecks when that is
    /// a positive whole number of them; `None` when it is not a callback.
    Parsed(Option<(PlategaCallback, Option<i64>)>),
    PaymentFound(Result<Option<Payment>, DatabaseError>),
    Stored(Result<(), DatabaseError>),
    MarkedPaid(Result<MarkPaymentPaidResult, DatabaseError>),
    /// Whether the activation of the paid order succeeded.
    Activated(bool),
}

/// What the caller is to do next.
#[derive(Debug)]
pub enum WebhookAction {
    /// Answer the request with this HTTP status; the handling is over.
    Answer(u16),
    ParseBody,
    FindPayment { transaction_id: String },
    MarkCancelled { payment_id: i64 },
    MarkChargeback { payment_id: i64 },
    MarkPaid { payment_id: i64 },
    Activate { order_id: i64 },
}

impl WebhookFlow {
    /// A new handling with the configured credentials, not started.
    pub fn new(merchant_id: Option<String>, api_key: Option<String>) -> (f: WebhookFlow)
        ensures
            f.merchant_id == merchant_id,
            f.api_key == api_key,
            f.stage is Start,
    {
        WebhookFlow { merchant_id, api_key, stage: WebhookStage::Start }
    }
}

/// The event that `stage` waits for.
pub open spec fn webhook_awaits(stage: WebhookStage, event: WebhookEvent) -> bool {
    match stage {
        WebhookStage::Start => event is Received,
        WebhookStage::AwaitParsed => event is Parsed,
        WebhookStage::AwaitPayment { .. } => event is PaymentFound,
        WebhookStage::AwaitStored { .. } => event is Stored,
        WebhookStage::AwaitMarkedPaid { .. } => event is MarkedPaid,
        WebhookStage::AwaitActivated => event is Activated,
        WebhookStage::Finished => false,
    }
}

pub open spec fn answers(g: WebhookFlow, a: WebhookAction, code: u16) -> bool {
    g.stage is Finished && a == WebhookAction::Answer(code)
}

/// One step of handling a callback.
pub open spec fn webhook_transition(f: WebhookFlow, e: WebhookEvent, g: WebhookFlow, a: WebhookAction) -> bool {
    &&& g.merchant_id == f.merchant_id
    &&& g.api_key == f.api_key
    &&& match (f.stage, e) {
        (WebhookStage::Start, WebhookEvent::Received { body, header_merchant_id, header_secret }) => match gate_answer(
            body@,
            f.merchant_id,
            f.api_key,
            header_merchant_id,
            header_secret,
        ) {
            Some(code) => answers(g, a, code),
            None => g.stage is AwaitParsed && a is ParseBody,
        },
        (WebhookStage::AwaitParsed, WebhookEvent::Parsed(p)) => match p {
            None => answers(g, a, STATUS_BAD_REQUEST),
            Some((callback, amount_kopecks)) => g.stage == (WebhookStage::AwaitPayment {
                callback,
                amount_kopecks,
            }) && (a matches WebhookAction::FindPayment { transaction_id } && transaction_id@
                == callback.id@),
        },
        (WebhookStage::AwaitPayment { callback, amount_kopecks }, WebhookEvent::PaymentFound(r)) => match r {
            Err(_) => answers(g, a, STATUS_INTERNAL_SERVER_ERROR),
            Ok(None) => answers(g, a, STATUS_NOT_FOUND),
            Ok(Some(p)) => match callback_check(p, amount_kopecks, callback) {
                Some(code) => answers(g, a, code),
                None => match action_of(callback.status@) {
                    CallbackAction::Acknowledge => answers(g, a, STATUS_OK),
                    CallbackAction::Reject => answers(g, a, STATUS_BAD_REQUEST),
                    CallbackAction::Cancel => g.stage == (WebhookStage::AwaitStored {
                        action: CallbackAction::Cancel,
                    }) && a == (WebhookAction::MarkCancelled { payment_id: p.id }),
                    CallbackAction::Chargeback => g.stage == (WebhookStage::AwaitStored {
                        action: CallbackAction::Chargeback,
                    }) && a == (WebhookAction::MarkChargeback { payment_id: p.id }),
                    CallbackAction::Confirm => g.stage == (WebhookStage::AwaitMarkedPaid {
                        order_id: p.order_id,
                    }) && a == (WebhookAction::MarkPaid { payment_id: p.id }),
                },
            },
        },
        (WebhookStage::AwaitStored { action }, WebhookEvent::Stored(r)) => answers(
            g,
            a,
            answer_of(action, r is Ok),
        ),
        (WebhookStage::AwaitMarkedPaid { order_id }, WebhookEvent::MarkedPaid(r)) => match paid_answer(r) {
            Some(code) => answers(g, a, code),
            None => g.stage is AwaitActivated && a == (WebhookAction::Activate { order_id }),
        },
        (WebhookStage::AwaitActivated, WebhookEvent::Activated(ok)) => answers(
            g,
            a,
            if ok {
                STATUS_OK
            } else {
                STATUS_SERVICE_UNAVAILABLE
            },
        ),
        _ => false,
    }
}

fn answer(merchant_id: Option<String>, api_key: Option<String>, code: u16) -> (x: (WebhookFlow, WebhookAction))
    ensures
        x.0.merchant_id == merchant_id,
        x.0.api_key == api_key,
        answers(x.0, x.1, code),
{
    (WebhookFlow { merchant_id, api_key, stage: WebhookStage::Finished }, WebhookAction::Answer(code))
}

/// Advances the handling of a callback by one step.
///
/// The request is first checked without reading the database (an empty
/// body, the configuration, the credentials); then its body is read, the
/// payment of its transaction looked up and compared with it; only then does
/// its status change the payment, and only a confirmed payment leads to the
/// activation of its order.
pub fn webhook_step(flow: WebhookFlow, event: WebhookEvent) -> (x: (WebhookFlow, WebhookAction))
    requires
        webhook_awaits(flow.stage, event),
    ensures
        webhook_transition(flow, event, x.0, x.1),
{
    let WebhookFlow { merchant_id, api_key, stage } = flow;
    match (stage, event) {
        (WebhookStage::Start, WebhookEvent::Received { body, header_merchant_id, header_secret }) => {
            match gate_callback(
                body.as_slice(),
                &merchant_id,
                &api_key,
                &header_merchant_id,
                &header_secret,
            ) {
                Some(code) => answer(merchant_id, api_key, code),
                None => (
                    WebhookFlow { merchant_id, api_key, stage: WebhookStage::AwaitParsed },
                    WebhookAction::ParseBody,
                ),
            }
        },
        (WebhookStage::AwaitParsed, WebhookEvent::Parsed(p)) => match p {
            None => answer(merchant_id, api_key, STATUS_BAD_REQUEST),
            Some((callback, amount_kopecks)) => {
                let transaction_id = callback.id.clone();
                (
                    WebhookFlow {
                        merchant_id,
                        api_key,
                        stage: WebhookStage::AwaitPayment { callback, amount_kopecks },
                    },
                    WebhookAction::FindPayment { transaction_id },
                )
            },
        },
        (
            WebhookStage::AwaitPayment { callback, amount_kopecks },
            WebhookEvent::PaymentFound(r),
        ) => match r {
            Err(_) => answer(merchant_id, api_key, STATUS_INTERNAL_SERVER_ERROR),
            Ok(None) => answer(merchant_id, api_key, STATUS_NOT_FOUND),
            Ok(Some(p)) => match check_callback(&p, amount_kopecks, &callback) {
                Some(code) => answer(merchant_id, api_key, code),
                None => match callback_action(callback.status.as_str()) {
                    CallbackAction::Acknowledge => answer(merchant_id, api_key, STATUS_OK),
                    CallbackAction::Reject => answer(merchant_id, api_key, STATUS_BAD_REQUEST),
                    CallbackAction::Cancel => (
                        WebhookFlow {
                            merchant_id,
                            api_key,
                            stage: WebhookStage::AwaitStored { action: CallbackAction::Cancel },
                        },
                        WebhookAction::MarkCancelled { payment_id: p.id },
                    ),
                    CallbackAction::Chargeback => (
                        WebhookFlow {
                            merchant_id,
                            api_key,
                            stage: WebhookStage::AwaitStored { action: CallbackAction::Chargeback },
                        },
                        WebhookAction::MarkChargeback { payment_id: p.id },
                    ),
                    CallbackAction::Confirm => (
                        WebhookFlow {
                            merchant_id,
                            api_key,
                            stage: WebhookStage::AwaitMarkedPaid { order_id: p.order_id },
                        },
                        WebhookAction::MarkPaid { payment_id: p.id },
                    ),
                },
            },
        },
        (WebhookStage::AwaitStored { action }, WebhookEvent::Stored(r)) => {
            let code = simple_answer(action, r.is_ok());
            answer(merchant_id, api_key, code)
        },
        (WebhookStage::AwaitMarkedPaid { order_id }, WebhookEvent::MarkedPaid(r)) => {
            match after_mark_paid(&r) {
                Some(code) => answer(merchant_id, api_key, code),
                None => (
                    WebhookFlow { merchant_id, api_key, stage: WebhookStage::AwaitActivated },
                    WebhookAction::Activate { order_id },
                ),
            }
        },
        (WebhookStage::AwaitActivated, WebhookEvent::Activated(ok)) => {
            let code = after_activation(ok);
            answer(merchant_id, api_key, code)
        },
        _ => {
            proof {
                assert(false);
            }
            answer(merchant_id, api_key, STATUS_INTERNAL_SERVER_ERROR)
        },
    }
}

/// Nothing is read from the database before the request's first checks
/// (body, configuration, credentials) accepted it: the first step either
/// answers at once or asks for the body to be read, and a run that looks a
/// payment up began with a request those checks accepted.
pub proof fn law_database_read_only_after_gate(
    f0: WebhookFlow,
    e0: WebhookEvent,
    f1: WebhookFlow,
    a0: WebhookAction,
    e1: WebhookEvent,
    f2: WebhookFlow,
    a1: WebhookAction,
)
    requires
        f0.stage is Start,
        webhook_transition(f0, e0, f1, a0),
        webhook_transition(f1, e1, f2, a1),
    ensures
        a0 is Answer || a0 is ParseBody,
        a1 is FindPayment ==> (e0 matches WebhookEvent::Received { body, header_merchant_id, header_secret }
            && gate_answer(body@, f0.merchant_id, f0.api_key, header_merchant_id, header_secret)
            is None),
{
}

/// A payment is marked paid only when its callback matched it (amount,
/// currency and payload) and its status is `CONFIRMED`; the mark names
/// that payment.
pub proof fn law_paid_only_when_confirmed(f: WebhookFlow, e: WebhookEvent, g: WebhookFlow, a: WebhookAction)
    requires
        webhook_transition(f, e, g, a),
        a is MarkPaid,
    ensures
        f.stage matches WebhookStage::AwaitPayment { callback, amount_kopecks }
            && e matches WebhookEvent::PaymentFound(Ok(Some(p)))
            && callback_check(p, amount_kopecks, callback) is None
            && amount_kopecks == Some(p.amount_kopecks)
            && callback.currency@ == p.currency@
            && action_of(callback.status@) == CallbackAction::Confirm
            && a == (WebhookAction::MarkPaid { payment_id: p.id }),
{
    if let WebhookStage::AwaitPayment { callback, amount_kopecks } = f.stage {
        if let WebhookEvent::PaymentFound(Ok(Some(p))) = e {
            law_callback_matches_exactly(p, amount_kopecks, callback);
        }
    }
}

/// An order is activated only after its payment was marked paid, now or
/// before.
pub proof fn law_activation_only_after_paid(f: WebhookFlow, e: WebhookEvent, g: WebhookFlow, a: WebhookAction)
    requires
        webhook_transition(f, e, g, a),
        a is Activate,
    ensures
        f.stage is AwaitMarkedPaid,
        e matches WebhookEvent::MarkedPaid(Ok(r)) && (r == MarkPaymentPaidResult::Applied || r
            == MarkPaymentPaidResult::AlreadyPaid),
{
}

} // verus!

verus! {

/// A callback matches its payment only when it is for exactly the payment's
/// amount and currency: any other amount, above or below, is a conflict,
/// and so is another currency; an amount that is not a whole positive
/// number of kopecks is a bad request.
pub proof fn law_callback_matches_exactly(payment: Payment, amount_kopecks: Option<i64>, callback: PlategaCallback)
    ensures
        callback_check(payment, amount_kopecks, callback) is None ==> amount_kopecks == Some(
            payment.amount_kopecks,
        ) && callback.currency@ == payment.currency@,
        amount_kopecks is None ==> callback_check(payment, amount_kopecks, callback) == Some(
            400u16,
        ),
        amount_kopecks matches Some(a) && a != payment.amount_kopecks ==> callback_check(
            payment,
            amount_kopecks,
            callback,
        ) == Some(409u16),
        amount_kopecks is Some && callback.currency@ != payment.currency@ ==> callback_check(
            payment,
            amount_kopecks,
            callback,
        ) == Some(409u16),
{
}

} // verus!
