use vstd::prelude::*;

use crate::config::PlategaConfig;
use crate::database::{
    DatabaseError, NewPayment, Order, Payment, idempotency_key_of, new_payment,
};
use crate::text::{blank, is_blank, push_signed_decimal, signed_decimal, str_eq};
use crate::url::{join_url, parse_url, url_joined, url_parts};

verus! {

/// The provider name under which Platega payments are stored.
pub const PROVIDER_PLATEGA: &'static str = "platega";

/// Why a payment could not be prepared. `Http` carries the message of the
/// transport failure.
#[derive(Debug)]
pub enum PaymentError {
    NotConfigured,
    UnsupportedCurrency,
    InvalidAmount,
    InvalidEndpoint,
    ApiStatus(u16),
    InvalidResponse,
    Http(String),
    Database(DatabaseError),
}

/// A payment already has its transaction at the provider and its link.
pub fn has_transaction(payment: &Payment) -> (b: bool)
    ensures
        b == (payment.provider_payment_id is Some && payment.payment_url is Some),
{
    payment.provider_payment_id.is_some() && payment.payment_url.is_some()
}

/// What a transaction is created with, but for the amount in rubles, which
/// the caller sends as the kopecks divided by a hundred.
#[derive(Debug, Clone)]
pub struct TransactionDraft {
    pub endpoint: String,
    pub amount_kopecks: i64,
    pub currency: String,
    pub description: String,
    pub return_url: String,
    pub failed_url: String,
    pub payload: String,
    pub user_id: String,
}

/// `order:<order id>;payment:<payment id>`, which ties a callback to its
/// payment.
pub open spec fn payload_of(order_id: i64, payment_id: i64) -> Seq<char> {
    "order:"@ + signed_decimal(order_id as int) + ";payment:"@ + signed_decimal(payment_id as int)
}

pub fn payload(order_id: i64, payment_id: i64) -> (s: String)
    ensures
        s@ == payload_of(order_id, payment_id),
{
    let mut s = String::from_str("order:");
    push_signed_decimal(&mut s, order_id);
    s.append(";payment:");
    push_signed_decimal(&mut s, payment_id);
    s
}

/// Why no transaction can be drafted for `payment` of `order`: the
/// credentials are missing, a side is not in rubles, the amount is not
/// positive, or the endpoint cannot be built from `base_url`.
pub open spec fn draft_refusal(
    base_url: Seq<char>,
    merchant_id: Option<String>,
    api_key: Option<String>,
    order: Order,
    payment: Payment,
) -> Option<PaymentError> {
    if merchant_id is None || api_key is None {
        Some(PaymentError::NotConfigured)
    } else if payment.currency@ != "RUB"@ || order.currency@ != "RUB"@ {
        Some(PaymentError::UnsupportedCurrency)
    } else if payment.amount_kopecks <= 0 {
        Some(PaymentError::InvalidAmount)
    } else if url_joined(base_url, "v2/transaction/process"@) is None {
        Some(PaymentError::InvalidEndpoint)
    } else {
        None
    }
}

/// `d` is the transaction for `payment` of `order`: sent to the endpoint
/// `v2/transaction/process` of `base_url`, for the payment's amount in
/// rubles, described by the order's number, with the pages to return to,
/// the payload naming order and payment, and the user's Telegram ID.
pub open spec fn draft_is(
    d: TransactionDraft,
    base_url: Seq<char>,
    return_url: Seq<char>,
    failed_url: Seq<char>,
    order: Order,
    payment: Payment,
) -> bool {
    &&& url_joined(base_url, "v2/transaction/process"@) == Some(d.endpoint@)
    &&& d.amount_kopecks == payment.amount_kopecks
    &&& d.currency@ == "RUB"@
    &&& d.description@ == "SilentOkVPN, заказ #"@ + signed_decimal(order.id as int)
    &&& d.return_url@ == return_url
    &&& d.failed_url@ == failed_url
    &&& d.payload@ == payload_of(order.id, payment.id)
    &&& d.user_id@ == signed_decimal(order.telegram_id as int)
}

/// The credentials are set, both sides are in rubles, and the amount is
/// positive; then the draft of the transaction for the provider.
pub fn draft_transaction(
    base_url: &str,
    merchant_id: &Option<String>,
    api_key: &Option<String>,
    return_url: &str,
    failed_url: &str,
    order: &Order,
    payment: &Payment,
) -> (r: Result<TransactionDraft, PaymentError>)
    ensures
        match draft_refusal(base_url@, *merchant_id, *api_key, *order, *payment) {
            Some(e) => r == Err::<TransactionDraft, PaymentError>(e),
            None => r matches Ok(d) && draft_is(d, base_url@, return_url@, failed_url@, *order, *payment),
        },
{
    if merchant_id.is_none() || api_key.is_none() {
        return Err(PaymentError::NotConfigured);
    }
    if !str_eq(payment.currency.as_str(), "RUB") || !str_eq(order.currency.as_str(), "RUB") {
        return Err(PaymentError::UnsupportedCurrency);
    }
    if payment.amount_kopecks <= 0 {
        return Err(PaymentError::InvalidAmount);
    }
    let endpoint = match join_url(base_url, "v2/transaction/process") {
        None => {
            return Err(PaymentError::InvalidEndpoint);
        },
        Some(e) => e,
    };
    let mut description = String::from_str("SilentOkVPN, заказ #");
    push_signed_decimal(&mut description, order.id);
    let mut user_id = String::new();
    push_signed_decimal(&mut user_id, order.telegram_id);
    assert(user_id@ =~= signed_decimal(order.telegram_id as int));
    Ok(TransactionDraft {
        endpoint,
        amount_kopecks: payment.amount_kopecks,
        currency: String::from_str("RUB"),
        description,
        return_url: String::from_str(return_url),
        failed_url: String::from_str(failed_url),
        payload: payload(order.id, payment.id),
        user_id,
    })
}

/// The provider answered with success (a status from 200 to 299).
pub fn check_status(status: u16) -> (r: Result<(), PaymentError>)
    ensures
        200 <= status <= 299 ==> r is Ok,
        !(200 <= status <= 299) ==> r == Err::<(), PaymentError>(PaymentError::ApiStatus(status)),
{
    if 200 <= status && status <= 299 {
        Ok(())
    } else {
        Err(PaymentError::ApiStatus(status))
    }
}

/// A transaction the provider created: its ID and the link to pay it.
#[derive(Debug, Clone)]
pub struct CreatedTransaction {
    pub transaction_id: String,
    pub payment_url: String,
}

/// The provider's answer is accepted when it names a transaction and gives
/// an `https` link; the link is kept in its normalized form.
/// What the provider's reply `(transaction_id, url)` gives: refused when
/// either is blank or the URL is not an `https` URL; otherwise the
/// transaction with the URL in its parsed form.
pub open spec fn reply_link(transaction_id: Seq<char>, url: Seq<char>) -> Option<Seq<char>> {
    if blank(transaction_id) || blank(url) {
        None
    } else {
        match url_parts(url) {
            Some((scheme, serialization)) => if scheme == "https"@ {
                Some(serialization)
            } else {
                None
            },
            None => None,
        }
    }
}

pub fn accept_transaction(transaction_id: String, url: String) -> (r: Result<CreatedTransaction, PaymentError>)
    ensures
        match reply_link(transaction_id@, url@) {
            Some(link) => r matches Ok(t) && t.transaction_id@ == transaction_id@ && t.payment_url@
                == link,
            None => r == Err::<CreatedTransaction, PaymentError>(PaymentError::InvalidResponse),
        },
{
    if is_blank(transaction_id.as_str()) || is_blank(url.as_str()) {
        return Err(PaymentError::InvalidResponse);
    }
    match parse_url(url.as_str()) {
        None => Err(PaymentError::InvalidResponse),
        Some(parsed) => {
            if !str_eq(parsed.scheme.as_str(), "https") {
                Err(PaymentError::InvalidResponse)
            } else {
                Ok(CreatedTransaction { transaction_id, payment_url: parsed.serialization })
            }
        },
    }
}

} // verus!

verus! {

// ---------------------------------------------------------------------------
// Preparing the payment of an order
// ---------------------------------------------------------------------------

/// Where the preparation of an order's payment stands.
#[derive(Debug)]
pub enum PrepareStage {
    Start,
    AwaitPayment,
    AwaitCreated,
    AwaitSent { payment: Payment },
    AwaitReply { payment: Payment },
    AwaitStored,
    Finished,
}

/// The preparation of the payment of one order at the provider: the
/// provider's settings, the order and where it stands.
#[derive(Debug)]
pub struct PrepareFlow {
    pub config: PlategaConfig,
    pub order: Order,
    pub stage: PrepareStage,
}

/// What came back from the last action.
#[derive(Debug)]
pub enum PrepareEvent {
    Begin,
    PaymentFound(Result<Option<Payment>, DatabaseError>),
    PaymentCreated(Result<Payment, DatabaseError>),
    /// The HTTP status of the provider's answer, or the message of the
    /// failed request.
    Sent(Result<u16, String>),
    /// The transaction ID and the payment URL of the answer, or the message
    /// of the failure to read it.
    ReplyRead(Result<(String, String), String>),
    Stored(Result<Payment, DatabaseError>),
}

/// What the caller is to do next.
#[derive(Debug)]
pub enum PrepareAction {
    /// Look up the payment with this idempotency key.
    FindPayment { key: String },
    /// Store this new payment.
    CreatePayment(NewPayment),
    /// Send the transaction to the provider with these credentials.
    SendTransaction { draft: TransactionDraft, merchant_id: String, api_key: String },
    /// Read the body of the provider's answer.
    ReadReply,
    /// Store the provider's transaction on the payment.
    StoreProviderData { payment_id: i64, transaction_id: String, payment_url: String },
    Finish(Result<Payment, PaymentError>),
}

impl PrepareFlow {
    /// A new preparation of the payment of `order`, not started.
    pub fn new(config: PlategaConfig, order: Order) -> (f: PrepareFlow)
        ensures
            f.config == config,
            f.order == order,
            f.stage is Start,
    {
        PrepareFlow { config, order, stage: PrepareStage::Start }
    }
}

/// The event that `stage` waits for.
pub open spec fn prepare_awaits(stage: PrepareStage, event: PrepareEvent) -> bool {
    match stage {
        PrepareStage::Start => event is Begin,
        PrepareStage::AwaitPayment => event is PaymentFound,
        PrepareStage::AwaitCreated => event is PaymentCreated,
        PrepareStage::AwaitSent { .. } => event is Sent,
        PrepareStage::AwaitReply { .. } => event is ReplyRead,
        PrepareStage::AwaitStored => event is Stored,
        PrepareStage::Finished => false,
    }
}

/// `np` is the payment to create for `order` at `provider`.
pub open spec fn new_payment_for(np: NewPayment, order: Order, provider: Seq<char>) -> bool {
    &&& np.order_id == order.id
    &&& np.provider@ == provider
    &&& np.amount_kopecks == order.price_kopecks
    &&& np.currency@ == order.currency@
    &&& np.idempotency_key@ == idempotency_key_of(order.id, provider)
}

/// The payment already carries the provider's transaction.
pub open spec fn has_provider_data(p: Payment) -> bool {
    p.provider_payment_id is Some && p.payment_url is Some
}

pub open spec fn prepare_ends(g: PrepareFlow, a: PrepareAction, r: Result<Payment, PaymentError>) -> bool {
    g.stage is Finished && a == PrepareAction::Finish(r)
}

/// With the payment `p` in hand: a payment that already has its
/// transaction is returned as it is; otherwise a transaction is drafted and
/// sent, or the reason there can be none is returned.
pub open spec fn uses_payment(f: PrepareFlow, p: Payment, g: PrepareFlow, a: PrepareAction) -> bool {
    let c = f.config;
    if has_provider_data(p) {
        prepare_ends(g, a, Ok(p))
    } else {
        match draft_refusal(c.base_url@, c.merchant_id, c.api_key, f.order, p) {
            Some(e) => prepare_ends(g, a, Err(e)),
            None => {
                &&& g.stage == (PrepareStage::AwaitSent { payment: p })
                &&& a matches PrepareAction::SendTransaction { draft, merchant_id, api_key }
                    && draft_is(draft, c.base_url@, c.return_url@, c.failed_url@, f.order, p)
                    && merchant_id@ == c.merchant_id->0@ && api_key@ == c.api_key->0@
            },
        }
    }
}

/// One step of preparing the payment of an order.
pub open spec fn prepare_transition(f: PrepareFlow, e: PrepareEvent, g: PrepareFlow, a: PrepareAction) -> bool {
    &&& g.config == f.config
    &&& g.order == f.order
    &&& match (f.stage, e) {
        (PrepareStage::Start, PrepareEvent::Begin) => g.stage is AwaitPayment && (
        a matches PrepareAction::FindPayment { key } && key@ == idempotency_key_of(
            f.order.id,
            PROVIDER_PLATEGA@,
        )),
        (PrepareStage::AwaitPayment, PrepareEvent::PaymentFound(r)) => match r {
            Err(x) => prepare_ends(g, a, Err(PaymentError::Database(x))),
            Ok(None) => g.stage is AwaitCreated && (a matches PrepareAction::CreatePayment(np)
                && new_payment_for(np, f.order, PROVIDER_PLATEGA@)),
            Ok(Some(p)) => uses_payment(f, p, g, a),
        },
        (PrepareStage::AwaitCreated, PrepareEvent::PaymentCreated(r)) => match r {
            Err(x) => prepare_ends(g, a, Err(PaymentError::Database(x))),
            Ok(p) => uses_payment(f, p, g, a),
        },
        (PrepareStage::AwaitSent { payment }, PrepareEvent::Sent(r)) => match r {
            Err(m) => prepare_ends(g, a, Err(PaymentError::Http(m))),
            Ok(status) => if 200 <= status <= 299 {
                g.stage == (PrepareStage::AwaitReply { payment }) && a is ReadReply
            } else {
                prepare_ends(g, a, Err(PaymentError::ApiStatus(status)))
            },
        },
        (PrepareStage::AwaitReply { payment }, PrepareEvent::ReplyRead(r)) => match r {
            Err(m) => prepare_ends(g, a, Err(PaymentError::Http(m))),
            Ok((id, url)) => match reply_link(id@, url@) {
                None => prepare_ends(g, a, Err(PaymentError::InvalidResponse)),
                Some(link) => g.stage is AwaitStored && (
                a matches PrepareAction::StoreProviderData { payment_id, transaction_id, payment_url }
                    && payment_id == payment.id && transaction_id@ == id@ && payment_url@ == link),
            },
        },
        (PrepareStage::AwaitStored, PrepareEvent::Stored(r)) => match r {
            Err(x) => prepare_ends(g, a, Err(PaymentError::Database(x))),
            Ok(p) => prepare_ends(g, a, Ok(p)),
        },
        _ => false,
    }
}

fn prepare_finish(config: PlategaConfig, order: Order, r: Result<Payment, PaymentError>) -> (x: (PrepareFlow, PrepareAction))
    ensures
        x.0.config == config,
        x.0.order == order,
        prepare_ends(x.0, x.1, r),
{
    (PrepareFlow { config, order, stage: PrepareStage::Finished }, PrepareAction::Finish(r))
}

fn use_payment(config: PlategaConfig, order: Order, p: Payment) -> (x: (PrepareFlow, PrepareAction))
    ensures
        x.0.config == config,
        x.0.order == order,
        uses_payment(PrepareFlow { config, order, stage: PrepareStage::Start }, p, x.0, x.1),
{
    if has_transaction(&p) {
        return prepare_finish(config, order, Ok(p));
    }
    match draft_transaction(
        config.base_url.as_str(),
        &config.merchant_id,
        &config.api_key,
        config.return_url.as_str(),
        config.failed_url.as_str(),
        &order,
        &p,
    ) {
        Err(e) => prepare_finish(config, order, Err(e)),
        Ok(draft) => {
            let merchant_id = match &config.merchant_id {
                Some(m) => m.clone(),
                None => String::new(),
            };
            let api_key = match &config.api_key {
                Some(k) => k.clone(),
                None => String::new(),
            };
            (
                PrepareFlow { config, order, stage: PrepareStage::AwaitSent { payment: p } },
                PrepareAction::SendTransaction { draft, merchant_id, api_key },
            )
        },
    }
}

/// Advances the preparation of an order's payment by one step.
///
/// The payment is looked up by its idempotency key `order:<id>:platega`
/// and created only when there is none, so that asking twice for the same
/// order uses one payment. A payment that already carries the provider's
/// transaction is returned as it is, without contacting the provider;
/// otherwise a transaction is drafted, sent, its answer checked, and stored
/// on the payment.
pub fn prepare_step(flow: PrepareFlow, event: PrepareEvent) -> (x: (PrepareFlow, PrepareAction))
    requires
        prepare_awaits(flow.stage, event),
    ensures
        prepare_transition(flow, event, x.0, x.1),
{
    let PrepareFlow { config, order, stage } = flow;
    match (stage, event) {
        (PrepareStage::Start, PrepareEvent::Begin) => {
            let np = new_payment(&order, PROVIDER_PLATEGA);
            (
                PrepareFlow { config, order, stage: PrepareStage::AwaitPayment },
                PrepareAction::FindPayment { key: np.idempotency_key },
            )
        },
        (PrepareStage::AwaitPayment, PrepareEvent::PaymentFound(r)) => match r {
            Err(x) => prepare_finish(config, order, Err(PaymentError::Database(x))),
            Ok(None) => {
                let np = new_payment(&order, PROVIDER_PLATEGA);
                (
                    PrepareFlow { config, order, stage: PrepareStage::AwaitCreated },
                    PrepareAction::CreatePayment(np),
                )
            },
            Ok(Some(p)) => use_payment(config, order, p),
        },
        (PrepareStage::AwaitCreated, PrepareEvent::PaymentCreated(r)) => match r {
            Err(x) => prepare_finish(config, order, Err(PaymentError::Database(x))),
            Ok(p) => use_payment(config, order, p),
        },
        (PrepareStage::AwaitSent { payment }, PrepareEvent::Sent(r)) => match r {
            Err(m) => prepare_finish(config, order, Err(PaymentError::Http(m))),
            Ok(status) => match check_status(status) {
                Ok(()) => (
                    PrepareFlow { config, order, stage: PrepareStage::AwaitReply { payment } },
                    PrepareAction::ReadReply,
                ),
                Err(e) => prepare_finish(config, order, Err(e)),
            },
        },
        (PrepareStage::AwaitReply { payment }, PrepareEvent::ReplyRead(r)) => match r {
            Err(m) => prepare_finish(config, order, Err(PaymentError::Http(m))),
            Ok((id, url)) => match accept_transaction(id, url) {
                Err(e) => prepare_finish(config, order, Err(e)),
                Ok(t) => (
                    PrepareFlow { config, order, stage: PrepareStage::AwaitStored },
                    PrepareAction::StoreProviderData {
                        payment_id: payment.id,
                        transaction_id: t.transaction_id,
                        payment_url: t.payment_url,
                    },
                ),
            },
        },
        (PrepareStage::AwaitStored, PrepareEvent::Stored(r)) => match r {
            Err(x) => prepare_finish(config, order, Err(PaymentError::Database(x))),
            Ok(p) => prepare_finish(config, order, Ok(p)),
        },
        _ => {
            proof {
                assert(false);
            }
            prepare_finish(config, order, Err(PaymentError::InvalidResponse))
        },
    }
}

} // verus!

verus! {

/// Preparing an order whose payment already carries the provider's
/// transaction starts no new one: the run looks the payment up by the
/// order's idempotency key and returns it as it is, creating no payment and
/// sending nothing to the provider.
pub proof fn law_prepare_idempotent(
    f0: PrepareFlow,
    e0: PrepareEvent,
    f1: PrepareFlow,
    a0: PrepareAction,
    e1: PrepareEvent,
    f2: PrepareFlow,
    a1: PrepareAction,
    p: Payment,
)
    requires
        f0.stage is Start,
        e0 is Begin,
        prepare_transition(f0, e0, f1, a0),
        e1 == PrepareEvent::PaymentFound(Ok(Some(p))),
        has_provider_data(p),
        prepare_transition(f1, e1, f2, a1),
    ensures
        a0 matches PrepareAction::FindPayment { key } && key@ == idempotency_key_of(
            f0.order.id,
            PROVIDER_PLATEGA@,
        ),
        a1 == PrepareAction::Finish(Ok(p)),
        f2.stage is Finished,
{
}

/// A payment is created only when the lookup by the order's idempotency key
/// found none, and it carries that key: one order gets one payment at the
/// provider.
pub proof fn law_payment_created_only_when_missing(
    f: PrepareFlow,
    e: PrepareEvent,
    g: PrepareFlow,
    a: PrepareAction,
)
    requires
        prepare_transition(f, e, g, a),
        a is CreatePayment,
    ensures
        f.stage is AwaitPayment,
        e == PrepareEvent::PaymentFound(Ok(None)),
        a matches PrepareAction::CreatePayment(np) && np.idempotency_key@ == idempotency_key_of(
            f.order.id,
            PROVIDER_PLATEGA@,
        ),
{
}

/// A transaction is sent to the provider only for a payment that does not
/// yet carry one.
pub proof fn law_transaction_only_without_provider_data(
    f: PrepareFlow,
    e: PrepareEvent,
    g: PrepareFlow,
    a: PrepareAction,
)
    requires
        prepare_transition(f, e, g, a),
        a is SendTransaction,
    ensures
        g.stage matches PrepareStage::AwaitSent { payment } && !has_provider_data(payment),
{
}

/// A prepared payment is either one that already carried its transaction
/// or the row returned by storing the provider's transaction on it.
pub proof fn law_prepared_payment_has_transaction(
    f: PrepareFlow,
    e: PrepareEvent,
    g: PrepareFlow,
    a: PrepareAction,
    p: Payment,
)
    requires
        prepare_transition(f, e, g, a),
        a == PrepareAction::Finish(Ok(p)),
    ensures
        has_provider_data(p) || (f.stage is AwaitStored && e == PrepareEvent::Stored(Ok(p))),
{
}

} // verus!
