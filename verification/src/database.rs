use vstd::prelude::*;

use crate::time::Instant;

verus! {

/// What a request for a trial got.
#[derive(Debug, Clone, Copy, PartialEq, Eq, Structural)]
pub enum TrialClaimDecision {
    Acquired,
    AlreadyUsed,
    Ineligible,
    InProgress,
}

/// What marking a payment as paid did.
#[derive(Debug, Clone, Copy, PartialEq, Eq, Structural)]
pub enum MarkPaymentPaidResult {
    Applied,
    AlreadyPaid,
    OrderNotPayable,
    NotFound,
}

/// A row of the `users` table.
#[derive(Debug, Clone)]
pub struct UserProfile {
    pub telegram_id: i64,
    pub remnawave_user_id: Option<i64>,
    pub registered_at: Instant,
    pub current_tariff_code: Option<String>,
    pub status: String,
    pub updated_at: Instant,
}

/// An order as the bot asks for it.
#[derive(Debug, Clone)]
pub struct NewOrder {
    pub telegram_id: u64,
    pub tariff_code: String,
    pub tariff_name: String,
    pub tariff_description: String,
    pub price_kopecks: u64,
    pub duration_days: i64,
    pub traffic_gib: Option<u64>,
    pub hwid_limit: u32,
    pub internal_squad_names: Vec<String>,
}

/// A row of the `orders` table.
#[derive(Debug, Clone)]
pub struct Order {
    pub id: i64,
    pub telegram_id: i64,
    pub tariff_code: String,
    pub tariff_name: String,
    pub tariff_description: String,
    pub price_kopecks: i64,
    pub currency: String,
    pub duration_days: i32,
    pub traffic_gib: Option<i64>,
    pub hwid_limit: i32,
    pub internal_squad_names: Vec<String>,
    pub status: String,
    pub created_at: Instant,
    pub updated_at: Instant,
}

/// A row of the `payments` table.
#[derive(Debug, Clone)]
pub struct Payment {
    pub id: i64,
    pub order_id: i64,
    pub provider: String,
    pub provider_payment_id: Option<String>,
    pub idempotency_key: String,
    pub amount_kopecks: i64,
    pub currency: String,
    pub status: String,
    pub payment_url: Option<String>,
    pub created_at: Instant,
    pub updated_at: Instant,
    pub paid_at: Option<Instant>,
}

/// A row of the `activations` table: the activation of one paid order, and
/// the end date it planned, once planned.
#[derive(Debug, Clone)]
pub struct Activation {
    pub id: i64,
    pub order_id: i64,
    pub status: String,
    pub target_expire_at: Option<Instant>,
}

/// A payment as the bot asks for it.
#[derive(Debug, Clone)]
pub struct NewPayment {
    pub order_id: i64,
    pub provider: String,
    pub amount_kopecks: i64,
    pub currency: String,
    pub idempotency_key: String,
}

/// A failed database operation: the driver (`Sqlx`) or a migration
/// (`Migration`) failed, with its message, or a value did not fit.
#[derive(Debug, Clone)]
pub enum DatabaseError {
    Sqlx(String),
    Migration(String),
    UnknownTrialStatus(String),
    InvalidTelegramId,
    InvalidOrderValue,
}

} // verus!

verus! {

/// A Telegram ID as the database stores it (`BIGINT`).
pub fn db_telegram_id(telegram_id: u64) -> (r: Result<i64, DatabaseError>)
    ensures
        telegram_id <= i64::MAX ==> r == Ok::<i64, DatabaseError>(telegram_id as i64),
        telegram_id > i64::MAX ==> (r matches Err(e) && e is InvalidTelegramId),
{
    if telegram_id > 9_223_372_036_854_775_807u64 {
        Err(DatabaseError::InvalidTelegramId)
    } else {
        Ok(telegram_id as i64)
    }
}

/// The values of a new order in the column types of the `orders` table.
#[derive(Debug, Clone, Copy)]
pub struct OrderValues {
    pub telegram_id: i64,
    pub price_kopecks: i64,
    pub duration_days: i32,
    pub traffic_gib: Option<i64>,
    pub hwid_limit: i32,
}

impl NewOrder {
    /// The order's numbers in the database's column types; a Telegram ID
    /// that does not fit is reported first, then any other value that does
    /// not fit.
    pub fn values(&self) -> (r: Result<OrderValues, DatabaseError>)
        ensures
            self.telegram_id > i64::MAX ==> (r matches Err(e) && e is InvalidTelegramId),
            self.telegram_id <= i64::MAX ==> {
                let fits = self.price_kopecks <= i64::MAX && i32::MIN <= self.duration_days
                    <= i32::MAX && (match self.traffic_gib {
                    Some(g) => g <= i64::MAX,
                    None => true,
                }) && self.hwid_limit <= i32::MAX;
                &&& !fits ==> (r matches Err(e) && e is InvalidOrderValue)
                &&& fits ==> (r matches Ok(v) && v.telegram_id == self.telegram_id
                    && v.price_kopecks == self.price_kopecks && v.duration_days
                    == self.duration_days && v.traffic_gib == (match self.traffic_gib {
                    Some(g) => Some(g as i64),
                    None => None,
                }) && v.hwid_limit == self.hwid_limit)
            },
    {
        let telegram_id = match db_telegram_id(self.telegram_id) {
            Ok(t) => t,
            Err(e) => {
                return Err(e);
            },
        };
        if self.price_kopecks > 9_223_372_036_854_775_807u64 {
            return Err(DatabaseError::InvalidOrderValue);
        }
        if self.duration_days < -2147483648i64 || self.duration_days > 2147483647i64 {
            return Err(DatabaseError::InvalidOrderValue);
        }
        let traffic_gib = match self.traffic_gib {
            Some(g) => {
                if g > 9_223_372_036_854_775_807u64 {
                    return Err(DatabaseError::InvalidOrderValue);
                }
                Some(g as i64)
            },
            None => None,
        };
        if self.hwid_limit > 2147483647u32 {
            return Err(DatabaseError::InvalidOrderValue);
        }
        Ok(OrderValues {
            telegram_id,
            price_kopecks: self.price_kopecks as i64,
            duration_days: self.duration_days as i32,
            traffic_gib,
            hwid_limit: self.hwid_limit as i32,
        })
    }
}

/// What to do with a trial claim that already existed, from its status.
#[derive(Debug, Clone, Copy, PartialEq, Eq, Structural)]
pub enum ClaimStep {
    Decided(TrialClaimDecision),
    Reacquire,
}

/// An active claim was used; an ineligible one is refused; a failed one, or
/// one still being created, may be taken again (the database allows it for
/// a failed claim or one idle for five minutes); any other status is an
/// error.
pub fn claim_by_status(status: &str) -> (r: Result<ClaimStep, DatabaseError>)
    ensures
        if status@ == "active"@ {
            r == Ok::<ClaimStep, DatabaseError>(ClaimStep::Decided(TrialClaimDecision::AlreadyUsed))
        } else if status@ == "ineligible"@ {
            r == Ok::<ClaimStep, DatabaseError>(ClaimStep::Decided(TrialClaimDecision::Ineligible))
        } else if status@ == "failed"@ || status@ == "creating"@ {
            r == Ok::<ClaimStep, DatabaseError>(ClaimStep::Reacquire)
        } else {
            r matches Err(DatabaseError::UnknownTrialStatus(s)) && s@ == status@
        },
{
    if crate::text::str_eq(status, "active") {
        Ok(ClaimStep::Decided(TrialClaimDecision::AlreadyUsed))
    } else if crate::text::str_eq(status, "ineligible") {
        Ok(ClaimStep::Decided(TrialClaimDecision::Ineligible))
    } else if crate::text::str_eq(status, "failed") || crate::text::str_eq(status, "creating") {
        Ok(ClaimStep::Reacquire)
    } else {
        Err(DatabaseError::UnknownTrialStatus(String::from_str(status)))
    }
}

/// A claim inserted or taken again (one row changed) is acquired; otherwise
/// another request holds it.
pub fn claim_by_rows(rows_affected: u64) -> (r: TrialClaimDecision)
    ensures
        r == (if rows_affected == 1 {
            TrialClaimDecision::Acquired
        } else {
            TrialClaimDecision::InProgress
        }),
{
    if rows_affected == 1 {
        TrialClaimDecision::Acquired
    } else {
        TrialClaimDecision::InProgress
    }
}

/// `order:<order id>:<provider>`: one payment per order and provider.
pub open spec fn idempotency_key_of(order_id: i64, provider: Seq<char>) -> Seq<char> {
    "order:"@ + crate::text::signed_decimal(order_id as int) + ":"@ + provider
}

/// The payment to create for `order` at `provider`, keyed so that asking
/// twice finds the first.
pub fn new_payment(order: &Order, provider: &str) -> (p: NewPayment)
    ensures
        p.order_id == order.id,
        p.provider@ == provider@,
        p.amount_kopecks == order.price_kopecks,
        p.currency@ == order.currency@,
        p.idempotency_key@ == idempotency_key_of(order.id, provider@),
{
    let mut key = String::from_str("order:");
    crate::text::push_signed_decimal(&mut key, order.id);
    key.append(":");
    key.append(provider);
    NewPayment {
        order_id: order.id,
        provider: String::from_str(provider),
        amount_kopecks: order.price_kopecks,
        currency: order.currency.clone(),
        idempotency_key: key,
    }
}

/// What marking a payment paid does after reading it: nothing when it does
/// not exist or is already paid; otherwise look at its order.
pub fn mark_paid_by_payment(payment: &Option<Payment>) -> (r: Option<MarkPaymentPaidResult>)
    ensures
        r == (match payment {
            None => Some(MarkPaymentPaidResult::NotFound),
            Some(p) => if p.status@ == "paid"@ {
                Some(MarkPaymentPaidResult::AlreadyPaid)
            } else {
                None::<MarkPaymentPaidResult>
            },
        }),
{
    match payment {
        None => Some(MarkPaymentPaidResult::NotFound),
        Some(p) => {
            if crate::text::str_eq(p.status.as_str(), "paid") {
                Some(MarkPaymentPaidResult::AlreadyPaid)
            } else {
                None
            }
        },
    }
}

/// Only a pending order can be paid: then both rows are updated (`Applied`).
pub fn mark_paid_by_order(order_status: &str) -> (r: MarkPaymentPaidResult)
    ensures
        r == (if order_status@ == "pending"@ {
            MarkPaymentPaidResult::Applied
        } else {
            MarkPaymentPaidResult::OrderNotPayable
        }),
{
    if crate::text::str_eq(order_status, "pending") {
        MarkPaymentPaidResult::Applied
    } else {
        MarkPaymentPaidResult::OrderNotPayable
    }
}

} // verus!
