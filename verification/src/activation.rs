use vstd::prelude::*;

use crate::database::{Activation, DatabaseError, Order, UserProfile};
use crate::remnawave::{
    CreateUserRequest, InternalSquad, RemnawaveError, RemnawaveUser, UpdateUserRequest,
    find_tagged, first_tagged,
};
use crate::text::{clone_strings, decimal, push_decimal, push_signed_decimal, signed_decimal};
use crate::time::{
    Instant, add_days, days_after, format_rfc3339, parse_rfc3339, rfc3339_parsed, rfc3339_text,
};
use crate::trial::GIB;

verus! {

/// What activating a paid order did.
#[derive(Debug)]
pub enum ActivationResult {
    Created(RemnawaveUser),
    Updated(RemnawaveUser),
    AlreadyActivated,
}

/// Why an order could not be activated. `InvalidExpiration` carries the
/// message of the date parser; `ExpirationOutOfRange` is an end date that
/// the date library cannot represent.
#[derive(Debug)]
pub enum ActivationError {
    Database(DatabaseError),
    Remnawave(RemnawaveError),
    OrderNotFound(i64),
    OrderNotPaid(String),
    InvalidTelegramId,
    InvalidTrafficLimit,
    InvalidHwidLimit,
    InternalSquadNotFound(String),
    MultipleRemnawaveUsers { telegram_id: u64, count: usize },
    InvalidExpiration(String),
    ExpirationOutOfRange,
}

/// The traffic limit in bytes of `traffic_gib` gibibytes; no limit (`None`)
/// is 0. `None` when it is negative or the bytes do not fit a `u64`.
pub open spec fn traffic_bytes(traffic_gib: Option<i64>) -> Option<u64> {
    match traffic_gib {
        None => Some(0u64),
        Some(g) => if g < 0 || g * GIB > u64::MAX {
            None
        } else {
            Some((g * GIB) as u64)
        },
    }
}

/// The traffic limit in bytes of an order.
pub fn traffic_limit_bytes(traffic_gib: Option<i64>) -> (r: Result<u64, ActivationError>)
    ensures
        match traffic_bytes(traffic_gib) {
            Some(b) => r matches Ok(x) && x == b,
            None => r matches Err(e) && e is InvalidTrafficLimit,
        },
{
    match traffic_gib {
        None => Ok(0),
        Some(gib) => {
            if gib < 0 {
                return Err(ActivationError::InvalidTrafficLimit);
            }
            match (gib as u64).checked_mul(GIB) {
                Some(b) => Ok(b),
                None => Err(ActivationError::InvalidTrafficLimit),
            }
        },
    }
}

/// What the planning of a user's subscription works with: the order, its
/// activation, the Telegram ID, the internal squads found and the traffic
/// limit in bytes.
#[derive(Debug)]
pub struct ActivationJob {
    pub order: Order,
    pub activation: Activation,
    pub telegram_id: u64,
    pub squad_uuids: Vec<String>,
    pub traffic_limit_bytes: u64,
}

/// The plan stored before the panel is changed, so that a retry reaches the
/// same end date.
#[derive(Debug)]
pub struct ActivationPlan {
    pub activation_id: i64,
    pub kind: String,
    pub remnawave_user_id: Option<i64>,
    pub target_expire_at: Instant,
    pub target_traffic_limit_bytes: i64,
    pub hwid_limit: i32,
    pub squad_uuids: Vec<String>,
}

/// Where the activation of an order stands.
#[derive(Debug)]
#[allow(inconsistent_fields)]
pub enum ActivationStage {
    Start { order_id: i64 },
    AwaitOrder { order_id: i64 },
    AwaitActivation { order: Order },
    AwaitProcessing { order: Order, activation: Activation },
    AwaitSquad { order: Order, activation: Activation, telegram_id: u64, uuids: Vec<String> },
    AwaitProfile { job: ActivationJob },
    AwaitLinkedUser { job: ActivationJob },
    AwaitUsers { job: ActivationJob },
    AwaitPlan { job: ActivationJob, target: Instant, user: Option<RemnawaveUser> },
    AwaitSaved { job: ActivationJob, plan_id: i64, creating: bool },
    AwaitRecovery { job: ActivationJob, plan_id: i64, error: RemnawaveError },
    AwaitSubscription { job: ActivationJob, plan_id: i64, result: ActivationResult },
    AwaitSucceeded { activation_id: i64, result: ActivationResult },
    Finished,
}

/// What came back from the last action.
#[derive(Debug)]
pub enum ActivationEvent {
    Begin,
    OrderLoaded(Result<Option<Order>, DatabaseError>),
    ActivationLoaded(Result<Activation, DatabaseError>),
    Marked(Result<(), DatabaseError>),
    SquadFound(Result<Option<InternalSquad>, RemnawaveError>),
    ProfileLoaded(Result<UserProfile, DatabaseError>),
    LinkedUser { user: Result<Option<RemnawaveUser>, RemnawaveError>, now: Instant },
    UsersListed { users: Result<Vec<RemnawaveUser>, RemnawaveError>, now: Instant },
    Planned(Result<Activation, DatabaseError>),
    UserSaved(Result<RemnawaveUser, RemnawaveError>),
}

/// What the caller is to do next. `Fail` ends the activation: record the
/// error's message on the activation (a failure to do so is only logged)
/// and return the error.
#[derive(Debug)]
#[allow(inconsistent_fields)]
pub enum ActivationAction {
    GetOrder { order_id: i64 },
    GetOrCreateActivation { order_id: i64 },
    MarkProcessing { activation_id: i64 },
    FindSquad { name: String },
    EnsureUser { telegram_id: u64 },
    GetUser { remnawave_user_id: i64 },
    FindUsers { telegram_id: u64 },
    SetPlan(ActivationPlan),
    UpdateUser(UpdateUserRequest),
    CreateUser(CreateUserRequest),
    SetSubscription { telegram_id: u64, remnawave_user_id: i64, tariff_code: String },
    MarkSucceeded { activation_id: i64, remnawave_user_id: i64 },
    Fail { activation_id: i64, error: ActivationError },
    Finish(Result<ActivationResult, ActivationError>),
}

/// The activation of one order.
#[derive(Debug)]
pub struct ActivationFlow {
    pub stage: ActivationStage,
}

impl ActivationFlow {
    /// A new activation of order `order_id`, not started.
    pub fn new(order_id: i64) -> (f: ActivationFlow)
        ensures
            f.stage == (ActivationStage::Start { order_id }),
    {
        ActivationFlow { stage: ActivationStage::Start { order_id } }
    }
}

/// The event that `stage` waits for.
pub open spec fn awaits_event(stage: ActivationStage, event: ActivationEvent) -> bool {
    match stage {
        ActivationStage::Start { .. } => event is Begin,
        ActivationStage::AwaitOrder { .. } => event is OrderLoaded,
        ActivationStage::AwaitActivation { .. } => event is ActivationLoaded,
        ActivationStage::AwaitProcessing { .. } => event is Marked,
        ActivationStage::AwaitSquad { .. } => event is SquadFound,
        ActivationStage::AwaitProfile { .. } => event is ProfileLoaded,
        ActivationStage::AwaitLinkedUser { .. } => event is LinkedUser,
        ActivationStage::AwaitUsers { .. } => event is UsersListed,
        ActivationStage::AwaitPlan { .. } => event is Planned,
        ActivationStage::AwaitSaved { .. } => event is UserSaved,
        ActivationStage::AwaitRecovery { .. } => event is UsersListed,
        ActivationStage::AwaitSubscription { .. } => event is Marked,
        ActivationStage::AwaitSucceeded { .. } => event is Marked,
        ActivationStage::Finished => false,
    }
}

/// A stage holds what the next step relies on: while squads are looked up,
/// one is still to be found.
pub open spec fn stage_ok(stage: ActivationStage) -> bool {
    match stage {
        ActivationStage::AwaitSquad { order, uuids, .. } => uuids@.len()
            < order.internal_squad_names@.len(),
        _ => true,
    }
}

pub open spec fn ends(g: ActivationFlow, a: ActivationAction, r: Result<ActivationResult, ActivationError>) -> bool {
    g.stage is Finished && a == ActivationAction::Finish(r)
}

pub open spec fn fails(g: ActivationFlow, a: ActivationAction, activation_id: i64, e: ActivationError) -> bool {
    g.stage is Finished && a == (ActivationAction::Fail { activation_id, error: e })
}

/// Looking up the internal squads, `uuids` found so far.
pub open spec fn squads_next(
    order: Order,
    activation: Activation,
    telegram_id: u64,
    uuids: Seq<String>,
    g: ActivationFlow,
    a: ActivationAction,
) -> bool {
    let names = order.internal_squad_names@;
    if uuids.len() < names.len() {
        &&& g.stage matches ActivationStage::AwaitSquad { order: o, activation: ac, telegram_id: t, uuids: u }
            && o == order && ac == activation && t == telegram_id && u@ == uuids
        &&& a matches ActivationAction::FindSquad { name } && name@ == names[uuids.len() as int]@
    } else {
        match traffic_bytes(order.traffic_gib) {
            None => fails(g, a, activation.id, ActivationError::InvalidTrafficLimit),
            Some(b) => {
                &&& g.stage matches ActivationStage::AwaitProfile { job } && job.order == order
                    && job.activation == activation && job.telegram_id == telegram_id
                    && job.squad_uuids@ == uuids && job.traffic_limit_bytes == b
                &&& a == (ActivationAction::EnsureUser { telegram_id })
            },
        }
    }
}

/// The end date to plan: the one already planned, or `duration_days` after
/// the later of the user's current end date and now (after now, for a new
/// user). `Err(Some(m))` when the current end date does not parse, with the
/// parser's message; `Err(None)` when the date library cannot represent the
/// sum.
pub open spec fn planned_target(job: ActivationJob, user: Option<RemnawaveUser>, now: Instant) -> Result<Instant, Option<Seq<char>>> {
    match job.activation.target_expire_at {
        Some(t) => Ok(t),
        None => {
            let base: Result<Instant, Option<Seq<char>>> = match user {
                Some(u) => match rfc3339_parsed(u.expire_at@) {
                    Err(m) => Err(Some(m)),
                    Ok(cur) => Ok(if cur.later_than(now) { cur } else { now }),
                },
                None => Ok(now),
            };
            match base {
                Err(e) => Err(e),
                Ok(b) => match days_after(b, job.order.duration_days as i64) {
                    None => Err(None),
                    Some(t) => Ok(t),
                },
            }
        },
    }
}

/// The plan stored for `job`: an update of `user`, or a creation.
pub open spec fn plan_is(p: ActivationPlan, job: ActivationJob, user: Option<RemnawaveUser>, target: Instant) -> bool {
    &&& p.activation_id == job.activation.id
    &&& p.kind@ == (if user is Some { "update"@ } else { "create"@ })
    &&& p.remnawave_user_id == (match user {
        Some(u) => Some(u.id),
        None => None,
    })
    &&& p.target_expire_at == target
    &&& p.target_traffic_limit_bytes == job.traffic_limit_bytes
    &&& p.hwid_limit == job.order.hwid_limit
    &&& p.squad_uuids@ == job.squad_uuids@
}

/// Planning for `job`, with the panel's existing `user` if there is one.
pub open spec fn plans(job: ActivationJob, user: Option<RemnawaveUser>, now: Instant, g: ActivationFlow, a: ActivationAction) -> bool {
    match planned_target(job, user, now) {
        Err(None) => fails(g, a, job.activation.id, ActivationError::ExpirationOutOfRange),
        Err(Some(m)) => g.stage is Finished && (a matches ActivationAction::Fail {
            activation_id,
            error: ActivationError::InvalidExpiration(x),
        } && activation_id == job.activation.id && x@ == m),
        Ok(t) => if job.traffic_limit_bytes > i64::MAX {
            fails(g, a, job.activation.id, ActivationError::InvalidTrafficLimit)
        } else {
            &&& g.stage == (ActivationStage::AwaitPlan { job, target: t, user })
            &&& a matches ActivationAction::SetPlan(p) && plan_is(p, job, user, t)
        },
    }
}

pub open spec fn paid_description(order: Order) -> Seq<char> {
    "Платная подписка SilentOkVPN, заказ #"@ + signed_decimal(order.id as int)
}

/// The update that extends `user_id` for `job` until `expire_at`.
pub open spec fn update_request(req: UpdateUserRequest, job: ActivationJob, user_id: i64, expire_at: Seq<char>) -> bool {
    &&& req.id == user_id
    &&& req.status@ == "ACTIVE"@
    &&& req.traffic_limit_bytes == job.traffic_limit_bytes
    &&& req.traffic_limit_strategy@ == "NO_RESET"@
    &&& req.expire_at@ == expire_at
    &&& req.description@ == paid_description(job.order)
    &&& req.tag@ == "PAID"@
    &&& req.telegram_id == job.telegram_id
    &&& req.hwid_device_limit == job.order.hwid_limit as u32
    &&& req.active_internal_squads@ == job.squad_uuids@
}

/// The creation of the user `user_<telegram id>` for `job` until `expire_at`.
pub open spec fn create_request(req: CreateUserRequest, job: ActivationJob, expire_at: Seq<char>) -> bool {
    &&& req.username@ == "user_"@ + decimal(job.telegram_id as nat)
    &&& req.status@ == "ACTIVE"@
    &&& req.traffic_limit_bytes == job.traffic_limit_bytes
    &&& req.traffic_limit_strategy@ == "NO_RESET"@
    &&& req.expire_at@ == expire_at
    &&& req.description@ == paid_description(job.order)
    &&& req.tag@ == "PAID"@
    &&& req.telegram_id == job.telegram_id
    &&& req.hwid_device_limit == job.order.hwid_limit as u32
    &&& req.active_internal_squads@ == job.squad_uuids@
}

/// Recording the subscription of `user`, which the activation gives back as
/// `result`.
pub open spec fn records(job: ActivationJob, plan_id: i64, result: ActivationResult, user: RemnawaveUser, g: ActivationFlow, a: ActivationAction) -> bool {
    &&& g.stage == (ActivationStage::AwaitSubscription { job, plan_id, result })
    &&& a matches ActivationAction::SetSubscription { telegram_id, remnawave_user_id, tariff_code }
        && telegram_id == job.telegram_id && remnawave_user_id == user.id && tariff_code@
        == job.order.tariff_code@
}

pub open spec fn result_user_id(r: ActivationResult) -> i64 {
    match r {
        ActivationResult::Created(u) => u.id,
        ActivationResult::Updated(u) => u.id,
        ActivationResult::AlreadyActivated => 0,
    }
}

/// One step of activating an order.
pub open spec fn activation_transition(f: ActivationFlow, e: ActivationEvent, g: ActivationFlow, a: ActivationAction) -> bool {
    match (f.stage, e) {
        (ActivationStage::Start { order_id }, ActivationEvent::Begin) => g.stage == (
        ActivationStage::AwaitOrder { order_id }) && a == (ActivationAction::GetOrder { order_id }),
        (ActivationStage::AwaitOrder { order_id }, ActivationEvent::OrderLoaded(r)) => match r {
            Err(x) => ends(g, a, Err(ActivationError::Database(x))),
            Ok(None) => ends(g, a, Err(ActivationError::OrderNotFound(order_id))),
            Ok(Some(order)) => if order.status@ != "paid"@ {
                ends(g, a, Err(ActivationError::OrderNotPaid(order.status)))
            } else {
                g.stage == (ActivationStage::AwaitActivation { order }) && a == (
                ActivationAction::GetOrCreateActivation { order_id: order.id })
            },
        },
        (ActivationStage::AwaitActivation { order }, ActivationEvent::ActivationLoaded(r)) => match r {
            Err(x) => ends(g, a, Err(ActivationError::Database(x))),
            Ok(activation) => if activation.status@ == "succeeded"@ {
                ends(g, a, Ok(ActivationResult::AlreadyActivated))
            } else {
                g.stage == (ActivationStage::AwaitProcessing { order, activation }) && a == (
                ActivationAction::MarkProcessing { activation_id: activation.id })
            },
        },
        (ActivationStage::AwaitProcessing { order, activation }, ActivationEvent::Marked(r)) => match r {
            Err(x) => ends(g, a, Err(ActivationError::Database(x))),
            Ok(_) => if order.telegram_id < 0 {
                fails(g, a, activation.id, ActivationError::InvalidTelegramId)
            } else {
                squads_next(order, activation, order.telegram_id as u64, Seq::empty(), g, a)
            },
        },
        (ActivationStage::AwaitSquad { order, activation, telegram_id, uuids }, ActivationEvent::SquadFound(r)) => match r {
            Err(x) => fails(g, a, activation.id, ActivationError::Remnawave(x)),
            Ok(None) => fails(g, a, activation.id, ActivationError::InternalSquadNotFound(
                order.internal_squad_names@[uuids@.len() as int],
            )),
            Ok(Some(squad)) => squads_next(order, activation, telegram_id, uuids@.push(squad.uuid), g, a),
        },
        (ActivationStage::AwaitProfile { job }, ActivationEvent::ProfileLoaded(r)) => match r {
            Err(x) => fails(g, a, job.activation.id, ActivationError::Database(x)),
            Ok(profile) => match profile.remnawave_user_id {
                Some(id) => g.stage == (ActivationStage::AwaitLinkedUser { job }) && a == (
                ActivationAction::GetUser { remnawave_user_id: id }),
                None => g.stage == (ActivationStage::AwaitUsers { job }) && a == (
                ActivationAction::FindUsers { telegram_id: job.telegram_id }),
            },
        },
        (ActivationStage::AwaitLinkedUser { job }, ActivationEvent::LinkedUser { user, now }) => match user {
            Err(x) => fails(g, a, job.activation.id, ActivationError::Remnawave(x)),
            Ok(Some(u)) => plans(job, Some(u), now, g, a),
            Ok(None) => g.stage == (ActivationStage::AwaitUsers { job }) && a == (
            ActivationAction::FindUsers { telegram_id: job.telegram_id }),
        },
        (ActivationStage::AwaitUsers { job }, ActivationEvent::UsersListed { users, now }) => match users {
            Err(x) => fails(g, a, job.activation.id, ActivationError::Remnawave(x)),
            Ok(us) => if us@.len() == 0 {
                plans(job, None, now, g, a)
            } else if us@.len() == 1 {
                plans(job, Some(us@[0]), now, g, a)
            } else {
                fails(g, a, job.activation.id, ActivationError::MultipleRemnawaveUsers {
                    telegram_id: job.telegram_id,
                    count: us@.len() as usize,
                })
            },
        },
        (ActivationStage::AwaitPlan { job, target, user }, ActivationEvent::Planned(r)) => match r {
            Err(x) => fails(g, a, job.activation.id, ActivationError::Database(x)),
            Ok(plan) => if job.order.hwid_limit < 0 {
                fails(g, a, job.activation.id, ActivationError::InvalidHwidLimit)
            } else {
                match rfc3339_text(target) {
                    None => fails(g, a, job.activation.id, ActivationError::ExpirationOutOfRange),
                    Some(text) => match user {
                        Some(u) => g.stage == (ActivationStage::AwaitSaved {
                            job,
                            plan_id: plan.id,
                            creating: false,
                        }) && (a matches ActivationAction::UpdateUser(req) && update_request(
                            req,
                            job,
                            u.id,
                            text,
                        )),
                        None => g.stage == (ActivationStage::AwaitSaved {
                            job,
                            plan_id: plan.id,
                            creating: true,
                        }) && (a matches ActivationAction::CreateUser(req) && create_request(
                            req,
                            job,
                            text,
                        )),
                    },
                }
            },
        },
        (ActivationStage::AwaitSaved { job, plan_id, creating }, ActivationEvent::UserSaved(r)) => match r {
            Ok(u) => records(
                job,
                plan_id,
                if creating { ActivationResult::Created(u) } else { ActivationResult::Updated(u) },
                u,
                g,
                a,
            ),
            Err(x) => if creating {
                g.stage == (ActivationStage::AwaitRecovery { job, plan_id, error: x }) && a == (
                ActivationAction::FindUsers { telegram_id: job.telegram_id })
            } else {
                fails(g, a, job.activation.id, ActivationError::Remnawave(x))
            },
        },
        (ActivationStage::AwaitRecovery { job, plan_id, error }, ActivationEvent::UsersListed { users, now }) => match users {
            Err(x) => fails(g, a, job.activation.id, ActivationError::Remnawave(x)),
            Ok(us) => match first_tagged(us@, "PAID"@) {
                Some(k) => records(job, plan_id, ActivationResult::Created(us@[k]), us@[k], g, a),
                None => fails(g, a, job.activation.id, ActivationError::Remnawave(error)),
            },
        },
        (ActivationStage::AwaitSubscription { job, plan_id, result }, ActivationEvent::Marked(r)) => match r {
            Err(x) => fails(g, a, job.activation.id, ActivationError::Database(x)),
            Ok(_) => g.stage == (ActivationStage::AwaitSucceeded {
                activation_id: job.activation.id,
                result,
            }) && a == (ActivationAction::MarkSucceeded {
                activation_id: plan_id,
                remnawave_user_id: result_user_id(result),
            }),
        },
        (ActivationStage::AwaitSucceeded { activation_id, result }, ActivationEvent::Marked(r)) => match r {
            Err(x) => fails(g, a, activation_id, ActivationError::Database(x)),
            Ok(_) => ends(g, a, Ok(result)),
        },
        _ => false,
    }
}

} // verus!

verus! {

fn end(r: Result<ActivationResult, ActivationError>) -> (x: (ActivationFlow, ActivationAction))
    ensures
        ends(x.0, x.1, r),
{
    (ActivationFlow { stage: ActivationStage::Finished }, ActivationAction::Finish(r))
}

fn fail(activation_id: i64, error: ActivationError) -> (x: (ActivationFlow, ActivationAction))
    ensures
        fails(x.0, x.1, activation_id, error),
{
    (
        ActivationFlow { stage: ActivationStage::Finished },
        ActivationAction::Fail { activation_id, error },
    )
}

fn next_squad(order: Order, activation: Activation, telegram_id: u64, uuids: Vec<String>) -> (x: (
    ActivationFlow,
    ActivationAction,
))
    ensures
        squads_next(order, activation, telegram_id, uuids@, x.0, x.1),
        stage_ok(x.0.stage),
{
    if uuids.len() < order.internal_squad_names.len() {
        let name = order.internal_squad_names[uuids.len()].clone();
        (
            ActivationFlow {
                stage: ActivationStage::AwaitSquad { order, activation, telegram_id, uuids },
            },
            ActivationAction::FindSquad { name },
        )
    } else {
        match traffic_limit_bytes(order.traffic_gib) {
            Err(_) => fail(activation.id, ActivationError::InvalidTrafficLimit),
            Ok(b) => (
                ActivationFlow {
                    stage: ActivationStage::AwaitProfile {
                        job: ActivationJob {
                            order,
                            activation,
                            telegram_id,
                            squad_uuids: uuids,
                            traffic_limit_bytes: b,
                        },
                    },
                },
                ActivationAction::EnsureUser { telegram_id },
            ),
        }
    }
}

/// The date a subscription is extended from: the later of the user's
/// current end date and now, or now for a new user.
pub open spec fn plan_base(user: Option<RemnawaveUser>, now: Instant) -> Instant {
    match user {
        Some(u) => match rfc3339_parsed(u.expire_at@) {
            Ok(cur) => if cur.later_than(now) {
                cur
            } else {
                now
            },
            Err(_) => now,
        },
        None => now,
    }
}

/// A plan made now, rather than taken from a stored one, extends the
/// subscription by the order's days from its base date, to the second
/// (outside a leap second).
pub open spec fn extends_by_days(stage: ActivationStage, now: Instant) -> bool {
    match stage {
        ActivationStage::AwaitPlan { job, target, user } => job.activation.target_expire_at is None
            && plan_base(user, now).nanos < 1_000_000_000 ==> target.secs == plan_base(user, now).secs
            + 86400 * job.order.duration_days && target.nanos == plan_base(user, now).nanos,
        _ => true,
    }
}

/// A plan made now (no stored target) for a user whose current end date, if
/// any, parses ends at least the order's days after now, and at least the
/// order's days after the current end date: the days already paid for are
/// kept, and the days between an expiry and the payment are not lost
/// (outside leap seconds).
pub open spec fn plan_not_early(job: ActivationJob, user: Option<RemnawaveUser>, now: Instant, a: ActivationAction) -> bool {
    let d = job.order.duration_days;
    match a {
        ActivationAction::SetPlan(p) => {
            let t = p.target_expire_at;
            match user {
                Some(u) => match rfc3339_parsed(u.expire_at@) {
                    Ok(cur) => (job.activation.target_expire_at is None && now.nanos < 1_000_000_000
                        && cur.nanos < 1_000_000_000) ==> (t.secs >= now.secs + 86400 * d && t.secs
                        >= cur.secs + 86400 * d),
                    Err(_) => true,
                },
                None => (job.activation.target_expire_at is None && now.nanos < 1_000_000_000) ==> t.secs
                    == now.secs + 86400 * d,
            }
        },
        _ => true,
    }
}

fn plan_for(job: ActivationJob, user: Option<RemnawaveUser>, now: Instant) -> (x: (
    ActivationFlow,
    ActivationAction,
))
    ensures
        plans(job, user, now, x.0, x.1),
        extends_by_days(x.0.stage, now),
        plan_not_early(job, user, now, x.1),
{
    let target = match job.activation.target_expire_at {
        Some(t) => t,
        None => {
            let base = match &user {
                Some(u) => match parse_rfc3339(u.expire_at.as_str()) {
                    Err(m) => {
                        return fail(job.activation.id, ActivationError::InvalidExpiration(m));
                    },
                    Ok(cur) => if cur.is_after(&now) {
                        cur
                    } else {
                        now
                    },
                },
                None => now,
            };
            match add_days(base, job.order.duration_days as i64) {
                None => {
                    return fail(job.activation.id, ActivationError::ExpirationOutOfRange);
                },
                Some(t) => t,
            }
        },
    };
    if job.traffic_limit_bytes > 9_223_372_036_854_775_807u64 {
        return fail(job.activation.id, ActivationError::InvalidTrafficLimit);
    }
    let kind = match &user {
        Some(_) => String::from_str("update"),
        None => String::from_str("create"),
    };
    let user_id = match &user {
        Some(u) => Some(u.id),
        None => None,
    };
    let plan = ActivationPlan {
        activation_id: job.activation.id,
        kind,
        remnawave_user_id: user_id,
        target_expire_at: target,
        target_traffic_limit_bytes: job.traffic_limit_bytes as i64,
        hwid_limit: job.order.hwid_limit,
        squad_uuids: clone_strings(&job.squad_uuids),
    };
    (
        ActivationFlow { stage: ActivationStage::AwaitPlan { job, target, user } },
        ActivationAction::SetPlan(plan),
    )
}

fn description(order: &Order) -> (s: String)
    ensures
        s@ == paid_description(*order),
{
    let mut s = String::from_str("Платная подписка SilentOkVPN, заказ #");
    push_signed_decimal(&mut s, order.id);
    s
}

fn submit(job: ActivationJob, target: Instant, user: Option<RemnawaveUser>, plan_id: i64) -> (x: (
    ActivationFlow,
    ActivationAction,
))
    requires
        job.order.hwid_limit >= 0,
    ensures
        match rfc3339_text(target) {
            None => fails(x.0, x.1, job.activation.id, ActivationError::ExpirationOutOfRange),
            Some(text) => match user {
                Some(u) => x.0.stage == (ActivationStage::AwaitSaved { job, plan_id, creating: false })
                    && (x.1 matches ActivationAction::UpdateUser(req) && update_request(
                    req,
                    job,
                    u.id,
                    text,
                )),
                None => x.0.stage == (ActivationStage::AwaitSaved { job, plan_id, creating: true })
                    && (x.1 matches ActivationAction::CreateUser(req) && create_request(
                    req,
                    job,
                    text,
                )),
            },
        },
{
    let text = match format_rfc3339(target) {
        None => {
            return fail(job.activation.id, ActivationError::ExpirationOutOfRange);
        },
        Some(t) => t,
    };
    let hwid = job.order.hwid_limit as u32;
    match user {
        Some(u) => {
            let req = UpdateUserRequest {
                id: u.id,
                status: String::from_str("ACTIVE"),
                traffic_limit_bytes: job.traffic_limit_bytes,
                traffic_limit_strategy: String::from_str("NO_RESET"),
                expire_at: text,
                description: description(&job.order),
                tag: String::from_str("PAID"),
                telegram_id: job.telegram_id,
                hwid_device_limit: hwid,
                active_internal_squads: clone_strings(&job.squad_uuids),
            };
            (
                ActivationFlow { stage: ActivationStage::AwaitSaved { job, plan_id, creating: false } },
                ActivationAction::UpdateUser(req),
            )
        },
        None => {
            let mut username = String::from_str("user_");
            push_decimal(&mut username, job.telegram_id);
            let req = CreateUserRequest {
                username,
                status: String::from_str("ACTIVE"),
                traffic_limit_bytes: job.traffic_limit_bytes,
                traffic_limit_strategy: String::from_str("NO_RESET"),
                expire_at: text,
                description: description(&job.order),
                tag: String::from_str("PAID"),
                telegram_id: job.telegram_id,
                hwid_device_limit: hwid,
                active_internal_squads: clone_strings(&job.squad_uuids),
            };
            (
                ActivationFlow { stage: ActivationStage::AwaitSaved { job, plan_id, creating: true } },
                ActivationAction::CreateUser(req),
            )
        },
    }
}

fn record(job: ActivationJob, plan_id: i64, result: ActivationResult, user_id: i64) -> (x: (
    ActivationFlow,
    ActivationAction,
))
    ensures
        x.0.stage == (ActivationStage::AwaitSubscription { job, plan_id, result }),
        x.1 matches ActivationAction::SetSubscription { telegram_id, remnawave_user_id, tariff_code }
            && telegram_id == job.telegram_id && remnawave_user_id == user_id && tariff_code@
            == job.order.tariff_code@,
{
    let telegram_id = job.telegram_id;
    let tariff_code = job.order.tariff_code.clone();
    (
        ActivationFlow { stage: ActivationStage::AwaitSubscription { job, plan_id, result } },
        ActivationAction::SetSubscription { telegram_id, remnawave_user_id: user_id, tariff_code },
    )
}

/// Advances the activation of a paid order by one step.
///
/// In order: the order must exist and be paid; an activation that already
/// succeeded is not repeated; the activation is marked as processing; the
/// internal squads are looked up by name; the user's subscription is found
/// (the linked panel user, else the only user with the Telegram ID); the
/// end date and limits are stored as a plan, then the panel user is updated
/// or created (a failed creation is recovered if a `PAID` user now exists);
/// the subscription is recorded and the activation marked as succeeded.
/// From the processing mark on, a failure is recorded on the activation.
pub fn activation_step(flow: ActivationFlow, event: ActivationEvent) -> (x: (
    ActivationFlow,
    ActivationAction,
))
    requires
        awaits_event(flow.stage, event),
        stage_ok(flow.stage),
    ensures
        activation_transition(flow, event, x.0, x.1),
        stage_ok(x.0.stage),
        match event {
            ActivationEvent::LinkedUser { now, .. } => extends_by_days(x.0.stage, now),
            ActivationEvent::UsersListed { now, .. } => extends_by_days(x.0.stage, now),
            _ => true,
        },
        match (flow.stage, event) {
            (
                ActivationStage::AwaitLinkedUser { job },
                ActivationEvent::LinkedUser { user: Ok(Some(u)), now },
            ) => plan_not_early(job, Some(u), now, x.1),
            (ActivationStage::AwaitUsers { job }, ActivationEvent::UsersListed { users: Ok(us), now }) => {
                (us@.len() == 0 ==> plan_not_early(job, None, now, x.1)) && (us@.len() == 1
                    ==> plan_not_early(job, Some(us@[0]), now, x.1))
            },
            _ => true,
        },
{
    match (flow.stage, event) {
        (ActivationStage::Start { order_id }, ActivationEvent::Begin) => (
            ActivationFlow { stage: ActivationStage::AwaitOrder { order_id } },
            ActivationAction::GetOrder { order_id },
        ),
        (ActivationStage::AwaitOrder { order_id }, ActivationEvent::OrderLoaded(r)) => match r {
            Err(x) => end(Err(ActivationError::Database(x))),
            Ok(None) => end(Err(ActivationError::OrderNotFound(order_id))),
            Ok(Some(order)) => {
                if !crate::text::str_eq(order.status.as_str(), "paid") {
                    end(Err(ActivationError::OrderNotPaid(order.status)))
                } else {
                    let id = order.id;
                    (
                        ActivationFlow { stage: ActivationStage::AwaitActivation { order } },
                        ActivationAction::GetOrCreateActivation { order_id: id },
                    )
                }
            },
        },
        (ActivationStage::AwaitActivation { order }, ActivationEvent::ActivationLoaded(r)) => match r {
            Err(x) => end(Err(ActivationError::Database(x))),
            Ok(activation) => {
                if crate::text::str_eq(activation.status.as_str(), "succeeded") {
                    end(Ok(ActivationResult::AlreadyActivated))
                } else {
                    let id = activation.id;
                    (
                        ActivationFlow {
                            stage: ActivationStage::AwaitProcessing { order, activation },
                        },
                        ActivationAction::MarkProcessing { activation_id: id },
                    )
                }
            },
        },
        (ActivationStage::AwaitProcessing { order, activation }, ActivationEvent::Marked(r)) => match r {
            Err(x) => end(Err(ActivationError::Database(x))),
            Ok(_) => {
                if order.telegram_id < 0 {
                    fail(activation.id, ActivationError::InvalidTelegramId)
                } else {
                    let tid = order.telegram_id as u64;
                    let uuids: Vec<String> = Vec::new();
                    next_squad(order, activation, tid, uuids)
                }
            },
        },
        (
            ActivationStage::AwaitSquad { order, activation, telegram_id, uuids },
            ActivationEvent::SquadFound(r),
        ) => match r {
            Err(x) => fail(activation.id, ActivationError::Remnawave(x)),
            Ok(None) => {
                let name = order.internal_squad_names[uuids.len()].clone();
                fail(activation.id, ActivationError::InternalSquadNotFound(name))
            },
            Ok(Some(squad)) => {
                let mut uuids = uuids;
                uuids.push(squad.uuid);
                next_squad(order, activation, telegram_id, uuids)
            },
        },
        (ActivationStage::AwaitProfile { job }, ActivationEvent::ProfileLoaded(r)) => match r {
            Err(x) => fail(job.activation.id, ActivationError::Database(x)),
            Ok(profile) => match profile.remnawave_user_id {
                Some(id) => (
                    ActivationFlow { stage: ActivationStage::AwaitLinkedUser { job } },
                    ActivationAction::GetUser { remnawave_user_id: id },
                ),
                None => {
                    let tid = job.telegram_id;
                    (
                        ActivationFlow { stage: ActivationStage::AwaitUsers { job } },
                        ActivationAction::FindUsers { telegram_id: tid },
                    )
                },
            },
        },
        (ActivationStage::AwaitLinkedUser { job }, ActivationEvent::LinkedUser { user, now }) => match user {
            Err(x) => fail(job.activation.id, ActivationError::Remnawave(x)),
            Ok(Some(u)) => plan_for(job, Some(u), now),
            Ok(None) => {
                let tid = job.telegram_id;
                (
                    ActivationFlow { stage: ActivationStage::AwaitUsers { job } },
                    ActivationAction::FindUsers { telegram_id: tid },
                )
            },
        },
        (ActivationStage::AwaitUsers { job }, ActivationEvent::UsersListed { users, now }) => match users {
            Err(x) => fail(job.activation.id, ActivationError::Remnawave(x)),
            Ok(us) => {
                if us.len() == 0 {
                    plan_for(job, None, now)
                } else if us.len() == 1 {
                    let mut us = us;
                    let u = us.remove(0);
                    plan_for(job, Some(u), now)
                } else {
                    let count = us.len();
                    let tid = job.telegram_id;
                    fail(
                        job.activation.id,
                        ActivationError::MultipleRemnawaveUsers { telegram_id: tid, count },
                    )
                }
            },
        },
        (ActivationStage::AwaitPlan { job, target, user }, ActivationEvent::Planned(r)) => match r {
            Err(x) => fail(job.activation.id, ActivationError::Database(x)),
            Ok(plan) => {
                if job.order.hwid_limit < 0 {
                    fail(job.activation.id, ActivationError::InvalidHwidLimit)
                } else {
                    submit(job, target, user, plan.id)
                }
            },
        },
        (ActivationStage::AwaitSaved { job, plan_id, creating }, ActivationEvent::UserSaved(r)) => match r {
            Ok(u) => {
                let id = u.id;
                let result = if creating {
                    ActivationResult::Created(u)
                } else {
                    ActivationResult::Updated(u)
                };
                record(job, plan_id, result, id)
            },
            Err(x) => {
                if creating {
                    let tid = job.telegram_id;
                    (
                        ActivationFlow {
                            stage: ActivationStage::AwaitRecovery { job, plan_id, error: x },
                        },
                        ActivationAction::FindUsers { telegram_id: tid },
                    )
                } else {
                    fail(job.activation.id, ActivationError::Remnawave(x))
                }
            },
        },
        (
            ActivationStage::AwaitRecovery { job, plan_id, error },
            ActivationEvent::UsersListed { users, now },
        ) => match users {
            Err(x) => fail(job.activation.id, ActivationError::Remnawave(x)),
            Ok(us) => match find_tagged(&us, "PAID") {
                Some(k) => {
                    let mut us = us;
                    let u = us.remove(k);
                    let id = u.id;
                    record(job, plan_id, ActivationResult::Created(u), id)
                },
                None => fail(job.activation.id, ActivationError::Remnawave(error)),
            },
        },
        (ActivationStage::AwaitSubscription { job, plan_id, result }, ActivationEvent::Marked(r)) => match r {
            Err(x) => fail(job.activation.id, ActivationError::Database(x)),
            Ok(_) => {
                let user_id = match &result {
                    ActivationResult::Created(u) => u.id,
                    ActivationResult::Updated(u) => u.id,
                    ActivationResult::AlreadyActivated => 0,
                };
                (
                    ActivationFlow {
                        stage: ActivationStage::AwaitSucceeded {
                            activation_id: job.activation.id,
                            result,
                        },
                    },
                    ActivationAction::MarkSucceeded {
                        activation_id: plan_id,
                        remnawave_user_id: user_id,
                    },
                )
            },
        },
        (ActivationStage::AwaitSucceeded { activation_id, result }, ActivationEvent::Marked(r)) => match r {
            Err(x) => fail(activation_id, ActivationError::Database(x)),
            Ok(_) => end(Ok(result)),
        },
        _ => {
            proof {
                assert(false);
            }
            end(Ok(ActivationResult::AlreadyActivated))
        },
    }
}

} // verus!

verus! {

/// An order that is not paid is never activated: the step that loads it
/// ends with `OrderNotPaid`.
pub proof fn law_unpaid_order_not_activated(f: ActivationFlow, e: ActivationEvent, g: ActivationFlow, a: ActivationAction)
    requires
        activation_transition(f, e, g, a),
        f.stage is AwaitOrder,
        e matches ActivationEvent::OrderLoaded(Ok(Some(o))) && o.status@ != "paid"@,
    ensures
        g.stage is Finished,
        a matches ActivationAction::Finish(Err(ActivationError::OrderNotPaid(_))),
{
}

/// An activation that already succeeded is not repeated: it ends with
/// `AlreadyActivated` and the panel is not asked anything.
pub proof fn law_succeeded_activation_not_repeated(f: ActivationFlow, e: ActivationEvent, g: ActivationFlow, a: ActivationAction)
    requires
        activation_transition(f, e, g, a),
        f.stage is AwaitActivation,
        e matches ActivationEvent::ActivationLoaded(Ok(act)) && act.status@ == "succeeded"@,
    ensures
        a == ActivationAction::Finish(Ok(ActivationResult::AlreadyActivated)),
{
}

/// The panel user is updated or created only right after the plan (end
/// date, traffic, devices, squads) was stored, so that a retry after a
/// failure reaches the same end date instead of extending twice.
pub proof fn law_panel_changed_only_after_plan(f: ActivationFlow, e: ActivationEvent, g: ActivationFlow, a: ActivationAction)
    requires
        activation_transition(f, e, g, a),
        a is UpdateUser || a is CreateUser,
    ensures
        f.stage is AwaitPlan,
        e matches ActivationEvent::Planned(Ok(_)),
{
}

/// A stored plan's end date is reused: when the activation already has a
/// target end date, the plan keeps it.
pub proof fn law_planned_date_reused(job: ActivationJob, user: Option<RemnawaveUser>, now: Instant)
    requires
        job.activation.target_expire_at is Some,
    ensures
        planned_target(job, user, now) == Ok::<Instant, Option<Seq<char>>>(
            job.activation.target_expire_at->0,
        ),
{
}

} // verus!

verus! {

/// The action asks something of the panel.
pub open spec fn panel_action(a: ActivationAction) -> bool {
    a is FindSquad || a is GetUser || a is FindUsers || a is UpdateUser || a is CreateUser
}

/// Activating an order again after it succeeded changes nothing: a run
/// that finds the paid order and its activation marked succeeded loads the
/// order, loads the activation and ends with `AlreadyActivated`, without
/// asking anything of the panel or marking anything.
pub proof fn law_activation_idempotent(
    f0: ActivationFlow,
    e0: ActivationEvent,
    f1: ActivationFlow,
    a0: ActivationAction,
    e1: ActivationEvent,
    f2: ActivationFlow,
    a1: ActivationAction,
    e2: ActivationEvent,
    f3: ActivationFlow,
    a2: ActivationAction,
)
    requires
        f0.stage is Start,
        e0 is Begin,
        activation_transition(f0, e0, f1, a0),
        e1 matches ActivationEvent::OrderLoaded(Ok(Some(o))) && o.status@ == "paid"@,
        activation_transition(f1, e1, f2, a1),
        e2 matches ActivationEvent::ActivationLoaded(Ok(act)) && act.status@ == "succeeded"@,
        activation_transition(f2, e2, f3, a2),
    ensures
        a0 is GetOrder,
        a1 is GetOrCreateActivation,
        a2 == ActivationAction::Finish(Ok(ActivationResult::AlreadyActivated)),
        f3.stage is Finished,
        !panel_action(a0) && !panel_action(a1) && !panel_action(a2),
{
}

/// An activation reports that it created or updated the panel user only
/// after the activation was stored as succeeded (the `MarkSucceeded` action
/// answered without error), so that a later activation of the same order
/// finds it succeeded.
pub proof fn law_success_reported_after_marked(
    f: ActivationFlow,
    e: ActivationEvent,
    g: ActivationFlow,
    a: ActivationAction,
)
    requires
        activation_transition(f, e, g, a),
        a matches ActivationAction::Finish(Ok(r)) && (r is Created || r is Updated),
    ensures
        f.stage is AwaitSucceeded,
        e matches ActivationEvent::Marked(Ok(_)),
{
}

/// The action that marks an activation succeeded follows the recording of
/// the subscription, and names the activation row the plan was stored in
/// and the user the panel returned.
pub proof fn law_marked_after_subscription(
    f: ActivationFlow,
    e: ActivationEvent,
    g: ActivationFlow,
    a: ActivationAction,
)
    requires
        activation_transition(f, e, g, a),
        a is MarkSucceeded,
    ensures
        f.stage matches ActivationStage::AwaitSubscription { plan_id, result, .. } && a == (
        ActivationAction::MarkSucceeded {
            activation_id: plan_id,
            remnawave_user_id: result_user_id(result),
        }),
        e matches ActivationEvent::Marked(Ok(_)),
{
}

} // verus!

verus! {

/// A plan made now for a user the panel returned extends the subscription
/// by the order's days from the later of the user's current end date and
/// now: an expired subscription is extended from now, a running one from
/// its end.
pub proof fn law_existing_user_extended_from_later_date(
    f: ActivationFlow,
    e: ActivationEvent,
    g: ActivationFlow,
    a: ActivationAction,
    u: RemnawaveUser,
    cur: Instant,
    now: Instant,
)
    requires
        activation_transition(f, e, g, a),
        e == (ActivationEvent::LinkedUser { user: Ok(Some(u)), now }) || (
        e matches ActivationEvent::UsersListed { users: Ok(us), now: n } && us@ == seq![u] && n
            == now),
        f.stage is AwaitLinkedUser || f.stage is AwaitUsers,
        rfc3339_parsed(u.expire_at@) == Ok::<Instant, Seq<char>>(cur),
        a is SetPlan,
    ensures
        ({
            let job = match f.stage {
                ActivationStage::AwaitLinkedUser { job } => job,
                ActivationStage::AwaitUsers { job } => job,
                _ => arbitrary(),
            };
            job.activation.target_expire_at is None ==> (a matches ActivationAction::SetPlan(p)
                && Some(p.target_expire_at) == days_after(
                if cur.secs > now.secs || (cur.secs == now.secs && cur.nanos > now.nanos) {
                    cur
                } else {
                    now
                },
                job.order.duration_days as i64,
            ))
        }),
{
}

} // verus!
