use vstd::prelude::*;

use crate::database::{DatabaseError, TrialClaimDecision};
use crate::remnawave::{
    CreateUserRequest, InternalSquad, RemnawaveError, RemnawaveUser, find_tagged, first_tagged,
};
use crate::text::{decimal, push_decimal};
use crate::time::{
    Instant, add_days, days_after, format_rfc3339, parse_rfc3339, rfc3339_parsed, rfc3339_text,
};

verus! {

/// Bytes in a gibibyte.
pub const GIB: u64 = 1073741824;

/// What a request for a trial subscription got.
#[derive(Debug)]
pub enum TrialIssueResult {
    Created(RemnawaveUser),
    Recovered(RemnawaveUser),
    AlreadyUsed,
    Ineligible,
    InProgress,
}

/// Why a trial could not be issued. `InvalidExpiration` carries the message
/// of the date parser; `ExpirationOutOfRange` is an end date that the date
/// library cannot represent.
#[derive(Debug)]
pub enum TrialError {
    Database(DatabaseError),
    Remnawave(RemnawaveError),
    InternalSquadNotFound(String),
    InvalidTelegramId,
    InvalidTrafficLimit,
    InvalidExpiration(String),
    ExpirationOutOfRange,
}

/// What issuing a trial for one Telegram user works with.
#[derive(Debug, Clone)]
pub struct TrialParams {
    pub telegram_id: u64,
    pub days: i64,
    pub traffic_gib: u64,
    pub hwid_limit: u32,
    pub squad_uuid: String,
}

/// Where the issuing of a trial stands.
#[derive(Debug)]
#[allow(inconsistent_fields)]
pub enum TrialStage {
    Start,
    AwaitClaim { db_id: i64 },
    AwaitUsers { db_id: i64 },
    AwaitExistingMarked { user: RemnawaveUser, expires: Instant, now: Instant },
    AwaitIneligibleMarked,
    AwaitCreate { db_id: i64, expires: Instant },
    AwaitCreatedMarked { user: RemnawaveUser },
    AwaitRecheck { db_id: i64, error: RemnawaveError },
    AwaitRecoveredMarked { user: RemnawaveUser },
    AwaitFailedMarked { error: TrialError },
    Finished,
}

/// The issuing of one trial: the request and where it stands.
#[derive(Debug)]
pub struct TrialFlow {
    pub params: TrialParams,
    pub stage: TrialStage,
}

/// What came back from the last action.
#[derive(Debug)]
pub enum TrialEvent {
    Begin,
    Claimed(Result<TrialClaimDecision, DatabaseError>),
    UsersListed { users: Result<Vec<RemnawaveUser>, RemnawaveError>, now: Instant },
    Marked(Result<(), DatabaseError>),
    Created(Result<RemnawaveUser, RemnawaveError>),
    FailureRecorded,
}

/// What the caller is to do next: a database or panel call whose outcome it
/// hands back as the next event, or the end with the outcome.
#[derive(Debug)]
#[allow(inconsistent_fields)]
pub enum TrialAction {
    ClaimTrial { telegram_id: i64 },
    FindUsers { telegram_id: u64 },
    MarkActive { telegram_id: i64, remnawave_user_id: i64, expires_at: Instant },
    MarkIneligible { telegram_id: i64 },
    CreateUser(CreateUserRequest),
    MarkFailed { telegram_id: i64 },
    Finish(Result<TrialIssueResult, TrialError>),
}

impl TrialFlow {
    /// A new issuing for `params`, not started.
    pub fn new(params: TrialParams) -> (f: TrialFlow)
        ensures
            f.params == params,
            f.stage is Start,
    {
        TrialFlow { params, stage: TrialStage::Start }
    }
}

/// The event that `stage` waits for.
pub open spec fn awaits(stage: TrialStage, event: TrialEvent) -> bool {
    match stage {
        TrialStage::Start => event is Begin,
        TrialStage::AwaitClaim { .. } => event is Claimed,
        TrialStage::AwaitUsers { .. } => event is UsersListed,
        TrialStage::AwaitExistingMarked { .. } => event is Marked,
        TrialStage::AwaitIneligibleMarked => event is Marked,
        TrialStage::AwaitCreate { .. } => event is Created,
        TrialStage::AwaitCreatedMarked { .. } => event is Marked,
        TrialStage::AwaitRecheck { .. } => event is UsersListed,
        TrialStage::AwaitRecoveredMarked { .. } => event is Marked,
        TrialStage::AwaitFailedMarked { .. } => event is FailureRecorded,
        TrialStage::Finished => false,
    }
}

pub open spec fn finish(g: TrialFlow, a: TrialAction, r: Result<TrialIssueResult, TrialError>) -> bool {
    g.stage is Finished && a == TrialAction::Finish(r)
}

/// The request that creates the trial user: named `trial_<telegram id>`,
/// tagged `TRIAL`, active until `expire_at`, with the configured traffic (in
/// bytes) and device limit and the trial's internal squad.
pub open spec fn trial_request(req: CreateUserRequest, p: TrialParams, expire_at: Seq<char>) -> bool {
    &&& req.username@ == "trial_"@ + decimal(p.telegram_id as nat)
    &&& req.status@ == "ACTIVE"@
    &&& req.traffic_limit_bytes == p.traffic_gib * GIB
    &&& req.traffic_limit_strategy@ == "NO_RESET"@
    &&& req.expire_at@ == expire_at
    &&& req.description@ == "Пробная подписка, созданная VPNBotTG"@
    &&& req.tag@ == "TRIAL"@
    &&& req.telegram_id == p.telegram_id
    &&& req.hwid_device_limit == p.hwid_limit
    &&& req.active_internal_squads@.len() == 1
    &&& req.active_internal_squads@[0]@ == p.squad_uuid@
}

/// After the panel listed the user's accounts on the first look.
pub open spec fn after_first_listing(
    p: TrialParams,
    db_id: i64,
    users: Seq<RemnawaveUser>,
    now: Instant,
    g: TrialFlow,
    a: TrialAction,
) -> bool {
    match first_tagged(users, "TRIAL"@) {
        Some(k) => match rfc3339_parsed(users[k].expire_at@) {
            Err(m) => g.stage is Finished && (a matches TrialAction::Finish(Err(
                TrialError::InvalidExpiration(x),
            )) && x@ == m),
            Ok(t) => g.stage == (TrialStage::AwaitExistingMarked {
                user: users[k],
                expires: t,
                now,
            }) && a == (TrialAction::MarkActive {
                telegram_id: db_id,
                remnawave_user_id: users[k].id,
                expires_at: t,
            }),
        },
        None => if users.len() > 0 {
            g.stage is AwaitIneligibleMarked && a == (TrialAction::MarkIneligible {
                telegram_id: db_id,
            })
        } else {
            match days_after(now, p.days) {
                None => finish(g, a, Err(TrialError::ExpirationOutOfRange)),
                Some(expires) => if p.traffic_gib * GIB > u64::MAX {
                    finish(g, a, Err(TrialError::InvalidTrafficLimit))
                } else {
                    match rfc3339_text(expires) {
                        None => finish(g, a, Err(TrialError::ExpirationOutOfRange)),
                        Some(text) => g.stage == (TrialStage::AwaitCreate { db_id, expires })
                            && (a matches TrialAction::CreateUser(req) && trial_request(
                            req,
                            p,
                            text,
                        )),
                    }
                },
            }
        },
    }
}

/// After the panel listed the user's accounts again, once creating failed
/// with `error`: a trial user that the failed call did create is taken up.
pub open spec fn after_recheck(
    db_id: i64,
    error: RemnawaveError,
    users: Result<Vec<RemnawaveUser>, RemnawaveError>,
    g: TrialFlow,
    a: TrialAction,
) -> bool {
    let give_up = g.stage == (TrialStage::AwaitFailedMarked { error: TrialError::Remnawave(error) })
        && a == (TrialAction::MarkFailed { telegram_id: db_id });
    match users {
        Ok(us) => match first_tagged(us@, "TRIAL"@) {
            Some(k) => match rfc3339_parsed(us@[k].expire_at@) {
                Err(m) => g.stage is Finished && (a matches TrialAction::Finish(Err(
                    TrialError::InvalidExpiration(x),
                )) && x@ == m),
                Ok(t) => g.stage == (TrialStage::AwaitRecoveredMarked { user: us@[k] }) && a == (
                TrialAction::MarkActive {
                    telegram_id: db_id,
                    remnawave_user_id: us@[k].id,
                    expires_at: t,
                }),
            },
            None => give_up,
        },
        Err(_) => give_up,
    }
}

/// One step of issuing a trial: from where it stands and what came back, to
/// where it stands next and what to do.
pub open spec fn trial_transition(f: TrialFlow, e: TrialEvent, g: TrialFlow, a: TrialAction) -> bool {
    &&& g.params == f.params
    &&& match (f.stage, e) {
        (TrialStage::Start, TrialEvent::Begin) => if f.params.telegram_id > i64::MAX {
            finish(g, a, Err(TrialError::InvalidTelegramId))
        } else {
            g.stage == (TrialStage::AwaitClaim { db_id: f.params.telegram_id as i64 }) && a == (
            TrialAction::ClaimTrial { telegram_id: f.params.telegram_id as i64 })
        },
        (TrialStage::AwaitClaim { db_id }, TrialEvent::Claimed(r)) => match r {
            Err(x) => finish(g, a, Err(TrialError::Database(x))),
            Ok(TrialClaimDecision::AlreadyUsed) => finish(g, a, Ok(TrialIssueResult::AlreadyUsed)),
            Ok(TrialClaimDecision::Ineligible) => finish(g, a, Ok(TrialIssueResult::Ineligible)),
            Ok(TrialClaimDecision::InProgress) => finish(g, a, Ok(TrialIssueResult::InProgress)),
            Ok(TrialClaimDecision::Acquired) => g.stage == (TrialStage::AwaitUsers { db_id })
                && a == (TrialAction::FindUsers { telegram_id: f.params.telegram_id }),
        },
        (TrialStage::AwaitUsers { db_id }, TrialEvent::UsersListed { users, now }) => match users {
            Err(x) => g.stage == (TrialStage::AwaitFailedMarked {
                error: TrialError::Remnawave(x),
            }) && a == (TrialAction::MarkFailed { telegram_id: db_id }),
            Ok(us) => after_first_listing(f.params, db_id, us@, now, g, a),
        },
        (TrialStage::AwaitExistingMarked { user, expires, now }, TrialEvent::Marked(r)) => match r {
            Err(x) => finish(g, a, Err(TrialError::Database(x))),
            Ok(_) => if user.status@ == "ACTIVE"@ && expires.later_than(now) {
                finish(g, a, Ok(TrialIssueResult::Recovered(user)))
            } else {
                finish(g, a, Ok(TrialIssueResult::AlreadyUsed))
            },
        },
        (TrialStage::AwaitIneligibleMarked, TrialEvent::Marked(r)) => match r {
            Err(x) => finish(g, a, Err(TrialError::Database(x))),
            Ok(_) => finish(g, a, Ok(TrialIssueResult::Ineligible)),
        },
        (TrialStage::AwaitCreate { db_id, expires }, TrialEvent::Created(r)) => match r {
            Ok(user) => g.stage == (TrialStage::AwaitCreatedMarked { user }) && a == (
            TrialAction::MarkActive {
                telegram_id: db_id,
                remnawave_user_id: user.id,
                expires_at: expires,
            }),
            Err(x) => g.stage == (TrialStage::AwaitRecheck { db_id, error: x }) && a == (
            TrialAction::FindUsers { telegram_id: f.params.telegram_id }),
        },
        (TrialStage::AwaitCreatedMarked { user }, TrialEvent::Marked(r)) => match r {
            Err(x) => finish(g, a, Err(TrialError::Database(x))),
            Ok(_) => finish(g, a, Ok(TrialIssueResult::Created(user))),
        },
        (TrialStage::AwaitRecheck { db_id, error }, TrialEvent::UsersListed { users, now }) =>
            after_recheck(db_id, error, users, g, a),
        (TrialStage::AwaitRecoveredMarked { user }, TrialEvent::Marked(r)) => match r {
            Err(x) => finish(g, a, Err(TrialError::Database(x))),
            Ok(_) => finish(g, a, Ok(TrialIssueResult::Recovered(user))),
        },
        (TrialStage::AwaitFailedMarked { error }, TrialEvent::FailureRecorded) => finish(
            g,
            a,
            Err(error),
        ),
        _ => false,
    }
}

fn done(params: TrialParams, r: Result<TrialIssueResult, TrialError>) -> (x: (TrialFlow, TrialAction))
    ensures
        x.0.params == params,
        finish(x.0, x.1, r),
{
    (TrialFlow { params, stage: TrialStage::Finished }, TrialAction::Finish(r))
}

/// A trial user to be created expires `days` days after `now`, to the
/// second (outside a leap second).
pub open spec fn lasts_days(stage: TrialStage, now: Instant, days: i64) -> bool {
    match stage {
        TrialStage::AwaitCreate { expires, .. } => now.nanos < 1_000_000_000 ==> expires.secs
            == now.secs + 86400 * days && expires.nanos == now.nanos,
        _ => true,
    }
}

fn first_listing(params: TrialParams, db_id: i64, users: Vec<RemnawaveUser>, now: Instant) -> (x: (TrialFlow, TrialAction))
    ensures
        x.0.params == params,
        after_first_listing(params, db_id, users@, now, x.0, x.1),
        lasts_days(x.0.stage, now, params.days),
{
    match find_tagged(&users, "TRIAL") {
        Some(k) => {
            let mut users = users;
            let user = users.remove(k);
            match parse_rfc3339(user.expire_at.as_str()) {
                Err(m) => done(params, Err(TrialError::InvalidExpiration(m))),
                Ok(t) => {
                    let id = user.id;
                    (
                        TrialFlow {
                            params,
                            stage: TrialStage::AwaitExistingMarked { user, expires: t, now },
                        },
                        TrialAction::MarkActive {
                            telegram_id: db_id,
                            remnawave_user_id: id,
                            expires_at: t,
                        },
                    )
                },
            }
        },
        None => {
            if users.len() > 0 {
                return (
                    TrialFlow { params, stage: TrialStage::AwaitIneligibleMarked },
                    TrialAction::MarkIneligible { telegram_id: db_id },
                );
            }
            let expires = match add_days(now, params.days) {
                None => {
                    return done(params, Err(TrialError::ExpirationOutOfRange));
                },
                Some(t) => t,
            };
            let traffic = match params.traffic_gib.checked_mul(GIB) {
                None => {
                    return done(params, Err(TrialError::InvalidTrafficLimit));
                },
                Some(b) => b,
            };
            let text = match format_rfc3339(expires) {
                None => {
                    return done(params, Err(TrialError::ExpirationOutOfRange));
                },
                Some(s) => s,
            };
            let mut username = String::from_str("trial_");
            push_decimal(&mut username, params.telegram_id);
            let mut squads: Vec<String> = Vec::new();
            squads.push(params.squad_uuid.clone());
            let req = CreateUserRequest {
                username,
                status: String::from_str("ACTIVE"),
                traffic_limit_bytes: traffic,
                traffic_limit_strategy: String::from_str("NO_RESET"),
                expire_at: text,
                description: String::from_str("Пробная подписка, созданная VPNBotTG"),
                tag: String::from_str("TRIAL"),
                telegram_id: params.telegram_id,
                hwid_device_limit: params.hwid_limit,
                active_internal_squads: squads,
            };
            (
                TrialFlow { params, stage: TrialStage::AwaitCreate { db_id, expires } },
                TrialAction::CreateUser(req),
            )
        },
    }
}

fn recheck(
    params: TrialParams,
    db_id: i64,
    error: RemnawaveError,
    users: Result<Vec<RemnawaveUser>, RemnawaveError>,
) -> (x: (TrialFlow, TrialAction))
    ensures
        x.0.params == params,
        after_recheck(db_id, error, users, x.0, x.1),
{
    match users {
        Ok(us) => {
            match find_tagged(&us, "TRIAL") {
                Some(k) => {
                    let mut us = us;
                    let user = us.remove(k);
                    match parse_rfc3339(user.expire_at.as_str()) {
                        Err(m) => done(params, Err(TrialError::InvalidExpiration(m))),
                        Ok(t) => {
                            let id = user.id;
                            (
                                TrialFlow {
                                    params,
                                    stage: TrialStage::AwaitRecoveredMarked { user },
                                },
                                TrialAction::MarkActive {
                                    telegram_id: db_id,
                                    remnawave_user_id: id,
                                    expires_at: t,
                                },
                            )
                        },
                    }
                },
                None => (
                    TrialFlow {
                        params,
                        stage: TrialStage::AwaitFailedMarked { error: TrialError::Remnawave(error) },
                    },
                    TrialAction::MarkFailed { telegram_id: db_id },
                ),
            }
        },
        Err(_) => (
            TrialFlow {
                params,
                stage: TrialStage::AwaitFailedMarked { error: TrialError::Remnawave(error) },
            },
            TrialAction::MarkFailed { telegram_id: db_id },
        ),
    }
}

/// Advances the issuing of a trial by one step.
///
/// In order: the Telegram ID must fit the database; the trial is claimed
/// (a claim already used, refused or in progress ends here); the panel is
/// asked for the user's accounts; an account tagged `TRIAL` is recorded and
/// reported as recovered if still active, else as already used; any other
/// account makes the user ineligible; otherwise the trial user is created.
/// When creating fails, the panel is asked again, since the call may have
/// succeeded; only then is the claim marked failed.
pub fn trial_step(flow: TrialFlow, event: TrialEvent) -> (x: (TrialFlow, TrialAction))
    requires
        awaits(flow.stage, event),
    ensures
        trial_transition(flow, event, x.0, x.1),
        match (flow.stage, event) {
            (TrialStage::AwaitUsers { .. }, TrialEvent::UsersListed { now, .. }) => lasts_days(
                x.0.stage,
                now,
                flow.params.days,
            ),
            _ => true,
        },
{
    let params = flow.params;
    match (flow.stage, event) {
        (TrialStage::Start, TrialEvent::Begin) => {
            if params.telegram_id > 9_223_372_036_854_775_807u64 {
                done(params, Err(TrialError::InvalidTelegramId))
            } else {
                let db_id = params.telegram_id as i64;
                (
                    TrialFlow { params, stage: TrialStage::AwaitClaim { db_id } },
                    TrialAction::ClaimTrial { telegram_id: db_id },
                )
            }
        },
        (TrialStage::AwaitClaim { db_id }, TrialEvent::Claimed(r)) => match r {
            Err(x) => done(params, Err(TrialError::Database(x))),
            Ok(TrialClaimDecision::AlreadyUsed) => done(params, Ok(TrialIssueResult::AlreadyUsed)),
            Ok(TrialClaimDecision::Ineligible) => done(params, Ok(TrialIssueResult::Ineligible)),
            Ok(TrialClaimDecision::InProgress) => done(params, Ok(TrialIssueResult::InProgress)),
            Ok(TrialClaimDecision::Acquired) => {
                let tid = params.telegram_id;
                (
                    TrialFlow { params, stage: TrialStage::AwaitUsers { db_id } },
                    TrialAction::FindUsers { telegram_id: tid },
                )
            },
        },
        (TrialStage::AwaitUsers { db_id }, TrialEvent::UsersListed { users, now }) => match users {
            Err(x) => (
                TrialFlow {
                    params,
                    stage: TrialStage::AwaitFailedMarked { error: TrialError::Remnawave(x) },
                },
                TrialAction::MarkFailed { telegram_id: db_id },
            ),
            Ok(us) => first_listing(params, db_id, us, now),
        },
        (TrialStage::AwaitExistingMarked { user, expires, now }, TrialEvent::Marked(r)) => match r {
            Err(x) => done(params, Err(TrialError::Database(x))),
            Ok(_) => {
                if crate::text::str_eq(user.status.as_str(), "ACTIVE") && expires.is_after(&now) {
                    done(params, Ok(TrialIssueResult::Recovered(user)))
                } else {
                    done(params, Ok(TrialIssueResult::AlreadyUsed))
                }
            },
        },
        (TrialStage::AwaitIneligibleMarked, TrialEvent::Marked(r)) => match r {
            Err(x) => done(params, Err(TrialError::Database(x))),
            Ok(_) => done(params, Ok(TrialIssueResult::Ineligible)),
        },
        (TrialStage::AwaitCreate { db_id, expires }, TrialEvent::Created(r)) => match r {
            Ok(user) => {
                let id = user.id;
                (
                    TrialFlow { params, stage: TrialStage::AwaitCreatedMarked { user } },
                    TrialAction::MarkActive {
                        telegram_id: db_id,
                        remnawave_user_id: id,
                        expires_at: expires,
                    },
                )
            },
            Err(x) => {
                let tid = params.telegram_id;
                (
                    TrialFlow { params, stage: TrialStage::AwaitRecheck { db_id, error: x } },
                    TrialAction::FindUsers { telegram_id: tid },
                )
            },
        },
        (TrialStage::AwaitCreatedMarked { user }, TrialEvent::Marked(r)) => match r {
            Err(x) => done(params, Err(TrialError::Database(x))),
            Ok(_) => done(params, Ok(TrialIssueResult::Created(user))),
        },
        (TrialStage::AwaitRecheck { db_id, error }, TrialEvent::UsersListed { users, now }) => {
            recheck(params, db_id, error, users)
        },
        (TrialStage::AwaitRecoveredMarked { user }, TrialEvent::Marked(r)) => match r {
            Err(x) => done(params, Err(TrialError::Database(x))),
            Ok(_) => done(params, Ok(TrialIssueResult::Recovered(user))),
        },
        (TrialStage::AwaitFailedMarked { error }, TrialEvent::FailureRecorded) => {
            done(params, Err(error))
        },
        _ => {
            proof {
                assert(false);
            }
            done(params, Err(TrialError::InvalidTelegramId))
        },
    }
}

} // verus!

verus! {

/// A trial user is created only when the claim was acquired and the panel
/// holds no account at all for the Telegram user: the only step that asks
/// for a creation is the one after an empty first listing.
pub proof fn law_trial_created_only_for_new_users(f: TrialFlow, e: TrialEvent, g: TrialFlow, a: TrialAction)
    requires
        trial_transition(f, e, g, a),
        a is CreateUser,
    ensures
        f.stage is AwaitUsers,
        e matches TrialEvent::UsersListed { users: Ok(us), .. } && us@.len() == 0,
{
}

/// A claim that is used, refused or in progress ends the request with that
/// answer, and nothing is asked of the panel.
pub proof fn law_trial_claim_respected(f: TrialFlow, e: TrialEvent, g: TrialFlow, a: TrialAction)
    requires
        trial_transition(f, e, g, a),
        f.stage is AwaitClaim,
        e matches TrialEvent::Claimed(Ok(d)) && d != TrialClaimDecision::Acquired,
    ensures
        g.stage is Finished,
        a matches TrialAction::Finish(Ok(r)) && !(r is Created) && !(r is Recovered),
{
}

/// A failed creation is never reported as a failure while the panel shows
/// a trial user: the claim is marked failed only when the second listing
/// failed or holds no user tagged `TRIAL`.
pub proof fn law_trial_failure_marked_only_without_trial_user(
    f: TrialFlow,
    e: TrialEvent,
    g: TrialFlow,
    a: TrialAction,
)
    requires
        trial_transition(f, e, g, a),
        f.stage is AwaitRecheck,
        a is MarkFailed,
    ensures
        e matches TrialEvent::UsersListed { users, .. } && (users is Err || first_tagged(
            users->Ok_0@,
            "TRIAL"@,
        ) is None),
{
}

} // verus!

verus! {

/// The internal squad that trial users join, from the panel's answer to the
/// lookup of the configured name: its UUID, or why there is none.
pub fn trial_squad(found: Result<Option<InternalSquad>, RemnawaveError>, name: &str) -> (r: Result<String, TrialError>)
    ensures
        match found {
            Err(e) => r == Err::<String, TrialError>(TrialError::Remnawave(e)),
            Ok(None) => r matches Err(TrialError::InternalSquadNotFound(n)) && n@ == name@,
            Ok(Some(s)) => r matches Ok(u) && u@ == s.uuid@,
        },
{
    match found {
        Err(e) => Err(TrialError::Remnawave(e)),
        Ok(None) => Err(TrialError::InternalSquadNotFound(String::from_str(name))),
        Ok(Some(s)) => Ok(s.uuid),
    }
}

} // verus!
