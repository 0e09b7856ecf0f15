use vstd::prelude::*;

use crate::config::TrialConfig;
use crate::remnawave::RemnawaveUser;
use crate::text::{decimal, push_decimal, push_signed_decimal, signed_decimal, str_eq};
use crate::time::{format_utc, parse_rfc3339, rfc3339_parsed, utc_text};
use crate::trial::TrialIssueResult;
use crate::ui::{
    UTC_MINUTES,
    CALLBACK_ABOUT, CALLBACK_HOME, CALLBACK_STATUS, CALLBACK_SUBSCRIPTION, CALLBACK_TRIAL,
};

verus! {

/// The screen a button asks for.
#[derive(Debug, Clone, Copy, PartialEq, Eq, Structural)]
pub enum CallbackRoute {
    Home,
    Status,
    Subscription,
    About,
    Trial,
    Unknown,
}

/// The screen for the callback data of a pressed button; any other data is
/// unknown (and only logged).
pub fn route_callback(data: &str) -> (r: CallbackRoute)
    ensures
        r == (if data@ == CALLBACK_HOME@ {
            CallbackRoute::Home
        } else if data@ == CALLBACK_STATUS@ {
            CallbackRoute::Status
        } else if data@ == CALLBACK_SUBSCRIPTION@ {
            CallbackRoute::Subscription
        } else if data@ == CALLBACK_ABOUT@ {
            CallbackRoute::About
        } else if data@ == CALLBACK_TRIAL@ {
            CallbackRoute::Trial
        } else {
            CallbackRoute::Unknown
        }),
{
    if str_eq(data, CALLBACK_HOME) {
        CallbackRoute::Home
    } else if str_eq(data, CALLBACK_STATUS) {
        CallbackRoute::Status
    } else if str_eq(data, CALLBACK_SUBSCRIPTION) {
        CallbackRoute::Subscription
    } else if str_eq(data, CALLBACK_ABOUT) {
        CallbackRoute::About
    } else if str_eq(data, CALLBACK_TRIAL) {
        CallbackRoute::Trial
    } else {
        CallbackRoute::Unknown
    }
}

/// A date of the panel as `dd.mm.yyyy HH:MM UTC`, or the text itself when
/// it is not an RFC 3339 date.
pub open spec fn datetime_text(value: Seq<char>) -> Seq<char> {
    match rfc3339_parsed(value) {
        Ok(t) => match utc_text(t, UTC_MINUTES@) {
            Some(s) => s,
            None => value,
        },
        Err(_) => value,
    }
}

pub fn format_datetime(value: &str) -> (r: String)
    ensures
        r@ == datetime_text(value@),
{
    match parse_rfc3339(value) {
        Ok(t) => match format_utc(t, UTC_MINUTES) {
            Some(s) => s,
            None => String::from_str(value),
        },
        Err(_) => String::from_str(value),
    }
}

/// The mark shown before a subscription status.
pub open spec fn status_icon_of(status: Seq<char>) -> Seq<char> {
    if status == "ACTIVE"@ {
        "🟢"@
    } else if status == "DISABLED"@ {
        "🔴"@
    } else if status == "LIMITED"@ {
        "🟠"@
    } else if status == "EXPIRED"@ {
        "⚫"@
    } else {
        "⚪"@
    }
}

pub fn status_icon(status: &str) -> (r: &'static str)
    ensures
        r@ == status_icon_of(status@),
{
    if str_eq(status, "ACTIVE") {
        "🟢"
    } else if str_eq(status, "DISABLED") {
        "🔴"
    } else if str_eq(status, "LIMITED") {
        "🟠"
    } else if str_eq(status, "EXPIRED") {
        "⚫"
    } else {
        "⚪"
    }
}

pub open spec fn trial_issued_text(trial: TrialConfig, user: RemnawaveUser) -> Seq<char> {
    "🎉 Пробная подписка активирована!\n\n📅 Срок: "@ + signed_decimal(trial.days as int)
        + " дн.\n📊 Трафик: "@ + decimal(trial.traffic_gib as nat) + " GiB\n📱 Устройства: до "@
        + decimal(trial.hwid_limit as nat) + "\n⏳ Действует до: "@ + datetime_text(
        user.expire_at@,
    ) + "\n\nТеперь можно получить ссылку для подключения."@
}

pub open spec fn trial_used_text() -> Seq<char> {
    "🎁 Пробный период уже был использован.\n\n\
     Повторное получение бесплатной \
     подписки недоступно."@
}

pub open spec fn trial_ineligible_text() -> Seq<char> {
    "🎁 Пробный период доступен только \
     новым пользователям.\n\n\
     Для этого Telegram-аккаунта уже \
     существует или ранее существовала \
     VPN-подписка."@
}

pub open spec fn trial_in_progress_text() -> Seq<char> {
    "⏳ Пробная подписка уже создаётся.\n\n\
     Подождите несколько секунд и \
     повторите попытку."@
}

pub open spec fn trial_failed_text() -> Seq<char> {
    "⚠️ Не удалось создать пробную \
     подписку.\n\n\
     Попробуйте ещё раз немного позже."@
}

/// The message for the outcome of a trial request (`None`: it failed), and
/// whether the trial keyboard (rather than the way back) goes with it.
pub fn trial_screen(trial: &TrialConfig, outcome: Option<&TrialIssueResult>) -> (r: (String, bool))
    ensures
        match outcome {
            Some(TrialIssueResult::Created(u)) => r.0@ == trial_issued_text(*trial, *u) && r.1,
            Some(TrialIssueResult::Recovered(u)) => r.0@ == trial_issued_text(*trial, *u) && r.1,
            Some(TrialIssueResult::AlreadyUsed) => r.0@ == trial_used_text() && !r.1,
            Some(TrialIssueResult::Ineligible) => r.0@ == trial_ineligible_text() && !r.1,
            Some(TrialIssueResult::InProgress) => r.0@ == trial_in_progress_text() && !r.1,
            None => r.0@ == trial_failed_text() && !r.1,
        },
{
    match outcome {
        Some(TrialIssueResult::Created(user)) | Some(TrialIssueResult::Recovered(user)) => {
            let mut s = String::from_str("🎉 Пробная подписка активирована!\n\n📅 Срок: ");
            push_signed_decimal(&mut s, trial.days);
            s.append(" дн.\n📊 Трафик: ");
            push_decimal(&mut s, trial.traffic_gib);
            s.append(" GiB\n📱 Устройства: до ");
            push_decimal(&mut s, trial.hwid_limit as u64);
            s.append("\n⏳ Действует до: ");
            let expires = format_datetime(user.expire_at.as_str());
            s.append(expires.as_str());
            s.append("\n\nТеперь можно получить ссылку для подключения.");
            assert(s@ =~= trial_issued_text(*trial, *user));
            (s, true)
        },
        Some(TrialIssueResult::AlreadyUsed) => (
            String::from_str(
                "🎁 Пробный период уже был использован.\n\n\
                 Повторное получение бесплатной \
                 подписки недоступно.",
            ),
            false,
        ),
        Some(TrialIssueResult::Ineligible) => (
            String::from_str(
                "🎁 Пробный период доступен только \
                 новым пользователям.\n\n\
                 Для этого Telegram-аккаунта уже \
                 существует или ранее существовала \
                 VPN-подписка.",
            ),
            false,
        ),
        Some(TrialIssueResult::InProgress) => (
            String::from_str(
                "⏳ Пробная подписка уже создаётся.\n\n\
                 Подождите несколько секунд и \
                 повторите попытку.",
            ),
            false,
        ),
        None => (
            String::from_str(
                "⚠️ Не удалось создать пробную \
                 подписку.\n\n\
                 Попробуйте ещё раз немного позже.",
            ),
            false,
        ),
    }
}

pub open spec fn subscription_entries(users: Seq<RemnawaveUser>) -> Seq<char>
    decreases users.len(),
{
    if users.len() == 0 {
        Seq::empty()
    } else {
        subscription_entries(users.drop_last()) + users.last().username@ + "\n"@
            + users.last().subscription_url@ + "\n\n"@
    }
}

pub open spec fn subscription_text_of(users: Seq<RemnawaveUser>) -> Seq<char> {
    if users.len() == 0 {
        "🔑 Ссылка на подписку\n\n\
         Активная VPN-подписка не найдена."@
    } else {
        "🔑 Ссылка подписки\n\n"@ + subscription_entries(users)
            + "⚠️ Не передавайте эту ссылку другим людям. \
             Она предоставляет доступ к вашей VPN-подписке."@
    }
}

/// The subscription links of the user's accounts, with a warning not to
/// share them; or that there is none.
pub fn subscription_text(users: &Vec<RemnawaveUser>) -> (r: String)
    ensures
        r@ == subscription_text_of(users@),
{
    if users.len() == 0 {
        return String::from_str(
            "🔑 Ссылка на подписку\n\n\
             Активная VPN-подписка не найдена.",
        );
    }
    let mut s = String::from_str("🔑 Ссылка подписки\n\n");
    let ghost head = s@;
    let mut i: usize = 0;
    while i < users.len()
        invariant
            i <= users@.len(),
            s@ == head + subscription_entries(users@.take(i as int)),
        decreases users@.len() - i,
    {
        let u = &users[i];
        s.append(u.username.as_str());
        s.append("\n");
        s.append(u.subscription_url.as_str());
        s.append("\n\n");
        proof {
            let t = users@.take(i + 1);
            assert(t.drop_last() =~= users@.take(i as int));
            assert(s@ =~= head + subscription_entries(t));
        }
        i = i + 1;
    }
    assert(users@.take(i as int) =~= users@);
    s.append(
        "⚠️ Не передавайте эту ссылку другим людям. \
         Она предоставляет доступ к вашей VPN-подписке.",
    );
    s
}

} // verus!

verus! {

/// One account on the status screen, with its traffic written out: the
/// used traffic, and the limit (shown only when there is one).
#[derive(Debug, Clone)]
pub struct StatusEntry {
    pub user: RemnawaveUser,
    pub used_text: String,
    pub limit_text: String,
}

pub open spec fn status_entry_text(e: StatusEntry) -> Seq<char> {
    "\n"@ + status_icon_of(e.user.status@) + " Статус: "@ + e.user.status@ + "\n👤 "@
        + e.user.username@ + "\n📅 Действует до: "@ + datetime_text(e.user.expire_at@)
        + "\n📊 Использовано: "@ + e.used_text@ + "\n📦 Лимит: "@ + (if e.user.traffic_limit_bytes
        == 0 {
        "Без лимита"@
    } else {
        e.limit_text@
    }) + "\n"@
}

pub open spec fn status_entries(entries: Seq<StatusEntry>) -> Seq<char>
    decreases entries.len(),
{
    if entries.len() == 0 {
        Seq::empty()
    } else {
        status_entries(entries.drop_last()) + status_entry_text(entries.last())
    }
}

pub open spec fn status_text_of(entries: Seq<StatusEntry>) -> Seq<char> {
    if entries.len() == 0 {
        "📋 Подписка\n\n\
         VPN-подписка для вашего Telegram-аккаунта не найдена."@
    } else {
        "📋 Моя подписка\n"@ + status_entries(entries)
    }
}

fn push_status_entry(s: &mut String, e: &StatusEntry)
    ensures
        final(s)@ == old(s)@ + status_entry_text(*e),
{
    s.append("\n");
    s.append(status_icon(e.user.status.as_str()));
    s.append(" Статус: ");
    s.append(e.user.status.as_str());
    s.append("\n👤 ");
    s.append(e.user.username.as_str());
    s.append("\n📅 Действует до: ");
    let date = format_datetime(e.user.expire_at.as_str());
    s.append(date.as_str());
    s.append("\n📊 Использовано: ");
    s.append(e.used_text.as_str());
    s.append("\n📦 Лимит: ");
    if e.user.traffic_limit_bytes == 0 {
        s.append("Без лимита");
    } else {
        s.append(e.limit_text.as_str());
    }
    s.append("\n");
    assert(s@ =~= old(s)@ + status_entry_text(*e));
}

/// The status screen of the user's accounts, and whether the status
/// keyboard (rather than the way back) goes with it: when there is no
/// account, only the way back.
pub fn status_screen(entries: &Vec<StatusEntry>) -> (r: (String, bool))
    ensures
        r.0@ == status_text_of(entries@),
        r.1 == (entries@.len() > 0),
{
    if entries.len() == 0 {
        return (
            String::from_str(
                "📋 Подписка\n\n\
                 VPN-подписка для вашего Telegram-аккаунта не найдена.",
            ),
            false,
        );
    }
    let mut s = String::from_str("📋 Моя подписка\n");
    let ghost head = s@;
    let mut i: usize = 0;
    while i < entries.len()
        invariant
            i <= entries@.len(),
            s@ == head + status_entries(entries@.take(i as int)),
        decreases entries@.len() - i,
    {
        push_status_entry(&mut s, &entries[i]);
        proof {
            let t = entries@.take(i + 1);
            assert(t.drop_last() =~= entries@.take(i as int));
            assert(s@ =~= head + status_entries(t));
        }
        i = i + 1;
    }
    assert(entries@.take(i as int) =~= entries@);
    (s, true)
}

} // verus!
