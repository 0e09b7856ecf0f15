use vstd::prelude::*;

verus! {

/// What a trial subscription grants.
#[derive(Debug, Clone)]
pub struct TrialConfig {
    pub days: i64,
    pub traffic_gib: u64,
    pub hwid_limit: u32,
    pub internal_squad_name: String,
}

/// Contacts and documents of the service; every URL is one that parsed.
#[derive(Debug, Clone)]
pub struct ServiceConfig {
    pub support_telegram_url: String,
    pub support_email: String,
    pub phone: Option<String>,
    pub contact_address: Option<String>,
    pub docs_url: String,
    pub user_agreement_url: String,
    pub privacy_url: String,
}

/// Settings of the Platega payment provider; every URL is one that parsed.
#[derive(Debug, Clone)]
pub struct PlategaConfig {
    pub base_url: String,
    pub merchant_id: Option<String>,
    pub api_key: Option<String>,
    pub webhook_bind: String,
    pub callback_url: String,
    pub return_url: String,
    pub failed_url: String,
}

impl PlategaConfig {
    /// Both the merchant ID and the API key are set.
    pub fn is_configured(&self) -> (b: bool)
        ensures
            b == (self.merchant_id is Some && self.api_key is Some),
    {
        self.merchant_id.is_some() && self.api_key.is_some()
    }
}

/// Why the configuration could not be read.
#[derive(Debug, Clone)]
pub enum ConfigError {
    MissingVariable(&'static str),
    InvalidVariable(&'static str),
    InvalidTrialConfiguration,
    IncompletePlategaCredentials,
}

} // verus!

verus! {

/// The whole configuration of the bot.
#[derive(Debug, Clone)]
pub struct Config {
    pub telegram_token: String,
    pub remnawave_url: String,
    pub remnawave_token: String,
    pub database_url: String,
    pub trial: TrialConfig,
    pub service: ServiceConfig,
    pub platega: PlategaConfig,
}

/// A required variable: present and not blank, else missing.
pub fn required(name: &'static str, value: Option<String>) -> (r: Result<String, ConfigError>)
    ensures
        match value {
            Some(v) => if crate::text::blank(v@) {
                r == Err::<String, ConfigError>(ConfigError::MissingVariable(name))
            } else {
                r == Ok::<String, ConfigError>(v)
            },
            None => r == Err::<String, ConfigError>(ConfigError::MissingVariable(name)),
        },
{
    match value {
        Some(v) => {
            if crate::text::is_blank(v.as_str()) {
                Err(ConfigError::MissingVariable(name))
            } else {
                Ok(v)
            }
        },
        None => Err(ConfigError::MissingVariable(name)),
    }
}

/// An optional variable: kept when present and not blank.
pub fn optional(value: Option<String>) -> (r: Option<String>)
    ensures
        match value {
            Some(v) => if crate::text::blank(v@) {
                r is None
            } else {
                r == Some(v)
            },
            None => r is None,
        },
{
    match value {
        Some(v) => {
            if crate::text::is_blank(v.as_str()) {
                None
            } else {
                Some(v)
            }
        },
        None => None,
    }
}

/// A required URL: present, not blank and parsed; kept in the parser's
/// normalized form.
pub fn required_url(name: &'static str, value: Option<String>) -> (r: Result<String, ConfigError>)
    ensures
        match value {
            Some(v) => if crate::text::blank(v@) {
                r == Err::<String, ConfigError>(ConfigError::MissingVariable(name))
            } else {
                match crate::url::url_parts(v@) {
                    Some((_, s)) => r matches Ok(u) && u@ == s,
                    None => r == Err::<String, ConfigError>(ConfigError::InvalidVariable(name)),
                }
            },
            None => r == Err::<String, ConfigError>(ConfigError::MissingVariable(name)),
        },
{
    let v = match required(name, value) {
        Ok(v) => v,
        Err(e) => {
            return Err(e);
        },
    };
    match crate::url::parse_url(v.as_str()) {
        Some(p) => Ok(p.serialization),
        None => Err(ConfigError::InvalidVariable(name)),
    }
}

/// A trial grants at least one day, some traffic and one device.
pub fn check_trial(trial: &TrialConfig) -> (r: Result<(), ConfigError>)
    ensures
        r is Ok <==> (trial.days > 0 && trial.traffic_gib > 0 && trial.hwid_limit > 0),
        r matches Err(e) ==> e is InvalidTrialConfiguration,
{
    if trial.days <= 0 || trial.traffic_gib == 0 || trial.hwid_limit == 0 {
        Err(ConfigError::InvalidTrialConfiguration)
    } else {
        Ok(())
    }
}

/// The merchant ID and the API key are given together or not at all.
pub fn check_platega_credentials(platega: &PlategaConfig) -> (r: Result<(), ConfigError>)
    ensures
        r is Ok <==> ((platega.merchant_id is Some) == (platega.api_key is Some)),
        r matches Err(e) ==> e is IncompletePlategaCredentials,
{
    if platega.merchant_id.is_some() != platega.api_key.is_some() {
        Err(ConfigError::IncompletePlategaCredentials)
    } else {
        Ok(())
    }
}

// ---------------------------------------------------------------------------
// Numbers, read as `str::parse` reads them
// ---------------------------------------------------------------------------

pub open spec fn is_digit(c: char) -> bool {
    '0' <= c <= '9'
}

/// One or more decimal digits.
pub open spec fn all_digits(d: Seq<char>) -> bool {
    d.len() > 0 && forall|i: int| 0 <= i < d.len() ==> is_digit(#[trigger] d[i])
}

/// The number the digits `d` denote.
pub open spec fn digits_value(d: Seq<char>) -> nat
    decreases d.len(),
{
    if d.len() == 0 {
        0
    } else {
        digits_value(d.drop_last()) * 10 + (d.last() as nat - 48) as nat
    }
}

/// The digits of an unsigned number: a leading `+` is allowed.
pub open spec fn unsigned_digits(s: Seq<char>) -> Seq<char> {
    if s.len() > 0 && s[0] == '+' {
        s.drop_first()
    } else {
        s
    }
}

/// `s` read as an unsigned number at most `max`.
pub open spec fn parsed_unsigned(s: Seq<char>, max: nat) -> Option<nat> {
    let d = unsigned_digits(s);
    if all_digits(d) && digits_value(d) <= max {
        Some(digits_value(d))
    } else {
        None
    }
}

/// `s` read as an `i64`: a leading `-` or `+`, then digits.
pub open spec fn parsed_i64(s: Seq<char>) -> Option<int> {
    if s.len() > 0 && s[0] == '-' {
        let d = s.drop_first();
        if all_digits(d) && digits_value(d) <= 9_223_372_036_854_775_808 {
            Some(-(digits_value(d) as int))
        } else {
            None
        }
    } else {
        match parsed_unsigned(s, i64::MAX as nat) {
            Some(v) => Some(v as int),
            None => None,
        }
    }
}

proof fn lemma_digits_monotone(d: Seq<char>, i: int)
    requires
        0 <= i <= d.len(),
    ensures
        digits_value(d.take(i)) <= digits_value(d),
    decreases d.len() - i,
{
    if i < d.len() {
        lemma_digits_monotone(d, i + 1);
        assert(d.take(i + 1).drop_last() =~= d.take(i));
    } else {
        assert(d.take(i) =~= d);
    }
}

/// The value of the digits `d`, if they are one or more digits and the
/// value is at most `max`.
fn digits_up_to(d: &[char], max: u64) -> (r: Option<u64>)
    ensures
        match r {
            Some(v) => all_digits(d@) && digits_value(d@) <= max && v == digits_value(d@),
            None => !(all_digits(d@) && digits_value(d@) <= max),
        },
{
    if d.len() == 0 {
        return None;
    }
    let mut v: u64 = 0;
    let mut i: usize = 0;
    while i < d.len()
        invariant
            i <= d.len(),
            v == digits_value(d@.take(i as int)),
            v <= max,
            forall|j: int| 0 <= j < i ==> is_digit(#[trigger] d@[j]),
        decreases d.len() - i,
    {
        let c = d[i];
        if !('0' <= c && c <= '9') {
            return None;
        }
        let digit = (c as u32 - 48u32) as u64;
        assert(d@.take(i + 1).drop_last() =~= d@.take(i as int));
        proof {
            lemma_digits_monotone(d@, i + 1);
        }
        if digit > max {
            return None;
        }
        let limit = (max - digit) / 10;
        if v > limit {
            assert(v * 10 + digit > max) by (nonlinear_arith)
                requires
                    v > limit,
                    limit == (max - digit) / 10,
                    digit <= max,
            ;
            return None;
        }
        assert(v * 10 + digit <= max) by (nonlinear_arith)
            requires
                v <= limit,
                limit == (max - digit) / 10,
                digit <= max,
        ;
        v = v * 10 + digit;
        i = i + 1;
    }
    assert(d@.take(i as int) =~= d@);
    Some(v)
}

/// `s` read as a `u64`, as `str::parse::<u64>` reads it.
pub fn parse_u64(s: &str) -> (r: Option<u64>)
    ensures
        match r {
            Some(v) => parsed_unsigned(s@, u64::MAX as nat) == Some(v as nat),
            None => parsed_unsigned(s@, u64::MAX as nat) is None,
        },
{
    let cs = crate::text::chars_of(s);
    if cs.len() > 0 && cs[0] == '+' {
        let (_, rest) = cs.as_slice().split_at(1);
        assert(rest@ =~= s@.drop_first());
        digits_up_to(rest, 18_446_744_073_709_551_615u64)
    } else {
        digits_up_to(cs.as_slice(), 18_446_744_073_709_551_615u64)
    }
}

/// `s` read as a `u32`, as `str::parse::<u32>` reads it.
pub fn parse_u32(s: &str) -> (r: Option<u32>)
    ensures
        match r {
            Some(v) => parsed_unsigned(s@, u32::MAX as nat) == Some(v as nat),
            None => parsed_unsigned(s@, u32::MAX as nat) is None,
        },
{
    let cs = crate::text::chars_of(s);
    let v = if cs.len() > 0 && cs[0] == '+' {
        let (_, rest) = cs.as_slice().split_at(1);
        assert(rest@ =~= s@.drop_first());
        digits_up_to(rest, 4_294_967_295u64)
    } else {
        digits_up_to(cs.as_slice(), 4_294_967_295u64)
    };
    match v {
        Some(x) => Some(x as u32),
        None => None,
    }
}

/// `s` read as an `i64`, as `str::parse::<i64>` reads it.
pub fn parse_i64(s: &str) -> (r: Option<i64>)
    ensures
        match r {
            Some(v) => parsed_i64(s@) == Some(v as int),
            None => parsed_i64(s@) is None,
        },
{
    let cs = crate::text::chars_of(s);
    if cs.len() > 0 && cs[0] == '-' {
        let (_, rest) = cs.as_slice().split_at(1);
        assert(rest@ =~= s@.drop_first());
        match digits_up_to(rest, 9_223_372_036_854_775_808u64) {
            Some(m) => {
                if m == 9_223_372_036_854_775_808u64 {
                    Some(i64::MIN)
                } else {
                    Some(-(m as i64))
                }
            },
            None => None,
        }
    } else {
        let v = if cs.len() > 0 && cs[0] == '+' {
            let (_, rest) = cs.as_slice().split_at(1);
            assert(rest@ =~= s@.drop_first());
            digits_up_to(rest, 9_223_372_036_854_775_807u64)
        } else {
            digits_up_to(cs.as_slice(), 9_223_372_036_854_775_807u64)
        };
        match v {
            Some(x) => Some(x as i64),
            None => None,
        }
    }
}

/// A required number: present and not blank (else missing), then read as
/// `str::parse` reads it (else invalid).
pub fn required_u64(name: &'static str, value: Option<String>) -> (r: Result<u64, ConfigError>)
    ensures
        match value {
            Some(v) => if crate::text::blank(v@) {
                r == Err::<u64, ConfigError>(ConfigError::MissingVariable(name))
            } else {
                match parsed_unsigned(v@, u64::MAX as nat) {
                    Some(n) => r == Ok::<u64, ConfigError>(n as u64),
                    None => r == Err::<u64, ConfigError>(ConfigError::InvalidVariable(name)),
                }
            },
            None => r == Err::<u64, ConfigError>(ConfigError::MissingVariable(name)),
        },
{
    let v = match required(name, value) {
        Ok(v) => v,
        Err(e) => {
            return Err(e);
        },
    };
    match parse_u64(v.as_str()) {
        Some(n) => Ok(n),
        None => Err(ConfigError::InvalidVariable(name)),
    }
}

/// As `required_u64`, for a `u32`.
pub fn required_u32(name: &'static str, value: Option<String>) -> (r: Result<u32, ConfigError>)
    ensures
        match value {
            Some(v) => if crate::text::blank(v@) {
                r == Err::<u32, ConfigError>(ConfigError::MissingVariable(name))
            } else {
                match parsed_unsigned(v@, u32::MAX as nat) {
                    Some(n) => r == Ok::<u32, ConfigError>(n as u32),
                    None => r == Err::<u32, ConfigError>(ConfigError::InvalidVariable(name)),
                }
            },
            None => r == Err::<u32, ConfigError>(ConfigError::MissingVariable(name)),
        },
{
    let v = match required(name, value) {
        Ok(v) => v,
        Err(e) => {
            return Err(e);
        },
    };
    match parse_u32(v.as_str()) {
        Some(n) => Ok(n),
        None => Err(ConfigError::InvalidVariable(name)),
    }
}

/// As `required_u64`, for an `i64`.
pub fn required_i64(name: &'static str, value: Option<String>) -> (r: Result<i64, ConfigError>)
    ensures
        match value {
            Some(v) => if crate::text::blank(v@) {
                r == Err::<i64, ConfigError>(ConfigError::MissingVariable(name))
            } else {
                match parsed_i64(v@) {
                    Some(n) => r == Ok::<i64, ConfigError>(n as i64),
                    None => r == Err::<i64, ConfigError>(ConfigError::InvalidVariable(name)),
                }
            },
            None => r == Err::<i64, ConfigError>(ConfigError::MissingVariable(name)),
        },
{
    let v = match required(name, value) {
        Ok(v) => v,
        Err(e) => {
            return Err(e);
        },
    };
    match parse_i64(v.as_str()) {
        Some(n) => Ok(n),
        None => Err(ConfigError::InvalidVariable(name)),
    }
}

} // verus!

verus! {

proof fn lemma_digit_value(d: nat)
    requires
        d < 10,
    ensures
        is_digit(crate::text::digit(d)),
        (crate::text::digit(d) as nat - 48) as nat == d,
{
    if d == 0 {
        assert('0' as u32 == 48);
    } else if d == 1 {
        assert('1' as u32 == 49);
    } else if d == 2 {
        assert('2' as u32 == 50);
    } else if d == 3 {
        assert('3' as u32 == 51);
    } else if d == 4 {
        assert('4' as u32 == 52);
    } else if d == 5 {
        assert('5' as u32 == 53);
    } else if d == 6 {
        assert('6' as u32 == 54);
    } else if d == 7 {
        assert('7' as u32 == 55);
    } else if d == 8 {
        assert('8' as u32 == 56);
    } else {
        assert('9' as u32 == 57);
    }
}

proof fn lemma_decimal_digits(n: nat)
    ensures
        all_digits(crate::text::decimal(n)),
        digits_value(crate::text::decimal(n)) == n,
    decreases n,
{
    let d = crate::text::decimal(n);
    lemma_digit_value(n % 10);
    if n < 10 {
        assert(d =~= seq![crate::text::digit(n)]);
        assert(d.drop_last() =~= Seq::<char>::empty());
        assert(d.last() == crate::text::digit(n % 10));
        assert(digits_value(d) == digits_value(d.drop_last()) * 10 + (d.last() as nat - 48) as nat);
    } else {
        lemma_decimal_digits(n / 10);
        assert(d.drop_last() =~= crate::text::decimal(n / 10));
        assert(d.last() == crate::text::digit(n % 10));
        assert(digits_value(d) == digits_value(d.drop_last()) * 10 + (d.last() as nat - 48) as nat);
        assert forall|i: int| 0 <= i < d.len() implies is_digit(#[trigger] d[i]) by {
            if i < d.len() - 1 {
                assert(d[i] == crate::text::decimal(n / 10)[i]);
            }
        }
    }
}

/// A number written in decimal reads back as itself: what the bot shows or
/// stores as a number is read by `parse_u64` as the same number.
pub proof fn law_decimal_round_trip(n: u64)
    ensures
        parsed_unsigned(crate::text::decimal(n as nat), u64::MAX as nat) == Some(n as nat),
{
    lemma_decimal_digits(n as nat);
    let d = crate::text::decimal(n as nat);
    assert(is_digit(d[0]));
    assert(unsigned_digits(d) == d);
}

} // verus!

verus! {

// ---------------------------------------------------------------------------
// The whole configuration, from the values of its variables
// ---------------------------------------------------------------------------

pub const TRIAL_DAYS: &'static str = "TRIAL_DAYS";
pub const TRIAL_TRAFFIC_GIB: &'static str = "TRIAL_TRAFFIC_GIB";
pub const TRIAL_HWID_LIMIT: &'static str = "TRIAL_HWID_LIMIT";
pub const TRIAL_INTERNAL_SQUAD_NAME: &'static str = "TRIAL_INTERNAL_SQUAD_NAME";
pub const SERVICE_SUPPORT_TELEGRAM_URL: &'static str = "SERVICE_SUPPORT_TELEGRAM_URL";
pub const SERVICE_SUPPORT_EMAIL: &'static str = "SERVICE_SUPPORT_EMAIL";
pub const SERVICE_PHONE: &'static str = "SERVICE_PHONE";
pub const SERVICE_CONTACT_ADDRESS: &'static str = "SERVICE_CONTACT_ADDRESS";
pub const SERVICE_DOCS_URL: &'static str = "SERVICE_DOCS_URL";
pub const SERVICE_USER_AGREEMENT_URL: &'static str = "SERVICE_USER_AGREEMENT_URL";
pub const SERVICE_PRIVACY_URL: &'static str = "SERVICE_PRIVACY_URL";
pub const PLATEGA_BASE_URL: &'static str = "PLATEGA_BASE_URL";
pub const PLATEGA_MERCHANT_ID: &'static str = "PLATEGA_MERCHANT_ID";
pub const PLATEGA_API_KEY: &'static str = "PLATEGA_API_KEY";
pub const PLATEGA_WEBHOOK_BIND: &'static str = "PLATEGA_WEBHOOK_BIND";
pub const PLATEGA_CALLBACK_URL: &'static str = "PLATEGA_CALLBACK_URL";
pub const PLATEGA_RETURN_URL: &'static str = "PLATEGA_RETURN_URL";
pub const PLATEGA_FAILED_URL: &'static str = "PLATEGA_FAILED_URL";
pub const TELOXIDE_TOKEN: &'static str = "TELOXIDE_TOKEN";
pub const REMNAWAVE_URL: &'static str = "REMNAWAVE_URL";
pub const REMNAWAVE_TOKEN: &'static str = "REMNAWAVE_TOKEN";
pub const DATABASE_URL: &'static str = "DATABASE_URL";

/// The value of each variable of the configuration, as the environment
/// gives it (`None` when it is not set).
#[derive(Debug, Clone)]
pub struct RawConfig {
    pub trial_days: Option<String>,
    pub trial_traffic_gib: Option<String>,
    pub trial_hwid_limit: Option<String>,
    pub trial_internal_squad_name: Option<String>,
    pub support_telegram_url: Option<String>,
    pub support_email: Option<String>,
    pub phone: Option<String>,
    pub contact_address: Option<String>,
    pub docs_url: Option<String>,
    pub user_agreement_url: Option<String>,
    pub privacy_url: Option<String>,
    pub platega_base_url: Option<String>,
    pub platega_merchant_id: Option<String>,
    pub platega_api_key: Option<String>,
    pub platega_webhook_bind: Option<String>,
    pub platega_callback_url: Option<String>,
    pub platega_return_url: Option<String>,
    pub platega_failed_url: Option<String>,
    pub telegram_token: Option<String>,
    pub remnawave_url: Option<String>,
    pub remnawave_token: Option<String>,
    pub database_url: Option<String>,
}

/// The first of two problems.
pub open spec fn or_else(a: Option<ConfigError>, b: Option<ConfigError>) -> Option<ConfigError> {
    if a is Some {
        a
    } else {
        b
    }
}

/// The variable is not set or blank.
pub open spec fn unset(v: Option<String>) -> bool {
    v is None || crate::text::blank(v->0@)
}

pub open spec fn required_problem(name: &'static str, v: Option<String>) -> Option<ConfigError> {
    if unset(v) {
        Some(ConfigError::MissingVariable(name))
    } else {
        None
    }
}

pub open spec fn url_problem(name: &'static str, v: Option<String>) -> Option<ConfigError> {
    if unset(v) {
        Some(ConfigError::MissingVariable(name))
    } else if crate::url::url_parts(v->0@) is None {
        Some(ConfigError::InvalidVariable(name))
    } else {
        None
    }
}

pub open spec fn number_problem(name: &'static str, v: Option<String>, parsed: Option<int>) -> Option<ConfigError> {
    if unset(v) {
        Some(ConfigError::MissingVariable(name))
    } else if parsed is None {
        Some(ConfigError::InvalidVariable(name))
    } else {
        None
    }
}

pub open spec fn parsed_of(v: Option<String>, max: nat) -> Option<int> {
    match parsed_unsigned(v->0@, max) {
        Some(n) => Some(n as int),
        None => None,
    }
}

/// The serialization of a URL variable that parsed.
pub open spec fn url_of(v: Option<String>) -> Seq<char> {
    crate::url::url_parts(v->0@)->Some_0.1
}

/// An optional variable, kept when set and not blank.
pub open spec fn optional_of(v: Option<String>) -> Option<String> {
    if unset(v) {
        None
    } else {
        v
    }
}

/// The first problem of the trial's variables, in the order they are read.
pub open spec fn trial_problem(
    days: Option<String>,
    traffic_gib: Option<String>,
    hwid_limit: Option<String>,
    squad: Option<String>,
) -> Option<ConfigError> {
    let d = parsed_i64(days->0@);
    let g = parsed_of(traffic_gib, u64::MAX as nat);
    let h = parsed_of(hwid_limit, u32::MAX as nat);
    or_else(
        number_problem(TRIAL_DAYS, days, d),
        or_else(
            number_problem(TRIAL_TRAFFIC_GIB, traffic_gib, g),
            or_else(
                number_problem(TRIAL_HWID_LIMIT, hwid_limit, h),
                or_else(
                    required_problem(TRIAL_INTERNAL_SQUAD_NAME, squad),
                    if d->0 <= 0 || g->0 == 0 || h->0 == 0 {
                        Some(ConfigError::InvalidTrialConfiguration)
                    } else {
                        None
                    },
                ),
            ),
        ),
    )
}

pub open spec fn trial_is(
    t: TrialConfig,
    days: Option<String>,
    traffic_gib: Option<String>,
    hwid_limit: Option<String>,
    squad: Option<String>,
) -> bool {
    &&& t.days == parsed_i64(days->0@)->0
    &&& t.traffic_gib == parsed_of(traffic_gib, u64::MAX as nat)->0
    &&& t.hwid_limit == parsed_of(hwid_limit, u32::MAX as nat)->0
    &&& t.internal_squad_name == squad->0
}

/// The first problem of the service's variables, in the order they are read.
pub open spec fn service_problem(
    telegram_url: Option<String>,
    email: Option<String>,
    docs_url: Option<String>,
    agreement_url: Option<String>,
    privacy_url: Option<String>,
) -> Option<ConfigError> {
    or_else(
        url_problem(SERVICE_SUPPORT_TELEGRAM_URL, telegram_url),
        or_else(
            required_problem(SERVICE_SUPPORT_EMAIL, email),
            or_else(
                url_problem(SERVICE_DOCS_URL, docs_url),
                or_else(
                    url_problem(SERVICE_USER_AGREEMENT_URL, agreement_url),
                    url_problem(SERVICE_PRIVACY_URL, privacy_url),
                ),
            ),
        ),
    )
}

pub open spec fn service_is(
    s: ServiceConfig,
    telegram_url: Option<String>,
    email: Option<String>,
    phone: Option<String>,
    address: Option<String>,
    docs_url: Option<String>,
    agreement_url: Option<String>,
    privacy_url: Option<String>,
) -> bool {
    &&& s.support_telegram_url@ == url_of(telegram_url)
    &&& s.support_email == email->0
    &&& s.phone == optional_of(phone)
    &&& s.contact_address == optional_of(address)
    &&& s.docs_url@ == url_of(docs_url)
    &&& s.user_agreement_url@ == url_of(agreement_url)
    &&& s.privacy_url@ == url_of(privacy_url)
}

/// The first problem of the provider's variables, in the order they are
/// read; `bind_parses` tells whether the webhook address parses as a socket
/// address.
pub open spec fn platega_problem(
    base_url: Option<String>,
    merchant_id: Option<String>,
    api_key: Option<String>,
    webhook_bind: Option<String>,
    bind_parses: bool,
    callback_url: Option<String>,
    return_url: Option<String>,
    failed_url: Option<String>,
) -> Option<ConfigError> {
    or_else(
        url_problem(PLATEGA_BASE_URL, base_url),
        or_else(
            required_problem(PLATEGA_WEBHOOK_BIND, webhook_bind),
            or_else(
                if bind_parses {
                    None
                } else {
                    Some(ConfigError::InvalidVariable(PLATEGA_WEBHOOK_BIND))
                },
                or_else(
                    url_problem(PLATEGA_CALLBACK_URL, callback_url),
                    or_else(
                        url_problem(PLATEGA_RETURN_URL, return_url),
                        or_else(
                            url_problem(PLATEGA_FAILED_URL, failed_url),
                            if (optional_of(merchant_id) is Some) != (optional_of(api_key) is Some) {
                                Some(ConfigError::IncompletePlategaCredentials)
                            } else {
                                None
                            },
                        ),
                    ),
                ),
            ),
        ),
    )
}

pub open spec fn platega_is(
    p: PlategaConfig,
    base_url: Option<String>,
    merchant_id: Option<String>,
    api_key: Option<String>,
    webhook_bind: Option<String>,
    callback_url: Option<String>,
    return_url: Option<String>,
    failed_url: Option<String>,
) -> bool {
    &&& p.base_url@ == url_of(base_url)
    &&& p.merchant_id == optional_of(merchant_id)
    &&& p.api_key == optional_of(api_key)
    &&& p.webhook_bind == webhook_bind->0
    &&& p.callback_url@ == url_of(callback_url)
    &&& p.return_url@ == url_of(return_url)
    &&& p.failed_url@ == url_of(failed_url)
}

/// The first problem of the configuration: the trial's variables, the
/// service's, the provider's, then the tokens and addresses of Telegram,
/// the panel and the database.
pub open spec fn config_problem(raw: RawConfig, bind_parses: bool) -> Option<ConfigError> {
    or_else(
        trial_problem(raw.trial_days, raw.trial_traffic_gib, raw.trial_hwid_limit, raw.trial_internal_squad_name),
        or_else(
            service_problem(
                raw.support_telegram_url,
                raw.support_email,
                raw.docs_url,
                raw.user_agreement_url,
                raw.privacy_url,
            ),
            or_else(
                platega_problem(
                    raw.platega_base_url,
                    raw.platega_merchant_id,
                    raw.platega_api_key,
                    raw.platega_webhook_bind,
                    bind_parses,
                    raw.platega_callback_url,
                    raw.platega_return_url,
                    raw.platega_failed_url,
                ),
                or_else(
                    required_problem(TELOXIDE_TOKEN, raw.telegram_token),
                    or_else(
                        required_problem(REMNAWAVE_URL, raw.remnawave_url),
                        or_else(
                            required_problem(REMNAWAVE_TOKEN, raw.remnawave_token),
                            required_problem(DATABASE_URL, raw.database_url),
                        ),
                    ),
                ),
            ),
        ),
    )
}

pub open spec fn config_is(c: Config, raw: RawConfig) -> bool {
    &&& c.telegram_token == raw.telegram_token->0
    &&& c.remnawave_url == raw.remnawave_url->0
    &&& c.remnawave_token == raw.remnawave_token->0
    &&& c.database_url == raw.database_url->0
    &&& trial_is(c.trial, raw.trial_days, raw.trial_traffic_gib, raw.trial_hwid_limit, raw.trial_internal_squad_name)
    &&& service_is(
        c.service,
        raw.support_telegram_url,
        raw.support_email,
        raw.phone,
        raw.contact_address,
        raw.docs_url,
        raw.user_agreement_url,
        raw.privacy_url,
    )
    &&& platega_is(
        c.platega,
        raw.platega_base_url,
        raw.platega_merchant_id,
        raw.platega_api_key,
        raw.platega_webhook_bind,
        raw.platega_callback_url,
        raw.platega_return_url,
        raw.platega_failed_url,
    )
}

fn trial_config(
    days: Option<String>,
    traffic_gib: Option<String>,
    hwid_limit: Option<String>,
    squad: Option<String>,
) -> (r: Result<TrialConfig, ConfigError>)
    ensures
        match trial_problem(days, traffic_gib, hwid_limit, squad) {
            Some(e) => r == Err::<TrialConfig, ConfigError>(e),
            None => r matches Ok(t) && trial_is(t, days, traffic_gib, hwid_limit, squad),
        },
{
    let trial = TrialConfig {
        days: required_i64(TRIAL_DAYS, days)?,
        traffic_gib: required_u64(TRIAL_TRAFFIC_GIB, traffic_gib)?,
        hwid_limit: required_u32(TRIAL_HWID_LIMIT, hwid_limit)?,
        internal_squad_name: required(TRIAL_INTERNAL_SQUAD_NAME, squad)?,
    };
    check_trial(&trial)?;
    Ok(trial)
}

fn service_config(
    telegram_url: Option<String>,
    email: Option<String>,
    phone: Option<String>,
    address: Option<String>,
    docs_url: Option<String>,
    agreement_url: Option<String>,
    privacy_url: Option<String>,
) -> (r: Result<ServiceConfig, ConfigError>)
    ensures
        match service_problem(telegram_url, email, docs_url, agreement_url, privacy_url) {
            Some(e) => r == Err::<ServiceConfig, ConfigError>(e),
            None => r matches Ok(s) && service_is(
                s,
                telegram_url,
                email,
                phone,
                address,
                docs_url,
                agreement_url,
                privacy_url,
            ),
        },
{
    Ok(ServiceConfig {
        support_telegram_url: required_url(SERVICE_SUPPORT_TELEGRAM_URL, telegram_url)?,
        support_email: required(SERVICE_SUPPORT_EMAIL, email)?,
        phone: optional(phone),
        contact_address: optional(address),
        docs_url: required_url(SERVICE_DOCS_URL, docs_url)?,
        user_agreement_url: required_url(SERVICE_USER_AGREEMENT_URL, agreement_url)?,
        privacy_url: required_url(SERVICE_PRIVACY_URL, privacy_url)?,
    })
}

fn platega_config(
    base_url: Option<String>,
    merchant_id: Option<String>,
    api_key: Option<String>,
    webhook_bind: Option<String>,
    bind_parses: bool,
    callback_url: Option<String>,
    return_url: Option<String>,
    failed_url: Option<String>,
) -> (r: Result<PlategaConfig, ConfigError>)
    ensures
        match platega_problem(
            base_url,
            merchant_id,
            api_key,
            webhook_bind,
            bind_parses,
            callback_url,
            return_url,
            failed_url,
        ) {
            Some(e) => r == Err::<PlategaConfig, ConfigError>(e),
            None => r matches Ok(p) && platega_is(
                p,
                base_url,
                merchant_id,
                api_key,
                webhook_bind,
                callback_url,
                return_url,
                failed_url,
            ),
        },
{
    let base_url = required_url(PLATEGA_BASE_URL, base_url)?;
    let merchant_id = optional(merchant_id);
    let api_key = optional(api_key);
    let webhook_bind = required(PLATEGA_WEBHOOK_BIND, webhook_bind)?;
    if !bind_parses {
        return Err(ConfigError::InvalidVariable(PLATEGA_WEBHOOK_BIND));
    }
    let platega = PlategaConfig {
        base_url,
        merchant_id,
        api_key,
        webhook_bind,
        callback_url: required_url(PLATEGA_CALLBACK_URL, callback_url)?,
        return_url: required_url(PLATEGA_RETURN_URL, return_url)?,
        failed_url: required_url(PLATEGA_FAILED_URL, failed_url)?,
    };
    check_platega_credentials(&platega)?;
    Ok(platega)
}

/// The configuration from the values of its variables, checked in the order
/// the variables are read: the first problem found is the error.
/// `bind_parses` tells whether `PLATEGA_WEBHOOK_BIND` holds a socket address
/// (`ip:port`).
pub fn config_from_values(raw: RawConfig, bind_parses: bool) -> (r: Result<Config, ConfigError>)
    ensures
        match config_problem(raw, bind_parses) {
            Some(e) => r == Err::<Config, ConfigError>(e),
            None => r matches Ok(c) && config_is(c, raw),
        },
{
    let trial = trial_config(
        raw.trial_days,
        raw.trial_traffic_gib,
        raw.trial_hwid_limit,
        raw.trial_internal_squad_name,
    )?;
    let service = service_config(
        raw.support_telegram_url,
        raw.support_email,
        raw.phone,
        raw.contact_address,
        raw.docs_url,
        raw.user_agreement_url,
        raw.privacy_url,
    )?;
    let platega = platega_config(
        raw.platega_base_url,
        raw.platega_merchant_id,
        raw.platega_api_key,
        raw.platega_webhook_bind,
        bind_parses,
        raw.platega_callback_url,
        raw.platega_return_url,
        raw.platega_failed_url,
    )?;
    Ok(Config {
        telegram_token: required(TELOXIDE_TOKEN, raw.telegram_token)?,
        remnawave_url: required(REMNAWAVE_URL, raw.remnawave_url)?,
        remnawave_token: required(REMNAWAVE_TOKEN, raw.remnawave_token)?,
        database_url: required(DATABASE_URL, raw.database_url)?,
        trial,
        service,
        platega,
    })
}

} // verus!
