use vstd::prelude::*;

verus! {

/// A user of the Remnawave panel, as the panel describes it.
#[derive(Debug, Clone)]
pub struct RemnawaveUser {
    pub id: i64,
    pub username: String,
    pub status: String,
    pub traffic_limit_bytes: u64,
    pub expire_at: String,
    pub telegram_id: Option<u64>,
    pub hwid_device_limit: Option<u32>,
    pub subscription_url: String,
    pub tag: Option<String>,
    pub user_traffic: UserTraffic,
}

#[derive(Debug, Clone)]
pub struct UserTraffic {
    pub used_traffic_bytes: u64,
    pub lifetime_used_traffic_bytes: u64,
    pub online_at: Option<String>,
    pub first_connected_at: Option<String>,
}

#[derive(Debug, Clone)]
pub struct InternalSquad {
    pub uuid: String,
    pub name: String,
}

/// One device (HWID) bound to a user of the panel.
#[derive(Debug, Clone)]
pub struct HwidDevice {
    pub user_id: i64,
    pub hwid: String,
    pub platform: Option<String>,
    pub os_version: Option<String>,
    pub device_model: Option<String>,
    pub user_agent: Option<String>,
    pub created_at: String,
    pub updated_at: String,
}

/// The devices of a user and the count the panel reports for them.
#[derive(Debug, Clone)]
pub struct HwidDevices {
    pub total: usize,
    pub devices: Vec<HwidDevice>,
}

/// The body of the request that creates a user.
#[derive(Debug, Clone)]
pub struct CreateUserRequest {
    pub username: String,
    pub status: String,
    pub traffic_limit_bytes: u64,
    pub traffic_limit_strategy: String,
    pub expire_at: String,
    pub description: String,
    pub tag: String,
    pub telegram_id: u64,
    pub hwid_device_limit: u32,
    pub active_internal_squads: Vec<String>,
}

/// The body of the request that updates a user.
#[derive(Debug, Clone)]
pub struct UpdateUserRequest {
    pub id: i64,
    pub status: String,
    pub traffic_limit_bytes: u64,
    pub traffic_limit_strategy: String,
    pub expire_at: String,
    pub description: String,
    pub tag: String,
    pub telegram_id: u64,
    pub hwid_device_limit: u32,
    pub active_internal_squads: Vec<String>,
}

/// A failed call of the panel's API: the transport failed (`Http`, with its
/// message), the users API answered with a status other than success
/// (`Api`), or the devices API did (`DeviceApi`).
#[derive(Debug)]
pub enum RemnawaveError {
    Http(String),
    Api { status: u16, body: String },
    DeviceApi { status: u16, body: String },
}

} // verus!

verus! {

/// `u` carries the tag `tag`.
pub open spec fn has_tag(u: RemnawaveUser, tag: Seq<char>) -> bool {
    match u.tag {
        Some(t) => t@ == tag,
        None => false,
    }
}

/// The index of the first user of `users` at or after `i` tagged `tag`.
pub open spec fn first_tagged_from(users: Seq<RemnawaveUser>, tag: Seq<char>, i: int) -> Option<int>
    decreases users.len() - i,
{
    if i < 0 || i >= users.len() {
        None
    } else if has_tag(users[i], tag) {
        Some(i)
    } else {
        first_tagged_from(users, tag, i + 1)
    }
}

/// The index of the first user of `users` tagged `tag`.
pub open spec fn first_tagged(users: Seq<RemnawaveUser>, tag: Seq<char>) -> Option<int> {
    first_tagged_from(users, tag, 0)
}

pub proof fn lemma_first_tagged_from(users: Seq<RemnawaveUser>, tag: Seq<char>, i: int)
    requires
        0 <= i,
    ensures
        first_tagged_from(users, tag, i) matches Some(k) ==> i <= k < users.len() && has_tag(
            users[k],
            tag,
        ),
    decreases users.len() - i,
{
    if i < users.len() && !has_tag(users[i], tag) {
        lemma_first_tagged_from(users, tag, i + 1);
    }
}

/// The index of the first user tagged `tag`.
pub fn find_tagged(users: &Vec<RemnawaveUser>, tag: &str) -> (r: Option<usize>)
    ensures
        match r {
            Some(k) => first_tagged(users@, tag@) == Some(k as int),
            None => first_tagged(users@, tag@) is None,
        },
        r matches Some(k) ==> k < users@.len() && has_tag(users@[k as int], tag@),
{
    let mut i: usize = 0;
    while i < users.len()
        invariant
            i <= users.len(),
            first_tagged(users@, tag@) == first_tagged_from(users@, tag@, i as int),
        decreases users.len() - i,
    {
        let tagged = match &users[i].tag {
            Some(t) => crate::text::str_eq(t.as_str(), tag),
            None => false,
        };
        if tagged {
            return Some(i);
        }
        i = i + 1;
    }
    None
}

} // verus!

verus! {

/// `url` without the slashes at its end.
pub open spec fn without_trailing_slashes(url: Seq<char>) -> Seq<char>
    decreases url.len(),
{
    if url.len() > 0 && url.last() == '/' {
        without_trailing_slashes(url.drop_last())
    } else {
        url
    }
}

/// The base URL of the panel as requests are built from it: with no slash
/// at its end (`str::trim_end_matches('/')`).
pub fn panel_base_url(url: &str) -> (r: String)
    ensures
        r@ == without_trailing_slashes(url@),
{
    let cs = crate::text::chars_of(url);
    let mut end = cs.len();
    assert(cs@.take(end as int) =~= cs@);
    while end > 0 && cs[end - 1] == '/'
        invariant
            end <= cs@.len(),
            cs@ == url@,
            without_trailing_slashes(url@) == without_trailing_slashes(cs@.take(end as int)),
        decreases end,
    {
        assert(cs@.take(end as int).drop_last() =~= cs@.take(end - 1));
        end = end - 1;
    }
    let mut r = String::new();
    let mut i: usize = 0;
    while i < end
        invariant
            i <= end <= cs@.len(),
            r@ == cs@.take(i as int),
        decreases end - i,
    {
        crate::text::push_char(&mut r, cs[i]);
        assert(cs@.take(i + 1) =~= cs@.take(i as int).push(cs@[i as int]));
        i = i + 1;
    }
    r
}

} // verus!

verus! {

/// The index of the first squad of `squads` at or after `i` named `name`.
pub open spec fn first_named_from(squads: Seq<InternalSquad>, name: Seq<char>, i: int) -> Option<int>
    decreases squads.len() - i,
{
    if i < 0 || i >= squads.len() {
        None
    } else if squads[i].name@ == name {
        Some(i)
    } else {
        first_named_from(squads, name, i + 1)
    }
}

/// The internal squad named `name` among those the panel listed: the first
/// with that name.
pub fn find_squad(squads: Vec<InternalSquad>, name: &str) -> (r: Option<InternalSquad>)
    ensures
        match first_named_from(squads@, name@, 0) {
            Some(k) => r == Some(squads@[k]),
            None => r is None,
        },
{
    let mut i: usize = 0;
    while i < squads.len()
        invariant
            i <= squads.len(),
            first_named_from(squads@, name@, 0) == first_named_from(squads@, name@, i as int),
        decreases squads.len() - i,
    {
        if crate::text::str_eq(squads[i].name.as_str(), name) {
            let mut squads = squads;
            return Some(squads.swap_remove(i));
        }
        i = i + 1;
    }
    None
}

} // verus!
