use vstd::prelude::*;
use sha2::Digest;
use vstd::utf8::encode_utf8;

use crate::remnawave::{HwidDevice, HwidDevices, RemnawaveError, RemnawaveUser};
use crate::text::{byte_hex, hex, push_hex};

verus! {

/// The devices of a subscription, in display order, and its device limit.
#[derive(Debug, Clone)]
pub struct DeviceList {
    pub limit: Option<u32>,
    pub devices: Vec<HwidDevice>,
}

/// Why a device operation failed.
#[derive(Debug)]
pub enum DeviceError {
    Timeout,
    Remnawave(RemnawaveError),
    SubscriptionNotFound,
    MultipleSubscriptions,
    OwnershipMismatch,
    IncompleteDeviceList,
    DeviceNotFound,
    DeletionNotApplied,
}

// ---------------------------------------------------------------------------
// Token of a device
// ---------------------------------------------------------------------------

/// The SHA-256 digest of `data`.
pub uninterp spec fn sha256(data: Seq<u8>) -> Seq<u8>;

/// Trusted: calls `sha2::Sha256::digest`, which hashes `data` with SHA-256.
/// The digest is named by `sha256`; that it has 32 bytes is the length of
/// the output type of `Sha256`.
#[verifier::external_body]
fn sha256_digest(data: &[u8]) -> (r: Vec<u8>)
    ensures
        r@ == sha256(data@),
        r@.len() == 32,
{
    sha2::Sha256::digest(data).to_vec()
}

/// The eight big-endian bytes of `u` (`u64::to_be_bytes`).
pub open spec fn be_bytes(u: u64) -> Seq<u8> {
    seq![
        (u >> 56u64) as u8,
        (u >> 48u64) as u8,
        (u >> 40u64) as u8,
        (u >> 32u64) as u8,
        (u >> 24u64) as u8,
        (u >> 16u64) as u8,
        (u >> 8u64) as u8,
        u as u8,
    ]
}

/// The bytes that identify a device: its owner, the length of its HWID,
/// its HWID and the time it was added, so that a device removed and added
/// again gets another token.
pub open spec fn token_input(d: HwidDevice) -> Seq<u8> {
    be_bytes(d.user_id as u64) + be_bytes(encode_utf8(d.hwid@).len() as u64) + encode_utf8(
        d.hwid@,
    ) + encode_utf8(d.created_at@)
}

/// The token of a device: the first sixteen bytes of the SHA-256 digest of
/// its identity, as thirty-two lower-case hexadecimal digits.
pub open spec fn token_of(d: HwidDevice) -> Seq<char> {
    hex(sha256(token_input(d)).take(16))
}

fn push_be_bytes(v: &mut Vec<u8>, u: u64)
    ensures
        final(v)@ == old(v)@ + be_bytes(u),
{
    v.push((u >> 56u64) as u8);
    v.push((u >> 48u64) as u8);
    v.push((u >> 40u64) as u8);
    v.push((u >> 32u64) as u8);
    v.push((u >> 24u64) as u8);
    v.push((u >> 16u64) as u8);
    v.push((u >> 8u64) as u8);
    v.push(u as u8);
    assert(final(v)@ =~= old(v)@ + be_bytes(u));
}

fn push_bytes(v: &mut Vec<u8>, bytes: &[u8])
    ensures
        final(v)@ == old(v)@ + bytes@,
{
    let mut i: usize = 0;
    while i < bytes.len()
        invariant
            i <= bytes.len(),
            v@ == old(v)@ + bytes@.take(i as int),
        decreases bytes.len() - i,
    {
        v.push(bytes[i]);
        assert(bytes@.take(i + 1) =~= bytes@.take(i as int).push(bytes@[i as int]));
        i = i + 1;
    }
    assert(bytes@.take(i as int) =~= bytes@);
}

/// A short, stable identifier of a device, safe to put in a button: it does
/// not change when the list is reordered, and differs for a device of
/// another owner or one added again.
pub fn device_token(device: &HwidDevice) -> (t: String)
    ensures
        t@ == token_of(*device),
        t@.len() == 32,
        vstd::utf8::is_ascii_chars(t@),
        token_well_formed(encode_utf8(t@)),
{
    let hwid = device.hwid.as_str().as_bytes();
    let created = device.created_at.as_str().as_bytes();
    let mut input: Vec<u8> = Vec::new();
    push_be_bytes(&mut input, device.user_id as u64);
    push_be_bytes(&mut input, hwid.len() as u64);
    push_bytes(&mut input, hwid);
    push_bytes(&mut input, created);
    let digest = sha256_digest(input.as_slice());
    let mut first: Vec<u8> = Vec::new();
    let mut i: usize = 0;
    while i < 16
        invariant
            i <= 16,
            digest@.len() == 32,
            first@ == digest@.take(i as int),
        decreases 16 - i,
    {
        first.push(digest[i]);
        assert(digest@.take(i + 1) =~= digest@.take(i as int).push(digest@[i as int]));
        i = i + 1;
    }
    let mut t = String::new();
    push_hex(&mut t, first.as_slice());
    proof {
        assert(input@ =~= token_input(*device));
        crate::text::lemma_hex_len(first@);
        assert(t@ =~= token_of(*device));
        crate::text::lemma_hex_chars(first@);
        assert(vstd::utf8::is_ascii_chars(t@));
        vstd::utf8::is_ascii_chars_encode_utf8(t@);
        let bytes = encode_utf8(t@);
        assert forall|i: int| 0 <= i < bytes.len() implies {
            let b = #[trigger] bytes[i];
            (0x30 <= b <= 0x39) || (0x61 <= b <= 0x66) || (0x41 <= b <= 0x46)
        } by {
            assert(crate::text::is_lower_hex(t@[i]));
            assert(t@[i] as u8 == bytes[i]);
        }
    }
    t
}

/// A token has thirty-two bytes, each an ASCII hexadecimal digit.
pub open spec fn token_well_formed(bytes: Seq<u8>) -> bool {
    &&& bytes.len() == 32
    &&& forall|i: int|
        0 <= i < bytes.len() ==> {
            let b = #[trigger] bytes[i];
            (0x30 <= b <= 0x39) || (0x61 <= b <= 0x66) || (0x41 <= b <= 0x46)
        }
}

/// Accepts only what could be a token, so that a forged button is turned
/// away before the panel is asked anything.
pub fn validate_token(token: &str) -> (r: Result<(), DeviceError>)
    ensures
        r is Ok <==> token_well_formed(encode_utf8(token@)),
        r matches Err(e) ==> e is DeviceNotFound,
{
    let bytes = token.as_bytes();
    if bytes.len() != 32 {
        return Err(DeviceError::DeviceNotFound);
    }
    let mut i: usize = 0;
    while i < bytes.len()
        invariant
            bytes@ == encode_utf8(token@),
            bytes@.len() == 32,
            i <= bytes.len(),
            forall|j: int|
                0 <= j < i ==> {
                    let b = #[trigger] bytes@[j];
                    (0x30 <= b <= 0x39) || (0x61 <= b <= 0x66) || (0x41 <= b <= 0x46)
                },
        decreases bytes.len() - i,
    {
        let b = bytes[i];
        if !((0x30 <= b && b <= 0x39) || (0x61 <= b && b <= 0x66) || (0x41 <= b && b <= 0x46)) {
            return Err(DeviceError::DeviceNotFound);
        }
        i = i + 1;
    }
    Ok(())
}

// ---------------------------------------------------------------------------
// Finding a device by its token
// ---------------------------------------------------------------------------

/// The device of `s` with token `token`, if exactly one has it.
pub open spec fn device_with_token(s: Seq<HwidDevice>, token: Seq<char>) -> Option<HwidDevice> {
    if exists|i: int| 0 <= i < s.len() && token_of(#[trigger] s[i]) == token && (forall|j: int|
        0 <= j < s.len() && j != i ==> token_of(#[trigger] s[j]) != token) {
        let i = choose|i: int|
            0 <= i < s.len() && token_of(#[trigger] s[i]) == token && (forall|j: int|
                0 <= j < s.len() && j != i ==> token_of(#[trigger] s[j]) != token);
        Some(s[i])
    } else {
        None
    }
}

/// Where in `devices` the device with token `token` stands, when exactly
/// one has it.
fn token_position(devices: &Vec<HwidDevice>, token: &str) -> (r: Result<usize, DeviceError>)
    ensures
        match device_with_token(devices@, token@) {
            Some(d) => r matches Ok(k) && k < devices@.len() && devices@[k as int] == d,
            None => r matches Err(e) && e is DeviceNotFound,
        },
{
    let mut found: Option<usize> = None;
    let mut i: usize = 0;
    while i < devices.len()
        invariant
            i <= devices.len(),
            match found {
                Some(k) => k < i && token_of(devices@[k as int]) == token@ && forall|j: int|
                    0 <= j < i && j != k ==> token_of(#[trigger] devices@[j]) != token@,
                None => forall|j: int| 0 <= j < i ==> token_of(#[trigger] devices@[j]) != token@,
            },
        decreases devices.len() - i,
    {
        let t = device_token(&devices[i]);
        if crate::text::str_eq(t.as_str(), token) {
            match found {
                Some(k) => {
                    proof {
                        assert forall|x: int|
                            0 <= x < devices@.len() && token_of(#[trigger] devices@[x])
                                == token@ implies !(forall|j: int|
                            0 <= j < devices@.len() && j != x ==> token_of(#[trigger] devices@[j])
                                != token@) by {
                            if x != k as int {
                                assert(token_of(devices@[k as int]) == token@);
                            } else {
                                assert(token_of(devices@[i as int]) == token@);
                            }
                        }
                    }
                    return Err(DeviceError::DeviceNotFound);
                },
                None => {
                    found = Some(i);
                },
            }
        }
        i = i + 1;
    }
    match found {
        Some(k) => {
            proof {
                let p = |x: int|
                    0 <= x < devices@.len() && token_of(devices@[x]) == token@ && (forall|j: int|
                        0 <= j < devices@.len() && j != x ==> token_of(#[trigger] devices@[j])
                            != token@);
                assert(p(k as int));
                let c = choose|x: int|
                    0 <= x < devices@.len() && token_of(#[trigger] devices@[x]) == token@
                        && (forall|j: int|
                        0 <= j < devices@.len() && j != x ==> token_of(#[trigger] devices@[j])
                            != token@);
                if c != k as int {
                    assert(token_of(devices@[c]) == token@);
                }
                assert(c == k as int);
            }
            Ok(k)
        },
        None => Err(DeviceError::DeviceNotFound),
    }
}

/// The device of the list whose token is `token`; a token that matches no
/// device, or more than one, is refused.
pub fn find_device<'a>(list: &'a DeviceList, token: &str) -> (r: Result<&'a HwidDevice, DeviceError>)
    ensures
        match device_with_token(list.devices@, token@) {
            Some(d) => r matches Ok(x) && *x == d,
            None => r matches Err(e) && e is DeviceNotFound,
        },
{
    match token_position(&list.devices, token) {
        Ok(k) => Ok(&list.devices[k]),
        Err(e) => Err(e),
    }
}

} // verus!

verus! {

// ---------------------------------------------------------------------------
// The subscription of a Telegram user
// ---------------------------------------------------------------------------

/// `u` is a user of the panel bound to `telegram_id`, with a real ID.
pub open spec fn owned_by(u: RemnawaveUser, telegram_id: u64) -> bool {
    u.telegram_id == Some(telegram_id) && u.id > 0
}

/// The subscription that the panel returned for `telegram_id`: refused if
/// any user returned belongs to someone else or has no real ID; then there
/// must be exactly one.
pub open spec fn owned_selection(users: Seq<RemnawaveUser>, telegram_id: u64) -> Result<RemnawaveUser, DeviceError> {
    if !(forall|i: int| 0 <= i < users.len() ==> owned_by(#[trigger] users[i], telegram_id)) {
        Err(DeviceError::OwnershipMismatch)
    } else if users.len() == 0 {
        Err(DeviceError::SubscriptionNotFound)
    } else if users.len() == 1 {
        Ok(users[0])
    } else {
        Err(DeviceError::MultipleSubscriptions)
    }
}

pub fn select_owned_user(users: Vec<RemnawaveUser>, telegram_id: u64) -> (r: Result<RemnawaveUser, DeviceError>)
    ensures
        r == owned_selection(users@, telegram_id),
{
    let mut i: usize = 0;
    while i < users.len()
        invariant
            i <= users.len(),
            forall|j: int| 0 <= j < i ==> owned_by(#[trigger] users@[j], telegram_id),
        decreases users.len() - i,
    {
        let u = &users[i];
        let owned = match u.telegram_id {
            Some(t) => t == telegram_id && u.id > 0,
            None => false,
        };
        if !owned {
            assert(!owned_by(users@[i as int], telegram_id));
            return Err(DeviceError::OwnershipMismatch);
        }
        i = i + 1;
    }
    if users.len() == 0 {
        Err(DeviceError::SubscriptionNotFound)
    } else if users.len() == 1 {
        let mut users = users;
        Ok(users.remove(0))
    } else {
        Err(DeviceError::MultipleSubscriptions)
    }
}

// ---------------------------------------------------------------------------
// Order of the device list
// ---------------------------------------------------------------------------

/// `a` comes before `b` byte by byte, as `String`'s ordering compares.
pub open spec fn bytes_lt(a: Seq<u8>, b: Seq<u8>) -> bool
    decreases a.len(),
{
    if a.len() == 0 {
        b.len() > 0
    } else if b.len() == 0 {
        false
    } else if a[0] != b[0] {
        a[0] < b[0]
    } else {
        bytes_lt(a.drop_first(), b.drop_first())
    }
}

/// `a` comes strictly before `b`: added earlier, or at the same time with a
/// smaller HWID.
pub open spec fn device_lt(a: HwidDevice, b: HwidDevice) -> bool {
    let ac = encode_utf8(a.created_at@);
    let bc = encode_utf8(b.created_at@);
    bytes_lt(ac, bc) || (ac == bc && bytes_lt(encode_utf8(a.hwid@), encode_utf8(b.hwid@)))
}

/// `r` with `x` placed after every device that comes before it.
pub open spec fn insert_device(r: Seq<HwidDevice>, x: HwidDevice) -> Seq<HwidDevice>
    decreases r.len(),
{
    if r.len() == 0 {
        seq![x]
    } else if device_lt(r[0], x) {
        seq![r[0]] + insert_device(r.drop_first(), x)
    } else {
        seq![x] + r
    }
}

/// `s` ordered by time of addition, then HWID; equal devices keep their
/// order (the stable `sort_by`).
pub open spec fn sorted_devices(s: Seq<HwidDevice>) -> Seq<HwidDevice>
    decreases s.len(),
{
    if s.len() == 0 {
        s
    } else {
        insert_device(sorted_devices(s.drop_first()), s[0])
    }
}

/// -1, 0 or 1 as `a` is before, equal to or after `b`, byte by byte.
fn compare_bytes(a: &[u8], b: &[u8]) -> (r: i8)
    ensures
        (r < 0) == bytes_lt(a@, b@),
        (r == 0) == (a@ == b@),
        (r > 0) == bytes_lt(b@, a@),
{
    let mut i: usize = 0;
    assert(a@.skip(0) =~= a@);
    assert(b@.skip(0) =~= b@);
    while i < a.len() && i < b.len() && a[i] == b[i]
        invariant
            i <= a.len(),
            i <= b.len(),
            a@.take(i as int) == b@.take(i as int),
            bytes_lt(a@, b@) == bytes_lt(a@.skip(i as int), b@.skip(i as int)),
            bytes_lt(b@, a@) == bytes_lt(b@.skip(i as int), a@.skip(i as int)),
        decreases a.len() - i,
    {
        assert(a@.skip(i as int).drop_first() =~= a@.skip(i + 1));
        assert(b@.skip(i as int).drop_first() =~= b@.skip(i + 1));
        assert(a@.take(i + 1) =~= a@.take(i as int).push(a@[i as int]));
        assert(b@.take(i + 1) =~= b@.take(i as int).push(b@[i as int]));
        i = i + 1;
    }
    if i == a.len() && i == b.len() {
        assert(a@ =~= a@.take(i as int));
        assert(b@ =~= b@.take(i as int));
        0
    } else if i == a.len() {
        assert(a@.skip(i as int).len() == 0);
        proof {
            if a@ == b@ {
                assert(a@.len() == b@.len());
            }
        }
        -1
    } else if i == b.len() {
        assert(b@.skip(i as int).len() == 0);
        proof {
            if a@ == b@ {
                assert(a@.len() == b@.len());
            }
        }
        1
    } else {
        assert(a@.skip(i as int)[0] == a@[i as int]);
        assert(b@.skip(i as int)[0] == b@[i as int]);
        proof {
            if a@ == b@ {
                assert(a@[i as int] == b@[i as int]);
            }
        }
        if a[i] < b[i] {
            -1
        } else {
            1
        }
    }
}

fn device_before(a: &HwidDevice, b: &HwidDevice) -> (r: bool)
    ensures
        r == device_lt(*a, *b),
{
    let c = compare_bytes(a.created_at.as_str().as_bytes(), b.created_at.as_str().as_bytes());
    if c < 0 {
        true
    } else if c > 0 {
        false
    } else {
        compare_bytes(a.hwid.as_str().as_bytes(), b.hwid.as_str().as_bytes()) < 0
    }
}

fn insert_sorted_device(r: &mut Vec<HwidDevice>, x: HwidDevice)
    ensures
        final(r)@ == insert_device(old(r)@, x),
{
    let mut p: usize = 0;
    assert(r@.skip(0) =~= r@);
    assert(r@.take(0) + insert_device(r@, x) =~= insert_device(r@, x));
    while p < r.len() && device_before(&r[p], &x)
        invariant
            p <= r.len(),
            r@ == old(r)@,
            insert_device(r@, x) == r@.take(p as int) + insert_device(r@.skip(p as int), x),
        decreases r.len() - p,
    {
        let ghost rest = r@.skip(p as int);
        assert(rest.drop_first() =~= r@.skip(p + 1));
        assert(r@.take(p + 1) =~= r@.take(p as int) + seq![rest[0]]);
        p = p + 1;
    }
    let ghost before = r@;
    r.insert(p, x);
    assert(r@ =~= before.take(p as int) + insert_device(before.skip(p as int), x));
}

fn sort_devices(devices: Vec<HwidDevice>) -> (r: Vec<HwidDevice>)
    ensures
        r@ == sorted_devices(devices@),
{
    let mut rest = devices;
    let mut sorted: Vec<HwidDevice> = Vec::new();
    while rest.len() > 0
        invariant
            sorted@ == sorted_devices(devices@.skip(rest@.len() as int)),
            rest@ == devices@.take(rest@.len() as int),
            rest@.len() <= devices@.len(),
        decreases rest.len(),
    {
        let ghost k = rest@.len() as int;
        let x = rest.pop().unwrap();
        assert(devices@.skip(k - 1).drop_first() =~= devices@.skip(k));
        assert(devices@.skip(k - 1)[0] == x);
        insert_sorted_device(&mut sorted, x);
        assert(rest@ =~= devices@.take(k - 1));
    }
    assert(devices@.skip(0) =~= devices@);
    sorted
}

/// The devices the panel returned for `user`, checked and ordered: refused
/// if any belongs to another user, or if the panel reports more or fewer
/// devices than it sent.
pub open spec fn list_refusal(user: RemnawaveUser, devices: HwidDevices) -> Option<DeviceError> {
    if !(forall|i: int| 0 <= i < devices.devices@.len() ==> (#[trigger] devices.devices@[i]).user_id
        == user.id) {
        Some(DeviceError::OwnershipMismatch)
    } else if devices.total != devices.devices@.len() {
        Some(DeviceError::IncompleteDeviceList)
    } else {
        None
    }
}

/// `l` is the list of `devices` for `user`: the user's device limit and the
/// devices in order of addition, then HWID.
pub open spec fn list_is(l: DeviceList, user: RemnawaveUser, devices: HwidDevices) -> bool {
    l.limit == user.hwid_device_limit && l.devices@ == sorted_devices(devices.devices@)
}

pub fn device_list(user: &RemnawaveUser, devices: HwidDevices) -> (r: Result<DeviceList, DeviceError>)
    ensures
        match list_refusal(*user, devices) {
            Some(e) => r == Err::<DeviceList, DeviceError>(e),
            None => r matches Ok(l) && list_is(l, *user, devices),
        },
{
    let mut i: usize = 0;
    while i < devices.devices.len()
        invariant
            i <= devices.devices@.len(),
            forall|j: int| 0 <= j < i ==> (#[trigger] devices.devices@[j]).user_id == user.id,
        decreases devices.devices@.len() - i,
    {
        if devices.devices[i].user_id != user.id {
            return Err(DeviceError::OwnershipMismatch);
        }
        i = i + 1;
    }
    if devices.total != devices.devices.len() {
        return Err(DeviceError::IncompleteDeviceList);
    }
    let sorted = sort_devices(devices.devices);
    Ok(DeviceList { limit: user.hwid_device_limit, devices: sorted })
}

/// After a deletion the panel's new list must no longer hold the device;
/// if it does, the deletion is reported as not applied.
pub fn confirm_deleted(remaining: DeviceList, token: &str) -> (r: Result<DeviceList, DeviceError>)
    ensures
        (exists|i: int| 0 <= i < remaining.devices@.len() && token_of(#[trigger] remaining.devices@[i]) == token@)
            ==> (r matches Err(e) && e is DeletionNotApplied),
        !(exists|i: int| 0 <= i < remaining.devices@.len() && token_of(#[trigger] remaining.devices@[i]) == token@)
            ==> (r matches Ok(l) && l.limit == remaining.limit && l.devices@ == remaining.devices@),
{
    let mut i: usize = 0;
    while i < remaining.devices.len()
        invariant
            i <= remaining.devices@.len(),
            forall|j: int| 0 <= j < i ==> token_of(#[trigger] remaining.devices@[j]) != token@,
        decreases remaining.devices@.len() - i,
    {
        let t = device_token(&remaining.devices[i]);
        if crate::text::str_eq(t.as_str(), token) {
            return Err(DeviceError::DeletionNotApplied);
        }
        i = i + 1;
    }
    Ok(remaining)
}

} // verus!

verus! {


proof fn lemma_bytes_lt_irreflexive(a: Seq<u8>)
    ensures
        !bytes_lt(a, a),
    decreases a.len(),
{
    if a.len() > 0 {
        lemma_bytes_lt_irreflexive(a.drop_first());
    }
}

proof fn lemma_bytes_lt_asymmetric(a: Seq<u8>, b: Seq<u8>)
    ensures
        bytes_lt(a, b) ==> !bytes_lt(b, a),
    decreases a.len(),
{
    if a.len() > 0 && b.len() > 0 && a[0] == b[0] {
        lemma_bytes_lt_asymmetric(a.drop_first(), b.drop_first());
    }
}

proof fn lemma_bytes_lt_transitive(a: Seq<u8>, b: Seq<u8>, c: Seq<u8>)
    ensures
        bytes_lt(a, b) && bytes_lt(b, c) ==> bytes_lt(a, c),
    decreases a.len(),
{
    if a.len() > 0 && b.len() > 0 && c.len() > 0 {
        lemma_bytes_lt_transitive(a.drop_first(), b.drop_first(), c.drop_first());
    }
}

proof fn lemma_bytes_lt_total(a: Seq<u8>, b: Seq<u8>)
    ensures
        a == b || bytes_lt(a, b) || bytes_lt(b, a),
    decreases a.len(),
{
    if a.len() > 0 && b.len() > 0 && a[0] == b[0] {
        lemma_bytes_lt_total(a.drop_first(), b.drop_first());
        if a.drop_first() == b.drop_first() {
            assert(a =~= seq![a[0]] + a.drop_first());
            assert(b =~= seq![b[0]] + b.drop_first());
        }
    } else if a.len() == 0 && b.len() == 0 {
        assert(a =~= b);
    }
}

/// `device_lt` orders devices strictly: never both ways, and "not before"
/// is transitive.
proof fn lemma_device_order(a: HwidDevice, b: HwidDevice, c: HwidDevice)
    ensures
        device_lt(a, b) ==> !device_lt(b, a),
        !device_lt(c, b) && !device_lt(b, a) ==> !device_lt(c, a),
{
    let (ac, bc, cc) = (encode_utf8(a.created_at@), encode_utf8(b.created_at@), encode_utf8(c.created_at@));
    let (ah, bh, ch) = (encode_utf8(a.hwid@), encode_utf8(b.hwid@), encode_utf8(c.hwid@));
    lemma_bytes_lt_asymmetric(ac, bc);
    lemma_bytes_lt_asymmetric(ah, bh);
    lemma_bytes_lt_irreflexive(ac);
    lemma_bytes_lt_irreflexive(bc);
    lemma_bytes_lt_irreflexive(ah);
    lemma_bytes_lt_irreflexive(bh);
    lemma_bytes_lt_total(cc, bc);
    lemma_bytes_lt_total(bc, ac);
    lemma_bytes_lt_total(ch, bh);
    lemma_bytes_lt_total(bh, ah);
    lemma_bytes_lt_transitive(ac, bc, cc);
    lemma_bytes_lt_transitive(ah, bh, ch);
    lemma_bytes_lt_asymmetric(cc, ac);
    lemma_bytes_lt_asymmetric(ch, ah);
    lemma_bytes_lt_asymmetric(ac, cc);
    lemma_bytes_lt_asymmetric(ah, ch);
    lemma_bytes_lt_irreflexive(ch);
    lemma_bytes_lt_irreflexive(cc);
}

/// No device of `s` comes before one ahead of it.
pub open spec fn in_device_order(s: Seq<HwidDevice>) -> bool {
    forall|i: int, j: int| 0 <= i < j < s.len() ==> !device_lt(#[trigger] s[j], #[trigger] s[i])
}

proof fn lemma_insert_device_in_order(r: Seq<HwidDevice>, x: HwidDevice)
    requires
        in_device_order(r),
    ensures
        in_device_order(insert_device(r, x)),
        insert_device(r, x).len() == r.len() + 1,
        insert_device(r, x).to_multiset() =~= r.to_multiset().insert(x),
    decreases r.len(),
{
    broadcast use vstd::seq_lib::group_to_multiset_ensures;
    if r.len() == 0 {
        assert(insert_device(r, x) =~= seq![x]);
        assert(seq![x] =~= Seq::<HwidDevice>::empty().push(x));
    } else if device_lt(r[0], x) {
        let rest = r.drop_first();
        assert(in_device_order(rest)) by {
            assert forall|i: int, j: int| 0 <= i < j < rest.len() implies !device_lt(
                #[trigger] rest[j],
                #[trigger] rest[i],
            ) by {
                assert(rest[i] == r[i + 1] && rest[j] == r[j + 1]);
            }
        }
        lemma_insert_device_in_order(rest, x);
        let ins = insert_device(rest, x);
        let res = seq![r[0]] + ins;
        assert forall|i: int, j: int| 0 <= i < j < res.len() implies !device_lt(
            #[trigger] res[j],
            #[trigger] res[i],
        ) by {
            if i == 0 {
                lemma_device_order(r[0], x, x);
                assert(ins.contains(res[j]));
                assert(ins.to_multiset().count(res[j]) > 0);
                if res[j] == x {
                } else {
                    assert(rest.to_multiset().count(res[j]) > 0);
                    assert(rest.contains(res[j]));
                    let k = choose|k: int| 0 <= k < rest.len() && rest[k] == res[j];
                    assert(r[k + 1] == res[j]);
                }
            } else {
                assert(res[i] == ins[i - 1] && res[j] == ins[j - 1]);
            }
        }
        assert(r =~= seq![r[0]] + rest);
        vstd::seq_lib::lemma_multiset_commutative(seq![r[0]], ins);
        vstd::seq_lib::lemma_multiset_commutative(seq![r[0]], rest);
    } else {
        let res = seq![x] + r;
        assert forall|i: int, j: int| 0 <= i < j < res.len() implies !device_lt(
            #[trigger] res[j],
            #[trigger] res[i],
        ) by {
            if i == 0 {
                assert(res[j] == r[j - 1]);
                if j - 1 > 0 {
                    assert(!device_lt(r[j - 1], r[0]));
                }
                lemma_device_order(x, r[0], r[j - 1]);
            } else {
                assert(res[i] == r[i - 1] && res[j] == r[j - 1]);
            }
        }
        vstd::seq_lib::lemma_multiset_commutative(seq![x], r);
    }
}

/// The device list is ordered and holds the devices it was given.
proof fn lemma_sorted_devices(s: Seq<HwidDevice>)
    ensures
        in_device_order(sorted_devices(s)),
        sorted_devices(s).to_multiset() =~= s.to_multiset(),
        sorted_devices(s).len() == s.len(),
    decreases s.len(),
{
    broadcast use vstd::seq_lib::group_to_multiset_ensures;
    if s.len() > 0 {
        lemma_sorted_devices(s.drop_first());
        lemma_insert_device_in_order(sorted_devices(s.drop_first()), s[0]);
        assert(s =~= seq![s[0]] + s.drop_first());
        vstd::seq_lib::lemma_multiset_commutative(seq![s[0]], s.drop_first());
    }
}


/// The device list holds exactly the devices the panel returned, in order
/// of addition then HWID; so when all of them belong to the user, all
/// listed ones do.
pub proof fn law_device_list_same_devices(s: Seq<HwidDevice>, user_id: i64)
    ensures
        sorted_devices(s).to_multiset() =~= s.to_multiset(),
        in_device_order(sorted_devices(s)),
        (forall|i: int| 0 <= i < s.len() ==> (#[trigger] s[i]).user_id == user_id) ==> forall|i: int|
            0 <= i < sorted_devices(s).len() ==> (#[trigger] sorted_devices(s)[i]).user_id == user_id,
{
    broadcast use vstd::seq_lib::group_to_multiset_ensures;
    lemma_sorted_devices(s);
    let t = sorted_devices(s);
    if forall|i: int| 0 <= i < s.len() ==> (#[trigger] s[i]).user_id == user_id {
        assert forall|i: int| 0 <= i < t.len() implies (#[trigger] t[i]).user_id == user_id by {
            assert(t.to_multiset().count(t[i]) > 0);
            assert(s.to_multiset().count(t[i]) > 0);
            assert(s.contains(t[i]));
        }
    }
}

} // verus!

verus! {

proof fn lemma_two_copies(s: Seq<HwidDevice>, i: int, k: int)
    requires
        0 <= i < s.len(),
        0 <= k < s.len(),
        i != k,
        s[i] == s[k],
    ensures
        s.to_multiset().count(s[i]) >= 2,
{
    broadcast use vstd::seq_lib::group_to_multiset_ensures;
    let r = s.remove(i);
    let m = if k < i { k } else { k - 1 };
    assert(r[m] == s[k]);
    assert(r.contains(s[i]));
    assert(r.to_multiset().count(s[i]) > 0);
}

proof fn lemma_second_copy(s: Seq<HwidDevice>, i: int) -> (k: int)
    requires
        0 <= i < s.len(),
        s.to_multiset().count(s[i]) >= 2,
    ensures
        0 <= k < s.len(),
        k != i,
        s[k] == s[i],
{
    broadcast use vstd::seq_lib::group_to_multiset_ensures;
    let r = s.remove(i);
    assert(r.to_multiset().count(s[i]) > 0);
    assert(r.contains(s[i]));
    let m = choose|m: int| 0 <= m < r.len() && r[m] == s[i];
    if m < i {
        m
    } else {
        m + 1
    }
}

proof fn lemma_unique_token_transfers(s1: Seq<HwidDevice>, s2: Seq<HwidDevice>, t: Seq<char>, i: int)
    requires
        s1.to_multiset() =~= s2.to_multiset(),
        0 <= i < s1.len(),
        token_of(s1[i]) == t,
        forall|j: int| 0 <= j < s1.len() && j != i ==> token_of(#[trigger] s1[j]) != t,
    ensures
        device_with_token(s2, t) == Some(s1[i]),
{
    broadcast use vstd::seq_lib::group_to_multiset_ensures;
    let d = s1[i];
    assert(s1.contains(d));
    assert(s2.to_multiset().count(d) > 0);
    assert(s2.contains(d));
    let j = choose|j: int| 0 <= j < s2.len() && s2[j] == d;
    assert forall|k: int| 0 <= k < s2.len() && k != j implies token_of(#[trigger] s2[k]) != t by {
        if token_of(s2[k]) == t {
            let e = s2[k];
            assert(s2.contains(e));
            assert(s1.to_multiset().count(e) > 0);
            assert(s1.contains(e));
            let m = choose|m: int| 0 <= m < s1.len() && s1[m] == e;
            assert(m == i);
            lemma_two_copies(s2, j, k);
            let m2 = lemma_second_copy(s1, i);
            assert(token_of(s1[m2]) == t);
        }
    }
    assert(0 <= j < s2.len() && token_of(s2[j]) == t && (forall|k: int|
        0 <= k < s2.len() && k != j ==> token_of(#[trigger] s2[k]) != t));
    let c = choose|x: int|
        0 <= x < s2.len() && token_of(#[trigger] s2[x]) == t && (forall|k: int|
            0 <= k < s2.len() && k != x ==> token_of(#[trigger] s2[k]) != t);
    if c != j {
        assert(token_of(s2[j]) != t);
    }
}

/// A token finds the same device whatever the order of the list: reordered
/// lists with the same devices give the same answer, so a button keeps
/// pointing at its device after the panel reorders the list.
pub proof fn law_token_lookup_ignores_order(s1: Seq<HwidDevice>, s2: Seq<HwidDevice>, t: Seq<char>)
    requires
        s1.to_multiset() =~= s2.to_multiset(),
    ensures
        device_with_token(s1, t) == device_with_token(s2, t),
{
    if exists|i: int| 0 <= i < s1.len() && token_of(#[trigger] s1[i]) == t && (forall|j: int|
        0 <= j < s1.len() && j != i ==> token_of(#[trigger] s1[j]) != t) {
        let i = choose|i: int| 0 <= i < s1.len() && token_of(#[trigger] s1[i]) == t && (forall|j: int|
            0 <= j < s1.len() && j != i ==> token_of(#[trigger] s1[j]) != t);
        lemma_unique_token_transfers(s1, s2, t, i);
        assert(s1.to_multiset() =~= s1.to_multiset());
        lemma_unique_token_transfers(s1, s1, t, i);
    } else if exists|i: int| 0 <= i < s2.len() && token_of(#[trigger] s2[i]) == t && (forall|j: int|
        0 <= j < s2.len() && j != i ==> token_of(#[trigger] s2[j]) != t) {
        let i = choose|i: int| 0 <= i < s2.len() && token_of(#[trigger] s2[i]) == t && (forall|j: int|
            0 <= j < s2.len() && j != i ==> token_of(#[trigger] s2[j]) != t);
        lemma_unique_token_transfers(s2, s1, t, i);
    }
}

} // verus!

verus! {

/// A confirmed deletion cannot be replayed: in the list that
/// `confirm_deleted` accepted for a token, that token finds no device, so a
/// second press of the same button is refused.
pub proof fn law_deleted_device_not_found(remaining: Seq<HwidDevice>, token: Seq<char>)
    requires
        !(exists|i: int| 0 <= i < remaining.len() && token_of(#[trigger] remaining[i]) == token),
    ensures
        device_with_token(remaining, token) is None,
{
}

} // verus!

verus! {

// ---------------------------------------------------------------------------
// Serving a request about the user's devices
// ---------------------------------------------------------------------------

/// What the user asked for: the list, one device by its token, or the
/// deletion of one device by its token.
#[derive(Debug)]
pub enum DeviceRequest {
    List,
    Get { token: String },
    Delete { token: String },
}

/// What a device request gave: a device list, or one device.
#[derive(Debug)]
pub enum DeviceOutcome {
    Listed(DeviceList),
    Found(HwidDevice),
}

/// Where a device request stands.
#[derive(Debug)]
pub enum DeviceStage {
    Start,
    AwaitUsers,
    AwaitDevices { user: RemnawaveUser },
    AwaitDeleted { user: RemnawaveUser },
    Finished,
}

/// A device request of one Telegram user.
#[derive(Debug)]
pub struct DeviceFlow {
    pub telegram_id: u64,
    pub request: DeviceRequest,
    pub stage: DeviceStage,
}

/// What came back from the last action.
#[derive(Debug)]
pub enum DeviceEvent {
    Begin,
    /// The panel's users of the Telegram ID; `None` when the panel did not
    /// answer in time.
    UsersListed(Option<Result<Vec<RemnawaveUser>, RemnawaveError>>),
    /// The devices of the user found.
    DevicesListed(Result<HwidDevices, RemnawaveError>),
    /// The devices left after the deletion.
    Deleted(Result<HwidDevices, RemnawaveError>),
}

/// What the caller is to do next.
#[derive(Debug)]
pub enum DeviceAction {
    FindUsers { telegram_id: u64 },
    GetDevices { user_id: i64 },
    DeleteDevice { user_id: i64, hwid: String },
    Finish(Result<DeviceOutcome, DeviceError>),
}

impl DeviceFlow {
    /// A new request of `telegram_id`, not started.
    pub fn new(telegram_id: u64, request: DeviceRequest) -> (f: DeviceFlow)
        ensures
            f.telegram_id == telegram_id,
            f.request == request,
            f.stage is Start,
    {
        DeviceFlow { telegram_id, request, stage: DeviceStage::Start }
    }
}

/// The event that `stage` waits for.
pub open spec fn device_awaits(stage: DeviceStage, event: DeviceEvent) -> bool {
    match stage {
        DeviceStage::Start => event is Begin,
        DeviceStage::AwaitUsers => event is UsersListed,
        DeviceStage::AwaitDevices { .. } => event is DevicesListed,
        DeviceStage::AwaitDeleted { .. } => event is Deleted,
        DeviceStage::Finished => false,
    }
}

/// The token a request names, if any.
pub open spec fn request_token(r: DeviceRequest) -> Option<Seq<char>> {
    match r {
        DeviceRequest::List => None,
        DeviceRequest::Get { token } => Some(token@),
        DeviceRequest::Delete { token } => Some(token@),
    }
}

/// Some device of `s` has token `t`.
pub open spec fn token_in(s: Seq<HwidDevice>, t: Seq<char>) -> bool {
    exists|i: int| 0 <= i < s.len() && token_of(#[trigger] s[i]) == t
}

pub open spec fn device_ends(g: DeviceFlow, a: DeviceAction, r: Result<DeviceOutcome, DeviceError>) -> bool {
    g.stage is Finished && a == DeviceAction::Finish(r)
}

/// The outcome is the list of `devices` for `user`.
pub open spec fn ends_listed(g: DeviceFlow, a: DeviceAction, user: RemnawaveUser, devices: HwidDevices) -> bool {
    g.stage is Finished && (a matches DeviceAction::Finish(Ok(DeviceOutcome::Listed(l))) && list_is(
        l,
        user,
        devices,
    ))
}

/// One step of a device request.
pub open spec fn device_transition(f: DeviceFlow, e: DeviceEvent, g: DeviceFlow, a: DeviceAction) -> bool {
    &&& g.telegram_id == f.telegram_id
    &&& g.request == f.request
    &&& match (f.stage, e) {
        (DeviceStage::Start, DeviceEvent::Begin) => match request_token(f.request) {
            Some(t) if !token_well_formed(encode_utf8(t)) => device_ends(
                g,
                a,
                Err(DeviceError::DeviceNotFound),
            ),
            _ => g.stage is AwaitUsers && a == (DeviceAction::FindUsers {
                telegram_id: f.telegram_id,
            }),
        },
        (DeviceStage::AwaitUsers, DeviceEvent::UsersListed(r)) => match r {
            None => device_ends(g, a, Err(DeviceError::Timeout)),
            Some(Err(x)) => device_ends(g, a, Err(DeviceError::Remnawave(x))),
            Some(Ok(us)) => match owned_selection(us@, f.telegram_id) {
                Err(x) => device_ends(g, a, Err(x)),
                Ok(u) => g.stage == (DeviceStage::AwaitDevices { user: u }) && a == (
                DeviceAction::GetDevices { user_id: u.id }),
            },
        },
        (DeviceStage::AwaitDevices { user }, DeviceEvent::DevicesListed(devices)) => match devices {
            Err(x) => device_ends(g, a, Err(DeviceError::Remnawave(x))),
            Ok(ds) => match list_refusal(user, ds) {
                Some(x) => device_ends(g, a, Err(x)),
                None => match f.request {
                    DeviceRequest::List => ends_listed(g, a, user, ds),
                    DeviceRequest::Get { token } => match device_with_token(
                        sorted_devices(ds.devices@),
                        token@,
                    ) {
                        None => device_ends(g, a, Err(DeviceError::DeviceNotFound)),
                        Some(d) => device_ends(g, a, Ok(DeviceOutcome::Found(d))),
                    },
                    DeviceRequest::Delete { token } => match device_with_token(
                        sorted_devices(ds.devices@),
                        token@,
                    ) {
                        None => device_ends(g, a, Err(DeviceError::DeviceNotFound)),
                        Some(d) => g.stage == (DeviceStage::AwaitDeleted { user }) && (
                        a matches DeviceAction::DeleteDevice { user_id, hwid } && user_id == user.id
                            && hwid@ == d.hwid@),
                    },
                },
            },
        },
        (DeviceStage::AwaitDeleted { user }, DeviceEvent::Deleted(r)) => match r {
            Err(x) => device_ends(g, a, Err(DeviceError::Remnawave(x))),
            Ok(ds) => match list_refusal(user, ds) {
                Some(x) => device_ends(g, a, Err(x)),
                None => if request_token(f.request) matches Some(t) && token_in(
                    sorted_devices(ds.devices@),
                    t,
                ) {
                    device_ends(g, a, Err(DeviceError::DeletionNotApplied))
                } else {
                    ends_listed(g, a, user, ds)
                },
            },
        },
        _ => false,
    }
}

fn device_finish(telegram_id: u64, request: DeviceRequest, r: Result<DeviceOutcome, DeviceError>) -> (x: (DeviceFlow, DeviceAction))
    ensures
        x.0.telegram_id == telegram_id,
        x.0.request == request,
        device_ends(x.0, x.1, r),
{
    (DeviceFlow { telegram_id, request, stage: DeviceStage::Finished }, DeviceAction::Finish(r))
}

/// Advances a device request by one step.
///
/// A malformed token is refused before the panel is asked anything. The
/// user's single subscription is found and its ownership checked on every
/// request; its devices are checked and ordered; a device is found by its
/// token; a deletion names exactly the HWID of that device of that user, and
/// is confirmed only when the panel's new list no longer holds it.
pub fn device_step(flow: DeviceFlow, event: DeviceEvent) -> (x: (DeviceFlow, DeviceAction))
    requires
        device_awaits(flow.stage, event),
    ensures
        device_transition(flow, event, x.0, x.1),
{
    let DeviceFlow { telegram_id, request, stage } = flow;
    match (stage, event) {
        (DeviceStage::Start, DeviceEvent::Begin) => {
            let valid = match &request {
                DeviceRequest::List => true,
                DeviceRequest::Get { token } => validate_token(token.as_str()).is_ok(),
                DeviceRequest::Delete { token } => validate_token(token.as_str()).is_ok(),
            };
            if !valid {
                device_finish(telegram_id, request, Err(DeviceError::DeviceNotFound))
            } else {
                (
                    DeviceFlow { telegram_id, request, stage: DeviceStage::AwaitUsers },
                    DeviceAction::FindUsers { telegram_id },
                )
            }
        },
        (DeviceStage::AwaitUsers, DeviceEvent::UsersListed(r)) => match r {
            None => device_finish(telegram_id, request, Err(DeviceError::Timeout)),
            Some(Err(x)) => device_finish(telegram_id, request, Err(DeviceError::Remnawave(x))),
            Some(Ok(us)) => match select_owned_user(us, telegram_id) {
                Err(x) => device_finish(telegram_id, request, Err(x)),
                Ok(u) => {
                    let user_id = u.id;
                    (
                        DeviceFlow { telegram_id, request, stage: DeviceStage::AwaitDevices { user: u } },
                        DeviceAction::GetDevices { user_id },
                    )
                },
            },
        },
        (DeviceStage::AwaitDevices { user }, DeviceEvent::DevicesListed(devices)) => match devices {
            Err(x) => device_finish(telegram_id, request, Err(DeviceError::Remnawave(x))),
            Ok(ds) => match device_list(&user, ds) {
                Err(x) => device_finish(telegram_id, request, Err(x)),
                Ok(list) => match request {
                    DeviceRequest::List => device_finish(
                        telegram_id,
                        DeviceRequest::List,
                        Ok(DeviceOutcome::Listed(list)),
                    ),
                    DeviceRequest::Get { token } => match token_position(
                        &list.devices,
                        token.as_str(),
                    ) {
                        Err(x) => device_finish(telegram_id, DeviceRequest::Get { token }, Err(x)),
                        Ok(k) => {
                            let mut list = list;
                            let d = list.devices.swap_remove(k);
                            device_finish(
                                telegram_id,
                                DeviceRequest::Get { token },
                                Ok(DeviceOutcome::Found(d)),
                            )
                        },
                    },
                    DeviceRequest::Delete { token } => match token_position(
                        &list.devices,
                        token.as_str(),
                    ) {
                        Err(x) => device_finish(
                            telegram_id,
                            DeviceRequest::Delete { token },
                            Err(x),
                        ),
                        Ok(k) => {
                            let hwid = list.devices[k].hwid.clone();
                            let user_id = user.id;
                            (
                                DeviceFlow {
                                    telegram_id,
                                    request: DeviceRequest::Delete { token },
                                    stage: DeviceStage::AwaitDeleted { user },
                                },
                                DeviceAction::DeleteDevice { user_id, hwid },
                            )
                        },
                    },
                },
            },
        },
        (DeviceStage::AwaitDeleted { user }, DeviceEvent::Deleted(r)) => match r {
            Err(x) => device_finish(telegram_id, request, Err(DeviceError::Remnawave(x))),
            Ok(ds) => match device_list(&user, ds) {
                Err(x) => device_finish(telegram_id, request, Err(x)),
                Ok(list) => {
                    let confirmed = match &request {
                        DeviceRequest::List => Ok(list),
                        DeviceRequest::Get { token } => confirm_deleted(list, token.as_str()),
                        DeviceRequest::Delete { token } => confirm_deleted(list, token.as_str()),
                    };
                    match confirmed {
                        Err(x) => device_finish(telegram_id, request, Err(x)),
                        Ok(l) => device_finish(telegram_id, request, Ok(DeviceOutcome::Listed(l))),
                    }
                },
            },
        },
        _ => {
            proof {
                assert(false);
            }
            device_finish(telegram_id, request, Err(DeviceError::DeviceNotFound))
        },
    }
}

/// No panel request follows a malformed token: a request whose token is not
/// thirty-two hexadecimal digits ends at its first step.
pub proof fn law_malformed_token_contacts_nothing(f: DeviceFlow, e: DeviceEvent, g: DeviceFlow, a: DeviceAction)
    requires
        device_transition(f, e, g, a),
        f.stage is Start,
        request_token(f.request) matches Some(t) && !token_well_formed(encode_utf8(t)),
    ensures
        a == DeviceAction::Finish(Err(DeviceError::DeviceNotFound)),
{
}

/// A deletion request to the panel carries exactly the user whose ownership
/// was just confirmed and the HWID of the one device of that user whose
/// token the request names.
pub proof fn law_deletion_names_the_found_device(f: DeviceFlow, e: DeviceEvent, g: DeviceFlow, a: DeviceAction)
    requires
        device_transition(f, e, g, a),
        a is DeleteDevice,
    ensures
        f.stage is AwaitDevices,
        f.request matches DeviceRequest::Delete { token } && (f.stage matches DeviceStage::AwaitDevices {
            user,
        } && (e matches DeviceEvent::DevicesListed(Ok(ds)) && list_refusal(user, ds) is None && (device_with_token(
            sorted_devices(ds.devices@),
            token@,
        ) matches Some(d) && a matches DeviceAction::DeleteDevice { user_id, hwid } && user_id
            == user.id && hwid@ == d.hwid@))),
{
}

/// The devices of a user are asked for only once the panel returned
/// exactly one user for the Telegram ID and it belongs to it.
pub proof fn law_devices_only_of_owned_user(f: DeviceFlow, e: DeviceEvent, g: DeviceFlow, a: DeviceAction)
    requires
        device_transition(f, e, g, a),
        a is GetDevices,
    ensures
        e matches DeviceEvent::UsersListed(Some(Ok(us))) && us@.len() == 1 && owned_by(
            us@[0],
            f.telegram_id,
        ) && a == (DeviceAction::GetDevices { user_id: us@[0].id }) && g.stage == (
        DeviceStage::AwaitDevices { user: us@[0] }),
{
}

} // verus!
