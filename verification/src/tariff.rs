use vstd::prelude::*;

use crate::text::{blank, chars_of, concat3, is_ascii_alphanumeric, is_blank, str_eq};

verus! {

/// One offer of the catalogue.
#[derive(Debug, Clone)]
pub struct Tariff {
    pub code: String,
    pub name: String,
    pub description: String,
    pub price_kopecks: u64,
    pub duration_days: i64,
    pub traffic_gib: Option<u64>,
    pub hwid_limit: u32,
    pub internal_squad_names: Vec<String>,
    pub is_active: bool,
    pub sort_order: i32,
}

/// Why a catalogue could not be loaded. `Io` and `Json` carry the message of
/// the reading or parsing failure; `Invalid` one of a rule of the catalogue.
#[derive(Debug)]
pub enum TariffError {
    Io(String),
    Json(String),
    Invalid(String),
}

impl Tariff {
    /// Whole rubles of the price (kopecks divided by a hundred, rounded down).
    pub fn price_rubles(&self) -> (r: u64)
        ensures
            r == self.price_kopecks / 100,
    {
        self.price_kopecks / 100
    }
}

// ---------------------------------------------------------------------------
// Validation
// ---------------------------------------------------------------------------

pub open spec fn code_char(c: char) -> bool {
    is_ascii_alphanumeric(c) || c == '_' || c == '-'
}

/// A code is one to thirty-two characters, each an ASCII letter, digit,
/// `_` or `-`.
pub open spec fn valid_code(code: Seq<char>) -> bool {
    &&& 0 < code.len() <= 32
    &&& forall|i: int| 0 <= i < code.len() ==> code_char(#[trigger] code[i])
}

pub open spec fn msg_bad_code(code: Seq<char>) -> Seq<char> {
    "некорректный код тарифа '"@ + code + "'"@
}

pub open spec fn msg_duplicate(code: Seq<char>) -> Seq<char> {
    "дублирующийся код тарифа '"@ + code + "'"@
}

/// `у тарифа '<code>'` followed by `rest`.
pub open spec fn msg_about(code: Seq<char>, rest: Seq<char>) -> Seq<char> {
    "у тарифа '"@ + code + "'"@ + rest
}

pub open spec fn squads_ok(names: Seq<String>) -> bool {
    names.len() > 0 && forall|i: int| 0 <= i < names.len() ==> !blank(#[trigger] names[i]@)
}

/// What is wrong with `t`, the first rule it breaks, given the codes of the
/// tariffs before it; `None` when it breaks none.
pub open spec fn tariff_problem(t: Tariff, seen: Seq<Seq<char>>) -> Option<Seq<char>> {
    if !valid_code(t.code@) {
        Some(msg_bad_code(t.code@))
    } else if seen.contains(t.code@) {
        Some(msg_duplicate(t.code@))
    } else if blank(t.name@) {
        Some(msg_about(t.code@, " отсутствует название"@))
    } else if blank(t.description@) {
        Some(msg_about(t.code@, " отсутствует описание"@))
    } else if t.price_kopecks == 0 {
        Some(msg_about(t.code@, " цена должна быть больше нуля"@))
    } else if t.duration_days <= 0 {
        Some(msg_about(t.code@, " срок должен быть больше нуля"@))
    } else if t.traffic_gib == Some(0u64) {
        Some(msg_about(t.code@, " лимит трафика не может быть равен нулю"@))
    } else if t.hwid_limit == 0 {
        Some(msg_about(t.code@, " должен быть хотя бы один слот устройства"@))
    } else if !squads_ok(t.internal_squad_names@) {
        Some(msg_about(t.code@, " некорректно указаны Internal Squads"@))
    } else {
        None
    }
}

/// The characters of each string.
pub open spec fn views(ss: Seq<String>) -> Seq<Seq<char>> {
    ss.map_values(|s: String| s@)
}

pub open spec fn codes(ts: Seq<Tariff>) -> Seq<Seq<char>> {
    ts.map_values(|t: Tariff| t.code@)
}

/// The problem of the first tariff at or after `i` that breaks a rule.
pub open spec fn first_problem_from(ts: Seq<Tariff>, i: int) -> Option<Seq<char>>
    decreases ts.len() - i,
{
    if i < 0 || i >= ts.len() {
        None
    } else {
        match tariff_problem(ts[i], codes(ts.take(i))) {
            Some(m) => Some(m),
            None => first_problem_from(ts, i + 1),
        }
    }
}

/// The message of the first rule that the list breaks, in list order and,
/// within one tariff, in the order of the rules.
pub open spec fn first_problem(ts: Seq<Tariff>) -> Option<Seq<char>> {
    first_problem_from(ts, 0)
}

/// Every tariff keeps every rule, and no code occurs twice.
pub open spec fn catalog_valid(ts: Seq<Tariff>) -> bool {
    first_problem(ts) is None
}

fn is_valid_code(code: &str) -> (b: bool)
    ensures
        b == valid_code(code@),
{
    let cs = chars_of(code);
    if cs.len() == 0 || cs.len() > 32 {
        return false;
    }
    let mut i: usize = 0;
    while i < cs.len()
        invariant
            cs@ == code@,
            i <= cs.len(),
            forall|j: int| 0 <= j < i ==> code_char(#[trigger] cs@[j]),
        decreases cs.len() - i,
    {
        let c = cs[i];
        let ok = ('0' <= c && c <= '9') || ('a' <= c && c <= 'z') || ('A' <= c && c <= 'Z') || c
            == '_' || c == '-';
        if !ok {
            return false;
        }
        i = i + 1;
    }
    true
}

fn squads_are_ok(names: &Vec<String>) -> (b: bool)
    ensures
        b == squads_ok(names@),
{
    if names.len() == 0 {
        return false;
    }
    let mut i: usize = 0;
    while i < names.len()
        invariant
            i <= names.len(),
            forall|j: int| 0 <= j < i ==> !blank(#[trigger] names@[j]@),
        decreases names.len() - i,
    {
        if is_blank(names[i].as_str()) {
            return false;
        }
        i = i + 1;
    }
    true
}

fn about(code: &String, rest: &str) -> (m: String)
    ensures
        m@ == msg_about(code@, rest@),
{
    let mut m = String::from_str("у тарифа '");
    m.append(code.as_str());
    m.append("'");
    m.append(rest);
    assert(m@ =~= msg_about(code@, rest@));
    m
}

/// Whether `code` is among `seen`.
fn seen_contains(seen: &Vec<String>, code: &String) -> (b: bool)
    ensures
        b == views(seen@).contains(code@),
{
    let mut i: usize = 0;
    while i < seen.len()
        invariant
            i <= seen.len(),
            forall|j: int| 0 <= j < i ==> seen@[j]@ != code@,
        decreases seen.len() - i,
    {
        if seen[i] == *code {
            assert(views(seen@)[i as int] == code@);
            return true;
        }
        i = i + 1;
    }
    proof {
        if views(seen@).contains(code@) {
            let k = choose|k: int|
                0 <= k < seen@.len() && #[trigger] views(seen@)[k] == code@;
            assert(seen@[k]@ == code@);
        }
    }
    false
}

/// The characters of an optional message.
pub open spec fn opt_chars(o: Option<String>) -> Option<Seq<char>> {
    match o {
        Some(m) => Some(m@),
        None => None,
    }
}

fn check_tariff(t: &Tariff, seen: &Vec<String>) -> (r: Option<String>)
    ensures
        opt_chars(r) == tariff_problem(*t, views(seen@)),
{
    let code = &t.code;
    if !is_valid_code(code.as_str()) {
        let m = concat3("некорректный код тарифа '", code.as_str(), "'");
        assert(m@ =~= msg_bad_code(code@));
        return Some(m);
    }
    if seen_contains(seen, code) {
        let m = concat3("дублирующийся код тарифа '", code.as_str(), "'");
        assert(m@ =~= msg_duplicate(code@));
        return Some(m);
    }
    if is_blank(t.name.as_str()) {
        return Some(about(code, " отсутствует название"));
    }
    if is_blank(t.description.as_str()) {
        return Some(about(code, " отсутствует описание"));
    }
    if t.price_kopecks == 0 {
        return Some(about(code, " цена должна быть больше нуля"));
    }
    if t.duration_days <= 0 {
        return Some(about(code, " срок должен быть больше нуля"));
    }
    if t.traffic_gib == Some(0u64) {
        return Some(about(code, " лимит трафика не может быть равен нулю"));
    }
    if t.hwid_limit == 0 {
        return Some(about(code, " должен быть хотя бы один слот устройства"));
    }
    if !squads_are_ok(&t.internal_squad_names) {
        return Some(about(code, " некорректно указаны Internal Squads"));
    }
    None
}

/// Checks every rule of the catalogue on every tariff, in list order, and
/// reports the first rule broken.
pub fn validate_tariffs(tariffs: &[Tariff]) -> (r: Result<(), TariffError>)
    ensures
        r is Ok <==> catalog_valid(tariffs@),
        r matches Err(e) ==> e matches TariffError::Invalid(m) && Some(m@) == first_problem(
            tariffs@,
        ),
{
    let mut seen: Vec<String> = Vec::new();
    let mut i: usize = 0;
    while i < tariffs.len()
        invariant
            i <= tariffs.len(),
            views(seen@) == codes(tariffs@.take(i as int)),
            first_problem(tariffs@) == first_problem_from(tariffs@, i as int),
        decreases tariffs.len() - i,
    {
        let t = &tariffs[i];
        let p = check_tariff(t, &seen);
        match p {
            Some(m) => {
                return Err(TariffError::Invalid(m));
            },
            None => {},
        }
        let c = t.code.clone();
        let ghost prev = seen@;
        seen.push(c);
        assert(views(seen@) =~= views(prev).push(t.code@));
        assert(codes(tariffs@.take(i as int).push(tariffs@[i as int])) =~= codes(
            tariffs@.take(i as int),
        ).push(t.code@));
        assert(tariffs@.take(i + 1) =~= tariffs@.take(i as int).push(tariffs@[i as int]));
        assert(views(seen@) =~= codes(tariffs@.take(i + 1)));
        i = i + 1;
    }
    Ok(())
}

} // verus!

verus! {

// ---------------------------------------------------------------------------
// Order of the catalogue
// ---------------------------------------------------------------------------

/// `a` comes strictly before `b` by `(sort_order, price_kopecks)`.
pub open spec fn key_lt(a: Tariff, b: Tariff) -> bool {
    a.sort_order < b.sort_order || (a.sort_order == b.sort_order && a.price_kopecks
        < b.price_kopecks)
}

/// `r` with `x` placed after every element whose key is smaller than its own
/// and before the rest.
pub open spec fn insert_by_key(r: Seq<Tariff>, x: Tariff) -> Seq<Tariff>
    decreases r.len(),
{
    if r.len() == 0 {
        seq![x]
    } else if key_lt(r[0], x) {
        seq![r[0]] + insert_by_key(r.drop_first(), x)
    } else {
        seq![x] + r
    }
}

/// `s` in ascending order of `(sort_order, price_kopecks)`; tariffs with equal
/// keys keep the order they had (the stable sort of `sort_by_key`).
pub open spec fn sorted_by_key(s: Seq<Tariff>) -> Seq<Tariff>
    decreases s.len(),
{
    if s.len() == 0 {
        s
    } else {
        insert_by_key(sorted_by_key(s.drop_first()), s[0])
    }
}

/// No tariff of `s` has a larger key than one after it.
pub open spec fn in_key_order(s: Seq<Tariff>) -> bool {
    forall|i: int, j: int| 0 <= i < j < s.len() ==> !key_lt(#[trigger] s[j], #[trigger] s[i])
}

proof fn lemma_insert_in_order(r: Seq<Tariff>, x: Tariff)
    requires
        in_key_order(r),
    ensures
        in_key_order(insert_by_key(r, x)),
        insert_by_key(r, x).len() == r.len() + 1,
        insert_by_key(r, x).to_multiset() =~= r.to_multiset().insert(x),
    decreases r.len(),
{
    broadcast use vstd::seq_lib::group_to_multiset_ensures;
    if r.len() == 0 {
        assert(insert_by_key(r, x) =~= seq![x]);
        assert(seq![x] =~= Seq::<Tariff>::empty().push(x));
    } else if key_lt(r[0], x) {
        let rest = r.drop_first();
        assert(in_key_order(rest)) by {
            assert forall|i: int, j: int| 0 <= i < j < rest.len() implies !key_lt(
                #[trigger] rest[j],
                #[trigger] rest[i],
            ) by {
                assert(rest[i] == r[i + 1] && rest[j] == r[j + 1]);
            }
        }
        lemma_insert_in_order(rest, x);
        let ins = insert_by_key(rest, x);
        let res = seq![r[0]] + ins;
        assert forall|i: int, j: int| 0 <= i < j < res.len() implies !key_lt(
            #[trigger] res[j],
            #[trigger] res[i],
        ) by {
            if i == 0 {
                assert(ins.contains(res[j]));
                assert(ins.to_multiset().count(res[j]) > 0);
                if res[j] == x {
                } else {
                    assert(rest.to_multiset().count(res[j]) > 0);
                    assert(rest.contains(res[j]));
                    let k = choose|k: int| 0 <= k < rest.len() && rest[k] == res[j];
                    assert(r[k + 1] == res[j]);
                }
            } else {
                assert(res[i] == ins[i - 1] && res[j] == ins[j - 1]);
            }
        }
        assert(r =~= seq![r[0]] + rest);
        vstd::seq_lib::lemma_multiset_commutative(seq![r[0]], ins);
        vstd::seq_lib::lemma_multiset_commutative(seq![r[0]], rest);
    } else {
        let res = seq![x] + r;
        assert forall|i: int, j: int| 0 <= i < j < res.len() implies !key_lt(
            #[trigger] res[j],
            #[trigger] res[i],
        ) by {
            if i == 0 {
                assert(res[j] == r[j - 1]);
                if j - 1 > 0 {
                    assert(!key_lt(r[j - 1], r[0]));
                }
            } else {
                assert(res[i] == r[i - 1] && res[j] == r[j - 1]);
            }
        }
        vstd::seq_lib::lemma_multiset_commutative(seq![x], r);
    }
}

/// The stable sort is ordered by key and holds the tariffs it was given.
pub proof fn lemma_sorted_by_key(s: Seq<Tariff>)
    ensures
        in_key_order(sorted_by_key(s)),
        sorted_by_key(s).to_multiset() =~= s.to_multiset(),
        sorted_by_key(s).len() == s.len(),
    decreases s.len(),
{
    broadcast use vstd::seq_lib::group_to_multiset_ensures;
    if s.len() > 0 {
        lemma_sorted_by_key(s.drop_first());
        lemma_insert_in_order(sorted_by_key(s.drop_first()), s[0]);
        assert(s =~= seq![s[0]] + s.drop_first());
        vstd::seq_lib::lemma_multiset_commutative(seq![s[0]], s.drop_first());
    }
}

fn tariff_key_lt(a: &Tariff, b: &Tariff) -> (r: bool)
    ensures
        r == key_lt(*a, *b),
{
    a.sort_order < b.sort_order || (a.sort_order == b.sort_order && a.price_kopecks
        < b.price_kopecks)
}

/// Inserts `x` into `r` where `insert_by_key` places it.
fn insert_tariff(r: &mut Vec<Tariff>, x: Tariff)
    ensures
        final(r)@ == insert_by_key(old(r)@, x),
{
    let mut p: usize = 0;
    assert(r@.skip(0) =~= r@);
    assert(r@.take(0) + insert_by_key(r@, x) =~= insert_by_key(r@, x));
    while p < r.len() && tariff_key_lt(&r[p], &x)
        invariant
            p <= r.len(),
            r@ == old(r)@,
            insert_by_key(r@, x) == r@.take(p as int) + insert_by_key(r@.skip(p as int), x),
        decreases r.len() - p,
    {
        let ghost rest = r@.skip(p as int);
        assert(rest.drop_first() =~= r@.skip(p + 1));
        assert(r@.take(p + 1) =~= r@.take(p as int) + seq![rest[0]]);
        p = p + 1;
    }
    let ghost before = r@;
    r.insert(p, x);
    assert(r@ =~= before.take(p as int) + insert_by_key(before.skip(p as int), x));
}

/// The tariffs on offer, validated and in display order.
#[derive(Debug, Clone)]
pub struct TariffCatalog {
    tariffs: Vec<Tariff>,
}

impl View for TariffCatalog {
    type V = Seq<Tariff>;

    closed spec fn view(&self) -> Seq<Tariff> {
        self.tariffs@
    }
}

impl TariffCatalog {
    /// A catalogue is in key order.
    pub open spec fn wf(&self) -> bool {
        in_key_order(self@)
    }

    /// Validates `tariffs` and orders them by `(sort_order, price_kopecks)`,
    /// keeping the given order among equal keys.
    pub fn new(tariffs: Vec<Tariff>) -> (r: Result<Self, TariffError>)
        ensures
            r is Ok <==> catalog_valid(tariffs@),
            r matches Ok(c) ==> c@ == sorted_by_key(tariffs@) && c.wf() && c@.to_multiset()
                =~= tariffs@.to_multiset(),
            r matches Err(e) ==> e matches TariffError::Invalid(m) && Some(m@) == first_problem(
                tariffs@,
            ),
    {
        match validate_tariffs(tariffs.as_slice()) {
            Err(e) => {
                return Err(e);
            },
            Ok(()) => {},
        }
        let mut rest = tariffs;
        let mut sorted: Vec<Tariff> = Vec::new();
        while rest.len() > 0
            invariant
                sorted@ == sorted_by_key(tariffs@.skip(rest@.len() as int)),
                rest@ == tariffs@.take(rest@.len() as int),
                rest@.len() <= tariffs@.len(),
            decreases rest.len(),
        {
            let ghost k = rest@.len() as int;
            let x = rest.pop().unwrap();
            assert(tariffs@.skip(k - 1).drop_first() =~= tariffs@.skip(k));
            assert(tariffs@.skip(k - 1)[0] == x);
            insert_tariff(&mut sorted, x);
            assert(rest@ =~= tariffs@.take(k - 1));
        }
        assert(tariffs@.skip(0) =~= tariffs@);
        proof {
            lemma_sorted_by_key(tariffs@);
        }
        Ok(TariffCatalog { tariffs: sorted })
    }
}

} // verus!

verus! {

/// The tariffs of `s` that are on sale, in order.
pub open spec fn active_tariffs(s: Seq<Tariff>) -> Seq<Tariff> {
    s.filter(|t: Tariff| t.is_active)
}

/// The index of the first tariff at or after `i` with code `code` (and on
/// sale, when `need_active`).
pub open spec fn first_with_code(s: Seq<Tariff>, code: Seq<char>, need_active: bool, i: int) -> Option<int>
    decreases s.len() - i,
{
    if i < 0 || i >= s.len() {
        None
    } else if s[i].code@ == code && (!need_active || s[i].is_active) {
        Some(i)
    } else {
        first_with_code(s, code, need_active, i + 1)
    }
}

/// The first tariff of `s` with code `code` (and on sale, when `need_active`).
pub open spec fn lookup(s: Seq<Tariff>, code: Seq<char>, need_active: bool) -> Option<Tariff> {
    match first_with_code(s, code, need_active, 0) {
        Some(i) => Some(s[i]),
        None => None,
    }
}

pub open spec fn derefs(s: Seq<&Tariff>) -> Seq<Tariff> {
    s.map_values(|t: &Tariff| *t)
}

pub open spec fn opt_deref(o: Option<&Tariff>) -> Option<Tariff> {
    match o {
        Some(t) => Some(*t),
        None => None,
    }
}

impl TariffCatalog {
    /// The tariffs on sale, in catalogue order.
    pub fn active(&self) -> (r: Vec<&Tariff>)
        ensures
            derefs(r@) == active_tariffs(self@),
    {
        let mut r: Vec<&Tariff> = Vec::new();
        let mut i: usize = 0;
        while i < self.tariffs.len()
            invariant
                i <= self@.len(),
                self.tariffs@ == self@,
                derefs(r@) == active_tariffs(self@.take(i as int)),
            decreases self@.len() - i,
        {
            let t = &self.tariffs[i];
            let ghost before = r@;
            if t.is_active {
                r.push(t);
            }
            proof {
                let s = self@.take(i + 1);
                assert(s.drop_last() =~= self@.take(i as int));
                assert(s.last() == *t);
                reveal_with_fuel(Seq::filter, 1);
                assert(derefs(r@) =~= active_tariffs(s));
            }
            i = i + 1;
        }
        assert(self@.take(i as int) =~= self@);
        r
    }

    fn find(&self, code: &str, need_active: bool) -> (r: Option<&Tariff>)
        ensures
            opt_deref(r) == lookup(self@, code@, need_active),
    {
        let mut i: usize = 0;
        while i < self.tariffs.len()
            invariant
                i <= self@.len(),
                self.tariffs@ == self@,
                first_with_code(self@, code@, need_active, 0) == first_with_code(
                    self@,
                    code@,
                    need_active,
                    i as int,
                ),
            decreases self@.len() - i,
        {
            let t = &self.tariffs[i];
            if str_eq(t.code.as_str(), code) && (!need_active || t.is_active) {
                return Some(t);
            }
            i = i + 1;
        }
        None
    }

    /// The first tariff with code `code`, on sale or not.
    pub fn get(&self, code: &str) -> (r: Option<&Tariff>)
        ensures
            opt_deref(r) == lookup(self@, code@, false),
    {
        self.find(code, false)
    }

    /// The first tariff on sale with code `code`.
    pub fn get_active(&self, code: &str) -> (r: Option<&Tariff>)
        ensures
            opt_deref(r) == lookup(self@, code@, true),
    {
        self.find(code, true)
    }

    /// How many tariffs the catalogue holds, on sale or not.
    pub fn len(&self) -> (n: usize)
        ensures
            n == self@.len(),
    {
        self.tariffs.len()
    }
}

} // verus!

verus! {

proof fn lemma_no_problem_from(ts: Seq<Tariff>, i: int)
    requires
        0 <= i <= ts.len(),
        first_problem_from(ts, i) is None,
    ensures
        forall|j: int| i <= j < ts.len() ==> tariff_problem(#[trigger] ts[j], codes(ts.take(j))) is None,
    decreases ts.len() - i,
{
    if i < ts.len() {
        lemma_no_problem_from(ts, i + 1);
    }
}

/// A catalogue that passes validation holds no two tariffs with the same
/// code, and every tariff in it keeps every rule on its own: a valid code,
/// a name, a description, a positive price and term, no zero traffic limit,
/// at least one device and named internal squads.
pub proof fn law_valid_catalog(ts: Seq<Tariff>)
    requires
        catalog_valid(ts),
    ensures
        forall|i: int, j: int| 0 <= i < j < ts.len() ==> (#[trigger] ts[i]).code@ != (#[trigger] ts[j]).code@,
        forall|i: int| 0 <= i < ts.len() ==> tariff_problem(#[trigger] ts[i], Seq::empty()) is None,
{
    lemma_no_problem_from(ts, 0);
    assert forall|i: int, j: int| 0 <= i < j < ts.len() implies (#[trigger] ts[i]).code@ != (
    #[trigger] ts[j]).code@ by {
        assert(tariff_problem(ts[j], codes(ts.take(j))) is None);
        assert(codes(ts.take(j))[i] == ts[i].code@);
        if ts[i].code@ == ts[j].code@ {
            assert(codes(ts.take(j)).contains(ts[j].code@));
        }
    }
    assert forall|i: int| 0 <= i < ts.len() implies tariff_problem(#[trigger] ts[i], Seq::empty()) is None by {
        assert(tariff_problem(ts[i], codes(ts.take(i))) is None);
    }
}

proof fn lemma_first_with_code(s: Seq<Tariff>, code: Seq<char>, need_active: bool, i: int)
    requires
        0 <= i,
    ensures
        first_with_code(s, code, need_active, i) matches Some(k) ==> i <= k < s.len() && s[k].code@
            == code && (!need_active || s[k].is_active) && forall|j: int|
            i <= j < k ==> !((#[trigger] s[j]).code@ == code && (!need_active || s[j].is_active)),
        first_with_code(s, code, need_active, i) is None ==> forall|j: int|
            i <= j < s.len() ==> !((#[trigger] s[j]).code@ == code && (!need_active
                || s[j].is_active)),
    decreases s.len() - i,
{
    if i < s.len() {
        lemma_first_with_code(s, code, need_active, i + 1);
    }
}

/// Looking a tariff up by code finds the first tariff with that code (and
/// on sale, when asked for one on sale), and finds nothing only when no
/// tariff matches.
pub proof fn law_lookup(s: Seq<Tariff>, code: Seq<char>, need_active: bool)
    ensures
        lookup(s, code, need_active) matches Some(t) ==> t.code@ == code && (!need_active
            || t.is_active) && s.contains(t),
        lookup(s, code, need_active) is None <==> forall|j: int|
            0 <= j < s.len() ==> !((#[trigger] s[j]).code@ == code && (!need_active
                || s[j].is_active)),
{
    lemma_first_with_code(s, code, need_active, 0);
    if let Some(k) = first_with_code(s, code, need_active, 0) {
        assert(s[k] == s[k]);
    }
}

} // verus!
