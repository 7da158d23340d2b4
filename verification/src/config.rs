use vstd::prelude::*;
use vstd::string::StringExecFns;

verus! {

/// One environment variable as handed in by the process environment or the
/// variable file: a key and its value.
pub struct EnvPair {
    pub key: String,
    pub value: String,
}

/// The mathematical model of an `EnvPair`.
pub struct EnvPairModel {
    pub key: Seq<char>,
    pub value: Seq<char>,
}

impl View for EnvPair {
    type V = EnvPairModel;

    open spec fn view(&self) -> EnvPairModel {
        EnvPairModel { key: self.key@, value: self.value@ }
    }
}

/// One recognized setting: its key, its current value, and whether a
/// non-empty value is required before the process may start. `None` marks a
/// setting that nothing has supplied yet.
pub struct EnvEntry {
    pub key: String,
    pub value: Option<String>,
    pub required: bool,
}

/// The mathematical model of an `EnvEntry`.
pub struct EnvEntryModel {
    pub key: Seq<char>,
    pub value: Option<Seq<char>>,
    pub required: bool,
}

impl View for EnvEntry {
    type V = EnvEntryModel;

    open spec fn view(&self) -> EnvEntryModel {
        EnvEntryModel {
            key: self.key@,
            value: match &self.value {
                Some(v) => Some(v@),
                None => None,
            },
            required: self.required,
        }
    }
}

/// The model of a settings table.
pub open spec fn table_model(t: Seq<EnvEntry>) -> Seq<EnvEntryModel> {
    Seq::new(t.len(), |i: int| t[i]@)
}

/// The model of a list of environment variables.
pub open spec fn pairs_model(p: Seq<EnvPair>) -> Seq<EnvPairModel> {
    Seq::new(p.len(), |i: int| p[i]@)
}

/// One environment variable applied to a table: every entry whose key
/// matches takes the variable's value; no entry is added or removed.
pub open spec fn apply_one(t: Seq<EnvEntryModel>, p: EnvPairModel) -> Seq<EnvEntryModel> {
    Seq::new(
        t.len(),
        |i: int|
            if t[i].key == p.key {
                EnvEntryModel { key: t[i].key, value: Some(p.value), required: t[i].required }
            } else {
                t[i]
            },
    )
}

/// A list of environment variables applied in order, later variables
/// overriding earlier ones.
pub open spec fn apply_all(t: Seq<EnvEntryModel>, ps: Seq<EnvPairModel>) -> Seq<EnvEntryModel>
    decreases ps.len(),
{
    if ps.len() == 0 {
        t
    } else {
        apply_all(apply_one(t, ps[0]), ps.subrange(1, ps.len() as int))
    }
}

/// Applying a list and then one more variable is applying the extended list.
pub proof fn lemma_apply_all_snoc(t: Seq<EnvEntryModel>, ps: Seq<EnvPairModel>, p: EnvPairModel)
    ensures
        apply_all(t, ps.push(p)) == apply_one(apply_all(t, ps), p),
    decreases ps.len(),
{
    if ps.len() == 0 {
        assert(ps.push(p)[0] == p);
        assert(ps.push(p).subrange(1, 1) =~= Seq::<EnvPairModel>::empty());
        assert(apply_all(t, ps.push(p)) == apply_all(
            apply_one(t, p),
            Seq::<EnvPairModel>::empty(),
        ));
        assert(apply_all(apply_one(t, p), Seq::<EnvPairModel>::empty()) == apply_one(t, p));
    } else {
        let tail = ps.subrange(1, ps.len() as int);
        assert(ps.push(p)[0] == ps[0]);
        assert(ps.push(p).subrange(1, ps.len() + 1 as int) =~= tail.push(p));
        assert(apply_all(t, ps.push(p)) == apply_all(apply_one(t, ps[0]), tail.push(p)));
        lemma_apply_all_snoc(apply_one(t, ps[0]), tail, p);
        assert(apply_all(t, ps) == apply_all(apply_one(t, ps[0]), tail));
    }
}

/// Applying variables never changes the table's length, its keys, or which
/// entries are required.
pub proof fn lemma_apply_all_keeps_keys(t: Seq<EnvEntryModel>, ps: Seq<EnvPairModel>)
    ensures
        apply_all(t, ps).len() == t.len(),
        forall|i: int| 0 <= i < t.len() ==> #[trigger] apply_all(t, ps)[i].key == t[i].key,
        forall|i: int|
            0 <= i < t.len() ==> #[trigger] apply_all(t, ps)[i].required == t[i].required,
    decreases ps.len(),
{
    if ps.len() > 0 {
        lemma_apply_all_keeps_keys(apply_one(t, ps[0]), ps.subrange(1, ps.len() as int));
    }
}

/// A fresh deep copy of a settings entry.
fn duplicate_entry(e: &EnvEntry) -> (r: EnvEntry)
    ensures
        r@ == e@,
{
    EnvEntry {
        key: e.key.clone(),
        value: match &e.value {
            Some(v) => Some(v.clone()),
            None => None,
        },
        required: e.required,
    }
}

/// One environment variable applied to a fresh copy of the table.
fn apply_one_exec(table: &Vec<EnvEntry>, p: &EnvPair) -> (r: Vec<EnvEntry>)
    ensures
        table_model(r@) == apply_one(table_model(table@), p@),
{
    let ghost applied = apply_one(table_model(table@), p@);
    let mut r: Vec<EnvEntry> = Vec::new();
    let mut i: usize = 0;
    while i < table.len()
        invariant
            i <= table@.len(),
            applied == apply_one(table_model(table@), p@),
            r@.len() == i,
            forall|j: int| 0 <= j < i ==> #[trigger] r@[j]@ == applied[j],
        decreases table@.len() - i,
    {
        let entry = &table[i];
        if entry.key == p.key {
            r.push(
                EnvEntry {
                    key: entry.key.clone(),
                    value: Some(p.value.clone()),
                    required: entry.required,
                },
            );
        } else {
            r.push(duplicate_entry(entry));
        }
        i += 1;
    }
    proof {
        assert(table_model(r@) =~= applied);
    }
    r
}

/// Overlays a list of environment variables onto the settings table: every
/// recognized key that the list supplies takes the supplied value, later
/// occurrences overriding earlier ones; unrecognized keys are ignored and
/// no entry is added or removed.
pub fn apply_env(current_env: &mut Vec<EnvEntry>, load_env: &Vec<EnvPair>)
    ensures
        table_model(final(current_env)@) == apply_all(
            table_model(old(current_env)@),
            pairs_model(load_env@),
        ),
{
    let ghost start = table_model(old(current_env)@);
    let ghost pm = pairs_model(load_env@);
    let mut k: usize = 0;
    while k < load_env.len()
        invariant
            k <= load_env@.len(),
            pm == pairs_model(load_env@),
            table_model(current_env@) == apply_all(start, pm.take(k as int)),
        decreases load_env@.len() - k,
    {
        let next = apply_one_exec(current_env, &load_env[k]);
        *current_env = next;
        proof {
            assert(pm.take(k + 1 as int) =~= pm.take(k as int).push(pm[k as int]));
            lemma_apply_all_snoc(start, pm.take(k as int), pm[k as int]);
            assert(pm[k as int] == load_env@[k as int]@);
        }
        k += 1;
    }
    proof {
        assert(pm.take(load_env@.len() as int) =~= pm);
    }
}

/// An ASCII whitespace byte, the bytes that surrounding-whitespace removal
/// strips.
pub open spec fn is_ascii_space(b: u8) -> bool {
    b == 0x20 || (0x09 <= b && b <= 0x0d)
}

/// The bytes with leading ASCII whitespace removed.
pub open spec fn trim_front(s: Seq<u8>) -> Seq<u8>
    decreases s.len(),
{
    if s.len() > 0 && is_ascii_space(s[0]) {
        trim_front(s.drop_first())
    } else {
        s
    }
}

/// The bytes with trailing ASCII whitespace removed.
pub open spec fn trim_back(s: Seq<u8>) -> Seq<u8>
    decreases s.len(),
{
    if s.len() > 0 && is_ascii_space(s.last()) {
        trim_back(s.drop_last())
    } else {
        s
    }
}

/// The bytes with surrounding ASCII whitespace removed.
pub open spec fn trimmed(s: Seq<u8>) -> Seq<u8> {
    trim_back(trim_front(s))
}

/// An ASCII decimal digit.
pub open spec fn is_digit_byte(b: u8) -> bool {
    0x30 <= b && b <= 0x39
}

/// Every byte is an ASCII decimal digit.
pub open spec fn all_digits(s: Seq<u8>) -> bool {
    forall|i: int| 0 <= i < s.len() ==> is_digit_byte(#[trigger] s[i])
}

/// The number a sequence of decimal digits denotes, most significant first.
pub open spec fn digits_value(s: Seq<u8>) -> nat
    recommends
        all_digits(s),
    decreases s.len(),
{
    if s.len() == 0 {
        0
    } else {
        digits_value(s.drop_last()) * 10 + ((s.last() - 0x30) as nat)
    }
}

/// The digits of a decimal numeral: an optional leading plus sign is
/// dropped, everything else must be digits.
pub open spec fn digits_part(s: Seq<u8>) -> Seq<u8> {
    if s.len() > 0 && s[0] == 0x2b {
        s.drop_first()
    } else {
        s
    }
}

/// The value a byte sequence denotes as an unsigned decimal numeral: an
/// optional leading plus sign, then at least one digit, denoting a value
/// that fits in 64 bits; anything else denotes nothing.
pub open spec fn parse_u64_bytes(s: Seq<u8>) -> Option<u64> {
    let d = digits_part(s);
    if d.len() > 0 && all_digits(d) && digits_value(d) <= u64::MAX {
        Some(digits_value(d) as u64)
    } else {
        None
    }
}

/// The value a string denotes once surrounding ASCII whitespace is removed
/// from its UTF-8 bytes.
pub open spec fn parse_u64_model(s: Seq<char>) -> Option<u64> {
    parse_u64_bytes(trimmed(vstd::utf8::encode_utf8(s)))
}

/// A numeral's value only grows as more digits follow.
proof fn lemma_digits_value_monotonic(s: Seq<u8>, k: int)
    requires
        0 <= k <= s.len(),
    ensures
        digits_value(s) >= digits_value(s.take(k)),
    decreases s.len(),
{
    if k < s.len() {
        assert(s.drop_last().take(k) =~= s.take(k));
        lemma_digits_value_monotonic(s.drop_last(), k);
    } else {
        assert(s.take(k) =~= s);
    }
}

/// Whether a byte is ASCII whitespace.
fn byte_is_space(b: u8) -> (r: bool)
    ensures
        r == is_ascii_space(b),
{
    b == 0x20 || (0x09 <= b && b <= 0x0d)
}

/// Parses the bytes of a string as an unsigned decimal numeral, ignoring
/// surrounding ASCII whitespace: an optional leading plus sign, then at
/// least one digit. Returns `None` for an empty or malformed numeral and
/// for a value that does not fit in 64 bits.
pub fn parse_u64_trimmed(s: &String) -> (r: Option<u64>)
    ensures
        r == parse_u64_model(s@),
{
    let bytes = s.as_str().as_bytes_vec();
    let n = bytes.len();
    let ghost whole = bytes@;
    proof {
        assert(whole == vstd::utf8::encode_utf8(s@));
        assert(whole.subrange(0, n as int) =~= whole);
    }
    let mut start: usize = 0;
    while start < n && byte_is_space(bytes[start])
        invariant
            n == whole.len(),
            bytes@ == whole,
            start <= n,
            trim_front(whole) == trim_front(whole.subrange(start as int, n as int)),
        decreases n - start,
    {
        proof {
            assert(whole.subrange(start as int, n as int).drop_first() =~= whole.subrange(
                start + 1 as int,
                n as int,
            ));
        }
        start += 1;
    }
    proof {
        assert(trim_front(whole) == whole.subrange(start as int, n as int));
    }
    let mut end: usize = n;
    while end > start && byte_is_space(bytes[end - 1])
        invariant
            n == whole.len(),
            bytes@ == whole,
            start <= end <= n,
            trim_front(whole) == whole.subrange(start as int, n as int),
            trimmed(whole) == trim_back(whole.subrange(start as int, end as int)),
        decreases end,
    {
        proof {
            assert(whole.subrange(start as int, end as int).drop_last() =~= whole.subrange(
                start as int,
                end - 1 as int,
            ));
        }
        end -= 1;
    }
    proof {
        assert(trimmed(whole) == whole.subrange(start as int, end as int));
    }
    parse_u64_range(&bytes, start, end)
}

/// Parses one byte range as an unsigned decimal numeral: an optional
/// leading plus sign, then at least one digit denoting a value that fits in
/// 64 bits.
pub fn parse_u64_range(bytes: &Vec<u8>, start: usize, end: usize) -> (r: Option<u64>)
    requires
        start <= end <= bytes@.len(),
    ensures
        r == parse_u64_bytes(bytes@.subrange(start as int, end as int)),
{
    let ghost t = bytes@.subrange(start as int, end as int);
    let mut i = start;
    if end > start && bytes[start] == 0x2b {
        i = start + 1;
        proof {
            assert(t.drop_first() =~= bytes@.subrange(i as int, end as int));
        }
    }
    let ghost d = bytes@.subrange(i as int, end as int);
    proof {
        assert(digits_part(t) == d);
    }
    if i == end {
        return None;
    }
    let mut acc: u64 = 0;
    let mut j = i;
    while j < end
        invariant
            i <= j <= end <= bytes@.len(),
            start <= i,
            t == bytes@.subrange(start as int, end as int),
            d == digits_part(t),
            d == bytes@.subrange(i as int, end as int),
            d.len() > 0,
            all_digits(bytes@.subrange(i as int, j as int)),
            acc == digits_value(bytes@.subrange(i as int, j as int)),
        decreases end - j,
    {
        let b = bytes[j];
        let ghost sofar = bytes@.subrange(i as int, j as int);
        let ghost next = bytes@.subrange(i as int, j + 1 as int);
        proof {
            assert(next.drop_last() =~= sofar);
            assert(next.last() == bytes@[j as int]);
        }
        if b < 0x30 || b > 0x39 {
            proof {
                assert(d[j - i] == bytes@[j as int]);
                assert(!all_digits(d));
            }
            return None;
        }
        let digit = (b - 0x30) as u64;
        if acc > (u64::MAX - digit) / 10 {
            proof {
                vstd::arithmetic::div_mod::lemma_fundamental_div_mod(
                    u64::MAX - digit as int,
                    10,
                );
                assert(acc * 10 + digit > u64::MAX);
                assert(digits_value(next) > u64::MAX);
                if all_digits(d) {
                    assert(next =~= d.take(j + 1 - i as int));
                    lemma_digits_value_monotonic(d, j + 1 - i as int);
                    assert(digits_value(d) > u64::MAX);
                }
            }
            return None;
        }
        proof {
            vstd::arithmetic::div_mod::lemma_fundamental_div_mod(u64::MAX - digit as int, 10);
            assert(acc * 10 + digit <= u64::MAX);
        }
        acc = acc * 10 + digit;
        j += 1;
    }
    proof {
        assert(bytes@.subrange(i as int, j as int) =~= d);
        assert(d.len() > 0);
    }
    Some(acc)
}

/// The default active-within window, in seconds, when the setting is absent
/// or not a valid integer.
pub const DEFAULT_JELLYFIN_ACTIVE_WITHIN_SECS: u64 = 5;

/// The default poll interval, in seconds, when the setting is absent or not
/// a valid integer.
pub const DEFAULT_POLL_TIME_SECS: u64 = 5;

/// The recognized settings and their startup values: the five required ones
/// empty, the two numeric ones holding their defaults.
pub open spec fn default_table_model() -> Seq<EnvEntryModel> {
    seq![
        (EnvEntryModel { key: "QB_ADDRESS"@, value: None, required: true }),
        (EnvEntryModel { key: "QB_USERNAME"@, value: None, required: true }),
        (EnvEntryModel { key: "QB_PASSWORD"@, value: None, required: true }),
        (EnvEntryModel { key: "JELLYFIN_ADDR"@, value: None, required: true }),
        (EnvEntryModel { key: "JELLYFIN_TOKEN"@, value: None, required: true }),
        (EnvEntryModel {
            key: "JELLYFIN_ACTIVE_WITHIN_SECS"@,
            value: Some("5"@),
            required: false,
        }),
        (EnvEntryModel { key: "QB_THROTTLER_POLL_FREQ"@, value: Some("5"@), required: false }),
    ]
}

/// Builds the startup settings table.
pub fn default_env_table() -> (t: Vec<EnvEntry>)
    ensures
        table_model(t@) == default_table_model(),
{
    let mut t: Vec<EnvEntry> = Vec::new();
    t.push(EnvEntry { key: String::from_str("QB_ADDRESS"), value: None, required: true });
    t.push(EnvEntry { key: String::from_str("QB_USERNAME"), value: None, required: true });
    t.push(EnvEntry { key: String::from_str("QB_PASSWORD"), value: None, required: true });
    t.push(EnvEntry { key: String::from_str("JELLYFIN_ADDR"), value: None, required: true });
    t.push(EnvEntry { key: String::from_str("JELLYFIN_TOKEN"), value: None, required: true });
    t.push(
        EnvEntry {
            key: String::from_str("JELLYFIN_ACTIVE_WITHIN_SECS"),
            value: Some(String::from_str("5")),
            required: false,
        },
    );
    t.push(
        EnvEntry {
            key: String::from_str("QB_THROTTLER_POLL_FREQ"),
            value: Some(String::from_str("5")),
            required: false,
        },
    );
    proof {
        assert(table_model(t@) =~= default_table_model());
    }
    t
}

/// A setting that blocks startup: nothing supplied it, or it is required to
/// be non-empty and an empty value was supplied. An empty value is no value.
pub open spec fn unfilled(e: EnvEntryModel) -> bool {
    match e.value {
        None => true,
        Some(v) => e.required && v.len() == 0,
    }
}

/// The keys of the settings that block startup, in table order.
pub open spec fn missing_of(t: Seq<EnvEntryModel>) -> Seq<Seq<char>>
    decreases t.len(),
{
    if t.len() == 0 {
        Seq::empty()
    } else {
        missing_of(t.drop_last()) + (if unfilled(t.last()) {
            seq![t.last().key]
        } else {
            Seq::empty()
        })
    }
}

/// A table with no missing keys holds a value in every entry, a non-empty
/// one where the entry requires it.
proof fn lemma_no_missing_all_present(t: Seq<EnvEntryModel>)
    requires
        missing_of(t).len() == 0,
    ensures
        forall|i: int| 0 <= i < t.len() ==> !unfilled(#[trigger] t[i]),
    decreases t.len(),
{
    if t.len() > 0 {
        assert(missing_of(t.drop_last()).len() == 0);
        lemma_no_missing_all_present(t.drop_last());
        if unfilled(t.last()) {
            assert(missing_of(t).len() >= 1);
        }
        assert forall|i: int| 0 <= i < t.len() - 1 implies !unfilled(#[trigger] t[i]) by {
            assert(t[i] == t.drop_last()[i]);
        }
        assert(t[t.len() - 1] == t.last());
    }
}

/// The process configuration, immutable for the process lifetime: where the
/// torrent client and the media server are, how to authenticate to each,
/// the trailing window a session must be active within, and the poll
/// interval.
pub struct Config {
    pub qb_address: String,
    pub qb_username: String,
    pub qb_password: String,
    pub jellyfin_address: String,
    pub jellyfin_api_token: String,
    pub jellyfin_active_within_secs: u64,
    pub poll_time_secs: u64,
}

/// The numeric value a setting denotes, or the default when it is not a
/// valid positive integer: a malformed numeral and an explicit zero both
/// fall back, so a loaded interval is never zero and the loop never spins
/// without a wait.
pub open spec fn parse_or_default(s: Seq<char>, d: u64) -> u64 {
    match parse_u64_model(s) {
        Some(v) => if v == 0 {
            d
        } else {
            v
        },
        None => d,
    }
}

/// The configuration invariant: every string field non-empty, every
/// interval non-zero.
pub open spec fn config_wellformed(c: Config) -> bool {
    &&& c.qb_address@.len() > 0
    &&& c.qb_username@.len() > 0
    &&& c.qb_password@.len() > 0
    &&& c.jellyfin_address@.len() > 0
    &&& c.jellyfin_api_token@.len() > 0
    &&& c.jellyfin_active_within_secs > 0
    &&& c.poll_time_secs > 0
}

/// How a fully supplied settings table reads as a configuration.
pub open spec fn config_matches(c: Config, t: Seq<EnvEntryModel>) -> bool
    recommends
        t.len() == 7,
        forall|i: int| 0 <= i < t.len() ==> (#[trigger] t[i]).value is Some,
{
    &&& c.qb_address@ == t[0].value.unwrap()
    &&& c.qb_username@ == t[1].value.unwrap()
    &&& c.qb_password@ == t[2].value.unwrap()
    &&& c.jellyfin_address@ == t[3].value.unwrap()
    &&& c.jellyfin_api_token@ == t[4].value.unwrap()
    &&& c.jellyfin_active_within_secs == parse_or_default(
        t[5].value.unwrap(),
        DEFAULT_JELLYFIN_ACTIVE_WITHIN_SECS,
    )
    &&& c.poll_time_secs == parse_or_default(t[6].value.unwrap(), DEFAULT_POLL_TIME_SECS)
}

/// The model of a list of keys.
pub open spec fn keys_model(v: Seq<String>) -> Seq<Seq<char>> {
    Seq::new(v.len(), |i: int| v[i]@)
}

/// The value held in a settings entry known to be supplied.
fn supplied_value(e: &EnvEntry) -> (v: String)
    requires
        e@.value is Some,
    ensures
        v@ == e@.value.unwrap(),
{
    match &e.value {
        Some(v) => v.clone(),
        None => vstd::pervasive::unreached(),
    }
}

/// Builds the configuration from the process environment and the variable
/// file, the latter overriding the former, both overriding the defaults.
///
/// Returns the configuration exactly when every required setting is
/// supplied and non-empty; otherwise returns the blocking keys, in table
/// order. A numeric setting that is not a valid positive integer falls back
/// to its default rather than failing; a loaded configuration always has
/// non-empty string fields and non-zero intervals.
pub fn load_config(env_vars: &Vec<EnvPair>, dot_env_vars: &Vec<EnvPair>) -> (r: Result<
    Config,
    Vec<String>,
>)
    ensures
        ({
            let t = apply_all(
                apply_all(default_table_model(), pairs_model(env_vars@)),
                pairs_model(dot_env_vars@),
            );
            match r {
                Ok(c) => missing_of(t).len() == 0 && config_matches(c, t)
                    && config_wellformed(c),
                Err(keys) => missing_of(t).len() > 0 && keys_model(keys@) == missing_of(t),
            }
        }),
{
    let mut table = default_env_table();
    apply_env(&mut table, env_vars);
    apply_env(&mut table, dot_env_vars);
    let ghost t = table_model(table@);
    proof {
        lemma_apply_all_keeps_keys(default_table_model(), pairs_model(env_vars@));
        lemma_apply_all_keeps_keys(
            apply_all(default_table_model(), pairs_model(env_vars@)),
            pairs_model(dot_env_vars@),
        );
        assert(table@.len() == 7);
    }
    let mut missing: Vec<String> = Vec::new();
    let mut i: usize = 0;
    while i < table.len()
        invariant
            i <= table@.len(),
            t == table_model(table@),
            keys_model(missing@) == missing_of(t.take(i as int)),
        decreases table@.len() - i,
    {
        let ghost before = t.take(i as int);
        proof {
            assert(t.take(i + 1 as int).drop_last() =~= before);
            assert(t.take(i + 1 as int).last() == t[i as int]);
        }
        let entry = &table[i];
        let entry_missing = match &entry.value {
            None => true,
            Some(v) => entry.required && v.as_str().is_empty(),
        };
        if entry_missing {
            missing.push(entry.key.clone());
            proof {
                assert(keys_model(missing@) =~= missing_of(t.take(i + 1 as int)));
            }
        } else {
            proof {
                assert(keys_model(missing@) =~= missing_of(t.take(i + 1 as int)));
            }
        }
        i += 1;
    }
    proof {
        assert(t.take(t.len() as int) =~= t);
    }
    if missing.len() > 0 {
        return Err(missing);
    }
    proof {
        lemma_no_missing_all_present(t);
        assert(table@[0]@ == t[0] && table@[1]@ == t[1] && table@[2]@ == t[2] && table@[3]@
            == t[3] && table@[4]@ == t[4] && table@[5]@ == t[5] && table@[6]@ == t[6]);
    }
    let active_within_raw = supplied_value(&table[5]);
    let poll_raw = supplied_value(&table[6]);
    let jellyfin_active_within_secs = match parse_u64_trimmed(&active_within_raw) {
        Some(v) => if v == 0 {
            DEFAULT_JELLYFIN_ACTIVE_WITHIN_SECS
        } else {
            v
        },
        None => DEFAULT_JELLYFIN_ACTIVE_WITHIN_SECS,
    };
    let poll_time_secs = match parse_u64_trimmed(&poll_raw) {
        Some(v) => if v == 0 {
            DEFAULT_POLL_TIME_SECS
        } else {
            v
        },
        None => DEFAULT_POLL_TIME_SECS,
    };
    Ok(
        Config {
            qb_address: supplied_value(&table[0]),
            qb_username: supplied_value(&table[1]),
            qb_password: supplied_value(&table[2]),
            jellyfin_address: supplied_value(&table[3]),
            jellyfin_api_token: supplied_value(&table[4]),
            jellyfin_active_within_secs,
            poll_time_secs,
        },
    )
}

/// Whether a supplied numeric setting falls back to its default: it does
/// exactly when it does not denote a positive integer.
pub open spec fn numeric_falls_back(s: Seq<char>) -> bool {
    match parse_u64_model(s) {
        Some(v) => v == 0,
        None => true,
    }
}

/// The keys of the numeric settings whose supplied value falls back to its
/// default, in table order.
pub open spec fn fallback_keys_of(t: Seq<EnvEntryModel>) -> Seq<Seq<char>>
    recommends
        t.len() == 7,
{
    (if t[5].value matches Some(v) && numeric_falls_back(v) {
        seq![t[5].key]
    } else {
        Seq::empty()
    }) + (if t[6].value matches Some(v) && numeric_falls_back(v) {
        seq![t[6].key]
    } else {
        Seq::empty()
    })
}

/// Whether one numeric setting falls back, with its key when it does.
fn numeric_fallback_key(e: &EnvEntry) -> (r: Option<String>)
    ensures
        (match r {
            Some(k) => e@.value matches Some(v) && numeric_falls_back(v) && k@ == e@.key,
            None => !(e@.value matches Some(v) && numeric_falls_back(v)),
        }),
{
    match &e.value {
        Some(v) => {
            let falls_back = match parse_u64_trimmed(v) {
                Some(n) => n == 0,
                None => true,
            };
            if falls_back {
                Some(e.key.clone())
            } else {
                None
            }
        },
        None => None,
    }
}

/// The numeric settings whose supplied value does not denote a positive
/// integer and so falls back to its default, in table order: the keys that
/// the driver should report, since `load_config` applies the fallback
/// silently.
pub fn fallback_numeric_keys(env_vars: &Vec<EnvPair>, dot_env_vars: &Vec<EnvPair>) -> (r: Vec<
    String,
>)
    ensures
        ({
            let t = apply_all(
                apply_all(default_table_model(), pairs_model(env_vars@)),
                pairs_model(dot_env_vars@),
            );
            keys_model(r@) == fallback_keys_of(t)
        }),
{
    let mut table = default_env_table();
    apply_env(&mut table, env_vars);
    apply_env(&mut table, dot_env_vars);
    let ghost t = table_model(table@);
    proof {
        lemma_apply_all_keeps_keys(default_table_model(), pairs_model(env_vars@));
        lemma_apply_all_keeps_keys(
            apply_all(default_table_model(), pairs_model(env_vars@)),
            pairs_model(dot_env_vars@),
        );
        assert(table@.len() == 7);
        assert(table@[5]@ == t[5] && table@[6]@ == t[6]);
    }
    let mut r: Vec<String> = Vec::new();
    match numeric_fallback_key(&table[5]) {
        Some(k) => r.push(k),
        None => {},
    }
    match numeric_fallback_key(&table[6]) {
        Some(k) => r.push(k),
        None => {},
    }
    proof {
        assert(keys_model(r@) =~= fallback_keys_of(t));
    }
    r
}

} // verus!
