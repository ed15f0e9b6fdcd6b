use vstd::prelude::*;
use vstd::string::*;
use crate::text::{parse_i64, parse_i64_spec, parse_u64, parse_u64_spec, str_eq};

verus! {

/// The map that a list of key/value rows makes when the rows are inserted in
/// order: a later row for a key replaces an earlier one.
pub open spec fn pairs_map(s: Seq<(String, String)>) -> Map<Seq<char>, Seq<char>>
    decreases s.len(),
{
    if s.len() == 0 {
        Map::empty()
    } else {
        pairs_map(s.drop_last()).insert(s.last().0@, s.last().1@)
    }
}

/// The key/value settings of the application, as stored in its settings table.
pub struct SettingsMap {
    entries: Vec<(String, String)>,
}

impl View for SettingsMap {
    type V = Map<Seq<char>, Seq<char>>;

    closed spec fn view(&self) -> Map<Seq<char>, Seq<char>> {
        pairs_map(self.entries@)
    }
}

/// A key that no row after position `i` holds has the same entry (or none)
/// in the whole list as in its first `i` rows.
proof fn lemma_pairs_map_prefix(s: Seq<(String, String)>, i: int, k: Seq<char>)
    requires
        0 <= i <= s.len(),
        forall|j: int| i <= j < s.len() ==> (#[trigger] s[j]).0@ != k,
    ensures
        pairs_map(s).contains_key(k) == pairs_map(s.take(i)).contains_key(k),
        pairs_map(s).contains_key(k) ==> pairs_map(s)[k] == pairs_map(s.take(i))[k],
    decreases s.len() - i,
{
    if i == s.len() {
        assert(s.take(i) =~= s);
    } else {
        let t = s.drop_last();
        assert(s[s.len() - 1] == s.last());
        assert forall|j: int| i <= j < t.len() implies (#[trigger] t[j]).0@ != k by {
            assert(t[j] == s[j]);
        }
        lemma_pairs_map_prefix(t, i, k);
        assert(t.take(i) =~= s.take(i));
    }
}

impl SettingsMap {
    /// A map with no settings.
    pub fn new() -> (m: SettingsMap)
        ensures
            m@ == Map::<Seq<char>, Seq<char>>::empty(),
    {
        SettingsMap { entries: Vec::new() }
    }

    /// The map that the rows make when inserted in order (as collecting them
    /// into a `HashMap` does).
    pub fn from_pairs(pairs: Vec<(String, String)>) -> (m: SettingsMap)
        ensures
            m@ == pairs_map(pairs@),
    {
        SettingsMap { entries: pairs }
    }

    /// Sets `key` to `value`, replacing what it held.
    pub fn insert(&mut self, key: String, value: String)
        ensures
            final(self)@ == old(self)@.insert(key@, value@),
    {
        let ghost before = self.entries@;
        self.entries.push((key, value));
        assert(self.entries@.drop_last() =~= before);
    }

    /// The value held for `key`, if any.
    pub fn get(&self, key: &str) -> (r: Option<&String>)
        ensures
            r is Some <==> self@.contains_key(key@),
            r is Some ==> r->0@ == self@[key@],
    {
        let ghost s = self.entries@;
        let mut i = self.entries.len();
        while i > 0
            invariant
                s == self.entries@,
                i <= s.len(),
                forall|j: int| i <= j < s.len() ==> (#[trigger] s[j]).0@ != key@,
            decreases i,
        {
            if str_eq(self.entries[i - 1].0.as_str(), key) {
                proof {
                    lemma_pairs_map_prefix(s, i as int, key@);
                    assert(s.take(i as int).drop_last() =~= s.take(i - 1));
                    assert(s.take(i as int).last() == s[i - 1]);
                }
                return Some(&self.entries[i - 1].1);
            }
            i = i - 1;
        }
        proof {
            lemma_pairs_map_prefix(s, 0, key@);
            assert(s.take(0) =~= Seq::<(String, String)>::empty());
        }
        None
    }
}

/// Whether the setting `key` holds exactly `"true"`.
pub open spec fn flag_set(m: Map<Seq<char>, Seq<char>>, key: Seq<char>) -> bool {
    m.contains_key(key) && m[key] == "true"@
}

/// The setting `key` read as a `u64`, or `default` when it is missing or not a number.
pub open spec fn u64_setting_or(m: Map<Seq<char>, Seq<char>>, key: Seq<char>, default: u64) -> u64 {
    if m.contains_key(key) && parse_u64_spec(m[key]) is Some {
        parse_u64_spec(m[key])->0
    } else {
        default
    }
}

/// The setting `key` read as an `i64`, if it is present and a number.
pub open spec fn i64_setting(m: Map<Seq<char>, Seq<char>>, key: Seq<char>) -> Option<i64> {
    if m.contains_key(key) {
        parse_i64_spec(m[key])
    } else {
        None
    }
}

/// Whether the setting `key` is present and not the empty string.
pub open spec fn non_empty_setting(m: Map<Seq<char>, Seq<char>>, key: Seq<char>) -> bool {
    m.contains_key(key) && m[key].len() > 0
}

/// `map.get(k).map(String::as_str) == Some("true")`.
pub fn b(map: &SettingsMap, k: &str) -> (r: bool)
    ensures
        r == flag_set(map@, k@),
{
    match map.get(k) {
        Some(v) => str_eq(v.as_str(), "true"),
        None => false,
    }
}

/// `map.get(k).and_then(|x| x.parse::<u64>().ok()).unwrap_or(default)`.
pub fn u64_or(map: &SettingsMap, k: &str, default: u64) -> (r: u64)
    ensures
        r == u64_setting_or(map@, k@, default),
{
    match map.get(k) {
        Some(v) => match parse_u64(v.as_str()) {
            Some(n) => n,
            None => default,
        },
        None => default,
    }
}

/// `map.get(k).and_then(|x| x.parse::<i64>().ok())`.
pub fn i64_opt(map: &SettingsMap, k: &str) -> (r: Option<i64>)
    ensures
        r == i64_setting(map@, k@),
{
    match map.get(k) {
        Some(v) => parse_i64(v.as_str()),
        None => None,
    }
}

/// `map.get(k).map(|v| !v.is_empty()).unwrap_or(false)`.
pub fn non_empty(map: &SettingsMap, k: &str) -> (r: bool)
    ensures
        r == non_empty_setting(map@, k@),
{
    match map.get(k) {
        Some(v) => v.as_str().unicode_len() > 0,
        None => false,
    }
}

/// A setting, once written, reads back as written; other settings keep their values.
pub proof fn law_insert_then_get(m: SettingsMap, key: Seq<char>, value: Seq<char>, other: Seq<char>)
    requires
        other != key,
    ensures
        m@.insert(key, value).contains_key(key),
        m@.insert(key, value)[key] == value,
        m@.insert(key, value).contains_key(other) == m@.contains_key(other),
        m@.contains_key(other) ==> m@.insert(key, value)[other] == m@[other],
{
}

} // verus!
