use vstd::prelude::*;
use vstd::string::*;
use crate::db::Wallpaper;
use crate::errors::{AppError, AppResult};
use crate::settings::{b, flag_set, i64_opt, i64_setting, non_empty, non_empty_setting, u64_or, u64_setting_or, SettingsMap};
use crate::sources::{source_name, SourceKind};
use crate::text::{i64_text, i64_to_text, join2, join3, lemma_i64_text_round_trip, lemma_u64_text_round_trip, parse_i64_spec, parse_u64_spec, str_eq, u64_text};

verus! {

/// The settings as the settings window shows them.
#[derive(Debug, Clone, PartialEq, Eq)]
pub struct SettingsDto {
    pub interval_seconds: u64,
    pub paused: bool,
    pub active_collection_id: Option<i64>,
    pub source_unsplash_enabled: bool,
    pub source_bing_enabled: bool,
    pub unsplash_key_set: bool,
    pub login_at_startup: bool,
}

impl Default for SettingsDto {
    fn default() -> (r: SettingsDto)
        ensures
            r == (SettingsDto {
                interval_seconds: 0,
                paused: false,
                active_collection_id: None,
                source_unsplash_enabled: false,
                source_bing_enabled: false,
                unsplash_key_set: false,
                login_at_startup: false,
            }),
    {
        SettingsDto {
            interval_seconds: 0,
            paused: false,
            active_collection_id: None,
            source_unsplash_enabled: false,
            source_bing_enabled: false,
            unsplash_key_set: false,
            login_at_startup: false,
        }
    }
}

/// The settings window's view of the settings, with whether the
/// application starts at login.
pub open spec fn settings_dto_spec(m: Map<Seq<char>, Seq<char>>, login_at_startup: bool) -> SettingsDto {
    SettingsDto {
        interval_seconds: u64_setting_or(m, "interval_seconds"@, 3600),
        paused: flag_set(m, "paused"@),
        active_collection_id: i64_setting(m, "active_collection_id"@),
        source_unsplash_enabled: flag_set(m, "source_unsplash_enabled"@),
        source_bing_enabled: flag_set(m, "source_bing_enabled"@),
        unsplash_key_set: non_empty_setting(m, "unsplash_api_key"@),
        login_at_startup,
    }
}

impl SettingsDto {
    /// The settings window's view of the settings.
    pub fn from_settings(s: &SettingsMap, login_at_startup: bool) -> (r: SettingsDto)
        ensures
            r == settings_dto_spec(s@, login_at_startup),
    {
        SettingsDto {
            interval_seconds: u64_or(s, "interval_seconds", 3600),
            paused: b(s, "paused"),
            active_collection_id: i64_opt(s, "active_collection_id"),
            source_unsplash_enabled: b(s, "source_unsplash_enabled"),
            source_bing_enabled: b(s, "source_bing_enabled"),
            unsplash_key_set: non_empty(s, "unsplash_api_key"),
            login_at_startup,
        }
    }
}

/// What the popover shows: the current wallpaper and the rotation settings.
#[derive(Debug, Clone)]
pub struct AppState {
    pub current: Option<Wallpaper>,
    pub paused: bool,
    pub interval_seconds: u64,
    pub active_collection_id: Option<i64>,
    pub error_banner: Option<String>,
}

impl AppState {
    /// The popover's state, from the settings and the wallpaper applied last.
    pub fn from_parts(s: &SettingsMap, current: Option<Wallpaper>) -> (r: AppState)
        ensures
            r.current == current,
            r.paused == flag_set(s@, "paused"@),
            r.interval_seconds == u64_setting_or(s@, "interval_seconds"@, 3600),
            r.active_collection_id == i64_setting(s@, "active_collection_id"@),
            r.error_banner is None,
    {
        AppState {
            current,
            paused: b(s, "paused"),
            interval_seconds: u64_or(s, "interval_seconds", 3600),
            active_collection_id: i64_opt(s, "active_collection_id"),
            error_banner: None,
        }
    }
}

/// The text a boolean setting is stored as.
pub fn bool_text(v: bool) -> (r: String)
    ensures
        r@ == (if v { "true"@ } else { "false"@ }),
{
    if v {
        String::from_str("true")
    } else {
        String::from_str("false")
    }
}

/// The value the tray's pause item writes: the opposite of the current one.
pub fn toggled_paused(s: &SettingsMap) -> (r: String)
    ensures
        r@ == (if flag_set(s@, "paused"@) { "false"@ } else { "true"@ }),
{
    bool_text(!b(s, "paused"))
}

/// The text a collection id is stored as when it becomes the active one.
pub fn collection_id_text(id: i64) -> (r: String)
    ensures
        r@ == i64_text(id),
{
    i64_to_text(id)
}

/// The setting that holds a source's API key: `{source}_api_key`.
pub fn api_key_setting(source: SourceKind) -> (r: String)
    ensures
        r@ == source_name(source) + "_api_key"@,
{
    join2(source.as_str(), "_api_key")
}

/// Whether the history shows one wallpaper per display.
pub fn per_display_mode(s: &SettingsMap) -> (r: bool)
    ensures
        r == flag_set(s@, "per_display_mode"@),
{
    b(s, "per_display_mode")
}

// ---------------------------------------------------------------------------
// Updating settings from the settings window
// ---------------------------------------------------------------------------

/// The settings that the settings window may write.
pub open spec fn writable(k: Seq<char>) -> bool {
    k == "interval_seconds"@ || k == "paused"@ || k == "active_collection_id"@ || k
        == "source_unsplash_enabled"@ || k == "source_bing_enabled"@
}

/// Whether the settings window may write `k`.
pub fn is_writable(k: &str) -> (r: bool)
    ensures
        r == writable(k@),
{
    str_eq(k, "interval_seconds") || str_eq(k, "paused") || str_eq(k, "active_collection_id")
        || str_eq(k, "source_unsplash_enabled") || str_eq(k, "source_bing_enabled")
}

/// A value of a settings patch, as the JSON of the patch holds it.
#[derive(Debug, Clone)]
pub enum PatchValue {
    Bool(bool),
    /// A number, in the text that JSON writes for it.
    Number(String),
    Text(String),
    Null,
    /// An array or an object.
    Other,
}

/// The text a patch value is stored as; none for arrays and objects, which are skipped.
pub open spec fn value_text(v: PatchValue) -> Option<Seq<char>> {
    match v {
        PatchValue::Bool(x) => Some(if x { "true"@ } else { "false"@ }),
        PatchValue::Number(n) => Some(n@),
        PatchValue::Text(t) => Some(t@),
        PatchValue::Null => Some(""@),
        PatchValue::Other => None,
    }
}

/// The text a patch value is stored as.
pub fn patch_value_text(v: &PatchValue) -> (r: Option<String>)
    ensures
        r is Some <==> value_text(*v) is Some,
        r is Some ==> r->0@ == value_text(*v)->0,
{
    match v {
        PatchValue::Bool(x) => Some(bool_text(*x)),
        PatchValue::Number(n) => Some(n.clone()),
        PatchValue::Text(t) => Some(t.clone()),
        PatchValue::Null => Some(String::from_str("")),
        PatchValue::Other => None,
    }
}

/// The writes that a patch makes, in order, and the key that stops it.
pub struct PlanSpec {
    pub writes: Seq<(Seq<char>, Seq<char>)>,
    pub rejected: Option<Seq<char>>,
}

/// The writes of a patch: each entry in turn is written as its text (arrays
/// and objects are skipped), until the first key that may not be written,
/// which stops the patch.
pub open spec fn plan_spec(entries: Seq<(String, PatchValue)>) -> PlanSpec
    decreases entries.len(),
{
    if entries.len() == 0 {
        PlanSpec { writes: Seq::empty(), rejected: None }
    } else if !writable(entries[0].0@) {
        PlanSpec { writes: Seq::empty(), rejected: Some(entries[0].0@) }
    } else {
        let rest = plan_spec(entries.skip(1));
        match value_text(entries[0].1) {
            Some(t) => PlanSpec { writes: seq![(entries[0].0@, t)] + rest.writes, rejected: rest.rejected },
            None => rest,
        }
    }
}

/// The key/value pairs of a list of writes, as characters.
pub open spec fn writes_view(w: Seq<(String, String)>) -> Seq<(Seq<char>, Seq<char>)> {
    w.map_values(|p: (String, String)| (p.0@, p.1@))
}

/// The error that a key the settings window may not write gives.
pub open spec fn not_writable_message(k: Seq<char>) -> Seq<char> {
    "setting '"@ + k + "' is not writable"@
}

/// The writes of a settings patch, and the error that stops it.
pub struct PatchPlan {
    pub writes: Vec<(String, String)>,
    pub rejected: Option<AppError>,
}

/// What a settings patch does: the settings to write, in order, and the
/// `Invalid("setting '{k}' is not writable")` error of the first key that
/// may not be written, which ends the patch.
pub fn plan_settings_patch(entries: &Vec<(String, PatchValue)>) -> (r: PatchPlan)
    ensures
        writes_view(r.writes@) == plan_spec(entries@).writes,
        plan_spec(entries@).rejected is None ==> r.rejected is None,
        plan_spec(entries@).rejected matches Some(k) ==> (r.rejected matches Some(AppError::Invalid(m))
            && m@ == not_writable_message(k)),
{
    let mut writes: Vec<(String, String)> = Vec::new();
    let mut i: usize = 0;
    assert(entries@.skip(0) =~= entries@);
    assert(writes_view(writes@) =~= Seq::empty());
    while i < entries.len()
        invariant
            i <= entries@.len(),
            plan_spec(entries@).writes == writes_view(writes@) + plan_spec(entries@.skip(i as int)).writes,
            plan_spec(entries@).rejected == plan_spec(entries@.skip(i as int)).rejected,
        decreases entries@.len() - i,
    {
        let ghost rest = entries@.skip(i as int);
        assert(rest[0] == entries@[i as int]);
        assert(rest.skip(1) =~= entries@.skip(i + 1));
        let k = &entries[i].0;
        if !is_writable(k.as_str()) {
            let msg = join3("setting '", k.as_str(), "' is not writable");
            assert(plan_spec(entries@.skip(i as int)).writes =~= Seq::empty());
            assert(plan_spec(entries@).writes =~= writes_view(writes@));
            return PatchPlan { writes, rejected: Some(AppError::Invalid(msg)) };
        }
        match patch_value_text(&entries[i].1) {
            Some(t) => {
                let ghost before = writes@;
                writes.push((k.clone(), t));
                assert(writes_view(writes@) =~= writes_view(before).push((k@, value_text(entries@[i as int].1)->0)));
                assert(writes_view(writes@) + plan_spec(entries@.skip(i + 1)).writes =~= writes_view(before)
                    + (seq![(k@, value_text(entries@[i as int].1)->0)] + plan_spec(entries@.skip(i + 1)).writes));
            },
            None => {},
        }
        i = i + 1;
    }
    assert(entries@.skip(i as int) =~= Seq::<(String, PatchValue)>::empty());
    assert(plan_spec(entries@).writes =~= writes_view(writes@));
    PatchPlan { writes, rejected: None }
}

/// A patch never writes a setting that the settings window may not write,
/// and it is stopped only by a key that may not be written.
pub proof fn law_patch_writes_only_writable(entries: Seq<(String, PatchValue)>)
    ensures
        forall|j: int|
            0 <= j < plan_spec(entries).writes.len() ==> writable(#[trigger] plan_spec(entries).writes[j].0),
        plan_spec(entries).rejected matches Some(k) ==> !writable(k),
    decreases entries.len(),
{
    if entries.len() > 0 && writable(entries[0].0@) {
        law_patch_writes_only_writable(entries.skip(1));
        let rest = plan_spec(entries.skip(1));
        match value_text(entries[0].1) {
            Some(t) => {
                let w = seq![(entries[0].0@, t)] + rest.writes;
                assert forall|j: int| 0 <= j < w.len() implies writable(#[trigger] w[j].0) by {
                    if j > 0 {
                        assert(w[j] == rest.writes[j - 1]);
                    }
                }
            },
            None => {},
        }
    }
}

/// What the settings window writes, it reads back: an interval written as
/// its number, a pause written as `true`/`false`, and an active collection
/// written as its id show up unchanged in the settings window's view.
pub proof fn law_settings_read_back(m: Map<Seq<char>, Seq<char>>, interval: u64, paused: bool, id: i64, login: bool)
    ensures
        settings_dto_spec(m.insert("interval_seconds"@, u64_text(interval)), login).interval_seconds == interval,
        settings_dto_spec(m.insert("paused"@, if paused { "true"@ } else { "false"@ }), login).paused == paused,
        settings_dto_spec(m.insert("active_collection_id"@, i64_text(id)), login).active_collection_id == Some(id),
{
    lemma_u64_text_round_trip(interval);
    lemma_i64_text_round_trip(id);
    reveal_strlit("true");
    reveal_strlit("false");
    assert("true"@.len() != "false"@.len());
}

/// The tray's pause item flips the pause: after it writes its value, the
/// settings are paused exactly when they were not.
pub proof fn law_toggle_flips_pause(m: Map<Seq<char>, Seq<char>>)
    ensures
        flag_set(
            m.insert("paused"@, if flag_set(m, "paused"@) { "false"@ } else { "true"@ }),
            "paused"@,
        ) == !flag_set(m, "paused"@),
{
    reveal_strlit("true");
    reveal_strlit("false");
    assert("true"@.len() != "false"@.len());
}

/// The settings window shows each field from its own setting: each flag is
/// on exactly when its own setting holds `true`, whatever the other flags
/// hold; the key counts as set exactly when `unsplash_api_key` is not empty;
/// the interval and the active collection are the numbers their settings
/// hold (3600 and none otherwise); the start-at-login flag is the one given.
/// A source flag written by the settings window reads back.
pub proof fn law_settings_view_fields(m: Map<Seq<char>, Seq<char>>, login: bool, on: bool)
    ensures
        settings_dto_spec(m, login).paused == (m.contains_key("paused"@) && m["paused"@] == "true"@),
        settings_dto_spec(m, login).source_unsplash_enabled == (m.contains_key("source_unsplash_enabled"@)
            && m["source_unsplash_enabled"@] == "true"@),
        settings_dto_spec(m, login).source_bing_enabled == (m.contains_key("source_bing_enabled"@)
            && m["source_bing_enabled"@] == "true"@),
        settings_dto_spec(m, login).unsplash_key_set == (m.contains_key("unsplash_api_key"@)
            && m["unsplash_api_key"@].len() > 0),
        settings_dto_spec(m, login).login_at_startup == login,
        m.contains_key("interval_seconds"@) && parse_u64_spec(m["interval_seconds"@]) is Some
            ==> settings_dto_spec(m, login).interval_seconds == parse_u64_spec(m["interval_seconds"@])->0,
        !(m.contains_key("interval_seconds"@) && parse_u64_spec(m["interval_seconds"@]) is Some)
            ==> settings_dto_spec(m, login).interval_seconds == 3600,
        settings_dto_spec(m, login).active_collection_id == (if m.contains_key("active_collection_id"@) {
            parse_i64_spec(m["active_collection_id"@])
        } else {
            None
        }),
        settings_dto_spec(m.insert("source_bing_enabled"@, if on { "true"@ } else { "false"@ }), login).source_bing_enabled
            == on,
        settings_dto_spec(m.insert("source_unsplash_enabled"@, if on { "true"@ } else { "false"@ }), login).source_unsplash_enabled
            == on,
        settings_dto_spec(m.insert("source_bing_enabled"@, if on { "true"@ } else { "false"@ }), login).source_unsplash_enabled
            == settings_dto_spec(m, login).source_unsplash_enabled,
{
    reveal_strlit("true");
    reveal_strlit("false");
    reveal_strlit("source_bing_enabled");
    reveal_strlit("source_unsplash_enabled");
    assert("true"@.len() != "false"@.len());
    assert("source_bing_enabled"@.len() != "source_unsplash_enabled"@.len());
}

} // verus!
