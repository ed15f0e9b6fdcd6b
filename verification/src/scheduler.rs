use vstd::prelude::*;
use vstd::string::*;
use crate::db::{tags_for, tags_of, Collection, Wallpaper};
use crate::errors::{error_text, retryable, AppError, AppResult};
use crate::settings::{b, flag_set, i64_opt, i64_setting, non_empty, non_empty_setting, u64_or, u64_setting_or, SettingsMap};
use crate::sources::{ctx_key, ctx_key_for, source_debug_name, source_name, FetchContext, FetchedImage, PerSource, SourceKind};
use crate::text::{i64_text, i64_to_text, join2, join3, lemma_i64_text_round_trip, parse_i64_spec, parse_u64_spec, str_eq};

verus! {

/// What the rest of the application asks of the scheduler.
#[derive(Debug)]
pub enum SchedulerMsg {
    NextNow,
    Reschedule,
    Wake,
    Shutdown,
}

/// What woke the scheduler up.
#[derive(Debug)]
pub enum Wakeup {
    /// The next rotation fell due.
    Deadline,
    /// A message arrived.
    Message(SchedulerMsg),
    /// Every sender is gone.
    Closed,
}

/// What the scheduler does next.
#[derive(Debug, PartialEq, Eq, Structural)]
pub enum SchedulerAction {
    /// Rotate the wallpaper now, then compute the next deadline.
    Rotate,
    /// Compute the next deadline from the settings.
    Recompute,
    /// Read the settings and the clock again, and rotate if a rotation is overdue.
    CheckOverdue,
    /// Leave the loop.
    Stop,
}

/// The settings that the timing of rotations depends on.
#[derive(Debug, Clone, Copy, PartialEq, Eq, Structural)]
pub struct Schedule {
    pub paused: bool,
    pub interval_seconds: u64,
    pub last_rotation_at: i64,
}

/// The schedule that the settings describe: `paused` when it holds `"true"`,
/// an interval of 3600 seconds unless a number is set, and a last rotation
/// at 0 unless a number is set.
pub open spec fn schedule_spec(m: Map<Seq<char>, Seq<char>>) -> Schedule {
    Schedule {
        paused: flag_set(m, "paused"@),
        interval_seconds: u64_setting_or(m, "interval_seconds"@, 3600),
        last_rotation_at: match i64_setting(m, "last_rotation_at"@) {
            Some(v) => v,
            None => 0,
        },
    }
}

pub open spec fn clamp_i64(x: int) -> i64 {
    if x > i64::MAX {
        i64::MAX
    } else if x < i64::MIN {
        i64::MIN
    } else {
        x as i64
    }
}

/// When the next rotation is due: never (`i64::MAX`) while paused, else the
/// last rotation plus the interval (the interval cast to `i64`), saturated.
pub open spec fn next_due_spec(s: Schedule) -> i64 {
    if s.paused {
        i64::MAX
    } else {
        clamp_i64(s.last_rotation_at + (s.interval_seconds as i64))
    }
}

/// How many seconds to sleep at `now` before the next rotation.
pub open spec fn wait_spec(s: Schedule, now: i64) -> u64 {
    let due = next_due_spec(s);
    if due <= now {
        0
    } else {
        (due - now) as u64
    }
}

/// Whether a rotation is overdue at `now` (the pause is not consulted).
pub open spec fn overdue_spec(s: Schedule, now: i64) -> bool {
    now - s.last_rotation_at >= (s.interval_seconds as i64)
}

/// What the scheduler does when woken, given whether rotation is paused.
pub open spec fn action_spec(w: Wakeup, paused: bool) -> SchedulerAction {
    match w {
        Wakeup::Deadline => if paused {
            SchedulerAction::Recompute
        } else {
            SchedulerAction::Rotate
        },
        Wakeup::Message(SchedulerMsg::NextNow) => SchedulerAction::Rotate,
        Wakeup::Message(SchedulerMsg::Reschedule) => SchedulerAction::Recompute,
        Wakeup::Message(SchedulerMsg::Wake) => SchedulerAction::CheckOverdue,
        Wakeup::Message(SchedulerMsg::Shutdown) => SchedulerAction::Stop,
        Wakeup::Closed => SchedulerAction::Stop,
    }
}

impl Schedule {
    /// The schedule that the settings describe.
    pub fn from_settings(settings: &SettingsMap) -> (s: Schedule)
        ensures
            s == schedule_spec(settings@),
    {
        let paused = b(settings, "paused");
        let interval_seconds = u64_or(settings, "interval_seconds", 3600);
        let last_rotation_at = match i64_opt(settings, "last_rotation_at") {
            Some(v) => v,
            None => 0,
        };
        Schedule { paused, interval_seconds, last_rotation_at }
    }

    /// When the next rotation is due, in seconds since the epoch.
    pub fn next_due(&self) -> (r: i64)
        ensures
            r == next_due_spec(*self),
    {
        if self.paused {
            i64::MAX
        } else {
            let interval = self.interval_seconds as i64;
            match self.last_rotation_at.checked_add(interval) {
                Some(v) => v,
                None => if interval > 0 {
                    i64::MAX
                } else {
                    i64::MIN
                },
            }
        }
    }

    /// How many seconds to sleep at `now` before the next rotation.
    pub fn wait_seconds(&self, now: i64) -> (r: u64)
        ensures
            r == wait_spec(*self, now),
    {
        let due = self.next_due();
        if due <= now {
            0
        } else {
            let d: i128 = (due as i128) - (now as i128);
            d as u64
        }
    }

    /// Whether a rotation is overdue at `now`: `now - last >= interval as i64`.
    pub fn is_overdue(&self, now: i64) -> (r: bool)
        requires
            i64::MIN <= now - self.last_rotation_at <= i64::MAX,
        ensures
            r == overdue_spec(*self, now),
    {
        now - self.last_rotation_at >= self.interval_seconds as i64
    }
}

/// What the scheduler does when woken.
pub fn on_wakeup(w: &Wakeup, paused: bool) -> (a: SchedulerAction)
    ensures
        a == action_spec(*w, paused),
{
    match w {
        Wakeup::Deadline => if paused {
            SchedulerAction::Recompute
        } else {
            SchedulerAction::Rotate
        },
        Wakeup::Message(SchedulerMsg::NextNow) => SchedulerAction::Rotate,
        Wakeup::Message(SchedulerMsg::Reschedule) => SchedulerAction::Recompute,
        Wakeup::Message(SchedulerMsg::Wake) => SchedulerAction::CheckOverdue,
        Wakeup::Message(SchedulerMsg::Shutdown) => SchedulerAction::Stop,
        Wakeup::Closed => SchedulerAction::Stop,
    }
}

/// After a wake from sleep: rotate if a rotation is overdue, else compute the next deadline.
pub fn after_wake(s: &Schedule, now: i64) -> (a: SchedulerAction)
    requires
        i64::MIN <= now - s.last_rotation_at <= i64::MAX,
    ensures
        a == (if overdue_spec(*s, now) {
            SchedulerAction::Rotate
        } else {
            SchedulerAction::Recompute
        }),
{
    if s.is_overdue(now) {
        SchedulerAction::Rotate
    } else {
        SchedulerAction::Recompute
    }
}

/// The value that `last_rotation_at` is set to after a rotation at `now`.
pub fn rotation_stamp(now: i64) -> (r: String)
    ensures
        r@ == i64_text(now),
{
    i64_to_text(now)
}

// ---------------------------------------------------------------------------
// One rotation
// ---------------------------------------------------------------------------

/// The sources a rotation may draw from: Unsplash when it is enabled and has
/// a key, then Bing when it is enabled and has not been fetched `today`.
pub open spec fn candidates_spec(m: Map<Seq<char>, Seq<char>>, today: Seq<char>) -> Seq<SourceKind> {
    let u = if flag_set(m, "source_unsplash_enabled"@) && non_empty_setting(m, "unsplash_api_key"@) {
        seq![SourceKind::Unsplash]
    } else {
        Seq::empty()
    };
    let bg = if flag_set(m, "source_bing_enabled"@) && !(m.contains_key("last_bing_fetch_date"@)
        && m["last_bing_fetch_date"@] == today) {
        seq![SourceKind::Bing]
    } else {
        Seq::empty()
    };
    u + bg
}

/// The sources a rotation may draw from.
pub fn candidate_sources(settings: &SettingsMap, today: &str) -> (r: Vec<SourceKind>)
    ensures
        r@ == candidates_spec(settings@, today@),
{
    let mut out: Vec<SourceKind> = Vec::new();
    if b(settings, "source_unsplash_enabled") && non_empty(settings, "unsplash_api_key") {
        out.push(SourceKind::Unsplash);
    }
    let fetched_today = match settings.get("last_bing_fetch_date") {
        Some(d) => str_eq(d.as_str(), today),
        None => false,
    };
    if b(settings, "source_bing_enabled") && !fetched_today {
        out.push(SourceKind::Bing);
    }
    assert(out@ =~= candidates_spec(settings@, today@));
    out
}

/// The collection whose tags a rotation searches for.
pub fn active_collection(settings: &SettingsMap) -> (r: Option<i64>)
    ensures
        r == i64_setting(settings@, "active_collection_id"@),
{
    i64_opt(settings, "active_collection_id")
}

/// The API keys that the settings hold: Unsplash's, when it is set and not empty.
pub fn api_keys_from(settings: &SettingsMap) -> (r: PerSource<String>)
    ensures
        r.as_map().dom() == (if non_empty_setting(settings@, "unsplash_api_key"@) {
            Set::empty().insert(SourceKind::Unsplash)
        } else {
            Set::<SourceKind>::empty()
        }),
        r.as_map().contains_key(SourceKind::Unsplash) ==> r.as_map()[SourceKind::Unsplash]@
            == settings@["unsplash_api_key"@],
{
    let mut keys: PerSource<String> = PerSource::new();
    match settings.get("unsplash_api_key") {
        Some(k) => {
            if k.as_str().unicode_len() > 0 {
                keys.insert(SourceKind::Unsplash, k.clone());
            }
        },
        None => {},
    }
    assert(keys.as_map().dom() =~= (if non_empty_setting(settings@, "unsplash_api_key"@) {
        Set::empty().insert(SourceKind::Unsplash)
    } else {
        Set::<SourceKind>::empty()
    }));
    keys
}

/// The context a rotation fetches with: the tags of the active collection,
/// the keys of the settings, and today's date.
pub fn fetch_context(settings: &SettingsMap, collections: &Vec<Collection>, today: String) -> (r: FetchContext)
    ensures
        r.tags@ == tags_of(collections@, i64_setting(settings@, "active_collection_id"@)),
        r.today == today,
        ctx_key(r, SourceKind::Bing) is None,
        ctx_key(r, SourceKind::Unsplash) == (if non_empty_setting(settings@, "unsplash_api_key"@) {
            Some(settings@["unsplash_api_key"@])
        } else {
            None
        }),
{
    let active = active_collection(settings);
    let tags = tags_for(collections, active);
    let api_keys = api_keys_from(settings);
    FetchContext { tags, api_keys, today }
}

/// The message shown when a source fails: `"{kind:?} failed: {e}"`.
pub fn failure_message(kind: SourceKind, e: &AppError) -> (r: String)
    ensures
        r@ == source_debug_name(kind) + " failed: "@ + error_text(*e),
{
    let text = e.to_string();
    join3(kind.debug_name(), " failed: ", text.as_str())
}

/// The message shown when no source may be used and there is no wallpaper to fall back to.
pub fn no_source_message() -> (r: String)
    ensures
        r@ == "No sources eligible and no fallback available"@,
{
    String::from_str("No sources eligible and no fallback available")
}

fn clone_opt(o: &Option<String>) -> (r: Option<String>)
    ensures
        r == *o,
{
    match o {
        Some(s) => Some(s.clone()),
        None => None,
    }
}

/// The URL of the fetched image; `Invalid("no image url")` when the source gave none.
pub fn image_url_of(f: &FetchedImage) -> (r: AppResult<String>)
    ensures
        f.image_url is Some ==> r == Ok::<String, AppError>(f.image_url->0),
        f.image_url is None ==> (r matches Err(AppError::Invalid(m)) && m@ == "no image url"@),
{
    match &f.image_url {
        Some(u) => Ok(u.clone()),
        None => Err(AppError::Invalid(String::from_str("no image url"))),
    }
}

/// The record of a fetched image, stored at `file_path` at time `now`.
pub fn wallpaper_record(f: &FetchedImage, file_path: String, now: i64) -> (w: Wallpaper)
    ensures
        w.id == 0,
        w.source@ == source_name(f.source),
        w.source_id == f.source_id,
        w.photographer == f.photographer,
        w.title == f.title,
        w.source_url == f.source_url,
        w.file_path == file_path,
        !w.is_local,
        w.width == f.width,
        w.height == f.height,
        w.fetched_at == now,
{
    Wallpaper {
        id: 0,
        source: String::from_str(f.source.as_str()),
        source_id: f.source_id.clone(),
        photographer: clone_opt(&f.photographer),
        title: clone_opt(&f.title),
        source_url: clone_opt(&f.source_url),
        file_path,
        is_local: false,
        width: f.width,
        height: f.height,
        fetched_at: now,
    }
}

/// The request that tells Unsplash a photo was downloaded.
#[derive(Debug, Clone)]
pub struct CompliancePing {
    pub url: String,
    pub authorization: String,
}

/// The download ping owed for a fetched image: when it came with a download
/// location and the context holds an Unsplash key, a request to that
/// location authorized with `Client-ID {key}`.
pub fn compliance_ping(f: &FetchedImage, ctx: &FetchContext) -> (r: Option<CompliancePing>)
    ensures
        r is Some <==> (f.download_location is Some && ctx_key(*ctx, SourceKind::Unsplash) is Some),
        r matches Some(p) ==> p.url == f.download_location->0 && p.authorization@ == "Client-ID "@
            + ctx_key(*ctx, SourceKind::Unsplash)->0,
{
    match &f.download_location {
        Some(dl) => match ctx_key_for(ctx, SourceKind::Unsplash) {
            Some(key) => Some(
                CompliancePing { url: dl.clone(), authorization: join2("Client-ID ", key) },
            ),
            None => None,
        },
        None => None,
    }
}

/// The date to record as Bing's last fetch after a rotation from `kind`: today, for Bing.
pub fn bing_fetch_date(kind: SourceKind, today: &str) -> (r: Option<String>)
    ensures
        kind == SourceKind::Bing ==> (r is Some && r->0@ == today@),
        kind == SourceKind::Unsplash ==> r is None,
{
    match kind {
        SourceKind::Bing => Some(String::from_str(today)),
        SourceKind::Unsplash => None,
    }
}

/// How long a source that failed is left out of rotations, in seconds.
pub const SOURCE_COOLDOWN_SECS: u64 = 300;

/// What the application reports back to a rotation in progress.
#[derive(Debug)]
pub enum RotationEvent {
    /// The pool picked a source, or found none eligible.
    Picked(AppResult<SourceKind>),
    /// A random wallpaper of the history was looked up, for want of a source.
    FallbackFound(Option<Wallpaper>),
    /// The source was fetched, retries included.
    Fetched(SourceKind, AppResult<FetchedImage>),
    /// The Unsplash download ping was sent (`true`) or could not be (`false`).
    Pinged(bool),
}

/// What a rotation does next.
#[derive(Debug)]
pub enum RotationAction {
    /// Fetch an image from this source.
    Fetch(SourceKind),
    /// Look up a random wallpaper of the history.
    LookUpFallback,
    /// Apply this stored wallpaper again and record it; the rotation then ends.
    ApplyExisting { wallpaper_id: i64, file_path: String },
    /// Show this error; the rotation ends without failing.
    Report(String),
    /// Leave the source out for `secs` seconds and show `message`; the
    /// rotation ends without failing.
    CoolDown { kind: SourceKind, secs: u64, message: String },
    /// Download the image at this URL, store it, and go on.
    Download(String),
    /// The rotation fails with this error.
    Fail(AppError),
    /// Mark the download as tracked and go on applying the wallpaper.
    MarkTracked,
}

/// The next step of a rotation, given what just happened.
/// - A picked source is fetched; with no eligible source, a random wallpaper
///   of the history is looked up, applied again if there is one, and
///   `No sources eligible and no fallback available` is shown if not.
/// - A source that failed is left out for `SOURCE_COOLDOWN_SECS` with the
///   message `{kind:?} failed: {e}`, and the rotation ends without failing.
/// - A fetched image is downloaded from its URL; without one the rotation
///   fails with `Invalid("no image url")`.
/// - Whether the download ping went out or not, the download is marked as
///   tracked and the rotation goes on.
pub fn rotation_step(event: RotationEvent) -> (a: RotationAction)
    ensures
        event is Picked && event->Picked_0 is Ok ==> a == RotationAction::Fetch(event->Picked_0->Ok_0),
        event is Picked && event->Picked_0 is Err ==> a == RotationAction::LookUpFallback,
        event is FallbackFound && event->FallbackFound_0 is Some ==> a == (RotationAction::ApplyExisting {
            wallpaper_id: event->FallbackFound_0->0.id,
            file_path: event->FallbackFound_0->0.file_path,
        }),
        event is FallbackFound && event->FallbackFound_0 is None ==> (a is Report
            && a->Report_0@ == "No sources eligible and no fallback available"@),
        event is Fetched && event->Fetched_1 is Err ==> (a is CoolDown && a->kind == event->Fetched_0
            && a->secs == SOURCE_COOLDOWN_SECS && a->message@ == source_debug_name(event->Fetched_0)
            + " failed: "@ + error_text(event->Fetched_1->Err_0)),
        event is Fetched && event->Fetched_1 is Ok && event->Fetched_1->Ok_0.image_url is Some
            ==> a == RotationAction::Download(event->Fetched_1->Ok_0.image_url->0),
        event is Fetched && event->Fetched_1 is Ok && event->Fetched_1->Ok_0.image_url is None ==> (
        a is Fail && a->Fail_0 is Invalid && a->Fail_0->Invalid_0@ == "no image url"@),
        event is Pinged ==> a == RotationAction::MarkTracked,
{
    match event {
        RotationEvent::Picked(Ok(kind)) => RotationAction::Fetch(kind),
        RotationEvent::Picked(Err(_)) => RotationAction::LookUpFallback,
        RotationEvent::FallbackFound(Some(w)) => RotationAction::ApplyExisting {
            wallpaper_id: w.id,
            file_path: w.file_path,
        },
        RotationEvent::FallbackFound(None) => RotationAction::Report(no_source_message()),
        RotationEvent::Fetched(kind, Err(e)) => RotationAction::CoolDown {
            kind,
            secs: SOURCE_COOLDOWN_SECS,
            message: failure_message(kind, &e),
        },
        RotationEvent::Fetched(_, Ok(f)) => match image_url_of(&f) {
            Ok(url) => RotationAction::Download(url),
            Err(e) => RotationAction::Fail(e),
        },
        RotationEvent::Pinged(_) => RotationAction::MarkTracked,
    }
}

// ---------------------------------------------------------------------------
// Retrying a fetch
// ---------------------------------------------------------------------------

/// How many times a fetch is tried.
pub const FETCH_ATTEMPTS: u32 = 3;

/// Whether a fetch that failed with `e` on attempt `attempt` (from 0) is tried again.
pub fn should_retry(attempt: u32, e: &AppError) -> (r: bool)
    ensures
        r == (attempt + 1 < FETCH_ATTEMPTS && retryable(*e)),
{
    attempt < 2 && e.is_retryable()
}

pub open spec fn pow4(n: nat) -> nat
    decreases n,
{
    if n == 0 {
        1
    } else {
        4 * pow4((n - 1) as nat)
    }
}

/// The seconds slept before retrying after attempt `attempt` (from 0): one
/// second, four times longer each time.
pub fn retry_delay_secs(attempt: u32) -> (r: u64)
    requires
        attempt < FETCH_ATTEMPTS,
    ensures
        r == pow4(attempt as nat),
{
    proof {
        reveal_with_fuel(pow4, 3);
    }
    let mut d: u64 = 1;
    let mut i: u32 = 0;
    while i < attempt
        invariant
            i <= attempt,
            attempt < 3,
            d == pow4(i as nat),
            d == 1 || (d == 4 && i == 1) || (d == 16 && i == 2),
            d == 1 ==> i == 0,
        decreases attempt - i,
    {
        proof {
            reveal_with_fuel(pow4, 3);
        }
        d = d * 4;
        i = i + 1;
    }
    d
}

// ---------------------------------------------------------------------------
// Laws
// ---------------------------------------------------------------------------

/// While paused, the deadline never falls due on its own: nothing is due
/// before the end of time, and a deadline that fires anyway does not rotate.
pub proof fn law_paused_never_rotates_on_time(s: Schedule, now: i64)
    requires
        s.paused,
    ensures
        next_due_spec(s) == i64::MAX,
        now < i64::MAX ==> wait_spec(s, now) > 0,
        action_spec(Wakeup::Deadline, s.paused) == SchedulerAction::Recompute,
{
}

/// Right after a rotation, the scheduler waits one full interval.
pub proof fn law_waits_interval_after_rotation(s: Schedule)
    requires
        !s.paused,
        s.interval_seconds <= i64::MAX,
        s.last_rotation_at + s.interval_seconds <= i64::MAX,
    ensures
        wait_spec(s, s.last_rotation_at) == s.interval_seconds,
{
}

/// A rotation is overdue exactly when no wait is left, as long as neither
/// the deadline nor the elapsed time overflows.
pub proof fn law_overdue_iff_no_wait(s: Schedule, now: i64)
    requires
        !s.paused,
        s.interval_seconds <= i64::MAX,
        i64::MIN <= s.last_rotation_at + s.interval_seconds <= i64::MAX,
        i64::MIN <= now - s.last_rotation_at <= i64::MAX,
    ensures
        overdue_spec(s, now) <==> wait_spec(s, now) == 0,
{
}

/// The stamp a rotation leaves is what the next schedule reads back as the
/// last rotation, whatever else the settings hold.
pub proof fn law_rotation_stamp_read_back(m: Map<Seq<char>, Seq<char>>, now: i64)
    ensures
        schedule_spec(m.insert("last_rotation_at"@, i64_text(now))).last_rotation_at == now,
        schedule_spec(m.insert("last_rotation_at"@, i64_text(now))).paused == schedule_spec(m).paused,
        schedule_spec(m.insert("last_rotation_at"@, i64_text(now))).interval_seconds
            == schedule_spec(m).interval_seconds,
{
    lemma_i64_text_round_trip(now);
    reveal_strlit("last_rotation_at");
    reveal_strlit("paused");
    reveal_strlit("interval_seconds");
    assert("paused"@.len() != "last_rotation_at"@.len());
    assert("interval_seconds"@ != "last_rotation_at"@) by {
        assert("interval_seconds"@[0] != "last_rotation_at"@[0]);
    }
}

/// Bing is drawn from at most once a day: once its fetch date is set to
/// today, it is no longer a candidate today.
pub proof fn law_bing_once_a_day(m: Map<Seq<char>, Seq<char>>, today: Seq<char>)
    ensures
        !candidates_spec(m.insert("last_bing_fetch_date"@, today), today).contains(SourceKind::Bing),
{
    let m2 = m.insert("last_bing_fetch_date"@, today);
    let c = candidates_spec(m2, today);
    reveal_strlit("last_bing_fetch_date");
    reveal_strlit("source_unsplash_enabled");
    reveal_strlit("unsplash_api_key");
    reveal_strlit("source_bing_enabled");
    if c.contains(SourceKind::Bing) {
        let i = choose|i: int| 0 <= i < c.len() && c[i] == SourceKind::Bing;
        assert(c[i] == SourceKind::Bing);
    }
}

/// The schedule reads each of its fields from its own setting: it is paused
/// exactly when `paused` holds the text `true` (so a seeded `false` never
/// pauses it); the interval is the number `interval_seconds` holds, else
/// 3600; the last rotation is the number `last_rotation_at` holds, else 0.
/// Writing `paused` changes nothing but the pause.
pub proof fn law_schedule_reads_settings(m: Map<Seq<char>, Seq<char>>, v: Seq<char>)
    ensures
        schedule_spec(m).paused == (m.contains_key("paused"@) && m["paused"@] == "true"@),
        !schedule_spec(m.insert("paused"@, "false"@)).paused,
        schedule_spec(m.insert("paused"@, "true"@)).paused,
        m.contains_key("interval_seconds"@) && parse_u64_spec(m["interval_seconds"@]) is Some
            ==> schedule_spec(m).interval_seconds == parse_u64_spec(m["interval_seconds"@])->0,
        !(m.contains_key("interval_seconds"@) && parse_u64_spec(m["interval_seconds"@]) is Some)
            ==> schedule_spec(m).interval_seconds == 3600,
        m.contains_key("last_rotation_at"@) && parse_i64_spec(m["last_rotation_at"@]) is Some
            ==> schedule_spec(m).last_rotation_at == parse_i64_spec(m["last_rotation_at"@])->0,
        !(m.contains_key("last_rotation_at"@) && parse_i64_spec(m["last_rotation_at"@]) is Some)
            ==> schedule_spec(m).last_rotation_at == 0,
        schedule_spec(m.insert("paused"@, v)).interval_seconds == schedule_spec(m).interval_seconds,
        schedule_spec(m.insert("paused"@, v)).last_rotation_at == schedule_spec(m).last_rotation_at,
{
    reveal_strlit("paused");
    reveal_strlit("true");
    reveal_strlit("false");
    reveal_strlit("interval_seconds");
    reveal_strlit("last_rotation_at");
    assert("true"@.len() != "false"@.len());
    assert("paused"@.len() != "interval_seconds"@.len());
    assert("paused"@.len() != "last_rotation_at"@.len());
}

/// A rotation draws from Unsplash exactly when `source_unsplash_enabled`
/// holds `true` and `unsplash_api_key` is set and not empty; from Bing exactly
/// when `source_bing_enabled` holds `true` and `last_bing_fetch_date` is not
/// `today`; each source at most once, Unsplash before Bing.
pub proof fn law_candidates(m: Map<Seq<char>, Seq<char>>, today: Seq<char>)
    ensures
        candidates_spec(m, today).contains(SourceKind::Unsplash) <==> (m.contains_key(
            "source_unsplash_enabled"@,
        ) && m["source_unsplash_enabled"@] == "true"@ && m.contains_key("unsplash_api_key"@)
            && m["unsplash_api_key"@].len() > 0),
        candidates_spec(m, today).contains(SourceKind::Bing) <==> (m.contains_key("source_bing_enabled"@)
            && m["source_bing_enabled"@] == "true"@ && !(m.contains_key("last_bing_fetch_date"@)
            && m["last_bing_fetch_date"@] == today)),
        candidates_spec(m, today).len() <= 2,
        forall|i: int, j: int|
            0 <= i < j < candidates_spec(m, today).len() ==> candidates_spec(m, today)[i] == SourceKind::Unsplash
                && candidates_spec(m, today)[j] == SourceKind::Bing,
{
    let c = candidates_spec(m, today);
    let u_on = m.contains_key("source_unsplash_enabled"@) && m["source_unsplash_enabled"@] == "true"@
        && m.contains_key("unsplash_api_key"@) && m["unsplash_api_key"@].len() > 0;
    let b_on = m.contains_key("source_bing_enabled"@) && m["source_bing_enabled"@] == "true"@
        && !(m.contains_key("last_bing_fetch_date"@) && m["last_bing_fetch_date"@] == today);
    if u_on && b_on {
        assert(c =~= seq![SourceKind::Unsplash, SourceKind::Bing]);
        assert(c[0] == SourceKind::Unsplash);
        assert(c[1] == SourceKind::Bing);
    } else if u_on {
        assert(c =~= seq![SourceKind::Unsplash]);
        assert(c[0] == SourceKind::Unsplash);
    } else if b_on {
        assert(c =~= seq![SourceKind::Bing]);
        assert(c[0] == SourceKind::Bing);
    } else {
        assert(c =~= Seq::<SourceKind>::empty());
    }
}

} // verus!
