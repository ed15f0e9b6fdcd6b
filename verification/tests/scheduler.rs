use walli::db::Wallpaper;
use walli::scheduler::{rotation_step, RotationAction, RotationEvent, SOURCE_COOLDOWN_SECS};
use walli::db::Collection;
use walli::errors::AppError;
use walli::scheduler::{
    after_wake, bing_fetch_date, candidate_sources, compliance_ping, failure_message, fetch_context,
    image_url_of, no_source_message, on_wakeup, retry_delay_secs, rotation_stamp, should_retry,
    wallpaper_record, Schedule, SchedulerAction, SchedulerMsg, Wakeup,
};
use walli::settings::SettingsMap;
use walli::sources::{ctx_key_for, FetchedImage, SourceKind};

fn map(pairs: &[(&str, &str)]) -> SettingsMap {
    SettingsMap::from_pairs(pairs.iter().map(|(k, v)| (k.to_string(), v.to_string())).collect())
}

#[test]
fn schedule_defaults() {
    let s = Schedule::from_settings(&map(&[]));
    assert_eq!(s, Schedule { paused: false, interval_seconds: 3600, last_rotation_at: 0 });
    let s = Schedule::from_settings(&map(&[("paused", "true"), ("interval_seconds", "60"), ("last_rotation_at", "1000")]));
    assert_eq!(s, Schedule { paused: true, interval_seconds: 60, last_rotation_at: 1000 });
    let s = Schedule::from_settings(&map(&[("interval_seconds", "soon"), ("last_rotation_at", "x")]));
    assert_eq!(s, Schedule { paused: false, interval_seconds: 3600, last_rotation_at: 0 });
}

#[test]
fn waits() {
    let s = Schedule { paused: false, interval_seconds: 3600, last_rotation_at: 1000 };
    assert_eq!(s.next_due(), 4600);
    assert_eq!(s.wait_seconds(1000), 3600);
    assert_eq!(s.wait_seconds(4000), 600);
    assert_eq!(s.wait_seconds(4600), 0);
    assert_eq!(s.wait_seconds(9000), 0);
    let paused = Schedule { paused: true, ..s };
    assert_eq!(paused.next_due(), i64::MAX);
    assert_eq!(paused.wait_seconds(0), i64::MAX as u64);
    let far = Schedule { paused: false, interval_seconds: 10, last_rotation_at: i64::MAX - 5 };
    assert_eq!(far.next_due(), i64::MAX);
    let wrapped = Schedule { paused: false, interval_seconds: u64::MAX, last_rotation_at: 100 };
    assert_eq!(wrapped.next_due(), 99);
    assert_eq!(Schedule { paused: false, interval_seconds: 10, last_rotation_at: 0 }.wait_seconds(i64::MIN), (10i128 - i64::MIN as i128) as u64);
}

#[test]
fn overdue_checks() {
    let s = Schedule { paused: true, interval_seconds: 3600, last_rotation_at: 1000 };
    assert!(!s.is_overdue(4599));
    assert!(s.is_overdue(4600));
    assert_eq!(after_wake(&s, 5000), SchedulerAction::Rotate);
    assert_eq!(after_wake(&s, 2000), SchedulerAction::Recompute);
}

#[test]
fn wakeups() {
    assert_eq!(on_wakeup(&Wakeup::Deadline, false), SchedulerAction::Rotate);
    assert_eq!(on_wakeup(&Wakeup::Deadline, true), SchedulerAction::Recompute);
    assert_eq!(on_wakeup(&Wakeup::Message(SchedulerMsg::NextNow), true), SchedulerAction::Rotate);
    assert_eq!(on_wakeup(&Wakeup::Message(SchedulerMsg::Reschedule), false), SchedulerAction::Recompute);
    assert_eq!(on_wakeup(&Wakeup::Message(SchedulerMsg::Wake), false), SchedulerAction::CheckOverdue);
    assert_eq!(on_wakeup(&Wakeup::Message(SchedulerMsg::Shutdown), false), SchedulerAction::Stop);
    assert_eq!(on_wakeup(&Wakeup::Closed, false), SchedulerAction::Stop);
}

#[test]
fn rotation_stamp_reads_back() {
    let mut m = map(&[("interval_seconds", "7200"), ("last_rotation_at", "5")]);
    m.insert("last_rotation_at".to_string(), rotation_stamp(1735689600));
    let s = Schedule::from_settings(&m);
    assert_eq!(s.last_rotation_at, 1735689600);
    assert_eq!(s.interval_seconds, 7200);
    assert_eq!(s.wait_seconds(1735689600), 7200);
}

#[test]
fn candidates() {
    let all = map(&[
        ("source_unsplash_enabled", "true"),
        ("unsplash_api_key", "k"),
        ("source_bing_enabled", "true"),
        ("last_bing_fetch_date", "2026-01-01"),
    ]);
    assert_eq!(candidate_sources(&all, "2026-01-02"), vec![SourceKind::Unsplash, SourceKind::Bing]);
    assert_eq!(candidate_sources(&all, "2026-01-01"), vec![SourceKind::Unsplash]);
    let no_key = map(&[("source_unsplash_enabled", "true"), ("unsplash_api_key", ""), ("source_bing_enabled", "true")]);
    assert_eq!(candidate_sources(&no_key, "2026-01-01"), vec![SourceKind::Bing]);
    assert_eq!(candidate_sources(&map(&[]), "2026-01-01"), vec![]);
}

#[test]
fn bing_only_once_a_day() {
    let mut m = map(&[("source_bing_enabled", "true")]);
    assert_eq!(candidate_sources(&m, "2026-03-04"), vec![SourceKind::Bing]);
    let date = bing_fetch_date(SourceKind::Bing, "2026-03-04").unwrap();
    m.insert("last_bing_fetch_date".to_string(), date);
    assert_eq!(candidate_sources(&m, "2026-03-04"), vec![]);
    assert_eq!(candidate_sources(&m, "2026-03-05"), vec![SourceKind::Bing]);
    assert_eq!(bing_fetch_date(SourceKind::Unsplash, "2026-03-04"), None);
}

fn collection(id: i64, name: &str, tags: &[&str]) -> Collection {
    Collection { id, name: name.to_string(), tags: tags.iter().map(|t| t.to_string()).collect() }
}

#[test]
fn context_from_settings() {
    let cols = vec![collection(1, "Featured", &["featured"]), collection(2, "Nature", &["mountains", "forest"])];
    let m = map(&[("active_collection_id", "2"), ("unsplash_api_key", "KEY")]);
    let ctx = fetch_context(&m, &cols, "2026-01-01".to_string());
    assert_eq!(ctx.tags, vec!["mountains".to_string(), "forest".to_string()]);
    assert_eq!(ctx_key_for(&ctx, SourceKind::Unsplash), Some("KEY"));
    assert_eq!(ctx_key_for(&ctx, SourceKind::Bing), None);
    assert_eq!(ctx.today, "2026-01-01");
    let m = map(&[("active_collection_id", "9"), ("unsplash_api_key", "")]);
    let ctx = fetch_context(&m, &cols, "d".to_string());
    assert!(ctx.tags.is_empty());
    assert_eq!(ctx_key_for(&ctx, SourceKind::Unsplash), None);
}

fn image(url: Option<&str>, dl: Option<&str>) -> FetchedImage {
    FetchedImage {
        source: SourceKind::Unsplash,
        source_id: "abc".to_string(),
        photographer: Some("Alice".to_string()),
        title: None,
        source_url: Some("https://unsplash.com/p/abc".to_string()),
        image_url: url.map(str::to_string),
        download_location: dl.map(str::to_string),
        width: Some(1920),
        height: Some(1080),
        ext: "jpg".to_string(),
    }
}

#[test]
fn records_and_pings() {
    let f = image(Some("https://images.example/full.jpg"), Some("https://api.example/dl"));
    assert_eq!(image_url_of(&f), Ok("https://images.example/full.jpg".to_string()));
    assert_eq!(image_url_of(&image(None, None)), Err(AppError::Invalid("no image url".to_string())));
    let w = wallpaper_record(&f, "/tmp/a.jpg".to_string(), 77);
    assert_eq!(w.id, 0);
    assert_eq!(w.source, "unsplash");
    assert_eq!(w.source_id, "abc");
    assert_eq!(w.photographer.as_deref(), Some("Alice"));
    assert_eq!(w.file_path, "/tmp/a.jpg");
    assert!(!w.is_local);
    assert_eq!((w.width, w.height, w.fetched_at), (Some(1920), Some(1080), 77));
    let ctx = fetch_context(&map(&[("unsplash_api_key", "KEY")]), &vec![], "d".to_string());
    let ping = compliance_ping(&f, &ctx).unwrap();
    assert_eq!(ping.url, "https://api.example/dl");
    assert_eq!(ping.authorization, "Client-ID KEY");
    assert!(compliance_ping(&image(Some("u"), None), &ctx).is_none());
    let keyless = fetch_context(&map(&[]), &vec![], "d".to_string());
    assert!(compliance_ping(&f, &keyless).is_none());
}

#[test]
fn messages() {
    let e = AppError::Http { status: Some(503), message: "busy".to_string() };
    assert_eq!(failure_message(SourceKind::Bing, &e), "Bing failed: http Some(503): busy");
    assert_eq!(failure_message(SourceKind::Unsplash, &AppError::NotFound), "Unsplash failed: not found");
    assert_eq!(no_source_message(), "No sources eligible and no fallback available");
}

#[test]
fn retries() {
    let e429 = AppError::Http { status: Some(429), message: String::new() };
    let e404 = AppError::Http { status: Some(404), message: String::new() };
    assert!(should_retry(0, &e429));
    assert!(should_retry(1, &AppError::NotFound));
    assert!(!should_retry(2, &e429));
    assert!(!should_retry(0, &e404));
    assert_eq!(retry_delay_secs(0), 1);
    assert_eq!(retry_delay_secs(1), 4);
    assert_eq!(retry_delay_secs(2), 16);
}

#[test]
fn overdue_exactly_when_no_wait_is_left() {
    let s = Schedule { paused: false, interval_seconds: 600, last_rotation_at: 10_000 };
    for now in [0i64, 10_000, 10_599, 10_600, 10_601, 99_999] {
        assert_eq!(s.is_overdue(now), s.wait_seconds(now) == 0, "now {now}");
    }
}

#[test]
fn rotation_steps() {
    assert!(matches!(rotation_step(RotationEvent::Picked(Ok(SourceKind::Bing))), RotationAction::Fetch(SourceKind::Bing)));
    assert!(matches!(
        rotation_step(RotationEvent::Picked(Err(AppError::Invalid("No eligible sources".to_string())))),
        RotationAction::LookUpFallback
    ));
    let w = Wallpaper {
        id: 9,
        source: "bing".to_string(),
        source_id: "x".to_string(),
        photographer: None,
        title: None,
        source_url: None,
        file_path: "/tmp/w.jpg".to_string(),
        is_local: false,
        width: None,
        height: None,
        fetched_at: 1,
    };
    match rotation_step(RotationEvent::FallbackFound(Some(w))) {
        RotationAction::ApplyExisting { wallpaper_id, file_path } => {
            assert_eq!((wallpaper_id, file_path.as_str()), (9, "/tmp/w.jpg"));
        }
        a => panic!("unexpected {a:?}"),
    }
    match rotation_step(RotationEvent::FallbackFound(None)) {
        RotationAction::Report(m) => assert_eq!(m, "No sources eligible and no fallback available"),
        a => panic!("unexpected {a:?}"),
    }
    let e = AppError::Http { status: Some(500), message: "down".to_string() };
    match rotation_step(RotationEvent::Fetched(SourceKind::Unsplash, Err(e))) {
        RotationAction::CoolDown { kind, secs, message } => {
            assert_eq!(kind, SourceKind::Unsplash);
            assert_eq!(secs, SOURCE_COOLDOWN_SECS);
            assert_eq!(secs, 300);
            assert_eq!(message, "Unsplash failed: http Some(500): down");
        }
        a => panic!("unexpected {a:?}"),
    }
    match rotation_step(RotationEvent::Fetched(SourceKind::Unsplash, Ok(image(Some("https://x/y.jpg"), None)))) {
        RotationAction::Download(u) => assert_eq!(u, "https://x/y.jpg"),
        a => panic!("unexpected {a:?}"),
    }
    assert!(matches!(
        rotation_step(RotationEvent::Fetched(SourceKind::Bing, Ok(image(None, None)))),
        RotationAction::Fail(AppError::Invalid(m)) if m == "no image url"
    ));
    assert!(matches!(rotation_step(RotationEvent::Pinged(false)), RotationAction::MarkTracked));
    assert!(matches!(rotation_step(RotationEvent::Pinged(true)), RotationAction::MarkTracked));
}
