use std::time::Duration;
use walli::errors::AppError;
use walli::sources::pool::Pool;
use walli::sources::SourceKind;

#[test]
fn cooldown_excludes_source() {
    let mut p = Pool::new();
    p.cooldown(SourceKind::Unsplash, Duration::from_secs(60));
    let elig = p.eligible(&[SourceKind::Unsplash, SourceKind::Bing]);
    assert_eq!(elig, vec![SourceKind::Bing]);
}

#[test]
fn pick_errors_when_empty() {
    let p = Pool::new();
    assert!(p.pick(&[]).is_err());
}

#[test]
fn pick_error_says_no_eligible_sources() {
    let p = Pool::new();
    assert_eq!(p.pick(&[]), Err(AppError::Invalid("No eligible sources".to_string())));
}

#[test]
fn pick_returns_a_candidate() {
    let p = Pool::new();
    for _ in 0..20 {
        let k = p.pick(&[SourceKind::Unsplash, SourceKind::Bing]).unwrap();
        assert!(k == SourceKind::Unsplash || k == SourceKind::Bing);
    }
    assert_eq!(p.pick(&[SourceKind::Bing]).unwrap(), SourceKind::Bing);
}

#[test]
fn cooldown_at_ends_at_its_time() {
    let mut p = Pool::new();
    p.cooldown_at(SourceKind::Bing, 300_000, 1_000);
    let c = [SourceKind::Unsplash, SourceKind::Bing];
    assert_eq!(p.eligible_at(&c, 1_000), vec![SourceKind::Unsplash]);
    assert_eq!(p.eligible_at(&c, 300_999), vec![SourceKind::Unsplash]);
    assert_eq!(p.eligible_at(&c, 301_000), vec![SourceKind::Unsplash, SourceKind::Bing]);
    assert_eq!(p.pick_at(&[SourceKind::Bing], 301_000), Ok(SourceKind::Bing));
    assert!(p.pick_at(&[SourceKind::Bing], 2_000).is_err());
}

#[test]
fn cooldown_saturates_at_the_end_of_the_clock() {
    let mut p = Pool::new();
    p.cooldown_at(SourceKind::Unsplash, u128::MAX, 5);
    assert!(p.eligible_at(&[SourceKind::Unsplash], u128::MAX - 1).is_empty());
    assert_eq!(p.eligible_at(&[SourceKind::Unsplash], u128::MAX), vec![SourceKind::Unsplash]);
}

#[test]
fn eligible_keeps_order_and_duplicates() {
    let p = Pool::new();
    let c = [SourceKind::Bing, SourceKind::Unsplash, SourceKind::Bing];
    assert_eq!(p.eligible_at(&c, 0), c.to_vec());
}

#[test]
fn cooldown_lasts_its_duration() {
    let mut p = Pool::new();
    p.cooldown(SourceKind::Bing, Duration::from_secs(3600));
    assert!(p.pick(&[SourceKind::Bing]).is_err());
    p.cooldown(SourceKind::Bing, Duration::from_nanos(0));
    assert_eq!(p.pick(&[SourceKind::Bing]), Ok(SourceKind::Bing));
}
