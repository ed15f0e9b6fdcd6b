use vstd::prelude::*;
use vstd::string::*;
use std::time::{Duration, Instant};
use crate::errors::{AppError, AppResult};
use super::{choose_one, PerSource, SourceKind};

verus! {

#[verifier::external_type_specification]
#[verifier::external_body]
pub struct ExInstant(Instant);

/// `Instant::now()`.  Nothing is claimed of the value: it is the clock.
#[verifier::external_body]
fn instant_now() -> Instant {
    Instant::now()
}

/// `Instant::elapsed`: the time since `anchor`, read from the clock.
#[verifier::external_body]
fn instant_elapsed(anchor: &Instant) -> Duration {
    anchor.elapsed()
}

/// The whole number of nanoseconds in a duration.
pub uninterp spec fn duration_ns(d: Duration) -> u128;

/// `Duration::as_nanos`.  Claims that the result is the nanosecond count of
/// the duration, a function of the duration alone.
#[verifier::external_body]
fn duration_nanos(d: &Duration) -> (r: u128)
    ensures
        r == duration_ns(*d),
{
    d.as_nanos()
}

/// When a cooldown of `dur` begun at `now` ends: `now + dur`, or the far end
/// of the clock if that overflows.
pub open spec fn cooldown_end(now: u128, dur: u128) -> u128 {
    if now + dur <= u128::MAX {
        (now + dur) as u128
    } else {
        u128::MAX
    }
}

/// Until when each source is cooling down, in nanoseconds on the pool's clock.
pub struct CooldownState {
    pub until: PerSource<u128>,
}

/// Whether `kind` may be picked at time `now`: it is not cooling down, or its
/// cooldown has ended.
pub open spec fn ready(until: Map<SourceKind, u128>, kind: SourceKind, now: u128) -> bool {
    until.contains_key(kind) ==> until[kind] <= now
}

/// The candidates that are ready at `now`, in their order.
pub open spec fn eligible_spec(s: Seq<SourceKind>, until: Map<SourceKind, u128>, now: u128) -> Seq<SourceKind>
    decreases s.len(),
{
    if s.len() == 0 {
        Seq::empty()
    } else {
        let rest = eligible_spec(s.drop_last(), until, now);
        if ready(until, s.last(), now) {
            rest.push(s.last())
        } else {
            rest
        }
    }
}

/// What `eligible_spec` keeps is exactly the ready candidates.
pub proof fn lemma_eligible_members(s: Seq<SourceKind>, until: Map<SourceKind, u128>, now: u128, k: SourceKind)
    ensures
        eligible_spec(s, until, now).contains(k) <==> (s.contains(k) && ready(until, k, now)),
    decreases s.len(),
{
    if s.len() > 0 {
        let t = s.drop_last();
        lemma_eligible_members(t, until, now, k);
        let rest = eligible_spec(t, until, now);
        if s.contains(k) && s.last() != k {
            let i = choose|i: int| 0 <= i < s.len() && s[i] == k;
            assert(t[i] == k);
        }
        if t.contains(k) {
            let i = choose|i: int| 0 <= i < t.len() && t[i] == k;
            assert(s[i] == k);
        }
        if ready(until, s.last(), now) {
            let r = rest.push(s.last());
            if rest.contains(k) {
                let i = choose|i: int| 0 <= i < rest.len() && rest[i] == k;
                assert(r[i] == k);
            }
            if r.contains(k) && s.last() != k {
                let i = choose|i: int| 0 <= i < r.len() && r[i] == k;
                assert(rest[i] == k);
            }
            assert(r[r.len() - 1] == s.last());
        }
        assert(s[s.len() - 1] == s.last());
    }
}

/// Which sources may be picked, and when those that failed may be picked again.
pub struct Pool {
    anchor: Instant,
    /// The latest reading of the clock that the pool has acted on.
    seen: u128,
    state: CooldownState,
}

impl Pool {
    /// The cooldowns, keyed by source, in nanoseconds since the pool was made.
    pub closed spec fn cooldowns(&self) -> Map<SourceKind, u128> {
        self.state.until.as_map()
    }

    /// The latest reading of the pool's clock that a cooldown was set at, in
    /// nanoseconds since the pool was made; the clock never reads earlier.
    pub closed spec fn clock_seen(&self) -> u128 {
        self.seen
    }

    /// A pool in which no source is cooling down.
    pub fn new() -> (p: Pool)
        ensures
            p.cooldowns() == Map::<SourceKind, u128>::empty(),
            p.clock_seen() == 0,
    {
        Pool { anchor: instant_now(), seen: 0, state: CooldownState { until: PerSource::new() } }
    }

    /// The time on the pool's clock, in nanoseconds since the pool was made:
    /// the time elapsed since then, and never earlier than a reading the pool
    /// has already acted on (the clock is monotonic, so this only guards).
    fn now_nanos(&self) -> (r: u128)
        ensures
            r >= self.clock_seen(),
    {
        let d = instant_elapsed(&self.anchor);
        let t = duration_nanos(&d);
        if t < self.seen {
            self.seen
        } else {
            t
        }
    }

    /// Puts `kind` in cooldown until `dur_ns` nanoseconds after `now`
    /// (the far end of the clock if that overflows).
    pub fn cooldown_at(&mut self, kind: SourceKind, dur_ns: u128, now: u128)
        ensures
            final(self).cooldowns() == old(self).cooldowns().insert(kind, cooldown_end(now, dur_ns)),
            final(self).clock_seen() == old(self).clock_seen(),
    {
        let until = now.saturating_add(dur_ns);
        self.state.until.insert(kind, until);
    }

    /// Puts `kind` in cooldown for `dur` from now: until `dur` after the
    /// clock reading taken by the call, which becomes the pool's latest
    /// reading and is no earlier than any reading before it.
    pub fn cooldown(&mut self, kind: SourceKind, dur: Duration)
        ensures
            exists|now: u128|
                final(self).cooldowns() == old(self).cooldowns().insert(
                    kind,
                    #[trigger] cooldown_end(now, duration_ns(dur)),
                ),
            final(self).clock_seen() >= old(self).clock_seen(),
            final(self).cooldowns() == old(self).cooldowns().insert(
                kind,
                cooldown_end(final(self).clock_seen(), duration_ns(dur)),
            ),
    {
        let now = self.now_nanos();
        self.seen = now;
        let ns = duration_nanos(&dur);
        self.cooldown_at(kind, ns, now);
        assert(final(self).cooldowns() == old(self).cooldowns().insert(kind, cooldown_end(now, duration_ns(dur))));
    }

    /// The candidates that are not cooling down at `now`, in their order.
    pub fn eligible_at(&self, candidates: &[SourceKind], now: u128) -> (r: Vec<SourceKind>)
        ensures
            r@ == eligible_spec(candidates@, self.cooldowns(), now),
    {
        let mut out: Vec<SourceKind> = Vec::new();
        let mut i: usize = 0;
        while i < candidates.len()
            invariant
                i <= candidates@.len(),
                out@ == eligible_spec(candidates@.take(i as int), self.cooldowns(), now),
            decreases candidates@.len() - i,
        {
            let k = candidates[i];
            let ghost pre = candidates@.take(i as int);
            assert(candidates@.take(i + 1).drop_last() =~= pre);
            assert(candidates@.take(i + 1).last() == k);
            let ready_now = match self.state.until.get(k) {
                Some(t) => *t <= now,
                None => true,
            };
            if ready_now {
                out.push(k);
            }
            i = i + 1;
        }
        assert(candidates@.take(i as int) =~= candidates@);
        out
    }

    /// The candidates that are not cooling down now, in their order.
    pub fn eligible(&self, candidates: &[SourceKind]) -> (r: Vec<SourceKind>)
        ensures
            exists|now: u128| r@ == eligible_spec(candidates@, self.cooldowns(), now),
            exists|now: u128|
                now >= self.clock_seen() && r@ == #[trigger] eligible_spec(candidates@, self.cooldowns(), now),
    {
        let now = self.now_nanos();
        self.eligible_at(candidates, now)
    }

    /// One of the candidates that are not cooling down at `now`, picked at random.
    pub fn pick_at(&self, candidates: &[SourceKind], now: u128) -> (r: AppResult<SourceKind>)
        ensures
            r is Ok <==> eligible_spec(candidates@, self.cooldowns(), now).len() > 0,
            r is Ok ==> candidates@.contains(r->Ok_0) && ready(self.cooldowns(), r->Ok_0, now),
            r is Err ==> r->Err_0 == AppError::Invalid(r->Err_0->Invalid_0)
                && r->Err_0->Invalid_0@ == "No eligible sources"@,
    {
        let elig = self.eligible_at(candidates, now);
        match choose_one(elig.as_slice()) {
            Some(k) => {
                proof {
                    let i = choose|i: int| 0 <= i < elig@.len() && elig@[i] == *k;
                    assert(elig@.contains(*k));
                    lemma_eligible_members(candidates@, self.cooldowns(), now, *k);
                }
                Ok(*k)
            },
            None => Err(AppError::Invalid(String::from_str("No eligible sources"))),
        }
    }

    /// One of the candidates that are not cooling down now, picked at random;
    /// `Invalid("No eligible sources")` when there is none.
    pub fn pick(&self, candidates: &[SourceKind]) -> (r: AppResult<SourceKind>)
        ensures
            r is Ok ==> candidates@.contains(r->Ok_0),
            r is Err ==> r->Err_0 == AppError::Invalid(r->Err_0->Invalid_0)
                && r->Err_0->Invalid_0@ == "No eligible sources"@,
            (exists|k: SourceKind| candidates@.contains(k) && !self.cooldowns().contains_key(k)) ==> r is Ok,
            candidates@.len() == 0 ==> r is Err,
            r is Ok ==> exists|now: u128| now >= self.clock_seen() && #[trigger] ready(self.cooldowns(), r->Ok_0, now),
    {
        let now = self.now_nanos();
        let r = self.pick_at(candidates, now);
        proof {
            if exists|k: SourceKind| candidates@.contains(k) && !self.cooldowns().contains_key(k) {
                let k = choose|k: SourceKind| candidates@.contains(k) && !self.cooldowns().contains_key(k);
                lemma_eligible_members(candidates@, self.cooldowns(), now, k);
                let e = eligible_spec(candidates@, self.cooldowns(), now);
                assert(e.contains(k));
            }
            if candidates@.len() == 0 {
                assert(eligible_spec(candidates@, self.cooldowns(), now) =~= Seq::<SourceKind>::empty());
            }
        }
        r
    }
}

/// A source in cooldown is not eligible before its cooldown ends, and is
/// eligible again from then on; a source never put in cooldown is always eligible.
pub proof fn law_cooldown_excludes(p: Pool, q: Pool, kind: SourceKind, dur: u128, start: u128, now: u128)
    requires
        start + dur <= u128::MAX,
        q.cooldowns() == p.cooldowns().insert(kind, cooldown_end(start, dur)),
    ensures
        now < start + dur ==> !ready(q.cooldowns(), kind, now),
        now >= start + dur ==> ready(q.cooldowns(), kind, now),
        forall|k: SourceKind| k != kind ==> (ready(q.cooldowns(), k, now) == ready(p.cooldowns(), k, now)),
{
}

/// After `Pool::cooldown(kind, dur)`, the source is eligible exactly from
/// its end time on, and that end time is `dur` after the clock reading the
/// call took (or the far end of the clock); every other source keeps its
/// eligibility.
pub proof fn law_cooldown_call_excludes(p: Pool, q: Pool, kind: SourceKind, dur: Duration)
    requires
        exists|now: u128|
            q.cooldowns() == p.cooldowns().insert(kind, #[trigger] cooldown_end(now, duration_ns(dur))),
    ensures
        q.cooldowns().contains_key(kind),
        exists|now: u128| #[trigger] cooldown_end(now, duration_ns(dur)) == q.cooldowns()[kind],
        forall|t: u128| #[trigger] ready(q.cooldowns(), kind, t) <==> q.cooldowns()[kind] <= t,
        forall|k: SourceKind, t: u128| k != kind ==> #[trigger] ready(q.cooldowns(), k, t) == ready(p.cooldowns(), k, t),
{
    let now = choose|now: u128|
        q.cooldowns() == p.cooldowns().insert(kind, #[trigger] cooldown_end(now, duration_ns(dur)));
    assert(cooldown_end(now, duration_ns(dur)) == q.cooldowns()[kind]);
}

/// A failed source stays out for its whole cooldown: after `cooldown(kind,
/// dur)` whose clock reading was `t` (the pool's latest reading), the source
/// is not eligible at any time from `t` up to `t + dur`, so no later check of
/// the pool (which reads the clock at `t` or after) sees it before then; and
/// from `t + dur` on it is eligible again. Other sources are unaffected.
pub proof fn law_cooldown_lasts_from_the_call(p: Pool, q: Pool, kind: SourceKind, dur: Duration)
    requires
        q.clock_seen() >= p.clock_seen(),
        q.cooldowns() == p.cooldowns().insert(kind, cooldown_end(q.clock_seen(), duration_ns(dur))),
    ensures
        forall|t: u128|
            q.clock_seen() <= t && t < q.clock_seen() + duration_ns(dur) && t < u128::MAX
                ==> !#[trigger] ready(q.cooldowns(), kind, t),
        forall|t: u128|
            t >= q.clock_seen() + duration_ns(dur) ==> #[trigger] ready(q.cooldowns(), kind, t),
        forall|t: u128|
            p.clock_seen() <= t && t < p.clock_seen() + duration_ns(dur) && t < u128::MAX
                ==> !#[trigger] ready(q.cooldowns(), kind, t),
        forall|k: SourceKind, t: u128| k != kind ==> #[trigger] ready(q.cooldowns(), k, t) == ready(p.cooldowns(), k, t),
{
}

} // verus!
