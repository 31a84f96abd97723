//! Session management: recovery points of the project state and the
//! auto-save schedule.
use vstd::prelude::*;

use std::time::Instant;

verus! {

/// Audio formats a project can be exported to.
#[derive(Debug, Clone, Copy, PartialEq, Eq, Structural)]
pub enum ExportFormat {
    Wav16,
    Wav24,
    Wav32Float,
    /// MP3 at a bitrate.
    Mp3(u32),
    Flac,
    Ogg,
}

#[verifier::external_type_specification]
#[verifier::external_body]
pub struct ExInstant(Instant);

/// Calls `Instant::now`. Nothing is stated of the result: it is the time.
#[verifier::external_body]
fn instant_now() -> Instant {
    Instant::now()
}

/// Calls `Instant::elapsed`. Nothing is stated of the result: it depends on
/// the time.
#[verifier::external_body]
fn time_since(t: &Instant) -> std::time::Duration {
    t.elapsed()
}

/// Calls `Duration::as_secs`, the whole seconds of a span of time. Nothing is
/// stated of the result: a span is opaque here.
#[verifier::external_body]
fn whole_seconds(d: &std::time::Duration) -> u64 {
    d.as_secs()
}

/// A saved copy of the project state, with when and why it was taken.
pub struct RecoveryPoint<S> {
    timestamp: Instant,
    state_snapshot: S,
    description: String,
}

/// Keeps the latest recovery points of a project and decides when to
/// auto-save it.
pub struct SessionManager<S> {
    auto_save_interval_secs: u64,
    last_auto_save: Instant,
    recovery_points: Vec<RecoveryPoint<S>>,
    max_recovery_points: usize,
}

/// The number of recovery points a session keeps.
pub const MAX_RECOVERY_POINTS: usize = 10;

/// The seconds between two auto-saves (five minutes).
pub const AUTO_SAVE_INTERVAL_SECS: u64 = 300;

/// Whether an auto-save is due after some seconds since the last one.
pub open spec fn auto_save_due_after(elapsed_secs: u64, interval_secs: u64) -> bool {
    elapsed_secs >= interval_secs
}

impl<S> RecoveryPoint<S> {
    /// The saved state.
    pub closed spec fn state(self) -> S {
        self.state_snapshot
    }

    /// Why the point was taken.
    pub closed spec fn why(self) -> Seq<char> {
        self.description@
    }
}

impl<S> SessionManager<S> {
    /// The recovery points, oldest first.
    pub closed spec fn points(self) -> Seq<RecoveryPoint<S>> {
        self.recovery_points@
    }

    /// The session keeps at most `MAX_RECOVERY_POINTS` points and auto-saves
    /// every `AUTO_SAVE_INTERVAL_SECS` seconds.
    pub closed spec fn wf(self) -> bool {
        &&& self.max_recovery_points == MAX_RECOVERY_POINTS
        &&& self.auto_save_interval_secs == AUTO_SAVE_INTERVAL_SECS
        &&& self.recovery_points@.len() <= self.max_recovery_points
    }

    /// A session without recovery points, whose auto-save clock starts now.
    pub fn new() -> (r: Self)
        ensures
            r.wf(),
            r.points() == Seq::<RecoveryPoint<S>>::empty(),
    {
        SessionManager {
            auto_save_interval_secs: AUTO_SAVE_INTERVAL_SECS,
            last_auto_save: instant_now(),
            recovery_points: Vec::new(),
            max_recovery_points: MAX_RECOVERY_POINTS,
        }
    }

    /// Take a recovery point of a state; when more than the kept number of
    /// points exist, the oldest is dropped.
    pub fn create_recovery_point(&mut self, state: &S, description: String)
        where
            S: Clone,
        requires
            old(self).wf(),
        ensures
            final(self).wf(),
            final(self).points().len() > 0,
            cloned(*state, final(self).points().last().state()),
            final(self).points().last().why() == description@,
            final(self).points().drop_last() == (if old(self).points().len() + 1
                > MAX_RECOVERY_POINTS {
                old(self).points().drop_first()
            } else {
                old(self).points()
            }),
    {
        let recovery_point = RecoveryPoint {
            timestamp: instant_now(),
            state_snapshot: state.clone(),
            description,
        };
        let ghost pre = self.recovery_points@;
        self.recovery_points.push(recovery_point);
        if self.recovery_points.len() > self.max_recovery_points {
            let _ = self.recovery_points.remove(0);
            assert(self.recovery_points@.drop_last() =~= pre.drop_first());
        } else {
            assert(self.recovery_points@.drop_last() =~= pre);
        }
    }

    /// A copy of the state of the recovery point at a position, oldest first.
    pub fn restore_recovery_point(&self, index: usize) -> (r: Option<S>)
        where
            S: Clone,
        ensures
            r is Some <==> index < self.points().len(),
            r matches Some(s) ==> cloned(self.points()[index as int].state(), s),
    {
        if index < self.recovery_points.len() {
            Some(self.recovery_points[index].state_snapshot.clone())
        } else {
            None
        }
    }

    /// The number of recovery points kept.
    pub fn recovery_point_count(&self) -> (r: usize)
        ensures
            r == self.points().len(),
    {
        self.recovery_points.len()
    }

    /// Whether an auto-save is due: the interval has passed since the last
    /// one. What the clock reads is not stated.
    pub fn auto_save_due(&self) -> bool {
        let elapsed = time_since(&self.last_auto_save);
        is_auto_save_due(whole_seconds(&elapsed), self.auto_save_interval_secs)
    }

    /// Record that the project was auto-saved now.
    pub fn mark_auto_saved(&mut self)
        requires
            old(self).wf(),
        ensures
            final(self).wf(),
            final(self).points() == old(self).points(),
    {
        self.last_auto_save = instant_now();
    }
}

/// Whether an auto-save is due after some seconds since the last one.
pub fn is_auto_save_due(elapsed_secs: u64, interval_secs: u64) -> (r: bool)
    ensures
        r == auto_save_due_after(elapsed_secs, interval_secs),
{
    elapsed_secs >= interval_secs
}

/// A session never holds more than `MAX_RECOVERY_POINTS` points; once full,
/// taking a point drops exactly the oldest one and keeps the others in order.
pub proof fn lemma_recovery_points_bounded<S>(
    pre: SessionManager<S>,
    post: SessionManager<S>,
)
    requires
        pre.wf(),
        post.wf(),
        post.points().len() > 0,
        post.points().drop_last() == (if pre.points().len() + 1 > MAX_RECOVERY_POINTS {
            pre.points().drop_first()
        } else {
            pre.points()
        }),
    ensures
        post.points().len() <= MAX_RECOVERY_POINTS,
        pre.points().len() == MAX_RECOVERY_POINTS ==> post.points().len() == MAX_RECOVERY_POINTS
            && forall|i: int|
            0 <= i < MAX_RECOVERY_POINTS - 1 ==> #[trigger] post.points()[i] == pre.points()[i + 1],
        pre.points().len() < MAX_RECOVERY_POINTS ==> post.points().len() == pre.points().len() + 1
            && forall|i: int|
            0 <= i < pre.points().len() ==> #[trigger] post.points()[i] == pre.points()[i],
{
    let d = post.points().drop_last();
    assert(d.len() == post.points().len() - 1);
    if pre.points().len() == MAX_RECOVERY_POINTS {
        assert(d == pre.points().drop_first());
        assert(d.len() == MAX_RECOVERY_POINTS - 1);
        assert forall|i: int| 0 <= i < MAX_RECOVERY_POINTS - 1 implies #[trigger] post.points()[i]
            == pre.points()[i + 1] by {
            assert(post.points()[i] == post.points().drop_last()[i]);
        }
    } else {
        assert forall|i: int| 0 <= i < pre.points().len() implies #[trigger] post.points()[i]
            == pre.points()[i] by {
            assert(post.points()[i] == post.points().drop_last()[i]);
        }
    }
}

} // verus!
