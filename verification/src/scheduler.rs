//! Scene scheduling: decides, frame by frame, whether the effect layer must be
//! re-applied because the DOM changed since the last application.
//!
//! The scheduler is shared between the renderer's effect hook and the
//! reactive layer; every clone refers to the same counters, which are atomics.

use std::sync::atomic::{AtomicU64, Ordering};
use std::sync::Arc;
use vstd::prelude::*;

verus! {

/// Whether effects must be re-applied: exactly when more DOM changes were
/// counted than had been counted at the last application.
pub open spec fn needs_apply(dirty: u64, applied: u64) -> bool {
    dirty > applied
}

/// Decide from a reading of the dirty counter and of the counter recorded at
/// the last application whether effects must be re-applied.
pub fn apply_decision(dirty: u64, applied: u64) -> (apply: bool)
    ensures
        apply == needs_apply(dirty, applied),
{
    dirty > applied
}

/// The change count to record as last applied after a query that read the
/// dirty count `dirty` and the recorded count `applied`: the dirty count it
/// read when it re-applies effects, the recorded count otherwise.
pub open spec fn recorded_after(dirty: u64, applied: u64) -> u64 {
    if needs_apply(dirty, applied) {
        dirty
    } else {
        applied
    }
}

/// One query on a reading of the two counters: whether effects must be
/// re-applied, and the change count to record as last applied.
pub fn apply_step(dirty: u64, applied: u64) -> (r: (bool, u64))
    ensures
        r.0 == (dirty > applied),
        r.1 == (if dirty > applied {
            dirty
        } else {
            applied
        }),
        r.1 == recorded_after(dirty, applied),
{
    if apply_decision(dirty, applied) {
        (true, dirty)
    } else {
        (false, applied)
    }
}

/// A query that re-applies effects records the dirty count it read, so a
/// second query on the same dirty count answers `false`; a query that does
/// not re-apply leaves the record as it was. On consistent counters, any
/// change signalled after the first query makes the second one answer
/// `true` again.
pub proof fn law_step_records_dirty(dirty: u64, applied: u64)
    ensures
        !needs_apply(dirty, recorded_after(dirty, applied)),
        recorded_after(dirty, applied) >= applied,
        needs_apply(dirty, applied) ==> recorded_after(dirty, applied) == dirty,
        !needs_apply(dirty, applied) ==> recorded_after(dirty, applied) == applied,
        applied <= dirty ==> forall|later: u64|
            later > dirty ==> #[trigger] needs_apply(later, recorded_after(dirty, applied)),
{
}

/// On counters read as `dirty` and `applied`, a query records what the
/// counters' model records.
pub proof fn law_step_is_query(dirty: u64, applied: u64, applies: nat, queries: nat)
    ensures
        ({
            let c = Counters { dirty: dirty as nat, applied: applied as nat, applies, queries };
            &&& after_query(c).applied == recorded_after(dirty, applied) as nat
            &&& answer(c) == needs_apply(dirty, applied)
            &&& after_query(c).applies == applies + (if needs_apply(dirty, applied) {
                1nat
            } else {
                0nat
            })
        }),
{
}

/// The four counters of a scheduler: DOM changes signalled, the change
/// count recorded at the last application, applications, and queries.
pub struct Counters {
    pub dirty: nat,
    pub applied: nat,
    pub applies: nat,
    pub queries: nat,
}

/// The counters of a new scheduler.
pub open spec fn fresh_counters() -> Counters {
    Counters { dirty: 0, applied: 0, applies: 0, queries: 0 }
}

/// The counters after `on_dom_changed`.
pub open spec fn after_change(c: Counters) -> Counters {
    Counters { dirty: c.dirty + 1, ..c }
}

/// Whether `should_apply` answers `true` on these counters.
pub open spec fn answer(c: Counters) -> bool {
    c.dirty > c.applied
}

/// The counters after `should_apply`, when no other call runs meanwhile.
pub open spec fn after_query(c: Counters) -> Counters {
    if answer(c) {
        Counters { applied: c.dirty, applies: c.applies + 1, queries: c.queries + 1, ..c }
    } else {
        Counters { queries: c.queries + 1, ..c }
    }
}

/// The counters after `n` calls of `on_dom_changed`.
pub open spec fn after_changes(c: Counters, n: nat) -> Counters
    decreases n,
{
    if n == 0 {
        c
    } else {
        after_change(after_changes(c, (n - 1) as nat))
    }
}

/// The counters are consistent: the recorded change count never passes the
/// signalled one, and there are never more applications than queries.
pub open spec fn consistent(c: Counters) -> bool {
    c.applied <= c.dirty && c.applies <= c.queries
}

/// A fresh scheduler does not apply.
pub proof fn law_fresh_does_not_apply()
    ensures
        !answer(fresh_counters()),
        consistent(fresh_counters()),
{
}

/// Both operations keep the counters consistent.
pub proof fn law_consistency_kept(c: Counters)
    requires
        consistent(c),
    ensures
        consistent(after_change(c)),
        consistent(after_query(c)),
{
}

/// Right after a query, another query answers `false`: a change is applied
/// once.
pub proof fn law_apply_once(c: Counters)
    requires
        consistent(c),
    ensures
        !answer(after_query(c)),
{
}

/// Any number `n >= 1` of changes since the last application coalesce into
/// a single application.
pub proof fn law_changes_coalesce(c: Counters, n: nat)
    requires
        consistent(c),
        c.applied == c.dirty,
        n >= 1,
    ensures
        answer(after_changes(c, n)),
        after_query(after_changes(c, n)).applies == c.applies + 1,
        !answer(after_query(after_changes(c, n))),
{
    lemma_after_changes(c, n);
}

proof fn lemma_after_changes(c: Counters, n: nat)
    ensures
        after_changes(c, n) == (Counters { dirty: c.dirty + n, ..c }),
    decreases n,
{
    if n > 0 {
        lemma_after_changes(c, (n - 1) as nat);
    }
}

/// The counters' answer is the decision `should_apply` takes on its reading
/// of them.
pub proof fn law_answer_is_decision(dirty: u64, applied: u64)
    ensures
        needs_apply(dirty, applied) == answer(
            Counters { dirty: dirty as nat, applied: applied as nat, applies: 0, queries: 0 },
        ),
{
}

struct SchedulerInner {
    /// Bumped on every `on_dom_changed()` call.
    dirty_count: AtomicU64,
    /// Set to `dirty_count` after the last effect application.
    last_applied: AtomicU64,
    /// Number of times effects were re-applied.
    apply_count: AtomicU64,
    /// Number of times the renderer asked `should_apply()`.
    query_count: AtomicU64,
}

/// Monotonic counter of DOM dirty events since the last effect application.
///
/// Clones share their counters, so the scheduler can be handed to the
/// renderer's effect hook and to the reactive layer at the same time.
#[derive(Clone)]
pub struct SceneScheduler {
    inner: Arc<SchedulerInner>,
}

impl SceneScheduler {
    /// A scheduler with every counter at zero.
    pub fn new() -> Self {
        SceneScheduler {
            inner: Arc::new(
                SchedulerInner {
                    dirty_count: AtomicU64::new(0),
                    last_applied: AtomicU64::new(0),
                    apply_count: AtomicU64::new(0),
                    query_count: AtomicU64::new(0),
                },
            ),
        }
    }

    /// Signal that the DOM has changed and effects may need re-applying.
    pub fn on_dom_changed(&self) {
        self.inner.dirty_count.fetch_add(1, Ordering::AcqRel);
    }

    /// Asked by the renderer before re-applying effects: `true` when the DOM
    /// changed since the last application, which is then recorded, so that
    /// the next call answers `false` until another change is signalled.
    pub fn should_apply(&self) -> bool {
        self.inner.query_count.fetch_add(1, Ordering::Relaxed);
        let dirty = self.inner.dirty_count.load(Ordering::Acquire);
        let applied = self.inner.last_applied.load(Ordering::Acquire);
        let (apply, record) = apply_step(dirty, applied);
        if apply {
            self.inner.last_applied.store(record, Ordering::Release);
            self.inner.apply_count.fetch_add(1, Ordering::Relaxed);
            true
        } else {
            false
        }
    }

    /// Number of times effects were re-applied.
    pub fn apply_count(&self) -> u64 {
        self.inner.apply_count.load(Ordering::Acquire)
    }

    /// Number of times the renderer queried `should_apply()`.
    pub fn query_count(&self) -> u64 {
        self.inner.query_count.load(Ordering::Acquire)
    }

    /// Current dirty count (for diagnostics).
    pub fn dirty_count(&self) -> u64 {
        self.inner.dirty_count.load(Ordering::Acquire)
    }
}

impl Default for SceneScheduler {
    fn default() -> Self {
        Self::new()
    }
}

} // verus!
