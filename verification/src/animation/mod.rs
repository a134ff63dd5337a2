//! Animation state: easing curves, animation configuration, the per-frame
//! state machine of one animation, and the engine that holds, starts,
//! cancels and retires animations.
//!
//! What an animation animates (blur radius, scale, translation, rotation,
//! brightness) is a set of floating-point ranges that the renderer
//! interpolates; here the animated properties are an opaque payload `P`.

pub mod easing;

pub use easing::EasingFunction;

use crate::effect::{gpu_compute_kind, EffectType};
use crate::time::{
    duration_as_nanos, duration_from_millis, duration_since, duration_sub, instant_now, nanos,
    since_nanos,
};
use std::time::{Duration, Instant};
use vstd::hash_map::StringHashMap;
use vstd::prelude::*;

verus! {

/// Animation state.
#[derive(Debug, Clone, Copy, PartialEq, Eq, Structural)]
pub enum AnimationState {
    /// Waiting to start.
    Pending,
    /// Currently running.
    Running,
    /// Completed.
    Completed,
    /// Cancelled.
    Cancelled,
}

/// An animation in this state is over: it produces no more frames.
pub open spec fn is_finished(s: AnimationState) -> bool {
    s == AnimationState::Completed || s == AnimationState::Cancelled
}

/// The kinds of animated property.
#[derive(Debug, Clone, Copy, PartialEq, Eq, Structural)]
pub enum PropertyKind {
    /// Blur radius.
    Blur,
    /// Uniform scale.
    Scale,
    /// Translation.
    Translate,
    /// Rotation.
    Rotate,
    /// Brightness.
    Brightness,
}

/// The kind of effect an animated property drives: blur a backdrop blur, scale, translation and rotation a 2D transform, and
/// brightness a colour adjustment.
pub open spec fn property_effect(k: PropertyKind) -> EffectType {
    match k {
        PropertyKind::Blur => EffectType::BackdropBlur,
        PropertyKind::Scale | PropertyKind::Translate | PropertyKind::Rotate => EffectType::Transform2D,
        PropertyKind::Brightness => EffectType::ColorAdjust,
    }
}

/// The kind of effect a property of kind `k` drives.
pub fn effect_type_of(k: PropertyKind) -> (t: EffectType)
    ensures
        t == property_effect(k),
{
    match k {
        PropertyKind::Blur => EffectType::BackdropBlur,
        PropertyKind::Scale => EffectType::Transform2D,
        PropertyKind::Translate => EffectType::Transform2D,
        PropertyKind::Rotate => EffectType::Transform2D,
        PropertyKind::Brightness => EffectType::ColorAdjust,
    }
}

/// Of all animated properties, only brightness needs a GPU compute pass,
/// and only blur becomes a backdrop blur; the kinds are exhaustive, so no
/// property falls back to some other effect.
pub proof fn law_property_effects(k: PropertyKind)
    ensures
        gpu_compute_kind(property_effect(k)) <==> k == PropertyKind::Brightness,
        property_effect(k) == EffectType::BackdropBlur <==> k == PropertyKind::Blur,
{
}

/// Animation configuration.
#[derive(Debug, Clone)]
pub struct AnimationConfig {
    /// Target CSS selector.
    pub selector: String,
    /// Animation duration.
    pub duration: Duration,
    /// Delay before the animation starts.
    pub delay: Duration,
    /// Easing function.
    pub easing: EasingFunction,
    /// Number of iterations (`None` = infinite).
    pub iterations: Option<u32>,
    /// Whether the animation alternates direction.
    pub alternate: bool,
    /// Whether the final state is kept after completion.
    pub fill_forwards: bool,
}

impl Default for AnimationConfig {
    /// No selector, 300 ms, no delay, CSS `ease`, one iteration, forwards,
    /// keeping the final state.
    fn default() -> (c: Self)
        ensures
            c.selector@ == Seq::<char>::empty(),
            nanos(c.duration) == 300_000_000,
            nanos(c.delay) == 0,
            c.easing == EasingFunction::Ease,
            c.iterations == Some(1u32),
            !c.alternate,
            c.fill_forwards,
    {
        AnimationConfig {
            selector: String::new(),
            duration: duration_from_millis(300),
            delay: duration_from_millis(0),
            easing: EasingFunction::Ease,
            iterations: Some(1),
            alternate: false,
            fill_forwards: true,
        }
    }
}

/// What a frame of an animation shows, once its timing is settled.
#[derive(Debug, Clone, Copy, PartialEq, Eq, Structural)]
pub enum TickOutcome {
    /// No effect this frame.
    Nothing,
    /// The properties at their end values (the animation completed and
    /// fills forwards).
    FinalState,
    /// The properties at the eased progress, read backwards when `reversed`.
    Progress { reversed: bool },
}

/// A single animation instance, animating the properties `P`.
#[derive(Debug, Clone)]
pub struct Animation<P> {
    /// Animation configuration.
    pub config: AnimationConfig,
    /// Properties being animated.
    pub properties: Vec<P>,
    /// Animation state.
    pub state: AnimationState,
    /// When the current iteration started.
    pub started_at: Option<Instant>,
    /// Current iteration.
    pub current_iteration: u32,
}

/// The iteration count after a frame: one more when the frame reached the
/// end of the current iteration.
pub open spec fn next_iteration(current: u32, reached_end: bool) -> int {
    if reached_end {
        current + 1
    } else {
        current as int
    }
}

/// Whether a frame completes the animation: it reached the end of an
/// iteration and the iteration count reached the configured limit.
pub open spec fn completes(iterations: Option<u32>, current: u32, reached_end: bool) -> bool {
    reached_end && match iterations {
        Some(max) => next_iteration(current, reached_end) >= max,
        None => false,
    }
}

/// What a frame shows, from the configuration and the iteration count
/// before the frame.
pub open spec fn frame_outcome(c: AnimationConfig, current: u32, reached_end: bool) -> TickOutcome {
    if completes(c.iterations, current, reached_end) {
        if c.fill_forwards {
            TickOutcome::FinalState
        } else {
            TickOutcome::Nothing
        }
    } else {
        TickOutcome::Progress {
            reversed: c.alternate && next_iteration(current, reached_end) % 2 == 1,
        }
    }
}

/// Whether `elapsed` has passed `delay`, and by how much.
pub fn after_delay(elapsed: Duration, delay: Duration) -> (r: Option<Duration>)
    ensures
        match r {
            None => nanos(elapsed) < nanos(delay),
            Some(d) => nanos(delay) <= nanos(elapsed) && nanos(d) == nanos(elapsed) - nanos(
                delay,
            ),
        },
{
    let e = duration_as_nanos(elapsed);
    let d = duration_as_nanos(delay);
    if e < d {
        None
    } else {
        Some(duration_sub(elapsed, delay))
    }
}

impl<P> Animation<P> {
    /// A new pending animation.
    pub fn new(config: AnimationConfig, properties: Vec<P>) -> (a: Self)
        ensures
            a.config == config,
            a.properties == properties,
            a.state == AnimationState::Pending,
            a.started_at is None,
            a.current_iteration == 0,
    {
        Animation {
            config,
            properties,
            state: AnimationState::Pending,
            started_at: None,
            current_iteration: 0,
        }
    }

    /// Start the animation: it runs from now.
    pub fn start(&mut self)
        ensures
            final(self).state == AnimationState::Running,
            final(self).started_at is Some,
            final(self).config == old(self).config,
            final(self).properties == old(self).properties,
            final(self).current_iteration == old(self).current_iteration,
    {
        self.state = AnimationState::Running;
        self.started_at = Some(instant_now());
    }

    /// Cancel the animation.
    pub fn cancel(&mut self)
        ensures
            *final(self) == (Animation { state: AnimationState::Cancelled, ..*old(self) }),
    {
        self.state = AnimationState::Cancelled;
    }

    /// Whether the animation is over (completed or cancelled).
    pub fn is_complete(&self) -> (b: bool)
        ensures
            b == is_finished(self.state),
    {
        self.state == AnimationState::Completed || self.state == AnimationState::Cancelled
    }

    /// The time elapsed in the current iteration past the configured delay,
    /// read at `now`; `None` when the animation is not running, was never
    /// started, or is still inside its delay.
    pub fn frame_elapsed(&self, now: Instant) -> (r: Option<Duration>)
        ensures
            match r {
                Some(d) => {
                    &&& self.state == AnimationState::Running
                    &&& self.started_at is Some
                    &&& since_nanos(now, self.started_at->0) >= nanos(self.config.delay)
                    &&& nanos(d) == since_nanos(now, self.started_at->0) - nanos(self.config.delay)
                },
                None => !(self.state == AnimationState::Running && self.started_at is Some
                    && since_nanos(now, self.started_at->0) >= nanos(self.config.delay)),
            },
    {
        if self.state != AnimationState::Running {
            return None;
        }
        match self.started_at {
            None => None,
            Some(start) => {
                let elapsed = duration_since(now, start);
                after_delay(elapsed, self.config.delay)
            },
        }
    }

    /// Settle a frame whose progress did (`reached_end`) or did not reach
    /// the end of the current iteration: count the iteration, complete the
    /// animation when the iteration limit is reached, restart the iteration
    /// clock at `now` otherwise, and say what the frame shows.
    pub fn finish_frame(&mut self, reached_end: bool, now: Instant) -> (out: TickOutcome)
        requires
            reached_end ==> old(self).current_iteration < u32::MAX,
        ensures
            final(self).current_iteration == next_iteration(
                old(self).current_iteration,
                reached_end,
            ),
            final(self).state == (if completes(
                old(self).config.iterations,
                old(self).current_iteration,
                reached_end,
            ) {
                AnimationState::Completed
            } else {
                old(self).state
            }),
            final(self).started_at == (if reached_end && !completes(
                old(self).config.iterations,
                old(self).current_iteration,
                reached_end,
            ) {
                Some(now)
            } else {
                old(self).started_at
            }),
            final(self).config == old(self).config,
            final(self).properties == old(self).properties,
            out == frame_outcome(old(self).config, old(self).current_iteration, reached_end),
            !reached_end ==> {
                &&& final(self).current_iteration == old(self).current_iteration
                &&& final(self).state == old(self).state
                &&& final(self).started_at == old(self).started_at
            },
            reached_end ==> final(self).current_iteration == old(self).current_iteration + 1,
            (final(self).state == AnimationState::Completed) <==> (old(self).state
                == AnimationState::Completed || (reached_end && (match old(self).config.iterations {
                Some(max) => old(self).current_iteration + 1 >= max,
                None => false,
            }))),
    {
        if reached_end {
            self.current_iteration = self.current_iteration + 1;
            match self.config.iterations {
                Some(max) => {
                    if self.current_iteration >= max {
                        self.state = AnimationState::Completed;
                        if self.config.fill_forwards {
                            return TickOutcome::FinalState;
                        } else {
                            return TickOutcome::Nothing;
                        }
                    }
                },
                None => {},
            }
            self.started_at = Some(now);
        }
        TickOutcome::Progress {
            reversed: self.config.alternate && self.current_iteration % 2 == 1,
        }
    }
}

/// The animations that are running.
pub open spec fn running<P>(s: Seq<Animation<P>>) -> Seq<Animation<P>> {
    s.filter(|a: Animation<P>| a.state == AnimationState::Running)
}

/// The animations that are not over.
pub open spec fn unfinished<P>(s: Seq<Animation<P>>) -> Seq<Animation<P>> {
    s.filter(|a: Animation<P>| !is_finished(a.state))
}

/// An animation cancelled.
pub open spec fn cancelled<P>(a: Animation<P>) -> Animation<P> {
    Animation { state: AnimationState::Cancelled, ..a }
}

/// `b` is `a` started: running, with a start time, and otherwise unchanged.
pub open spec fn started_from<P>(a: Animation<P>, b: Animation<P>) -> bool {
    &&& b.state == AnimationState::Running
    &&& b.started_at is Some
    &&& b.config == a.config
    &&& b.properties == a.properties
    &&& b.current_iteration == a.current_iteration
}

/// Animation engine that holds every animation, by index, and optionally by
/// name.
pub struct AnimationEngine<P> {
    animations: Vec<Animation<P>>,
    named_animations: StringHashMap<usize>,
}

impl<P> AnimationEngine<P> {
    /// The animations, by index.
    pub closed spec fn animations(&self) -> Seq<Animation<P>> {
        self.animations@
    }

    /// The index registered for each name.
    pub closed spec fn names(&self) -> Map<Seq<char>, usize> {
        self.named_animations@
    }

    /// An engine with no animation.
    pub fn new() -> (e: Self)
        ensures
            e.animations() == Seq::<Animation<P>>::empty(),
            e.names() == Map::<Seq<char>, usize>::empty(),
    {
        AnimationEngine { animations: Vec::new(), named_animations: StringHashMap::new() }
    }

    /// Number of animations held (running or not).
    pub fn animation_count(&self) -> (n: usize)
        ensures
            n == self.animations().len(),
    {
        self.animations.len()
    }

    /// Add an animation; its index is returned.
    pub fn add_animation(&mut self, animation: Animation<P>) -> (id: usize)
        ensures
            id == old(self).animations().len(),
            final(self).animations() == old(self).animations().push(animation),
            final(self).names() == old(self).names(),
    {
        let id = self.animations.len();
        self.animations.push(animation);
        id
    }

    /// Add an animation under a name (replacing what the name denoted); its
    /// index is returned.
    pub fn add_named_animation(&mut self, name: &str, animation: Animation<P>) -> (id: usize)
        ensures
            id == old(self).animations().len(),
            final(self).animations() == old(self).animations().push(animation),
            final(self).names() == old(self).names().insert(name@, id),
    {
        let id = self.add_animation(animation);
        self.named_animations.insert(name.to_owned(), id);
        id
    }

    /// The animation at index `id`, if there is one.
    pub fn get_animation(&mut self, id: usize) -> (r: Option<&mut Animation<P>>)
        ensures
            old(self).names() == final(self).names(),
            match r {
                Some(a) => {
                    &&& id < old(self).animations().len()
                    &&& *a == old(self).animations()[id as int]
                    &&& final(self).animations() == old(self).animations().update(
                        id as int,
                        *final(a),
                    )
                },
                None => {
                    &&& id >= old(self).animations().len()
                    &&& final(self).animations() == old(self).animations()
                },
            },
    {
        if id < self.animations.len() {
            Some(&mut self.animations[id])
        } else {
            None
        }
    }

    /// The animation registered under `name`, if the name is known and
    /// denotes an animation.
    pub fn get_named_animation(&mut self, name: &str) -> (r: Option<&mut Animation<P>>)
        ensures
            old(self).names() == final(self).names(),
            match r {
                Some(a) => {
                    &&& old(self).names().contains_key(name@)
                    &&& old(self).names()[name@] < old(self).animations().len()
                    &&& *a == old(self).animations()[old(self).names()[name@] as int]
                    &&& final(self).animations() == old(self).animations().update(
                        old(self).names()[name@] as int,
                        *final(a),
                    )
                },
                None => {
                    &&& !(old(self).names().contains_key(name@) && old(self).names()[name@]
                        < old(self).animations().len())
                    &&& final(self).animations() == old(self).animations()
                },
            },
    {
        let id = match self.named_animations.get(name) {
            Some(id) => *id,
            None => {
                return None;
            },
        };
        self.get_animation(id)
    }

    /// Start the animation at index `id`; `false` when there is none.
    pub fn start(&mut self, id: usize) -> (ok: bool)
        ensures
            ok == (id < old(self).animations().len()),
            final(self).names() == old(self).names(),
            final(self).animations().len() == old(self).animations().len(),
            forall|j: int|
                0 <= j < old(self).animations().len() && j != id
                    ==> #[trigger] final(self).animations()[j] == old(self).animations()[j],
            ok ==> started_from(old(self).animations()[id as int], final(self).animations()[id as int]),
    {
        if id < self.animations.len() {
            self.animations[id].start();
            true
        } else {
            false
        }
    }

    /// Start the animation registered under `name`; `false` when the name
    /// is unknown or denotes no animation.
    pub fn start_named(&mut self, name: &str) -> (ok: bool)
        ensures
            ok == (old(self).names().contains_key(name@) && old(self).names()[name@]
                < old(self).animations().len()),
            final(self).names() == old(self).names(),
            final(self).animations().len() == old(self).animations().len(),
            forall|j: int|
                0 <= j < old(self).animations().len() && !(ok && j == old(self).names()[name@])
                    ==> #[trigger] final(self).animations()[j] == old(self).animations()[j],
            ok ==> started_from(
                old(self).animations()[old(self).names()[name@] as int],
                final(self).animations()[old(self).names()[name@] as int],
            ),
    {
        match self.named_animations.get(name) {
            Some(id) => {
                let id = *id;
                self.start(id)
            },
            None => false,
        }
    }

    /// Start every pending animation; the others are left as they are.
    pub fn start_all_pending(&mut self)
        ensures
            final(self).names() == old(self).names(),
            final(self).animations().len() == old(self).animations().len(),
            forall|j: int|
                0 <= j < old(self).animations().len() ==> if old(self).animations()[j].state
                    == AnimationState::Pending {
                    started_from(old(self).animations()[j], #[trigger] final(self).animations()[j])
                } else {
                    final(self).animations()[j] == old(self).animations()[j]
                },
    {
        let n = self.animations.len();
        let mut i: usize = 0;
        while i < n
            invariant
                n == old(self).animations().len(),
                i <= n,
                self.names() == old(self).names(),
                self.animations().len() == n,
                forall|j: int|
                    0 <= j < i ==> if old(self).animations()[j].state == AnimationState::Pending {
                        started_from(old(self).animations()[j], #[trigger] self.animations()[j])
                    } else {
                        self.animations()[j] == old(self).animations()[j]
                    },
                forall|j: int| i <= j < n ==> #[trigger] self.animations()[j] == old(self).animations()[j],
            decreases n - i,
        {
            if self.animations[i].state == AnimationState::Pending {
                self.animations[i].start();
            }
            i = i + 1;
        }
    }

    /// Cancel the animation at index `id`; `false` when there is none.
    pub fn cancel(&mut self, id: usize) -> (ok: bool)
        ensures
            ok == (id < old(self).animations().len()),
            final(self).names() == old(self).names(),
            final(self).animations() == (if ok {
                old(self).animations().update(id as int, cancelled(old(self).animations()[id as int]))
            } else {
                old(self).animations()
            }),
    {
        if id < self.animations.len() {
            self.animations[id].cancel();
            true
        } else {
            false
        }
    }

    /// Cancel every animation.
    pub fn cancel_all(&mut self)
        ensures
            final(self).names() == old(self).names(),
            final(self).animations() == all_cancelled(old(self).animations()),
    {
        let n = self.animations.len();
        let mut i: usize = 0;
        while i < n
            invariant
                n == old(self).animations().len(),
                i <= n,
                self.names() == old(self).names(),
                self.animations().len() == n,
                forall|j: int| 0 <= j < i ==> #[trigger] self.animations()[j] == cancelled(old(self).animations()[j]),
                forall|j: int| i <= j < n ==> #[trigger] self.animations()[j] == old(self).animations()[j],
            decreases n - i,
        {
            self.animations[i].cancel();
            i = i + 1;
        }
        assert(self.animations() =~= all_cancelled(old(self).animations()));
    }

    /// Count of running animations; pending, completed and cancelled ones
    /// are not counted.
    pub fn active_count(&self) -> (n: usize)
        ensures
            n == running(self.animations()).len(),
    {
        let mut count: usize = 0;
        let mut i: usize = 0;
        while i < self.animations.len()
            invariant
                i <= self.animations@.len(),
                count == running(self.animations@.take(i as int)).len(),
                count <= i,
            decreases self.animations@.len() - i,
        {
            proof {
                reveal_with_fuel(Seq::<_>::filter, 1);
            }
            assert(self.animations@.take(i + 1).drop_last() =~= self.animations@.take(i as int));
            if self.animations[i].state == AnimationState::Running {
                count = count + 1;
            }
            i = i + 1;
        }
        assert(self.animations@.take(i as int) =~= self.animations@);
        count
    }

    /// Drop every completed or cancelled animation, keeping the others in
    /// order. Indices of later animations shift down; names are kept as
    /// they were.
    pub fn cleanup(&mut self)
        ensures
            final(self).names() == old(self).names(),
            final(self).animations() == unfinished(old(self).animations()),
            forall|i: int|
                0 <= i < final(self).animations().len() ==> !is_finished(
                    #[trigger] final(self).animations()[i].state,
                ),
    {
        let mut rest: Vec<Animation<P>> = Vec::new();
        std::mem::swap(&mut rest, &mut self.animations);
        let ghost all = rest@;
        let mut kept: Vec<Animation<P>> = Vec::new();
        let ghost mut k: int = 0;
        while rest.len() > 0
            invariant
                0 <= k <= all.len(),
                rest@ == all.subrange(k, all.len() as int),
                kept@ == unfinished(all.take(k)),
            decreases rest@.len(),
        {
            let a = rest.remove(0);
            proof {
                reveal_with_fuel(Seq::<_>::filter, 1);
            }
            assert(all.take(k + 1).drop_last() =~= all.take(k));
            assert(all.take(k + 1).last() == a);
            if !a.is_complete() {
                kept.push(a);
            }
            proof {
                k = k + 1;
            }
            assert(rest@ =~= all.subrange(k, all.len() as int));
        }
        assert(all.take(k) =~= all);
        proof {
            law_cleanup_drops_exactly_finished(all);
        }
        self.animations = kept;
    }
}

impl<P> Default for AnimationEngine<P> {
    fn default() -> (e: Self)
        ensures
            e.animations() == Seq::<Animation<P>>::empty(),
            e.names() == Map::<Seq<char>, usize>::empty(),
    {
        Self::new()
    }
}

/// Every animation cancelled.
pub open spec fn all_cancelled<P>(s: Seq<Animation<P>>) -> Seq<Animation<P>> {
    s.map_values(|a: Animation<P>| cancelled(a))
}

/// Filtering after replacing one element changes the number kept by what
/// the predicate says of the old and new element.
proof fn lemma_filter_update_len<A>(s: Seq<A>, i: int, b: A, pred: spec_fn(A) -> bool)
    requires
        0 <= i < s.len(),
    ensures
        s.update(i, b).filter(pred).len() == s.filter(pred).len() - (if pred(s[i]) {
            1int
        } else {
            0int
        }) + (if pred(b) {
            1int
        } else {
            0int
        }),
{
    let l = s.take(i);
    let r = s.skip(i + 1);
    assert(s =~= l + seq![s[i]] + r);
    assert(s.update(i, b) =~= l + seq![b] + r);
    Seq::filter_distributes_over_add(l + seq![s[i]], r, pred);
    Seq::filter_distributes_over_add(l, seq![s[i]], pred);
    Seq::filter_distributes_over_add(l + seq![b], r, pred);
    Seq::filter_distributes_over_add(l, seq![b], pred);
    reveal_with_fuel(Seq::<_>::filter, 2);
    assert(seq![s[i]].drop_last() =~= Seq::<A>::empty());
    assert(seq![b].drop_last() =~= Seq::<A>::empty());
}

/// Nothing is kept when the predicate holds of no element.
proof fn lemma_filter_none<A>(s: Seq<A>, pred: spec_fn(A) -> bool)
    requires
        forall|i: int| 0 <= i < s.len() ==> !pred(#[trigger] s[i]),
    ensures
        s.filter(pred).len() == 0,
    decreases s.len(),
{
    reveal_with_fuel(Seq::<_>::filter, 1);
    if s.len() > 0 {
        lemma_filter_none(s.drop_last(), pred);
    }
}

/// Filtering by a weaker predicate first changes nothing.
proof fn lemma_filter_weaker_first<A>(s: Seq<A>, p: spec_fn(A) -> bool, q: spec_fn(A) -> bool)
    requires
        forall|x: A| #[trigger] p(x) ==> q(x),
    ensures
        s.filter(q).filter(p) == s.filter(p),
    decreases s.len(),
{
    reveal_with_fuel(Seq::<_>::filter, 2);
    if s.len() > 0 {
        lemma_filter_weaker_first(s.drop_last(), p, q);
        let sub = s.drop_last().filter(q);
        if q(s.last()) {
            assert(sub.push(s.last()).drop_last() =~= sub);
        }
    }
    assert(s.filter(q).filter(p) =~= s.filter(p));
}

/// Starting an animation that was not running adds one to the number of
/// running animations.
pub proof fn law_start_adds_one_active<P>(s: Seq<Animation<P>>, id: int, b: Animation<P>)
    requires
        0 <= id < s.len(),
        s[id].state != AnimationState::Running,
        started_from(s[id], b),
    ensures
        running(s.update(id, b)).len() == running(s).len() + 1,
{
    lemma_filter_update_len(s, id, b, |a: Animation<P>| a.state == AnimationState::Running);
}

/// After every animation is cancelled, none is running, and cleaning up
/// leaves none.
pub proof fn law_cancel_all_then_cleanup_empties<P>(s: Seq<Animation<P>>)
    ensures
        running(all_cancelled(s)).len() == 0,
        unfinished(all_cancelled(s)).len() == 0,
{
    lemma_filter_none(all_cancelled(s), |a: Animation<P>| a.state == AnimationState::Running);
    lemma_filter_none(all_cancelled(s), |a: Animation<P>| !is_finished(a.state));
}

/// Cleaning up keeps every running animation (in order): the active count
/// is unchanged, and cleaning up twice is cleaning up once.
pub proof fn law_cleanup_keeps_active<P>(s: Seq<Animation<P>>)
    ensures
        running(unfinished(s)) == running(s),
        unfinished(unfinished(s)) == unfinished(s),
{
    lemma_filter_weaker_first(
        s,
        |a: Animation<P>| a.state == AnimationState::Running,
        |a: Animation<P>| !is_finished(a.state),
    );
    lemma_filter_weaker_first(
        s,
        |a: Animation<P>| !is_finished(a.state),
        |a: Animation<P>| !is_finished(a.state),
    );
}

/// Cleaning up keeps exactly the animations that are not over: none that
/// completed or was cancelled stays, each kept one was held before, and
/// every pending or running one is kept.
pub proof fn law_cleanup_drops_exactly_finished<P>(s: Seq<Animation<P>>)
    ensures
        forall|i: int|
            0 <= i < unfinished(s).len() ==> {
                &&& #[trigger] unfinished(s)[i].state != AnimationState::Completed
                &&& unfinished(s)[i].state != AnimationState::Cancelled
                &&& s.contains(unfinished(s)[i])
            },
        forall|i: int|
            0 <= i < s.len() && (s[i].state == AnimationState::Pending || s[i].state
                == AnimationState::Running) ==> unfinished(s).contains(#[trigger] s[i]),
{
    let keep = |a: Animation<P>| !is_finished(a.state);
    assert forall|i: int| 0 <= i < unfinished(s).len() implies {
        &&& #[trigger] unfinished(s)[i].state != AnimationState::Completed
        &&& unfinished(s)[i].state != AnimationState::Cancelled
        &&& s.contains(unfinished(s)[i])
    } by {
        s.lemma_filter_pred(keep, i);
        assert(unfinished(s).contains(unfinished(s)[i]));
        s.lemma_filter_contains_rev(keep, unfinished(s)[i]);
    }
    assert forall|i: int|
        0 <= i < s.len() && (s[i].state == AnimationState::Pending || s[i].state
            == AnimationState::Running) implies unfinished(s).contains(#[trigger] s[i]) by {
        s.lemma_filter_contains(keep, i);
    }
}

/// The active count never exceeds the number of animations held.
pub proof fn law_active_at_most_held<P>(s: Seq<Animation<P>>)
    ensures
        running(s).len() <= s.len(),
{
    s.lemma_filter_len(|a: Animation<P>| a.state == AnimationState::Running);
}

/// An animation added under a name is the one the name then denotes.
pub proof fn law_named_add_then_lookup<P>(
    s: Seq<Animation<P>>,
    m: Map<Seq<char>, usize>,
    name: Seq<char>,
    a: Animation<P>,
)
    requires
        s.len() < usize::MAX,
    ensures
        ({
            let s2 = s.push(a);
            let m2 = m.insert(name, s.len() as usize);
            m2.contains_key(name) && m2[name] < s2.len() && s2[m2[name] as int] == a
        }),
{
}

/// An animation with unlimited iterations never completes; one limited to
/// `max` iterations completes exactly on the frame that ends iteration
/// `max` (or later ones, when started past it).
pub proof fn law_completion_at_iteration_limit(iterations: Option<u32>, current: u32, reached_end: bool)
    ensures
        iterations is None ==> !completes(iterations, current, reached_end),
        !reached_end ==> !completes(iterations, current, reached_end),
        iterations matches Some(max) ==> (completes(iterations, current, true) <==> current + 1
            >= max),
{
}

/// A frame that does not reach the end of its iteration leaves the
/// iteration count as it was, never completes the animation, and shows the
/// properties at a progress, reversed only on an odd iteration of an
/// alternating animation. So a limited animation completes on the frame
/// that ends its last iteration, whatever frames came between.
pub proof fn law_mid_iteration_frame(c: AnimationConfig, current: u32)
    ensures
        next_iteration(current, false) == current,
        !completes(c.iterations, current, false),
        frame_outcome(c, current, false) == (TickOutcome::Progress {
            reversed: c.alternate && current % 2 == 1,
        }),
{
}

/// The iteration count after settling, from `current`, frames that each
/// did (`true`) or did not reach the end of their iteration.
pub open spec fn count_after_frames(current: u32, frames: Seq<bool>) -> int
    decreases frames.len(),
{
    if frames.len() == 0 {
        current as int
    } else {
        next_iteration(
            count_after_frames(current, frames.drop_last()) as u32,
            frames.last(),
        )
    }
}

/// Over any run of frames (short enough for the count to fit), the
/// iteration count grows by the number of frames that reached the end of
/// an iteration, and by nothing else.
pub proof fn law_iterations_count_ends(current: u32, frames: Seq<bool>)
    requires
        current + frames.len() <= u32::MAX,
    ensures
        count_after_frames(current, frames) == current + frames.filter(|b: bool| b).len(),
    decreases frames.len(),
{
    reveal_with_fuel(Seq::<_>::filter, 1);
    if frames.len() > 0 {
        law_iterations_count_ends(current, frames.drop_last());
        frames.drop_last().lemma_filter_len(|b: bool| b);
    }
}

/// A frame that reaches the end of the last allowed iteration counts it,
/// completes the animation, and shows the end values when the animation
/// fills forwards (nothing otherwise).
pub proof fn law_last_iteration_end(c: AnimationConfig, current: u32)
    requires
        c.iterations matches Some(max) && current + 1 >= max,
    ensures
        next_iteration(current, true) == current + 1,
        completes(c.iterations, current, true),
        frame_outcome(c, current, true) == (if c.fill_forwards {
            TickOutcome::FinalState
        } else {
            TickOutcome::Nothing
        }),
{
}

/// A frame that reaches the end of an iteration that is not the last
/// (always so for unlimited iterations) counts it, does not complete the
/// animation, and shows the properties at a progress.
pub proof fn law_other_iteration_end(c: AnimationConfig, current: u32)
    requires
        match c.iterations {
            Some(max) => current + 1 < max,
            None => true,
        },
    ensures
        next_iteration(current, true) == current + 1,
        !completes(c.iterations, current, true),
        frame_outcome(c, current, true) is Progress,
{
}

/// A frame of an animation that does not alternate is never shown
/// reversed; one that alternates shows odd iterations reversed.
pub proof fn law_direction(c: AnimationConfig, current: u32, reached_end: bool)
    ensures
        !c.alternate ==> frame_outcome(c, current, reached_end) != (TickOutcome::Progress {
            reversed: true,
        }),
        c.alternate && !completes(c.iterations, current, reached_end) ==> frame_outcome(
            c,
            current,
            reached_end,
        ) == (TickOutcome::Progress {
            reversed: next_iteration(current, reached_end) % 2 == 1,
        }),
{
}

} // verus!
