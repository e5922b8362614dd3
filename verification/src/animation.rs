//! The per-actor animation instance: a state, a frame and a frame timer.

use crate::clock::duration_nanos;
use crate::clock::repeating_timer;
use crate::clock::tick_timer;
use crate::clock::ticked_nanos;
use crate::clock::timer_elapsed_nanos;
use crate::clock::timer_finished;
use crate::clock::timer_has_finished;
use crate::clock::timer_period_nanos;
use crate::clock::timer_repeats;
use crate::state::AnchorPoint;
use crate::state::PlayerAnimationState;
use bevy::time::Timer;
use std::time::Duration;
use vstd::arithmetic::div_mod::lemma_basic_div;
use vstd::arithmetic::div_mod::lemma_fundamental_div_mod;
use vstd::arithmetic::div_mod::lemma_fundamental_div_mod_converse;
use vstd::arithmetic::div_mod::lemma_small_mod;
use vstd::prelude::*;

verus! {

/// What an animation instance holds, as mathematics.
pub struct AnimationView {
    /// The active state.
    pub state: PlayerAnimationState,
    /// The frame of the state's cycle that is shown.
    pub frame: nat,
    /// Nanoseconds the frame timer has counted towards the next frame.
    pub elapsed: nat,
    /// Whether the frame timer expired on its latest tick.
    pub finished: bool,
    /// Whether the state was replaced since the flag was last cleared.
    pub dirty: bool,
}

impl AnimationView {
    /// The frame is one of the cycle's two and the timer is short of its period.
    pub open spec fn wf(self) -> bool {
        &&& self.frame < 2
        &&& self.elapsed < self.state.interval_nanos()
    }

    /// The instance every actor starts with, and every transition starts over with.
    pub open spec fn fresh(state: PlayerAnimationState) -> AnimationView {
        AnimationView { state, frame: 0, elapsed: 0, finished: false, dirty: true }
    }

    /// Whether a tick of `delta` nanoseconds makes the frame timer expire.
    pub open spec fn expires(self, delta: nat) -> bool {
        ticked_nanos(self.elapsed, delta) >= self.state.interval_nanos()
    }

    /// The instance after one tick of `delta` nanoseconds.
    pub open spec fn advance(self, delta: nat) -> AnimationView {
        AnimationView {
            state: self.state,
            frame: if self.expires(delta) { (self.frame + 1) % 2 } else { self.frame },
            elapsed: ticked_nanos(self.elapsed, delta) % self.state.interval_nanos(),
            finished: self.expires(delta),
            dirty: self.dirty,
        }
    }

    /// The instance after a request to show `state`.
    pub open spec fn transition(self, state: PlayerAnimationState) -> AnimationView {
        if self.state == state {
            self
        } else {
            AnimationView::fresh(state)
        }
    }

    /// Whether what is shown changed on the latest tick.
    pub open spec fn changed(self) -> bool {
        self.dirty || self.finished
    }

    /// The atlas index to show.
    pub open spec fn atlas_index(self) -> nat {
        self.state.atlas_index(self.frame)
    }
}

/// Tracks one actor's animation. It is tightly bound to the sprite atlas in use.
pub struct PlayerAnimation {
    timer: Timer,
    frame: usize,
    state: PlayerAnimationState,
    state_changed: bool,
}

impl View for PlayerAnimation {
    type V = AnimationView;

    closed spec fn view(&self) -> AnimationView {
        AnimationView {
            state: self.state,
            frame: self.frame as nat,
            elapsed: timer_elapsed_nanos(self.timer),
            finished: timer_finished(self.timer),
            dirty: self.state_changed,
        }
    }
}

impl PlayerAnimation {
    #[verifier::type_invariant]
    spec fn inv(&self) -> bool {
        &&& timer_repeats(self.timer)
        &&& timer_period_nanos(self.timer) == self.state.interval_nanos()
        &&& timer_elapsed_nanos(self.timer) < self.state.interval_nanos()
        &&& self.frame < 2
    }

    fn internal_new(state: PlayerAnimationState) -> (a: Self)
        ensures
            a@ == AnimationView::fresh(state),
    {
        Self { timer: repeating_timer(state.interval_millis()), frame: 0, state, state_changed: true }
    }

    /// An instance that idles facing the bottom of the map.
    pub fn new() -> (a: Self)
        ensures
            a@ == AnimationView::fresh(PlayerAnimationState::IdlingB),
            a@.wf(),
    {
        Self::internal_new(PlayerAnimationState::IdlingB)
    }

    /// Ticks the frame timer by `delta` and moves to the next frame if it expired.
    pub fn update_timer(&mut self, delta: Duration)
        ensures
            final(self)@ == old(self)@.advance(duration_nanos(delta)),
            final(self)@.wf(),
    {
        proof {
            use_type_invariant(&*self);
        }
        tick_timer(&mut self.timer, delta);
        if !timer_has_finished(&self.timer) {
            return ;
        }
        self.frame = (self.frame + 1) % self.state.frame_count();
    }

    /// Shows `state`: nothing happens if it is already shown; otherwise the
    /// instance starts over at frame 0 with a new timer and is marked changed.
    pub fn update_state(&mut self, state: PlayerAnimationState)
        ensures
            final(self)@ == old(self)@.transition(state),
            final(self)@.wf(),
    {
        proof {
            use_type_invariant(&*self);
        }
        if self.state != state {
            *self = Self::internal_new(state);
        }
    }

    /// Whether what is shown changed on the latest tick.
    pub fn changed(&self) -> (b: bool)
        ensures
            b == self@.changed(),
    {
        if self.state_changed {
            true
        } else {
            timer_has_finished(&self.timer)
        }
    }

    /// Sets or clears the mark that the state was replaced.
    pub fn set_state_changed(&mut self, state_changed: bool)
        ensures
            final(self)@ == (AnimationView { dirty: state_changed, ..old(self)@ }),
    {
        proof {
            use_type_invariant(&*self);
        }
        self.state_changed = state_changed;
    }

    /// The atlas index to show.
    pub fn get_atlas_index(&self) -> (i: usize)
        ensures
            i == self@.atlas_index(),
            self@.wf(),
    {
        proof {
            use_type_invariant(self);
        }
        self.state.sample_atlas_index(self.frame)
    }

    /// The pivot shift to show, in hundredths of the sprite's size.
    pub fn get_anchor_point(&self) -> (p: AnchorPoint)
        ensures
            p == self@.state.anchor_point(self@.frame),
    {
        self.state.get_anchor_point(self.frame)
    }

    /// The active state.
    pub fn state(&self) -> (s: PlayerAnimationState)
        ensures
            s == self@.state,
            self@.wf(),
    {
        proof {
            use_type_invariant(self);
        }
        self.state
    }

    /// The frame of the cycle that is shown.
    pub fn frame(&self) -> (f: usize)
        ensures
            f == self@.frame,
            self@.wf(),
    {
        proof {
            use_type_invariant(self);
        }
        self.frame
    }

    /// Reports whether what is shown changed on the latest tick, and clears the
    /// mark that the state was replaced.
    pub fn consume_changed_flag(&mut self) -> (b: bool)
        ensures
            b == old(self)@.changed(),
            final(self)@ == (AnimationView { dirty: false, ..old(self)@ }),
    {
        let b = self.changed();
        self.set_state_changed(false);
        b
    }
}

/// The sum of a sequence of tick lengths.
pub open spec fn total_nanos(deltas: Seq<nat>) -> nat
    decreases deltas.len(),
{
    if deltas.len() == 0 {
        0
    } else {
        total_nanos(deltas.drop_last()) + deltas.last()
    }
}

impl AnimationView {
    /// The instance after one tick for each of `deltas`, in order.
    pub open spec fn advance_each(self, deltas: Seq<nat>) -> AnimationView
        decreases deltas.len(),
    {
        if deltas.len() == 0 {
            self
        } else {
            self.advance_each(deltas.drop_last()).advance(deltas.last())
        }
    }
}

/// A fresh instance, a tick and a transition each keep an instance well formed.
pub proof fn lemma_wf_preserved(v: AnimationView, state: PlayerAnimationState, delta: nat)
    requires
        v.wf(),
    ensures
        AnimationView::fresh(state).wf(),
        v.advance(delta).wf(),
        v.transition(state).wf(),
{
}

/// Asking twice for the same state is the same as asking once: the second
/// request leaves frame, timer and dirty mark as the first left them.
pub proof fn lemma_transition_idempotent(v: AnimationView, state: PlayerAnimationState)
    ensures
        v.transition(state).transition(state) == v.transition(state),
        v.transition(state).state == state,
{
}

/// No tick is longer than the sum of all ticks.
pub proof fn lemma_delta_within_total(deltas: Seq<nat>, i: int)
    requires
        0 <= i < deltas.len(),
    ensures
        deltas[i] <= total_nanos(deltas),
    decreases deltas.len(),
{
    if i < deltas.len() - 1 {
        lemma_delta_within_total(deltas.drop_last(), i);
    }
}

/// Ticks that are each no longer than the state's frame interval add up: the
/// timer ends at the summed time modulo the interval, and the frame has moved
/// on once for every whole interval in the summed time.
pub proof fn lemma_advance_each(v: AnimationView, deltas: Seq<nat>)
    requires
        v.wf(),
        forall|i: int| 0 <= i < deltas.len() ==> deltas[i] <= v.state.interval_nanos(),
    ensures
        v.advance_each(deltas).wf(),
        v.advance_each(deltas).state == v.state,
        v.advance_each(deltas).dirty == v.dirty,
        v.advance_each(deltas).elapsed == (v.elapsed + total_nanos(deltas))
            % v.state.interval_nanos(),
        v.advance_each(deltas).frame == (v.frame + (v.elapsed + total_nanos(deltas))
            / v.state.interval_nanos()) % 2,
    decreases deltas.len(),
{
    let p = v.state.interval_nanos() as int;
    if deltas.len() == 0 {
        lemma_small_mod(v.elapsed, p as nat);
        lemma_basic_div(v.elapsed as int, p);
    } else {
        let head = deltas.drop_last();
        let d = deltas.last() as int;
        lemma_advance_each(v, head);
        let w = v.advance_each(head);
        let t = (v.elapsed + total_nanos(head)) as int;
        let q = t / p;
        let r = t % p;
        lemma_fundamental_div_mod(t, p);
        assert(w.elapsed == r);
        assert(ticked_nanos(w.elapsed, d as nat) == r + d);
        if r + d < p {
            lemma_small_mod((r + d) as nat, p as nat);
            lemma_fundamental_div_mod_converse(t + d, p, q, r + d);
        } else {
            assert(t + d == (q + 1) * p + (r + d - p)) by (nonlinear_arith)
                requires
                    t == p * q + r,
            ;
            lemma_fundamental_div_mod_converse(t + d, p, q + 1, r + d - p);
            lemma_fundamental_div_mod_converse(r + d, p, 1, r + d - p);
        }
    }
}

/// Ticks that add up to exactly one frame interval move the frame on by
/// exactly one, however the interval is cut into ticks and whatever the timer
/// had counted before; the timer ends where it began.
pub proof fn lemma_one_interval_one_frame(v: AnimationView, deltas: Seq<nat>)
    requires
        v.wf(),
        total_nanos(deltas) == v.state.interval_nanos(),
    ensures
        v.advance_each(deltas).frame == (v.frame + 1) % 2,
        v.advance_each(deltas).elapsed == v.elapsed,
        v.advance_each(deltas).state == v.state,
{
    let p = v.state.interval_nanos() as int;
    assert forall|i: int| 0 <= i < deltas.len() implies deltas[i] <= v.state.interval_nanos() by {
        lemma_delta_within_total(deltas, i);
    }
    lemma_advance_each(v, deltas);
    lemma_fundamental_div_mod_converse(v.elapsed + p, p, 1, v.elapsed as int);
}

/// Ticks that add up to exactly two frame intervals, none of them longer than
/// one interval, bring the frame back to where it was.
pub proof fn lemma_two_intervals_full_cycle(v: AnimationView, deltas: Seq<nat>)
    requires
        v.wf(),
        forall|i: int| 0 <= i < deltas.len() ==> deltas[i] <= v.state.interval_nanos(),
        total_nanos(deltas) == 2 * v.state.interval_nanos(),
    ensures
        v.advance_each(deltas).frame == v.frame,
        v.advance_each(deltas).frame == (v.frame + 2) % 2,
        v.advance_each(deltas).elapsed == v.elapsed,
        v.advance_each(deltas).state == v.state,
{
    let p = v.state.interval_nanos() as int;
    lemma_advance_each(v, deltas);
    lemma_fundamental_div_mod_converse(v.elapsed + 2 * p, p, 2, v.elapsed as int);
}

} // verus!
