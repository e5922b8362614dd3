//! The per-tick rules that drive an actor's animation: tool actions, walking
//! and idling, what the sprite shows, and when a footstep sounds.

use crate::animation::AnimationView;
use crate::animation::PlayerAnimation;
use crate::clock::duration_nanos;
use crate::input::ActionKeys;
use crate::input::MovementIntent;
use crate::state::state_of;
use crate::state::ActionType;
use crate::state::Activity;
use crate::state::AnchorPoint;
use crate::state::Direction;
use crate::state::PlayerAnimationState;
use rand::seq::SliceRandom;
use std::time::Duration;
use vstd::prelude::*;

verus! {

/// Nanoseconds every tool action lasts.
pub const ACTION_DURATION_NANOS: u128 = 600_000_000;

/// The tool action in progress, if any, and how long it has run.
#[derive(Debug, Clone, Copy)]
pub struct PlayerActionState {
    pub current_action: Option<ActionType>,
    /// Nanoseconds the current action has run.
    pub action_progress: u128,
}

/// What the sprite is to show: an atlas index and a pivot shift.
#[derive(Debug, Clone, Copy, PartialEq, Eq, Structural)]
pub struct SpriteFrame {
    pub atlas_index: usize,
    pub anchor: AnchorPoint,
}

/// What one tick asks of the engine.
pub struct TickOutcome<'a, T> {
    /// What to write to the sprite, if what is shown changed.
    pub sprite: Option<SpriteFrame>,
    /// The footstep to play, if one is due.
    pub step: Option<&'a T>,
}

impl Default for PlayerActionState {
    fn default() -> (s: Self)
        ensures
            s.current_action is None,
            s.action_progress == 0,
    {
        PlayerActionState { current_action: None, action_progress: 0 }
    }
}

/// `progress` and `delta` added, stopping at the largest value that fits.
pub open spec fn progress_after(progress: u128, delta: nat) -> u128 {
    if progress + delta <= u128::MAX {
        (progress + delta) as u128
    } else {
        u128::MAX
    }
}

/// Whether a tool action may start: none is in progress and the actor wants
/// to stay where it is.
pub open spec fn may_start_action(act: PlayerActionState, intent: MovementIntent) -> bool {
    act.current_action is None && intent.is_zero()
}

/// The animation and the action state after the tool-action rules ran for one
/// tick of `delta` nanoseconds.
///
/// With no action in progress, a requested action starts if the actor wants to
/// stay where it is: the animation shows the action in the current facing. An
/// action in progress runs on by `delta`, and once it has lasted its full
/// duration it ends and the animation idles in the current facing.
pub open spec fn actions_step(
    anim: AnimationView,
    act: PlayerActionState,
    intent: MovementIntent,
    keys: ActionKeys,
    delta: nat,
) -> (AnimationView, PlayerActionState) {
    let facing = anim.state.direction();
    match act.current_action {
        None => {
            if intent.is_zero() && keys.requested() is Some {
                let action = keys.requested()->0;
                (
                    anim.transition(state_of(Activity::Acting(action), facing)),
                    PlayerActionState { current_action: Some(action), action_progress: 0 },
                )
            } else {
                (anim, act)
            }
        },
        Some(action) => {
            let progress = progress_after(act.action_progress, delta);
            if progress >= ACTION_DURATION_NANOS {
                (
                    anim.transition(state_of(Activity::Idling, facing)),
                    PlayerActionState { current_action: None, action_progress: progress },
                )
            } else {
                (anim, PlayerActionState { current_action: Some(action), action_progress: progress })
            }
        },
    }
}

/// The state that movement alone calls for: idle in the current facing when
/// the actor wants to stay, walking in the intent's heading otherwise.
pub open spec fn movement_state(facing: Direction, intent: MovementIntent) -> PlayerAnimationState {
    if intent.is_zero() {
        state_of(Activity::Idling, facing)
    } else {
        state_of(Activity::Walking, intent.heading())
    }
}

/// The animation after the movement rules ran: untouched while a tool action
/// is in progress, otherwise showing what movement calls for.
pub open spec fn movement_step(
    anim: AnimationView,
    act: PlayerActionState,
    intent: MovementIntent,
) -> AnimationView {
    if act.current_action is Some {
        anim
    } else {
        anim.transition(movement_state(anim.state.direction(), intent))
    }
}

/// Whether the animation and the action state tell the same story: a tool
/// action is in progress exactly when the animation shows that action.
pub open spec fn in_step(anim: AnimationView, act: PlayerActionState) -> bool {
    match act.current_action {
        Some(action) => anim.state.activity() == Activity::Acting(action),
        None => !(anim.state.activity() is Acting),
    }
}

/// Whether a footstep is due: the actor walks and what is shown changed.
pub open spec fn step_sound_due(anim: AnimationView) -> bool {
    anim.state.activity() == Activity::Walking && anim.changed()
}

/// What is written to the sprite: the sampled atlas index and pivot shift if
/// what is shown changed, nothing otherwise.
pub open spec fn sprite_shown(anim: AnimationView) -> Option<SpriteFrame> {
    if anim.changed() {
        Some(
            SpriteFrame {
                atlas_index: anim.atlas_index() as usize,
                anchor: anim.state.anchor_point(anim.frame),
            },
        )
    } else {
        None
    }
}

/// The animation and the action state at the end of a tick's rules, before
/// the dirty mark is cleared: the frame timer ticks first, then the tool-action
/// rules run, then the movement rules.
pub open spec fn tick_step(
    anim: AnimationView,
    act: PlayerActionState,
    intent: MovementIntent,
    keys: ActionKeys,
    delta: nat,
) -> (AnimationView, PlayerActionState) {
    let ticked = anim.advance(delta);
    let (acted, act2) = actions_step(ticked, act, intent, keys, delta);
    (movement_step(acted, act2, intent), act2)
}

/// `SliceRandom::choose` on the items with `rand::thread_rng()`: nothing if
/// there are no items, otherwise one of them, whichever chance picks.
#[verifier::external_body]
fn choose_random<T>(items: &Vec<T>) -> (picked: Option<&T>)
    ensures
        items@.len() == 0 ==> picked is None,
        items@.len() > 0 ==> picked is Some && items@.contains(*picked->0),
{
    items.choose(&mut rand::thread_rng())
}

/// Runs the tool-action rules for one tick.
pub fn update_player_actions(
    animation: &mut PlayerAnimation,
    action_state: &mut PlayerActionState,
    intent: &MovementIntent,
    keys: &ActionKeys,
    delta: Duration,
)
    ensures
        (final(animation)@, *final(action_state)) == actions_step(
            old(animation)@,
            *old(action_state),
            *intent,
            *keys,
            duration_nanos(delta),
        ),
        final(animation)@.wf(),
{
    let direction = animation.state().get_direction();
    match action_state.current_action {
        None => {
            // Actions start only while the actor stands still.
            if intent.get_is_zero() {
                if let Some(action) = keys.get_requested() {
                    action_state.current_action = Some(action);
                    action_state.action_progress = 0;
                    animation.update_state(
                        PlayerAnimationState::from_action_and_direction(action, direction),
                    );
                }
            }
        },
        Some(_) => {
            action_state.action_progress = action_state.action_progress.saturating_add(
                delta.as_nanos(),
            );
            if action_state.action_progress >= ACTION_DURATION_NANOS {
                action_state.current_action = None;
                animation.update_state(PlayerAnimationState::idling(direction));
            }
        },
    }
}

/// Runs the movement rules: shows idling or walking as the intent calls for,
/// unless a tool action is in progress.
pub fn update_animation_movement(
    animation: &mut PlayerAnimation,
    action_state: &PlayerActionState,
    intent: &MovementIntent,
)
    ensures
        final(animation)@ == movement_step(old(animation)@, *action_state, *intent),
        final(animation)@.wf(),
{
    let current_direction = animation.state().get_direction();
    if action_state.current_action.is_some() {
        return ;
    }
    let animation_state = if intent.get_is_zero() {
        PlayerAnimationState::idling(current_direction)
    } else {
        PlayerAnimationState::walking(intent.get_heading())
    };
    animation.update_state(animation_state);
}

/// What to write to the sprite on this tick: the sampled atlas index and pivot
/// shift if what is shown changed, nothing otherwise.
pub fn update_animation_atlas(animation: &PlayerAnimation) -> (shown: Option<SpriteFrame>)
    ensures
        shown == sprite_shown(animation@),
{
    if animation.changed() {
        Some(
            SpriteFrame {
                atlas_index: animation.get_atlas_index(),
                anchor: animation.get_anchor_point(),
            },
        )
    } else {
        None
    }
}

/// Picks the footstep to play on this tick, if one is due, and clears the
/// animation's dirty mark either way. A footstep is due when the actor walks
/// and what is shown changed; which of `steps` is played is left to chance.
pub fn trigger_step_sound_effect<'a, T>(animation: &mut PlayerAnimation, steps: &'a Vec<T>) -> (played:
    Option<&'a T>)
    ensures
        final(animation)@ == (AnimationView { dirty: false, ..old(animation)@ }),
        played is Some <==> step_sound_due(old(animation)@) && steps@.len() > 0,
        played is Some ==> steps@.contains(*played->0),
{
    let due = animation.state().is_walking() && animation.changed();
    animation.set_state_changed(false);
    if due {
        choose_random(steps)
    } else {
        None
    }
}

/// Runs one tick for an actor, in the order that keeps what is shown in step
/// with what happened: the frame timer ticks, the tool-action rules run, the
/// movement rules run, the sprite is sampled, and the footstep is picked and
/// the dirty mark cleared.
pub fn tick_actor<'a, T>(
    animation: &mut PlayerAnimation,
    action_state: &mut PlayerActionState,
    intent: &MovementIntent,
    keys: &ActionKeys,
    delta: Duration,
    steps: &'a Vec<T>,
) -> (outcome: TickOutcome<'a, T>)
    ensures
        ({
            let (shown, act) = tick_step(
                old(animation)@,
                *old(action_state),
                *intent,
                *keys,
                duration_nanos(delta),
            );
            &&& *final(action_state) == act
            &&& final(animation)@ == (AnimationView { dirty: false, ..shown })
            &&& outcome.sprite == sprite_shown(shown)
            &&& outcome.step is Some <==> step_sound_due(shown) && steps@.len() > 0
            &&& outcome.step is Some ==> steps@.contains(*outcome.step->0)
        }),
        final(animation)@.wf(),
{
    animation.update_timer(delta);
    update_player_actions(animation, action_state, intent, keys, delta);
    update_animation_movement(animation, action_state, intent);
    let sprite = update_animation_atlas(animation);
    let step = trigger_step_sound_effect(animation, steps);
    TickOutcome { sprite, step }
}

/// A state that is entered on a tick is shown on that same tick: whenever a
/// tick leaves the animation in another state than it found it in, the
/// sprite is written, with frame 0 of the new state.
pub proof fn lemma_transition_shown_same_tick(
    anim: AnimationView,
    act: PlayerActionState,
    intent: MovementIntent,
    keys: ActionKeys,
    delta: nat,
)
    requires
        anim.wf(),
    ensures
        ({
            let shown = tick_step(anim, act, intent, keys, delta).0;
            shown.state != anim.state ==> sprite_shown(shown) == Some(
                SpriteFrame {
                    atlas_index: shown.state.atlas_base() as usize,
                    anchor: shown.state.anchor_point(0),
                },
            )
        }),
{
}

/// A tool action starts only while no action is in progress and the actor
/// wants to stay where it is: otherwise the rules neither start an action nor
/// move the animation into a tool-action state.
pub proof fn lemma_action_starts_only_at_rest(
    anim: AnimationView,
    act: PlayerActionState,
    intent: MovementIntent,
    keys: ActionKeys,
    delta: nat,
)
    ensures
        ({
            let (anim2, act2) = actions_step(anim, act, intent, keys, delta);
            &&& act.current_action is None && act2.current_action is Some ==> may_start_action(
                act,
                intent,
            )
            &&& anim2.state.activity() is Acting && anim2.state != anim.state ==> may_start_action(
                act,
                intent,
            )
            &&& !may_start_action(act, intent) ==> anim2.state == anim.state || anim2
                == AnimationView::fresh(state_of(Activity::Idling, anim.state.direction()))
        }),
{
}

/// While the actor wants to move, a pressed tool control changes nothing.
pub proof fn lemma_action_key_ignored_while_moving(
    anim: AnimationView,
    act: PlayerActionState,
    intent: MovementIntent,
    keys: ActionKeys,
    delta: nat,
)
    requires
        act.current_action is None,
        !intent.is_zero(),
    ensures
        actions_step(anim, act, intent, keys, delta) == (anim, act),
{
}

/// Tool actions and movement exclude each other: once the animation and the
/// action state tell the same story, they do so after every tick, so the
/// animation shows a tool action exactly while one is in progress, and walks
/// or idles otherwise.
pub proof fn lemma_stays_in_step(
    anim: AnimationView,
    act: PlayerActionState,
    intent: MovementIntent,
    keys: ActionKeys,
    delta: nat,
)
    requires
        in_step(anim, act),
    ensures
        in_step(
            actions_step(anim, act, intent, keys, delta).0,
            actions_step(anim, act, intent, keys, delta).1,
        ),
        in_step(movement_step(anim, act, intent), act),
        in_step(
            tick_step(anim, act, intent, keys, delta).0,
            tick_step(anim, act, intent, keys, delta).1,
        ),
        in_step(
            AnimationView::fresh(PlayerAnimationState::IdlingB),
            (PlayerActionState { current_action: None, action_progress: 0 }),
        ),
{
}

/// The rules keep the facing: tool actions and idling never turn the actor,
/// and walking turns it to the intent's heading.
pub proof fn lemma_facing_kept(
    anim: AnimationView,
    act: PlayerActionState,
    intent: MovementIntent,
    keys: ActionKeys,
    delta: nat,
)
    ensures
        actions_step(anim, act, intent, keys, delta).0.state.direction() == anim.state.direction(),
        movement_step(anim, act, intent).state.direction() == if act.current_action is None
            && !intent.is_zero() {
            intent.heading()
        } else {
            anim.state.direction()
        },
{
}

} // verus!
