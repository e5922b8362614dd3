//! The game's screens and the rules that lead from one to the next.

use vstd::prelude::*;

verus! {

/// The game's main screen states.
#[derive(Debug, Hash, PartialEq, Eq, Clone, Copy, Structural)]
pub enum GameState {
    Splash,
    Title,
    Credits,
    Settings,
    Loading,
    Pausing,
    Gameplay,
}

impl Default for GameState {
    fn default() -> (s: Self)
        ensures
            s == GameState::Splash,
    {
        GameState::Splash
    }
}

/// Something that asks for another screen.
#[derive(Debug, Clone, Copy, PartialEq, Eq, Structural)]
pub enum ScreenEvent {
    /// The play button of the title screen; `assets_loaded` says whether
    /// every asset is ready.
    Play { assets_loaded: bool },
    /// The settings button of the title and pause screens.
    OpenSettings,
    /// The credits button of the title screen.
    OpenCredits,
    /// The back button of the settings and credits screens.
    Back,
    /// The continue button of the pause screen.
    Continue,
    /// The title button of the pause screen.
    ToTitle,
    /// The pause key, during play and on the pause screen.
    PauseKey,
    /// The last asset became ready while the loading screen was up.
    AssetsLoaded,
}

/// Where the game stands: the screen that is up and the one remembered as
/// the one before.
#[derive(Debug, Clone, Copy, PartialEq, Eq, Structural)]
pub struct ScreenFlow {
    pub current: GameState,
    pub previous: GameState,
}

/// Where the game stands after an event. An event that the current screen
/// does not offer changes nothing.
pub open spec fn screen_after(flow: ScreenFlow, event: ScreenEvent) -> ScreenFlow {
    match (flow.current, event) {
        (GameState::Title, ScreenEvent::Play { assets_loaded }) => ScreenFlow {
            current: if assets_loaded {
                GameState::Gameplay
            } else {
                GameState::Loading
            },
            previous: flow.previous,
        },
        (GameState::Title, ScreenEvent::OpenSettings)
        | (GameState::Pausing, ScreenEvent::OpenSettings) => ScreenFlow {
            current: GameState::Settings,
            previous: flow.current,
        },
        (GameState::Title, ScreenEvent::OpenCredits) => ScreenFlow {
            current: GameState::Credits,
            previous: GameState::Title,
        },
        (GameState::Credits, ScreenEvent::Back) => ScreenFlow {
            current: GameState::Title,
            previous: GameState::Credits,
        },
        (GameState::Settings, ScreenEvent::Back) => ScreenFlow {
            current: flow.previous,
            previous: GameState::Settings,
        },
        (GameState::Pausing, ScreenEvent::Continue) => ScreenFlow {
            current: GameState::Gameplay,
            previous: GameState::Pausing,
        },
        (GameState::Pausing, ScreenEvent::ToTitle) => ScreenFlow {
            current: GameState::Title,
            previous: GameState::Pausing,
        },
        (GameState::Pausing, ScreenEvent::PauseKey) => ScreenFlow {
            current: GameState::Gameplay,
            previous: GameState::Pausing,
        },
        (GameState::Gameplay, ScreenEvent::PauseKey) => ScreenFlow {
            current: GameState::Pausing,
            previous: GameState::Gameplay,
        },
        (GameState::Loading, ScreenEvent::AssetsLoaded) => ScreenFlow {
            current: GameState::Gameplay,
            previous: GameState::Loading,
        },
        _ => flow,
    }
}

/// The pause key: play pauses, and a paused game plays on.
pub fn pause_or_continue_gameplay(current: GameState) -> (flow: ScreenFlow)
    ensures
        flow.previous == current,
        flow.current == if current == GameState::Pausing {
            GameState::Gameplay
        } else {
            GameState::Pausing
        },
{
    if current == GameState::Pausing {
        ScreenFlow { current: GameState::Gameplay, previous: current }
    } else {
        ScreenFlow { current: GameState::Pausing, previous: current }
    }
}

/// The play button: straight into the game if every asset is ready, to the
/// loading screen otherwise.
pub fn enter_loading_or_gameplay_screen(all_assets_loaded: bool) -> (next: GameState)
    ensures
        next == if all_assets_loaded {
            GameState::Gameplay
        } else {
            GameState::Loading
        },
{
    if all_assets_loaded {
        GameState::Gameplay
    } else {
        GameState::Loading
    }
}

/// The settings button: opens the settings and remembers the screen they were
/// opened from.
pub fn enter_settings_screen(current: GameState) -> (flow: ScreenFlow)
    ensures
        flow.current == GameState::Settings,
        flow.previous == current,
{
    ScreenFlow { current: GameState::Settings, previous: current }
}

/// The back button of the settings: returns to the remembered screen and
/// remembers the settings as the screen before.
pub fn enter_last_screen(previous: GameState) -> (flow: ScreenFlow)
    ensures
        flow.current == previous,
        flow.previous == GameState::Settings,
{
    ScreenFlow { current: previous, previous: GameState::Settings }
}

/// Moves the game on by one event. An event that the current screen does not
/// offer changes nothing.
pub fn handle_screen_event(flow: &mut ScreenFlow, event: ScreenEvent)
    ensures
        *final(flow) == screen_after(*old(flow), event),
{
    let current = flow.current;
    match event {
        ScreenEvent::Play { assets_loaded } => {
            if current == GameState::Title {
                flow.current = enter_loading_or_gameplay_screen(assets_loaded);
            }
        },
        ScreenEvent::OpenSettings => {
            if current == GameState::Title || current == GameState::Pausing {
                *flow = enter_settings_screen(current);
            }
        },
        ScreenEvent::OpenCredits => {
            if current == GameState::Title {
                flow.previous = GameState::Title;
                flow.current = GameState::Credits;
            }
        },
        ScreenEvent::Back => {
            if current == GameState::Credits {
                flow.previous = GameState::Credits;
                flow.current = GameState::Title;
            } else if current == GameState::Settings {
                *flow = enter_last_screen(flow.previous);
            }
        },
        ScreenEvent::Continue => {
            if current == GameState::Pausing {
                flow.previous = GameState::Pausing;
                flow.current = GameState::Gameplay;
            }
        },
        ScreenEvent::ToTitle => {
            if current == GameState::Pausing {
                flow.previous = GameState::Pausing;
                flow.current = GameState::Title;
            }
        },
        ScreenEvent::PauseKey => {
            if current == GameState::Gameplay || current == GameState::Pausing {
                *flow = pause_or_continue_gameplay(current);
            }
        },
        ScreenEvent::AssetsLoaded => {
            if current == GameState::Loading {
                flow.previous = GameState::Loading;
                flow.current = GameState::Gameplay;
            }
        },
    }
}

/// Whether `current` is one of `states`: what decides whether an entity
/// marked with a list of screens is visible, or is destroyed, on a screen.
pub fn in_states(states: &Vec<GameState>, current: GameState) -> (listed: bool)
    ensures
        listed == states@.contains(current),
{
    let mut i: usize = 0;
    while i < states.len()
        invariant
            i <= states.len(),
            forall|j: int| 0 <= j < i ==> states@[j] != current,
        decreases states.len() - i,
    {
        if states[i] == current {
            return true;
        }
        i += 1;
    }
    false
}

/// Leaving the settings screen leads back to the screen they were opened
/// from, and a second press of the pause key undoes the first.
pub proof fn lemma_round_trips(flow: ScreenFlow)
    ensures
        flow.current == GameState::Title || flow.current == GameState::Pausing ==> screen_after(
            screen_after(flow, ScreenEvent::OpenSettings),
            ScreenEvent::Back,
        ).current == flow.current,
        flow.current == GameState::Gameplay || flow.current == GameState::Pausing ==> screen_after(
            screen_after(flow, ScreenEvent::PauseKey),
            ScreenEvent::PauseKey,
        ).current == flow.current,
{
}

} // verus!
