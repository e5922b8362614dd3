use farm_actor::screen::enter_last_screen;
use farm_actor::screen::enter_loading_or_gameplay_screen;
use farm_actor::screen::enter_settings_screen;
use farm_actor::screen::handle_screen_event;
use farm_actor::screen::in_states;
use farm_actor::screen::pause_or_continue_gameplay;
use farm_actor::screen::GameState;
use farm_actor::screen::ScreenEvent;
use farm_actor::screen::ScreenFlow;

fn after(current: GameState, previous: GameState, event: ScreenEvent) -> (GameState, GameState) {
    let mut flow = ScreenFlow { current, previous };
    handle_screen_event(&mut flow, event);
    (flow.current, flow.previous)
}

#[test]
fn the_game_starts_on_the_splash_screen() {
    assert_eq!(GameState::default(), GameState::Splash);
}

#[test]
fn pause_key_toggles_between_play_and_pause() {
    assert_eq!(
        pause_or_continue_gameplay(GameState::Gameplay),
        ScreenFlow { current: GameState::Pausing, previous: GameState::Gameplay }
    );
    assert_eq!(
        pause_or_continue_gameplay(GameState::Pausing),
        ScreenFlow { current: GameState::Gameplay, previous: GameState::Pausing }
    );
    assert_eq!(
        after(GameState::Gameplay, GameState::Title, ScreenEvent::PauseKey),
        (GameState::Pausing, GameState::Gameplay)
    );
    assert_eq!(
        after(GameState::Title, GameState::Splash, ScreenEvent::PauseKey),
        (GameState::Title, GameState::Splash)
    );
}

#[test]
fn play_goes_to_loading_until_assets_are_ready() {
    assert_eq!(enter_loading_or_gameplay_screen(true), GameState::Gameplay);
    assert_eq!(enter_loading_or_gameplay_screen(false), GameState::Loading);
    assert_eq!(
        after(GameState::Title, GameState::Credits, ScreenEvent::Play { assets_loaded: false }),
        (GameState::Loading, GameState::Credits)
    );
    assert_eq!(
        after(GameState::Loading, GameState::Credits, ScreenEvent::AssetsLoaded),
        (GameState::Gameplay, GameState::Loading)
    );
}

#[test]
fn settings_lead_back_to_where_they_were_opened() {
    for from in [GameState::Title, GameState::Pausing] {
        let mut flow = ScreenFlow { current: from, previous: GameState::Gameplay };
        handle_screen_event(&mut flow, ScreenEvent::OpenSettings);
        assert_eq!(flow, ScreenFlow { current: GameState::Settings, previous: from });
        handle_screen_event(&mut flow, ScreenEvent::Back);
        assert_eq!(flow, ScreenFlow { current: from, previous: GameState::Settings });
    }
}

#[test]
fn credits_and_pause_buttons() {
    assert_eq!(
        after(GameState::Title, GameState::Splash, ScreenEvent::OpenCredits),
        (GameState::Credits, GameState::Title)
    );
    assert_eq!(
        after(GameState::Credits, GameState::Title, ScreenEvent::Back),
        (GameState::Title, GameState::Credits)
    );
    assert_eq!(
        after(GameState::Pausing, GameState::Gameplay, ScreenEvent::Continue),
        (GameState::Gameplay, GameState::Pausing)
    );
    assert_eq!(
        after(GameState::Pausing, GameState::Gameplay, ScreenEvent::ToTitle),
        (GameState::Title, GameState::Pausing)
    );
}

#[test]
fn events_that_a_screen_does_not_offer_change_nothing() {
    assert_eq!(
        after(GameState::Gameplay, GameState::Title, ScreenEvent::OpenSettings),
        (GameState::Gameplay, GameState::Title)
    );
    assert_eq!(
        after(GameState::Gameplay, GameState::Title, ScreenEvent::Back),
        (GameState::Gameplay, GameState::Title)
    );
    assert_eq!(
        after(GameState::Splash, GameState::Splash, ScreenEvent::Play { assets_loaded: true }),
        (GameState::Splash, GameState::Splash)
    );
    assert_eq!(
        after(GameState::Title, GameState::Splash, ScreenEvent::AssetsLoaded),
        (GameState::Title, GameState::Splash)
    );
}

#[test]
fn in_states_looks_the_screen_up() {
    let listed = vec![GameState::Gameplay, GameState::Pausing];
    assert!(in_states(&listed, GameState::Gameplay));
    assert!(in_states(&listed, GameState::Pausing));
    assert!(!in_states(&listed, GameState::Title));
    assert!(!in_states(&Vec::new(), GameState::Title));
}

#[test]
fn settings_buttons_remember_the_screen() {
    assert_eq!(
        enter_settings_screen(GameState::Pausing),
        ScreenFlow { current: GameState::Settings, previous: GameState::Pausing }
    );
    assert_eq!(
        enter_last_screen(GameState::Title),
        ScreenFlow { current: GameState::Title, previous: GameState::Settings }
    );
}
