use game_flow::button::{Interaction, PrimaryColorHue};
use game_flow::framerate::FramerateIsStable;
use game_flow::mute::{Mixer, Muted, VolumeChange};
use game_flow::state::{
    apply_state_transition, assets_loaded, interact_play_button, loading_gate, on_enter_menu,
    on_enter_playing, on_exit_menu, on_exit_playing, EnterPlaying, ExitMenu, ExitPlaying,
    GameState, Hook, LoadState, NextState, Score,
};

#[test]
fn game_starts_loading() {
    assert_eq!(GameState::default(), GameState::Loading);
}

#[test]
fn assets_are_loaded_only_when_each_is() {
    assert!(assets_loaded(&[]));
    assert!(assets_loaded(&[LoadState::Loaded, LoadState::Loaded]));
    for other in [
        LoadState::NotLoaded,
        LoadState::Loading,
        LoadState::Failed,
        LoadState::Unloaded,
    ] {
        assert!(!assets_loaded(&[other]));
        assert!(!assets_loaded(&[LoadState::Loaded, other]));
        assert!(!assets_loaded(&[other, LoadState::Loaded]));
    }
}

#[test]
fn gate_needs_both_conditions_at_once() {
    let loaded = [LoadState::Loaded];
    let loading = [LoadState::Loading];
    let mut next = NextState(None);
    assert!(!loading_gate(GameState::Loading, &loading, FramerateIsStable(false), &mut next));
    assert_eq!(next, NextState(None));
    assert!(!loading_gate(GameState::Loading, &loaded, FramerateIsStable(false), &mut next));
    assert_eq!(next, NextState(None));
    assert!(!loading_gate(GameState::Loading, &loading, FramerateIsStable(true), &mut next));
    assert_eq!(next, NextState(None));
    assert!(loading_gate(GameState::Loading, &loaded, FramerateIsStable(true), &mut next));
    assert_eq!(next, NextState(Some(GameState::Menu)));
}

#[test]
fn gate_stays_shut_outside_loading() {
    let loaded = [LoadState::Loaded];
    for state in [GameState::Menu, GameState::Playing] {
        let mut next = NextState(None);
        assert!(!loading_gate(state, &loaded, FramerateIsStable(true), &mut next));
        assert_eq!(next, NextState(None));
    }
}

#[test]
fn failed_asset_keeps_the_game_loading() {
    let assets = [LoadState::Loaded, LoadState::Failed];
    let mut state = GameState::Loading;
    let mut next = NextState(None);
    for _ in 0..1000 {
        assert!(!loading_gate(state, &assets, FramerateIsStable(true), &mut next));
        assert!(apply_state_transition(&mut state, &mut next).is_empty());
    }
    assert_eq!(state, GameState::Loading);
}

#[test]
fn menu_is_entered_when_the_framerate_settles_after_the_assets() {
    let mut state = GameState::Loading;
    let mut next = NextState(None);
    let mut opened_at = Vec::new();
    let mut entered_at = Vec::new();
    for tick in 1..=30 {
        let asset = if tick >= 10 { LoadState::Loaded } else { LoadState::Loading };
        let stable = FramerateIsStable(tick >= 15);
        if loading_gate(state, &[asset], stable, &mut next) {
            opened_at.push(tick);
        }
        let hooks = apply_state_transition(&mut state, &mut next);
        if !hooks.is_empty() {
            assert_eq!(
                hooks,
                vec![Hook::Exit(GameState::Loading), Hook::Enter(GameState::Menu)]
            );
            entered_at.push(tick);
        }
        assert_eq!(state, if tick >= 15 { GameState::Menu } else { GameState::Loading });
    }
    assert_eq!(opened_at, vec![15]);
    assert_eq!(entered_at, vec![15]);
}

#[test]
fn gate_opens_once_even_if_conditions_come_and_go() {
    let mut state = GameState::Loading;
    let mut next = NextState(None);
    let mut opened = 0;
    let checks = [
        (false, true),
        (true, false),
        (true, true),
        (false, false),
        (true, true),
        (true, true),
    ];
    for (loaded, stable) in checks {
        let asset = if loaded { LoadState::Loaded } else { LoadState::NotLoaded };
        if loading_gate(state, &[asset], FramerateIsStable(stable), &mut next) {
            opened += 1;
        }
        apply_state_transition(&mut state, &mut next);
    }
    assert_eq!(opened, 1);
    assert_eq!(state, GameState::Menu);
}

#[test]
fn play_button_starts_a_round_from_the_menu() {
    let mut next = NextState(None);
    assert!(interact_play_button(GameState::Menu, &[Interaction::Pressed], &mut next));
    assert_eq!(next, NextState(Some(GameState::Playing)));

    let mut state = GameState::Menu;
    let hooks = apply_state_transition(&mut state, &mut next);
    assert_eq!(state, GameState::Playing);
    assert_eq!(next, NextState(None));
    assert_eq!(
        hooks,
        vec![Hook::Exit(GameState::Menu), Hook::Enter(GameState::Playing)]
    );
}

#[test]
fn play_button_ignores_what_is_no_press_in_the_menu() {
    let cases: [(GameState, &[Interaction]); 6] = [
        (GameState::Menu, &[]),
        (GameState::Menu, &[Interaction::Hovered]),
        (GameState::Menu, &[Interaction::Idle]),
        (GameState::Menu, &[Interaction::Hovered, Interaction::Pressed]),
        (GameState::Loading, &[Interaction::Pressed]),
        (GameState::Playing, &[Interaction::Pressed]),
    ];
    for (state, changed) in cases {
        let mut next = NextState(None);
        assert!(!interact_play_button(state, changed, &mut next));
        assert_eq!(next, NextState(None));
    }
}

#[test]
fn request_for_the_current_state_runs_no_hooks() {
    let mut state = GameState::Menu;
    let mut next = NextState(Some(GameState::Menu));
    assert!(apply_state_transition(&mut state, &mut next).is_empty());
    assert_eq!(state, GameState::Menu);
    assert_eq!(next, NextState(None));
}

#[test]
fn no_request_changes_nothing() {
    let mut state = GameState::Playing;
    let mut next = NextState(None);
    assert!(apply_state_transition(&mut state, &mut next).is_empty());
    assert_eq!(state, GameState::Playing);
}

#[test]
fn entering_the_menu_sets_the_music_and_shows_play() {
    let entry = on_enter_menu(PrimaryColorHue(500), Muted(false));
    assert_eq!(entry.music_base_volume, 360);
    assert_eq!(entry.music_volume, 360);
    assert_eq!(entry.play_button.label.text, "Play");
    assert_eq!(entry.play_button.shadow.text, "Play");
    assert_eq!(entry.play_button.background_color.hue_millidegrees, 180_000);
}

#[test]
fn entering_the_menu_while_muted_keeps_the_music_silent() {
    let entry = on_enter_menu(PrimaryColorHue(500), Muted(true));
    assert_eq!(entry.music_base_volume, 360);
    assert_eq!(entry.music_volume, 0);
    assert_eq!(entry.play_button.label.text, "Play");
}

#[test]
fn leaving_the_menu_releases_the_play_button() {
    assert_eq!(on_exit_menu(), ExitMenu { release_play_button: true });
}

#[test]
fn entering_a_round_resets_the_score() {
    let mut score = Score(17);
    let entry = on_enter_playing(&mut score, Muted(false));
    assert_eq!(score, Score(0));
    assert_eq!(
        entry,
        EnterPlaying {
            music_base_volume: 660,
            music_volume: 660,
            show_score_text: false,
            start_stopwatch: true,
        }
    );
}

#[test]
fn entering_a_round_while_muted_stays_silent_and_unmute_gives_the_round_volume() {
    let mut mixer = Mixer::new();
    mixer.assign_base_volume(1, 360);
    let muted = Muted(true);
    let mut score = Score(3);
    let entry = on_enter_playing(&mut score, muted);
    assert_eq!(
        entry,
        EnterPlaying {
            music_base_volume: 660,
            music_volume: 0,
            show_score_text: false,
            start_stopwatch: true,
        }
    );
    let change = mixer.retune(1, entry.music_base_volume, muted);
    assert_eq!(change, VolumeChange { id: 1, volume: entry.music_volume });
    assert_eq!(
        mixer.on_muted_changed(Muted(false)),
        vec![VolumeChange { id: 1, volume: 660 }]
    );
}

#[test]
fn leaving_a_round_shows_the_score() {
    let exit = on_exit_playing(&Score(42));
    assert_eq!(
        exit,
        ExitPlaying { show_score_text: true, final_score: 42, remove_stopwatch: true }
    );
}
