//! The phases of the game and the rules that move it from one to the next.
//!
//! A rule never changes the phase itself: it files a request, and the request
//! is applied at one place per tick, which also says which hooks to run and in
//! which order.

use vstd::prelude::*;
use crate::button::spawn_text_button;
use crate::button::Interaction;
use crate::button::PrimaryColorHue;
use crate::button::TextButton;
use crate::button::is_text_button;
use crate::framerate::FramerateIsStable;
use crate::mute::apply_mute;
use crate::mute::effective_volume;
use crate::mute::Muted;

verus! {

/// Volume of the music while the menu shows, in thousandths.
pub const MENU_MUSIC_VOLUME: u32 = 360;

/// Volume of the music while a round is played, in thousandths.
pub const PLAYING_MUSIC_VOLUME: u32 = 660;

/// The phase the game is in.
#[derive(Clone, Copy, Debug, PartialEq, Eq, Hash, Structural)]
pub enum GameState {
    Loading,
    Menu,
    Playing,
}

impl Default for GameState {
    fn default() -> (state: GameState)
        ensures
            state == GameState::Loading,
    {
        GameState::Loading
    }
}

/// The phase that has been asked for and not entered yet.
#[derive(Clone, Copy, Debug, PartialEq, Eq, Structural)]
pub struct NextState(pub Option<GameState>);

/// What the engine reports of an asset it was asked to load.
#[derive(Clone, Copy, Debug, PartialEq, Eq, Structural)]
pub enum LoadState {
    NotLoaded,
    Loading,
    Loaded,
    Failed,
    Unloaded,
}

/// A routine that the engine runs around a change of phase.
#[derive(Clone, Copy, Debug, PartialEq, Eq, Structural)]
pub enum Hook {
    /// Release what was spawned for the phase.
    Exit(GameState),
    /// Spawn what the phase shows.
    Enter(GameState),
}

/// Points scored in the round.
#[derive(Clone, Copy, Debug, PartialEq, Eq, Structural)]
pub struct Score(pub usize);

/// What entering the menu asks of the engine.
#[derive(Clone, Debug)]
pub struct EnterMenu {
    /// The new base volume of the music.
    pub music_base_volume: u32,
    /// The volume at which the music is to play now: its base volume, or
    /// nothing while sound is muted.
    pub music_volume: u32,
    pub play_button: TextButton,
}

/// What leaving the menu asks of the engine.
#[derive(Clone, Copy, Debug, PartialEq, Eq, Structural)]
pub struct ExitMenu {
    /// The play control was spawned for the menu and goes with it.
    pub release_play_button: bool,
}

/// What entering a round asks of the engine.
#[derive(Clone, Copy, Debug, PartialEq, Eq, Structural)]
pub struct EnterPlaying {
    /// The new base volume of the music.
    pub music_base_volume: u32,
    /// The volume at which the music is to play now: its base volume, or
    /// nothing while sound is muted.
    pub music_volume: u32,
    pub show_score_text: bool,
    pub start_stopwatch: bool,
}

/// What leaving a round asks of the engine.
#[derive(Clone, Copy, Debug, PartialEq, Eq, Structural)]
pub struct ExitPlaying {
    pub show_score_text: bool,
    /// The score that the score text is to show.
    pub final_score: usize,
    pub remove_stopwatch: bool,
}

/// Every asset reports that it is loaded. One that failed counts like one
/// that is still on its way.
pub open spec fn all_loaded(assets: Seq<LoadState>) -> bool {
    forall|i: int| 0 <= i < assets.len() ==> #[trigger] assets[i] == LoadState::Loaded
}

/// The loading gate opens: the game is loading, and in this one check every
/// asset is loaded and the frame rate is stable.
pub open spec fn gate_opens(state: GameState, assets_loaded: bool, framerate_stable: bool) -> bool {
    state == GameState::Loading && assets_loaded && framerate_stable
}

/// The play control was pressed while the menu shows.
pub open spec fn play_pressed(state: GameState, changed: Seq<Interaction>) -> bool {
    state == GameState::Menu && changed.len() > 0 && changed[0] == Interaction::Pressed
}

/// The phase in which applying the request `next` leaves the game.
pub open spec fn state_after(state: GameState, next: Option<GameState>) -> GameState {
    match next {
        Some(entered) => entered,
        None => state,
    }
}

/// The hooks to run, in order, when the request `next` is applied in `state`.
pub open spec fn hooks_for(state: GameState, next: Option<GameState>) -> Seq<Hook> {
    match next {
        Some(entered) => if entered != state {
            seq![Hook::Exit(state), Hook::Enter(entered)]
        } else {
            Seq::empty()
        },
        None => Seq::empty(),
    }
}

/// Tells whether every asset is loaded.
pub fn assets_loaded(assets: &[LoadState]) -> (loaded: bool)
    ensures
        loaded == all_loaded(assets@),
{
    let mut i: usize = 0;
    while i < assets.len()
        invariant
            i <= assets@.len(),
            forall|j: int| 0 <= j < i ==> #[trigger] assets@[j] == LoadState::Loaded,
        decreases assets@.len() - i,
    {
        match assets[i] {
            LoadState::Loaded => {},
            _ => {
                return false;
            },
        }
        i += 1;
    }
    true
}

/// Checks the loading gate, once per tick.
///
/// Where the loading gate opens, the menu is requested and the result is `true`: the
/// moment to tell the outside that loading is over. Otherwise nothing changes.
pub fn loading_gate(
    state: GameState,
    assets: &[LoadState],
    stable: FramerateIsStable,
    next_state: &mut NextState,
) -> (opened: bool)
    ensures
        opened == gate_opens(state, all_loaded(assets@), stable.0),
        opened ==> *final(next_state) == NextState(Some(GameState::Menu)),
        !opened ==> *final(next_state) == *old(next_state),
{
    match state {
        GameState::Loading => {
            if stable.0 && assets_loaded(assets) {
                next_state.0 = Some(GameState::Menu);
                true
            } else {
                false
            }
        },
        _ => false,
    }
}

/// Reacts to the play control.
///
/// `changed` holds the control's interaction if it changed in this tick. A
/// press while the menu shows requests a round, and the result is `true`: the
/// control is to be hidden at once.
pub fn interact_play_button(
    state: GameState,
    changed: &[Interaction],
    next_state: &mut NextState,
) -> (hide_button: bool)
    ensures
        hide_button == play_pressed(state, changed@),
        hide_button ==> *final(next_state) == NextState(Some(GameState::Playing)),
        !hide_button ==> *final(next_state) == *old(next_state),
{
    if changed.len() == 0 {
        return false;
    }
    match (state, changed[0]) {
        (GameState::Menu, Interaction::Pressed) => {
            next_state.0 = Some(GameState::Playing);
            true
        },
        _ => false,
    }
}

/// Applies the pending request, at the one point of a tick where the phase may change.
///
/// The request is used up. Where it names another phase than the current one,
/// the game is in that phase afterwards, and the result holds the hooks to
/// run: first the exit of the old phase, then the entry of the new one.
pub fn apply_state_transition(state: &mut GameState, next_state: &mut NextState) -> (hooks: Vec<
    Hook,
>)
    ensures
        *final(state) == state_after(*old(state), old(next_state).0),
        *final(next_state) == NextState(None),
        hooks@ == hooks_for(*old(state), old(next_state).0),
{
    let request = next_state.0;
    next_state.0 = None;
    let mut hooks: Vec<Hook> = Vec::new();
    match request {
        Some(entered) => {
            let exited = *state;
            if entered != exited {
                *state = entered;
                hooks.push(Hook::Exit(exited));
                hooks.push(Hook::Enter(entered));
                assert(hooks@ =~= seq![Hook::Exit(exited), Hook::Enter(entered)]);
            }
        },
        None => {},
    }
    hooks
}

/// Entering the menu: the music takes its menu volume, as far as muting
/// lets it play, and the play control appears.
pub fn on_enter_menu(hue: PrimaryColorHue, muted: Muted) -> (entry: EnterMenu)
    ensures
        entry.music_base_volume == MENU_MUSIC_VOLUME,
        entry.music_volume as int == effective_volume(MENU_MUSIC_VOLUME as int, muted.0),
        is_text_button(entry.play_button, "Play"@, hue),
{
    EnterMenu {
        music_base_volume: MENU_MUSIC_VOLUME,
        music_volume: apply_mute(MENU_MUSIC_VOLUME, muted),
        play_button: spawn_text_button("Play", hue),
    }
}

/// Leaving the menu: what was spawned for it is released.
pub fn on_exit_menu() -> (exit: ExitMenu)
    ensures
        exit == (ExitMenu { release_play_button: true }),
{
    ExitMenu { release_play_button: true }
}

/// Entering a round: the score starts at zero and its text is hidden, the
/// stopwatch starts and the music gets louder, as far as muting lets it play.
pub fn on_enter_playing(score: &mut Score, muted: Muted) -> (entry: EnterPlaying)
    ensures
        *final(score) == Score(0),
        entry.music_base_volume == PLAYING_MUSIC_VOLUME,
        entry.music_volume as int == effective_volume(PLAYING_MUSIC_VOLUME as int, muted.0),
        !entry.show_score_text,
        entry.start_stopwatch,
{
    score.0 = 0;
    EnterPlaying {
        music_base_volume: PLAYING_MUSIC_VOLUME,
        music_volume: apply_mute(PLAYING_MUSIC_VOLUME, muted),
        show_score_text: false,
        start_stopwatch: true,
    }
}

/// Leaving a round: the score text shows the score reached and the stopwatch goes.
pub fn on_exit_playing(score: &Score) -> (exit: ExitPlaying)
    ensures
        exit == (ExitPlaying {
            show_score_text: true,
            final_score: score.0,
            remove_stopwatch: true,
        }),
{
    ExitPlaying { show_score_text: true, final_score: score.0, remove_stopwatch: true }
}

} // verus!
