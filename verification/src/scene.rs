//! What is on stage from the start: the music, the camera, the score text and
//! the mute control, as plain descriptions for the engine to build.
//!
//! Lengths are whole pixels unless a name says otherwise; opacities and
//! volumes are in thousandths.

use vstd::prelude::*;
use crate::button::button_border;
use crate::button::button_border_edges;
use crate::button::half_black;
use crate::button::half_black_color;
use crate::button::Edges;
use crate::button::Hsla;
use crate::mute::MUTE_ICON_ACTIVE_OPACITY;
use crate::state::MENU_MUSIC_VOLUME;

verus! {

/// Height of what the camera shows, in world units.
pub const CAMERA_HEIGHT: u32 = 720;

pub const SCORE_FONT_SIZE: u32 = 64;

/// Distance of the score text from the top, in hundredths of the window's height.
pub const SCORE_TOP_MARGIN: u32 = 20;

pub const MUTE_BUTTON_RIGHT: u32 = 8;

pub const MUTE_BUTTON_TOP: u32 = 10;

pub const MUTE_BUTTON_PADDING: u32 = 7;

pub const MUTE_ICON_SIZE: u32 = 24;

/// The music track and how it plays.
#[derive(Clone, Copy, Debug)]
pub struct Music {
    pub source: &'static str,
    pub looped: bool,
    pub volume: u32,
}

/// The text that shows the score.
#[derive(Clone, Copy, Debug, PartialEq, Eq, Structural)]
pub struct ScoreText {
    pub score: usize,
    pub font_size: u32,
    pub color: Hsla,
    pub top_margin: u32,
    pub visible: bool,
}

/// What the game starts with.
#[derive(Clone, Copy, Debug)]
pub struct Scene {
    pub music: Music,
    pub camera_height: u32,
    pub score_text: ScoreText,
}

/// The picture on the mute control.
#[derive(Clone, Copy, Debug)]
pub struct MuteIcon {
    pub image: &'static str,
    pub width: u32,
    pub height: u32,
    pub color: Hsla,
}

/// The mute control, in the window's upper right corner.
#[derive(Clone, Copy, Debug)]
pub struct MuteButton {
    pub right: u32,
    pub top: u32,
    pub padding: u32,
    pub border: Edges,
    pub border_color: Hsla,
    pub background_color: Hsla,
    pub icon: MuteIcon,
}

/// White at the given opacity.
pub open spec fn white_at(alpha: u32) -> Hsla {
    Hsla { hue_millidegrees: 0, saturation: 0, lightness: 1000, alpha }
}

/// No colour at all.
pub open spec fn transparent() -> Hsla {
    Hsla { hue_millidegrees: 0, saturation: 0, lightness: 0, alpha: 0 }
}

/// The score text as the game starts: no points, and out of sight.
pub open spec fn initial_score_text() -> ScoreText {
    ScoreText {
        score: 0,
        font_size: SCORE_FONT_SIZE,
        color: white_at(1000),
        top_margin: SCORE_TOP_MARGIN,
        visible: false,
    }
}

pub fn white_at_opacity(alpha: u32) -> (color: Hsla)
    ensures
        color == white_at(alpha),
{
    Hsla { hue_millidegrees: 0, saturation: 0, lightness: 1000, alpha }
}

/// Describes what the game starts with: the music, looping at its menu
/// volume, the camera and the hidden score text.
pub fn setup() -> (scene: Scene)
    ensures
        scene.music.source@ == "music.ogg"@,
        scene.music.looped,
        scene.music.volume == MENU_MUSIC_VOLUME,
        scene.camera_height == CAMERA_HEIGHT,
        scene.score_text == initial_score_text(),
{
    Scene {
        music: Music { source: "music.ogg", looped: true, volume: MENU_MUSIC_VOLUME },
        camera_height: CAMERA_HEIGHT,
        score_text: ScoreText {
            score: 0,
            font_size: SCORE_FONT_SIZE,
            color: white_at_opacity(1000),
            top_margin: SCORE_TOP_MARGIN,
            visible: false,
        },
    }
}

/// Describes the mute control: a bordered button without a fill, and on it
/// the speaker icon at the opacity that stands for sound.
pub fn setup_mute_button() -> (button: MuteButton)
    ensures
        button.right == MUTE_BUTTON_RIGHT,
        button.top == MUTE_BUTTON_TOP,
        button.padding == MUTE_BUTTON_PADDING,
        button.border == button_border(),
        button.border_color == half_black(),
        button.background_color == transparent(),
        button.icon.image@ == "volume.png"@,
        button.icon.width == MUTE_ICON_SIZE,
        button.icon.height == MUTE_ICON_SIZE,
        button.icon.color == white_at(MUTE_ICON_ACTIVE_OPACITY),
{
    MuteButton {
        right: MUTE_BUTTON_RIGHT,
        top: MUTE_BUTTON_TOP,
        padding: MUTE_BUTTON_PADDING,
        border: button_border_edges(),
        border_color: half_black_color(),
        background_color: Hsla { hue_millidegrees: 0, saturation: 0, lightness: 0, alpha: 0 },
        icon: MuteIcon {
            image: "volume.png",
            width: MUTE_ICON_SIZE,
            height: MUTE_ICON_SIZE,
            color: white_at_opacity(MUTE_ICON_ACTIVE_OPACITY),
        },
    }
}

} // verus!
