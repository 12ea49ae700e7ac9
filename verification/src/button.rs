//! The one interactive text button: its colours, its reaction to the pointer
//! and its layout.
//!
//! Lengths are whole pixels; hue is in thousandths of a degree; saturation,
//! lightness and alpha are in thousandths.

use vstd::prelude::*;

verus! {

/// Saturation of every button tint, in thousandths.
pub const BUTTON_SATURATION: u32 = 500;

/// Lightness of a button at rest, in thousandths.
pub const BUTTON_LIGHTNESS: u32 = 400;

/// Lightness of a button under the pointer, in thousandths.
pub const BUTTON_HOVER_LIGHTNESS: u32 = 450;

/// Thousandths of a degree in one thousandth of a turn.
pub const MILLIDEGREES_PER_MILLITURN: u64 = 360;

pub const BUTTON_WIDTH: u32 = 200;

pub const BUTTON_HEIGHT: u32 = 100;

pub const BUTTON_FONT_SIZE: u32 = 36;

/// How far the label's shadow sits below the label, in pixels.
pub const BUTTON_SHADOW_OFFSET: u32 = 4;

/// What the pointer is doing to a control.
#[derive(Clone, Copy, Debug, PartialEq, Eq, Structural)]
pub enum Interaction {
    Pressed,
    Hovered,
    /// The pointer is away from the control.
    Idle,
}

/// The hue from which every tint of the interface is derived, in thousandths of a turn.
#[derive(Clone, Copy, Debug, PartialEq, Eq, Structural)]
pub struct PrimaryColorHue(pub u32);

/// A colour by hue, saturation, lightness and alpha.
#[derive(Clone, Copy, Debug, PartialEq, Eq, Structural)]
pub struct Hsla {
    pub hue_millidegrees: u64,
    pub saturation: u32,
    pub lightness: u32,
    pub alpha: u32,
}

/// Widths of the four sides of a border, in pixels.
#[derive(Clone, Copy, Debug, PartialEq, Eq, Structural)]
pub struct Edges {
    pub left: u32,
    pub right: u32,
    pub top: u32,
    pub bottom: u32,
}

/// One line of text laid over a button.
#[derive(Clone, Debug)]
pub struct Label {
    pub text: String,
    pub font_size: u32,
    pub color: Hsla,
    /// Distance from the place the text would take by itself, downward, in pixels.
    pub top_margin: u32,
}

/// A centred button with a label and the label's shadow beneath it.
#[derive(Clone, Debug)]
pub struct TextButton {
    pub width: u32,
    pub height: u32,
    pub border: Edges,
    pub border_color: Hsla,
    pub background_color: Hsla,
    /// Drawn first, so that it lies under `label`.
    pub shadow: Label,
    pub label: Label,
}

/// An opaque tint of the given lightness at the primary hue.
pub open spec fn tint(hue: PrimaryColorHue, lightness: u32) -> Hsla {
    Hsla {
        hue_millidegrees: (hue.0 as int * MILLIDEGREES_PER_MILLITURN as int) as u64,
        saturation: BUTTON_SATURATION,
        lightness,
        alpha: 1000,
    }
}

/// Black at half opacity: borders and shadows.
pub open spec fn half_black() -> Hsla {
    Hsla { hue_millidegrees: 0, saturation: 0, lightness: 0, alpha: 500 }
}

/// Opaque white.
pub open spec fn white() -> Hsla {
    Hsla { hue_millidegrees: 0, saturation: 0, lightness: 1000, alpha: 1000 }
}

/// The border every button of the interface has: thin, with a heavier foot.
pub open spec fn button_border() -> Edges {
    Edges { left: 1, right: 1, top: 1, bottom: 4 }
}

/// The tint that a control takes when its interaction has changed to
/// `interaction`, if it takes one.
pub open spec fn tint_for(interaction: Interaction, hue: PrimaryColorHue) -> Option<Hsla> {
    match interaction {
        Interaction::Hovered => Some(tint(hue, BUTTON_HOVER_LIGHTNESS)),
        Interaction::Idle => Some(tint(hue, BUTTON_LIGHTNESS)),
        Interaction::Pressed => None,
    }
}

/// `button` is the button that shows `text`, tinted at `hue`: its size, its
/// border, its fill at rest, the white label and the label's shadow.
pub open spec fn is_text_button(button: TextButton, text: Seq<char>, hue: PrimaryColorHue) -> bool {
    &&& button.width == BUTTON_WIDTH
    &&& button.height == BUTTON_HEIGHT
    &&& button.border == button_border()
    &&& button.border_color == half_black()
    &&& button.background_color == tint(hue, BUTTON_LIGHTNESS)
    &&& button.shadow.text@ == text
    &&& button.shadow.font_size == BUTTON_FONT_SIZE
    &&& button.shadow.color == half_black()
    &&& button.shadow.top_margin == BUTTON_SHADOW_OFFSET
    &&& button.label.text@ == text
    &&& button.label.font_size == BUTTON_FONT_SIZE
    &&& button.label.color == white()
    &&& button.label.top_margin == 0
}

fn tint_of(hue: PrimaryColorHue, lightness: u32) -> (color: Hsla)
    ensures
        color == tint(hue, lightness),
{
    Hsla {
        hue_millidegrees: hue.0 as u64 * MILLIDEGREES_PER_MILLITURN,
        saturation: BUTTON_SATURATION,
        lightness,
        alpha: 1000,
    }
}

pub fn half_black_color() -> (color: Hsla)
    ensures
        color == half_black(),
{
    Hsla { hue_millidegrees: 0, saturation: 0, lightness: 0, alpha: 500 }
}

pub fn white_color() -> (color: Hsla)
    ensures
        color == white(),
{
    Hsla { hue_millidegrees: 0, saturation: 0, lightness: 1000, alpha: 1000 }
}

pub fn button_border_edges() -> (edges: Edges)
    ensures
        edges == button_border(),
{
    Edges { left: 1, right: 1, top: 1, bottom: 4 }
}

/// The tint of a button at rest.
pub fn button_background_color(hue: PrimaryColorHue) -> (color: Hsla)
    ensures
        color == tint(hue, BUTTON_LIGHTNESS),
{
    tint_of(hue, BUTTON_LIGHTNESS)
}

/// The tint of a button under the pointer.
pub fn button_hover_color(hue: PrimaryColorHue) -> (color: Hsla)
    ensures
        color == tint(hue, BUTTON_HOVER_LIGHTNESS),
{
    tint_of(hue, BUTTON_HOVER_LIGHTNESS)
}

/// Decides the new tint of the button whose interaction changed.
///
/// `changed` holds the interactions that changed in this tick, in the order in
/// which the engine walks its buttons. Only the first one reacts: it brightens
/// when the pointer comes over it and goes back to rest when the pointer leaves.
pub fn interact_button(changed: &[Interaction], hue: PrimaryColorHue) -> (background: Option<Hsla>)
    ensures
        background == if changed@.len() == 0 {
            None
        } else {
            tint_for(changed@[0], hue)
        },
{
    if changed.len() == 0 {
        return None;
    }
    match changed[0] {
        Interaction::Hovered => Some(button_hover_color(hue)),
        Interaction::Idle => Some(button_background_color(hue)),
        Interaction::Pressed => None,
    }
}

/// Lays out a button that shows `text`, tinted at `hue`.
pub fn spawn_text_button(text: &str, hue: PrimaryColorHue) -> (button: TextButton)
    ensures
        is_text_button(button, text@, hue),
{
    TextButton {
        width: BUTTON_WIDTH,
        height: BUTTON_HEIGHT,
        border: button_border_edges(),
        border_color: half_black_color(),
        background_color: button_background_color(hue),
        shadow: Label {
            text: text.to_owned(),
            font_size: BUTTON_FONT_SIZE,
            color: half_black_color(),
            top_margin: BUTTON_SHADOW_OFFSET,
        },
        label: Label {
            text: text.to_owned(),
            font_size: BUTTON_FONT_SIZE,
            color: white_color(),
            top_margin: 0,
        },
    }
}

} // verus!
