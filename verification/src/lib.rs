//! Verified core of a small menu-then-play game: the rules that decide, tick by
//! tick, what the engine around them should do.
//!
//! Every quantity that an engine would hold as a real number is held here in
//! fixed point, as an integer count of millionths or thousandths, so that each
//! rule is exact and each contract can be proved.

pub mod framerate;
pub mod framerate_laws;
pub mod button;
pub mod mute;
pub mod state;
pub mod state_laws;
pub mod text_to_image;
pub mod utils;
pub mod default_font;
pub mod scene;
pub mod music;
