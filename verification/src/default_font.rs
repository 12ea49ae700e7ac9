//! Making a loaded font the engine's default, once.

use vstd::prelude::*;

verus! {

/// How far the default font has come.
#[derive(Clone, Copy, Debug, PartialEq, Eq, Structural)]
pub enum DefaultFont {
    /// No font has been asked for.
    Unset,
    /// The font has been asked for and is not in place yet.
    Pending,
    /// The font is the engine's default.
    Installed,
}

impl Default for DefaultFont {
    fn default() -> (font: DefaultFont)
        ensures
            font == DefaultFont::Unset,
    {
        DefaultFont::Unset
    }
}

/// The font is put in place in this tick: it is waited for and has arrived.
pub open spec fn installs(font: DefaultFont, loaded: bool) -> bool {
    font == DefaultFont::Pending && loaded
}

/// The state after a tick in which the font was loaded or not.
pub open spec fn font_after(font: DefaultFont, loaded: bool) -> DefaultFont {
    if installs(font, loaded) {
        DefaultFont::Installed
    } else {
        font
    }
}

/// The state after the ticks of `loaded` in turn.
pub open spec fn font_after_ticks(font: DefaultFont, loaded: Seq<bool>) -> DefaultFont
    decreases loaded.len(),
{
    if loaded.len() == 0 {
        font
    } else {
        font_after(font_after_ticks(font, loaded.drop_last()), loaded.last())
    }
}

/// Asks for the font: from now on its arrival is waited for.
pub fn setup_default_font(font: &mut DefaultFont)
    ensures
        *final(font) == DefaultFont::Pending,
{
    *font = DefaultFont::Pending;
}

/// Checks, once per tick, whether the font that is waited for has arrived.
///
/// The result says whether to put the font in place now. That happens in the
/// first tick in which the font is loaded, and never again.
pub fn set_default_font(font: &mut DefaultFont, loaded: bool) -> (install: bool)
    ensures
        install == installs(*old(font), loaded),
        *final(font) == font_after(*old(font), loaded),
{
    match *font {
        DefaultFont::Pending => {
            if loaded {
                *font = DefaultFont::Installed;
                true
            } else {
                false
            }
        },
        _ => false,
    }
}

/// A font that is waited for is put in place in the first tick in which it is
/// loaded and in no other.
pub proof fn lemma_installed_once(loaded: Seq<bool>, i: int)
    requires
        0 <= i < loaded.len(),
    ensures
        installs(font_after_ticks(DefaultFont::Pending, loaded.take(i)), loaded[i]) <==> loaded[i]
            && forall|j: int| 0 <= j < i ==> !#[trigger] loaded[j],
{
    let before = loaded.take(i);
    lemma_pending_until_loaded(before);
    assert(forall|j: int| 0 <= j < i ==> before[j] == loaded[j]);
    if exists|j: int| 0 <= j < before.len() && #[trigger] before[j] {
        let j = choose|j: int| 0 <= j < before.len() && #[trigger] before[j];
        assert(loaded[j]);
    } else {
        assert forall|j: int| 0 <= j < i implies !#[trigger] loaded[j] by {
            assert(!before[j]);
        }
    }
}

/// A font that is waited for stays so until the first tick in which it is
/// loaded, and is in place from then on.
pub proof fn lemma_pending_until_loaded(loaded: Seq<bool>)
    ensures
        font_after_ticks(DefaultFont::Pending, loaded) == if exists|i: int|
            0 <= i < loaded.len() && #[trigger] loaded[i] {
            DefaultFont::Installed
        } else {
            DefaultFont::Pending
        },
    decreases loaded.len(),
{
    if loaded.len() > 0 {
        let init = loaded.drop_last();
        lemma_pending_until_loaded(init);
        assert(forall|i: int| 0 <= i < init.len() ==> init[i] == loaded[i]);
        if exists|i: int| 0 <= i < init.len() && #[trigger] init[i] {
            let i = choose|i: int| 0 <= i < init.len() && #[trigger] init[i];
            assert(loaded[i]);
        } else if loaded.last() {
            assert(loaded[loaded.len() - 1]);
        } else {
            assert forall|i: int| 0 <= i < loaded.len() implies !#[trigger] loaded[i] by {
                if i < init.len() {
                    assert(!init[i]);
                }
            }
        }
    }
}

} // verus!
