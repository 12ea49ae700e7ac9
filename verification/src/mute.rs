//! The mute toggle and the volumes it ducks.
//!
//! Volumes and opacities are in thousandths: `FULL_VOLUME` is a volume of one.

use vstd::prelude::*;
use crate::button::Interaction;

verus! {

/// A volume of one, in thousandths.
pub const FULL_VOLUME: u32 = 1000;

/// Opacity of the mute icon while sound is on, in thousandths.
pub const MUTE_ICON_ACTIVE_OPACITY: u32 = 700;

/// Opacity of the mute icon while sound is off, in thousandths.
pub const MUTE_ICON_INACTIVE_OPACITY: u32 = 200;

/// Whether all sound is muted.
#[derive(Clone, Copy, Debug, PartialEq, Eq, Structural)]
pub struct Muted(pub bool);

impl Default for Muted {
    fn default() -> (muted: Muted)
        ensures
            muted == Muted(false),
    {
        Muted(false)
    }
}

/// What a press of the mute control changes besides the flag.
#[derive(Clone, Copy, Debug, PartialEq, Eq, Structural)]
pub struct MutePress {
    /// The new global volume, in thousandths.
    pub global_volume: u32,
    /// The new opacity of the control's icon, in thousandths.
    pub icon_opacity: u32,
}

/// One audio source that the mixer knows: the engine's name for it and the volume it plays
/// at while nothing is muted.
#[derive(Clone, Copy, Debug, PartialEq, Eq, Structural)]
pub struct AudioSource {
    pub id: u64,
    pub base_volume: u32,
}

/// A volume to apply to one audio source.
#[derive(Clone, Copy, Debug, PartialEq, Eq, Structural)]
pub struct VolumeChange {
    pub id: u64,
    pub volume: u32,
}

/// The audio sources seen so far, each with its base volume, in the order in
/// which they were first seen.
pub struct Mixer {
    sources: Vec<AudioSource>,
}

/// The factor that muting puts on every volume.
pub open spec fn master_volume(muted: bool) -> int {
    if muted {
        0
    } else {
        1
    }
}

/// The volume a source of base volume `base` plays at.
pub open spec fn effective_volume(base: int, muted: bool) -> int {
    base * master_volume(muted)
}

/// The flag after one press of the mute control.
pub open spec fn toggled(muted: bool) -> bool {
    !muted
}

/// What a press that leaves the flag at `muted` sets besides it.
pub open spec fn press_effect(muted: bool) -> MutePress {
    if muted {
        MutePress { global_volume: 0, icon_opacity: MUTE_ICON_INACTIVE_OPACITY }
    } else {
        MutePress { global_volume: FULL_VOLUME, icon_opacity: MUTE_ICON_ACTIVE_OPACITY }
    }
}

/// Whether the mute control reacts: its interaction changed to a press, and
/// it has exactly one icon to show the result on.
pub open spec fn mute_pressed(changed: Seq<Interaction>, icons: int) -> bool {
    changed.len() > 0 && changed[0] == Interaction::Pressed && icons == 1
}

/// Whether `id` is among the first `upto` of `sources`.
pub open spec fn listed_in(sources: Seq<AudioSource>, id: u64, upto: int) -> bool {
    exists|i: int| 0 <= i < upto && (#[trigger] sources[i]).id == id
}

/// No source is listed twice.
pub open spec fn distinct_ids(sources: Seq<AudioSource>) -> bool {
    forall|i: int, j: int|
        0 <= i < j < sources.len() ==> (#[trigger] sources[i]).id != (#[trigger] sources[j]).id
}

/// The volume to apply to each of `sources`, in their order.
pub open spec fn ducked(sources: Seq<AudioSource>, muted: bool) -> Seq<VolumeChange> {
    Seq::new(
        sources.len(),
        |i: int|
            VolumeChange {
                id: sources[i].id,
                volume: effective_volume(sources[i].base_volume as int, muted) as u32,
            },
    )
}

/// Computes the volume of one source.
pub fn apply_mute(base_volume: u32, muted: Muted) -> (volume: u32)
    ensures
        volume as int == effective_volume(base_volume as int, muted.0),
{
    let master: u32 = if muted.0 {
        0
    } else {
        1
    };
    assert(base_volume * master <= base_volume) by (nonlinear_arith)
        requires
            0 <= master <= 1,
    ;
    base_volume * master
}

/// Reacts to the mute control.
///
/// `changed` holds the control's interaction if it changed in this tick, and
/// `icons` is the number of icons the control has. On a press the flag flips;
/// the result says what follows from the new flag at once, before any source's
/// volume is recomputed.
pub fn interact_mute_button(changed: &[Interaction], icons: usize, muted: &mut Muted) -> (press:
    Option<MutePress>)
    ensures
        mute_pressed(changed@, icons as int) ==> final(muted).0 == toggled(old(muted).0) && press
            == Some(press_effect(final(muted).0)),
        !mute_pressed(changed@, icons as int) ==> *final(muted) == *old(muted) && press.is_none(),
{
    if changed.len() == 0 || icons != 1 {
        return None;
    }
    match changed[0] {
        Interaction::Pressed => {
            if muted.0 {
                muted.0 = false;
                Some(
                    MutePress {
                        global_volume: FULL_VOLUME,
                        icon_opacity: MUTE_ICON_ACTIVE_OPACITY,
                    },
                )
            } else {
                muted.0 = true;
                Some(MutePress { global_volume: 0, icon_opacity: MUTE_ICON_INACTIVE_OPACITY })
            }
        },
        _ => None,
    }
}

impl Mixer {
    /// No source is listed twice: every constructor gives such a mixer and
    /// every method keeps it so.
    pub open spec fn wf(self) -> bool {
        distinct_ids(self@)
    }

    /// The sources the mixer knows, oldest first.
    pub closed spec fn view(self) -> Seq<AudioSource> {
        self.sources@
    }

    /// Whether the mixer knows `id`.
    pub open spec fn tracks(self, id: u64) -> bool {
        listed_in(self@, id, self@.len() as int)
    }

    /// A mixer without sources.
    pub fn new() -> (mixer: Mixer)
        ensures
            mixer@ == Seq::<AudioSource>::empty(),
            mixer.wf(),
    {
        Mixer { sources: Vec::new() }
    }

    /// The place of `id` among the sources.
    pub fn position(&self, id: u64) -> (place: Option<usize>)
        ensures
            match place {
                Some(i) => i < self@.len() && self@[i as int].id == id,
                None => !self.tracks(id),
            },
    {
        let mut i: usize = 0;
        while i < self.sources.len()
            invariant
                i <= self.sources@.len(),
                !listed_in(self.sources@, id, i as int),
            decreases self.sources@.len() - i,
        {
            if self.sources[i].id == id {
                return Some(i);
            }
            i += 1;
        }
        None
    }

    /// The base volume of `id`, if the mixer knows it.
    pub fn base_volume(&self, id: u64) -> (base: Option<u32>)
        ensures
            base.is_some() == self.tracks(id),
            base matches Some(volume) ==> exists|i: int|
                0 <= i < self@.len() && #[trigger] self@[i] == (AudioSource {
                    id,
                    base_volume: volume,
                }),
    {
        match self.position(id) {
            Some(i) => Some(self.sources[i].base_volume),
            None => None,
        }
    }

    /// Records the base volume of a source the first time it is seen.
    ///
    /// A source that is known already keeps the base volume it has.
    pub fn assign_base_volume(&mut self, id: u64, volume: u32) -> (added: bool)
        requires
            old(self).wf(),
        ensures
            final(self).wf(),
            added == !old(self).tracks(id),
            added ==> final(self)@ == old(self)@.push(AudioSource { id, base_volume: volume }),
            !added ==> final(self)@ == old(self)@,
    {
        match self.position(id) {
            Some(_) => false,
            None => {
                self.sources.push(AudioSource { id, base_volume: volume });
                true
            },
        }
    }

    /// Sets the base volume of a source, known or not, as a change of scene
    /// does, and says at what volume the source is to play from now on: at the
    /// new base volume, or not at all while sound is muted.
    pub fn retune(&mut self, id: u64, volume: u32, muted: Muted) -> (change: VolumeChange)
        requires
            old(self).wf(),
        ensures
            final(self).wf(),
            final(self).tracks(id),
            !old(self).tracks(id) ==> final(self)@ == old(self)@.push(
                AudioSource { id, base_volume: volume },
            ),
            old(self).tracks(id) ==> final(self)@.len() == old(self)@.len() && forall|i: int|
                0 <= i < old(self)@.len() ==> #[trigger] final(self)@[i] == if old(self)@[i].id
                    == id {
                    AudioSource { id, base_volume: volume }
                } else {
                    old(self)@[i]
                },
            change == (VolumeChange {
                id,
                volume: effective_volume(volume as int, muted.0) as u32,
            }),
    {
        match self.position(id) {
            Some(i) => {
                self.sources.set(i, AudioSource { id, base_volume: volume });
                assert(self.sources@[i as int].id == id);
            },
            None => {
                self.sources.push(AudioSource { id, base_volume: volume });
                assert(self.sources@[self.sources@.len() - 1].id == id);
            },
        }
        VolumeChange { id, volume: apply_mute(volume, muted) }
    }

    /// Recomputes the volume of every source after the flag changed.
    pub fn on_muted_changed(&self, muted: Muted) -> (changes: Vec<VolumeChange>)
        ensures
            changes@ == ducked(self@, muted.0),
    {
        let mut changes: Vec<VolumeChange> = Vec::new();
        let mut i: usize = 0;
        while i < self.sources.len()
            invariant
                i <= self.sources@.len(),
                changes@ == ducked(self.sources@, muted.0).take(i as int),
            decreases self.sources@.len() - i,
        {
            let source = self.sources[i];
            let volume = apply_mute(source.base_volume, muted);
            changes.push(VolumeChange { id: source.id, volume });
            i += 1;
            assert(changes@ =~= ducked(self.sources@, muted.0).take(i as int));
        }
        assert(ducked(self.sources@, muted.0).take(i as int) =~= ducked(self.sources@, muted.0));
        changes
    }
}

/// A source that was retuned while sound was muted plays at its new base
/// volume once sound is back: what is recomputed for it after the flag has
/// changed is the base volume that `sources` holds for it.
pub proof fn lemma_unmute_after_retune(sources: Seq<AudioSource>, i: int)
    requires
        0 <= i < sources.len(),
    ensures
        ducked(sources, false).len() == sources.len(),
        ducked(sources, false)[i] == (VolumeChange {
            id: sources[i].id,
            volume: sources[i].base_volume,
        }),
        ducked(sources, true)[i] == (VolumeChange { id: sources[i].id, volume: 0 }),
{
}

/// Muting silences a source, and unmuting gives it its base volume back
/// exactly, however often the flag was flipped in between.
pub proof fn lemma_mute_round_trip(base: int, muted: bool)
    ensures
        effective_volume(base, false) == base,
        effective_volume(base, true) == 0,
        toggled(toggled(muted)) == muted,
        effective_volume(base, toggled(toggled(muted))) == effective_volume(base, muted),
        effective_volume(base, toggled(true)) == base,
{
}

} // verus!
