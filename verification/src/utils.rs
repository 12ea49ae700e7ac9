//! Asset handles by purpose, and the platform test.

use vstd::prelude::*;
use core::marker::PhantomData;
use crate::state::LoadState;
use crate::state::all_loaded;

verus! {

/// The engine's handle of a loaded asset of the kind `H`, marked with the
/// purpose `T` it serves, so that two assets of one kind are told apart by type.
pub struct AssetHandle<T, H> {
    /// The number under which the engine knows the asset.
    pub handle: u64,
    pub asset_type: PhantomData<T>,
    pub asset_kind: PhantomData<H>,
}

impl<T, H> AssetHandle<T, H> {
    pub fn new(handle: u64) -> (made: Self)
        ensures
            made.handle == handle,
    {
        Self { handle, asset_type: PhantomData, asset_kind: PhantomData }
    }
}

/// One asset of the registry.
#[derive(Clone, Copy, Debug, PartialEq, Eq, Structural)]
pub struct AssetEntry {
    /// What the asset is for.
    pub purpose: u32,
    /// The number under which the engine knows the asset.
    pub handle: u64,
    /// What the engine last reported of it.
    pub state: LoadState,
}

/// The assets that the game needs, each under its purpose.
pub struct AssetRegistry {
    entries: Vec<AssetEntry>,
}

/// Whether an asset for `purpose` is among the first `upto` of `entries`.
pub open spec fn registered_in(entries: Seq<AssetEntry>, purpose: u32, upto: int) -> bool {
    exists|i: int| 0 <= i < upto && (#[trigger] entries[i]).purpose == purpose
}

/// No purpose has two assets.
pub open spec fn distinct_purposes(entries: Seq<AssetEntry>) -> bool {
    forall|i: int, j: int|
        0 <= i < j < entries.len() ==> (#[trigger] entries[i]).purpose != (
        #[trigger] entries[j]).purpose
}

/// What the engine last reported of each asset, in the order of `entries`.
pub open spec fn states_of(entries: Seq<AssetEntry>) -> Seq<LoadState> {
    Seq::new(entries.len(), |i: int| entries[i].state)
}

/// `entries` with the report `state` on the asset for `purpose`.
pub open spec fn with_report(entries: Seq<AssetEntry>, purpose: u32, state: LoadState) -> Seq<
    AssetEntry,
> {
    Seq::new(
        entries.len(),
        |i: int|
            if entries[i].purpose == purpose {
                AssetEntry { purpose, handle: entries[i].handle, state }
            } else {
                entries[i]
            },
    )
}

impl AssetRegistry {
    /// The registered assets, in the order in which they were inserted.
    pub closed spec fn view(self) -> Seq<AssetEntry> {
        self.entries@
    }

    /// No purpose has two assets: every constructor gives such a registry and
    /// every method keeps it so.
    pub open spec fn wf(self) -> bool {
        distinct_purposes(self@)
    }

    /// Whether an asset is registered for `purpose`.
    pub open spec fn has(self, purpose: u32) -> bool {
        registered_in(self@, purpose, self@.len() as int)
    }

    /// A registry without assets.
    pub fn new() -> (registry: AssetRegistry)
        ensures
            registry@ == Seq::<AssetEntry>::empty(),
            registry.wf(),
    {
        AssetRegistry { entries: Vec::new() }
    }

    /// The place of the asset for `purpose`.
    pub fn position(&self, purpose: u32) -> (place: Option<usize>)
        ensures
            match place {
                Some(i) => i < self@.len() && self@[i as int].purpose == purpose,
                None => !self.has(purpose),
            },
    {
        let mut i: usize = 0;
        while i < self.entries.len()
            invariant
                i <= self.entries@.len(),
                !registered_in(self.entries@, purpose, i as int),
            decreases self.entries@.len() - i,
        {
            if self.entries[i].purpose == purpose {
                return Some(i);
            }
            i += 1;
        }
        None
    }

    /// Registers the asset for `purpose`, which is not loaded yet.
    ///
    /// A purpose is served once: where it has an asset already, nothing changes
    /// and the result is `false`.
    pub fn insert(&mut self, purpose: u32, handle: u64) -> (inserted: bool)
        requires
            old(self).wf(),
        ensures
            final(self).wf(),
            inserted == !old(self).has(purpose),
            inserted ==> final(self)@ == old(self)@.push(
                AssetEntry { purpose, handle, state: LoadState::NotLoaded },
            ),
            !inserted ==> final(self)@ == old(self)@,
    {
        match self.position(purpose) {
            Some(_) => false,
            None => {
                self.entries.push(AssetEntry { purpose, handle, state: LoadState::NotLoaded });
                true
            },
        }
    }

    /// The asset registered for `purpose`.
    pub fn get(&self, purpose: u32) -> (entry: Option<AssetEntry>)
        ensures
            entry.is_some() == self.has(purpose),
            entry matches Some(found) ==> found.purpose == purpose && self@.contains(found),
    {
        match self.position(purpose) {
            Some(i) => Some(self.entries[i]),
            None => None,
        }
    }

    /// Takes down what the engine reports of the asset for `purpose`.
    ///
    /// The asset keeps its handle, and every other asset stays as it is.
    pub fn report(&mut self, purpose: u32, state: LoadState) -> (known: bool)
        requires
            old(self).wf(),
        ensures
            final(self).wf(),
            known == old(self).has(purpose),
            final(self)@ == with_report(old(self)@, purpose, state),
    {
        match self.position(purpose) {
            Some(i) => {
                let handle = self.entries[i].handle;
                self.entries.set(i, AssetEntry { purpose, handle, state });
                assert(self.entries@ =~= with_report(old(self)@, purpose, state));
                true
            },
            None => {
                assert(self.entries@ =~= with_report(old(self)@, purpose, state)) by {
                    assert forall|i: int| 0 <= i < self.entries@.len() implies (
                    #[trigger] self.entries@[i]).purpose != purpose by {}
                }
                false
            },
        }
    }

    /// What the engine last reported of each asset, for the loading gate.
    pub fn load_states(&self) -> (states: Vec<LoadState>)
        ensures
            states@ == states_of(self@),
    {
        let mut states: Vec<LoadState> = Vec::new();
        let mut i: usize = 0;
        while i < self.entries.len()
            invariant
                i <= self.entries@.len(),
                states@ == states_of(self.entries@).take(i as int),
            decreases self.entries@.len() - i,
        {
            states.push(self.entries[i].state);
            i += 1;
            assert(states@ =~= states_of(self.entries@).take(i as int));
        }
        assert(states_of(self.entries@).take(i as int) =~= states_of(self.entries@));
        states
    }
}

/// Whether the operating system of the given name is one for desktop machines.
pub fn is_desktop(os: &str) -> (desktop: bool)
    ensures
        desktop == (os@ == "macos"@ || os@ == "windows"@ || os@ == "linux"@),
{
    let name = os.to_owned();
    name == "macos".to_owned() || name == "windows".to_owned() || name == "linux".to_owned()
}

/// A report changes the state of the one asset it is about and nothing
/// else: every asset keeps its purpose and its handle, and a report of a
/// loaded asset never takes away that all assets are loaded.
pub proof fn lemma_report_changes_one(
    entries: Seq<AssetEntry>,
    purpose: u32,
    state: LoadState,
    i: int,
)
    requires
        0 <= i < entries.len(),
    ensures
        with_report(entries, purpose, state).len() == entries.len(),
        with_report(entries, purpose, state)[i].handle == entries[i].handle,
        with_report(entries, purpose, state)[i].purpose == entries[i].purpose,
        entries[i].purpose != purpose ==> with_report(entries, purpose, state)[i] == entries[i],
        entries[i].purpose == purpose ==> with_report(entries, purpose, state)[i].state == state,
        all_loaded(states_of(entries)) && state == LoadState::Loaded ==> all_loaded(
            states_of(with_report(entries, purpose, state)),
        ),
{
    if all_loaded(states_of(entries)) && state == LoadState::Loaded {
        let after = states_of(with_report(entries, purpose, state));
        assert forall|j: int| 0 <= j < after.len() implies #[trigger] after[j]
            == LoadState::Loaded by {
            assert(states_of(entries)[j] == LoadState::Loaded);
        }
    }
}

} // verus!
