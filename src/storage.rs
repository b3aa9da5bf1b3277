use vstd::prelude::*;
use crate::keymap::{Geometry, KeyAction, KeyMap};

verus! {

/// Where the keymap snapshot lives in flash.
#[derive(Clone, Copy, Debug, PartialEq, Eq, Structural)]
pub struct StorageConfig {
    pub start_addr: u32,
    pub num_sectors: u8,
}

impl StorageConfig {
    /// The default persistence parameters: two sectors from address zero.
    pub fn new() -> (r: StorageConfig)
        ensures
            r.start_addr == 0,
            r.num_sectors == 2,
    {
        StorageConfig { start_addr: 0, num_sectors: 2 }
    }
}

/// A keymap snapshot as written to persistent storage.
pub struct SnapshotView {
    pub geometry: Geometry,
    pub actions: Seq<KeyAction>,
}

impl SnapshotView {
    /// A snapshot passes validation for a geometry when it was taken of a
    /// keymap of that geometry.
    pub open spec fn fits(self, g: Geometry) -> bool {
        self.geometry == g && self.actions.len() == g.cells()
    }
}

/// A keymap snapshot as read from or written to flash.
pub struct Snapshot {
    pub geometry: Geometry,
    pub actions: Vec<KeyAction>,
}

impl View for Snapshot {
    type V = SnapshotView;

    open spec fn view(&self) -> SnapshotView {
        SnapshotView { geometry: self.geometry, actions: self.actions@ }
    }
}

/// What an optional snapshot holds.
pub open spec fn opt_view(s: Option<Snapshot>) -> Option<SnapshotView> {
    match s {
        Some(x) => Some(x@),
        None => None,
    }
}

/// The persistent store: its parameters and the snapshot that it holds.
pub struct StorageView {
    pub config: StorageConfig,
    pub snapshot: Option<SnapshotView>,
}

/// The persistent keymap store, holding the last snapshot written to flash.
pub struct Storage {
    config: StorageConfig,
    snapshot: Option<Snapshot>,
}

impl View for Storage {
    type V = StorageView;

    closed spec fn view(&self) -> StorageView {
        StorageView { config: self.config, snapshot: opt_view(self.snapshot) }
    }
}

impl Storage {
    /// A store with the given parameters and what was found in flash.
    pub fn new(config: StorageConfig, contents: Option<Snapshot>) -> (r: Storage)
        ensures
            r@ == (StorageView { config, snapshot: opt_view(contents) }),
    {
        Storage { config, snapshot: contents }
    }

    pub fn config(&self) -> (r: StorageConfig)
        ensures
            r == self@.config,
    {
        self.config
    }

    /// A copy of the stored snapshot, to be written to flash.
    pub fn snapshot(&self) -> (r: Option<Snapshot>)
        ensures
            opt_view(r) == self@.snapshot,
    {
        match &self.snapshot {
            Some(s) => Some(Snapshot { geometry: s.geometry, actions: s.actions.clone() }),
            None => None,
        }
    }

    /// One persistence cycle: the store takes a snapshot of the keymap.
    pub fn persist(&mut self, keymap: &KeyMap)
        ensures
            final(self)@ == (StorageView { config: old(self)@.config, snapshot: Some(keymap@.snapshot()) }),
    {
        self.snapshot = Some(keymap.snapshot());
    }

    /// Replaces the stored snapshot.
    pub(crate) fn write(&mut self, s: Snapshot)
        ensures
            final(self)@ == (StorageView { config: old(self)@.config, snapshot: Some(s@) }),
    {
        self.snapshot = Some(s);
    }

    /// Whether the stored snapshot passes validation for `g`.
    pub fn holds_snapshot_for(&self, g: Geometry) -> (r: bool)
        ensures
            r == (self@.snapshot is Some && self@.snapshot->0.fits(g)),
    {
        match &self.snapshot {
            Some(s) => {
                let len = s.actions.len();
                let fits = match g.num_cells() {
                    Some(n) => len == n,
                    None => false,
                };
                s.geometry == g && fits
            },
            None => false,
        }
    }

    /// The stored snapshot where it passes validation for `g`.
    pub(crate) fn valid_actions(&self, g: Geometry) -> (r: Option<Vec<KeyAction>>)
        ensures
            r is Some <==> (self@.snapshot is Some && self@.snapshot->0.fits(g)),
            r matches Some(v) ==> v@ == self@.snapshot->0.actions,
    {
        if self.holds_snapshot_for(g) {
            match &self.snapshot {
                Some(s) => Some(s.actions.clone()),
                None => None,
            }
        } else {
            None
        }
    }
}

} // verus!
