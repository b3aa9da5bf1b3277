use vstd::prelude::*;
use crate::keymap::{loaded, seeded, KeyMap};
use crate::storage::{Storage, StorageView};
use crate::supervisor::{Phase, Supervisor, SupervisorView};

verus! {

/// What the initialization chain hands to the supervisor loop: the one keymap,
/// the store if there is one, and the supervisor whose mode that store fixed.
pub struct Bootstrapped {
    pub keymap: KeyMap,
    pub storage: Option<Storage>,
    pub supervisor: Supervisor,
    /// Whether the default grid was written to the store, which flash must
    /// then be brought up to date with.
    pub reseeded: bool,
}

/// What an optional store holds.
pub open spec fn storage_view(s: Option<Storage>) -> Option<StorageView> {
    match s {
        Some(x) => Some(x@),
        None => None,
    }
}

/// Builds the keymap from the store where one was supplied, else from the
/// default grid, and fixes once whether the supervisor races a persistence job.
pub fn bootstrap(default: KeyMap, storage: Option<Storage>) -> (r: Bootstrapped)
    requires
        default@.wf(),
    ensures
        r.keymap@.wf(),
        r.supervisor@ == (SupervisorView { with_store: storage is Some, phase: Phase::Running }),
        r.storage is Some == storage is Some,
        r.reseeded == (storage matches Some(s) && !(s@.snapshot is Some && s@.snapshot->0.fits(
            default@.geometry,
        ))),
        storage is None ==> r.keymap@ == default@,
        storage matches Some(s) ==> {
            &&& r.keymap@ == loaded(default@, s@.snapshot)
            &&& storage_view(r.storage) == Some(
                StorageView { config: s@.config, snapshot: seeded(default@, s@.snapshot) },
            )
        },
{
    match storage {
        Some(mut s) => {
            let reseeded = !s.holds_snapshot_for(default.geometry());
            let keymap = KeyMap::new_from_storage(default, &mut s);
            Bootstrapped { keymap, storage: Some(s), supervisor: Supervisor::new(true), reseeded }
        },
        None => Bootstrapped {
            keymap: default,
            storage: None,
            supervisor: Supervisor::new(false),
            reseeded: false,
        },
    }
}

} // verus!
