use vstd::prelude::*;
use crate::storage::{Snapshot, SnapshotView, Storage, StorageView};

verus! {

/// One action of the keymap grid, identified by its code.
#[derive(Clone, Copy, Debug, PartialEq, Eq, Structural)]
pub struct KeyAction(pub u16);

/// Board geometry: the number of layers, rows and columns of the keymap.
#[derive(Clone, Copy, Debug, PartialEq, Eq, Structural)]
pub struct Geometry {
    pub layers: usize,
    pub rows: usize,
    pub cols: usize,
}

impl Geometry {
    /// Number of cells of a grid of this geometry.
    pub open spec fn cells(self) -> int {
        self.layers as int * self.rows as int * self.cols as int
    }

    pub open spec fn contains(self, layer: int, row: int, col: int) -> bool {
        0 <= layer < self.layers && 0 <= row < self.rows && 0 <= col < self.cols
    }

    /// Position of cell (layer, row, col) in the layer-major flat grid.
    pub open spec fn index(self, layer: int, row: int, col: int) -> int {
        (layer * self.rows + row) * self.cols + col
    }

    /// The position of a cell of the grid among `len` cells.
    pub fn flat_index(&self, layer: usize, row: usize, col: usize, len: usize) -> (r: usize)
        requires
            self.contains(layer as int, row as int, col as int),
            len == self.cells(),
        ensures
            r == self.index(layer as int, row as int, col as int),
            r < len,
    {
        proof { lemma_index_in_grid(*self, layer as int, row as int, col as int); }
        let x = layer * self.rows + row;
        assert(x * self.cols <= self.index(layer as int, row as int, col as int));
        x * self.cols + col
    }

    /// The number of cells, or `None` where it does not fit in `usize`.
    pub fn num_cells(&self) -> (r: Option<usize>)
        ensures
            r is Some <==> self.cells() <= usize::MAX,
            r matches Some(n) ==> n == self.cells(),
    {
        let (l, rw, c) = (self.layers, self.rows, self.cols);
        if l == 0 || rw == 0 || c == 0 {
            proof {
                assert(self.cells() == 0) by (nonlinear_arith)
                    requires l == 0 || rw == 0 || c == 0, self.cells() == l * rw * c;
            }
            return Some(0);
        }
        match l.checked_mul(rw) {
            None => {
                proof {
                    assert(self.cells() > usize::MAX) by (nonlinear_arith)
                        requires l * rw > usize::MAX, c >= 1, self.cells() == l * rw * c;
                }
                None
            },
            Some(lr) => lr.checked_mul(c),
        }
    }
}

/// Every cell of the grid has a position inside the flat grid.
pub proof fn lemma_index_in_grid(g: Geometry, layer: int, row: int, col: int)
    requires
        g.contains(layer, row, col),
    ensures
        0 <= g.index(layer, row, col) < g.cells(),
        0 <= layer * g.rows + row <= (layer * g.rows + row) * g.cols <= g.index(layer, row, col),
{
    let (l, r, c) = (g.layers as int, g.rows as int, g.cols as int);
    assert(0 <= layer * r + row < l * r) by (nonlinear_arith)
        requires 0 <= layer < l, 0 <= row < r;
    assert(0 <= (layer * r + row) * c + col < (l * r) * c) by (nonlinear_arith)
        requires 0 <= layer * r + row < l * r, 0 <= col < c;
    assert(layer * r + row <= (layer * r + row) * c) by (nonlinear_arith)
        requires 0 <= layer * r + row, 1 <= c;
}

/// What a keymap holds: its geometry and its cells in layer-major order.
pub struct KeyMapView {
    pub geometry: Geometry,
    pub actions: Seq<KeyAction>,
}

impl KeyMapView {
    pub open spec fn wf(self) -> bool {
        self.actions.len() == self.geometry.cells()
    }

    pub open spec fn action_at(self, layer: int, row: int, col: int) -> KeyAction {
        self.actions[self.geometry.index(layer, row, col)]
    }
}

/// The keymap that the initialization chain bootstraps from a stored snapshot.
pub open spec fn loaded(default: KeyMapView, stored: Option<SnapshotView>) -> KeyMapView {
    if stored is Some && stored->0.fits(default.geometry) {
        KeyMapView { geometry: default.geometry, actions: stored->0.actions }
    } else {
        default
    }
}

/// What the store holds after a bootstrap: a valid snapshot is kept, anything
/// else is replaced by the default grid.
pub open spec fn seeded(default: KeyMapView, stored: Option<SnapshotView>) -> Option<SnapshotView> {
    if stored is Some && stored->0.fits(default.geometry) {
        stored
    } else {
        Some(default.snapshot())
    }
}

impl KeyMapView {
    /// The snapshot that persisting this keymap writes.
    pub open spec fn snapshot(self) -> SnapshotView {
        SnapshotView { geometry: self.geometry, actions: self.actions }
    }
}

/// Bootstrapping is idempotent: starting from an empty store, a first bootstrap
/// seeds it with the default grid, and a second one from the same grid yields
/// the same keymap and leaves the store as it is.
pub proof fn lemma_bootstrap_idempotent(default: KeyMapView)
    requires
        default.wf(),
    ensures
        loaded(default, None) == default,
        loaded(default, seeded(default, None)) == loaded(default, None),
        seeded(default, seeded(default, None)) == seeded(default, None),
{
    assert(default.snapshot().fits(default.geometry));
}

/// Bootstrapping preserves what was persisted: once a keymap has been persisted,
/// a later bootstrap of the same geometry reproduces it, whatever the default
/// grid, and keeps the stored snapshot.
pub proof fn lemma_bootstrap_keeps_persisted(persisted: KeyMapView, default: KeyMapView)
    requires
        persisted.wf(),
        default.wf(),
        default.geometry == persisted.geometry,
    ensures
        loaded(default, Some(persisted.snapshot())) == persisted,
        seeded(default, Some(persisted.snapshot())) == Some(persisted.snapshot()),
{
}

/// A grid of key actions indexed by (layer, row, column).
pub struct KeyMap {
    geometry: Geometry,
    actions: Vec<KeyAction>,
}

impl View for KeyMap {
    type V = KeyMapView;

    closed spec fn view(&self) -> KeyMapView {
        KeyMapView { geometry: self.geometry, actions: self.actions@ }
    }
}

impl KeyMap {
    /// Builds a keymap from its cells in layer-major order; `None` where their
    /// number is not that of the geometry.
    pub fn new(geometry: Geometry, actions: Vec<KeyAction>) -> (r: Option<KeyMap>)
        ensures
            r is Some <==> actions@.len() == geometry.cells(),
            r matches Some(k) ==> k@ == (KeyMapView { geometry, actions: actions@ }),
    {
        let len = actions.len();
        let fits = match geometry.num_cells() {
            Some(n) => len == n,
            None => false,
        };
        if fits {
            Some(KeyMap { geometry, actions })
        } else {
            None
        }
    }

    pub fn geometry(&self) -> (r: Geometry)
        ensures
            r == self@.geometry,
    {
        self.geometry
    }

    /// The action at (layer, row, col), `None` outside the grid.
    pub fn get_action(&self, layer: usize, row: usize, col: usize) -> (r: Option<KeyAction>)
        requires
            self@.wf(),
        ensures
            r is Some <==> self@.geometry.contains(layer as int, row as int, col as int),
            r matches Some(a) ==> a == self@.action_at(layer as int, row as int, col as int),
    {
        if layer < self.geometry.layers && row < self.geometry.rows && col < self.geometry.cols {
            proof { lemma_index_in_grid(self.geometry, layer as int, row as int, col as int); }
            let i = self.geometry.flat_index(layer, row, col, self.actions.len());
            Some(self.actions[i])
        } else {
            None
        }
    }

    /// A snapshot of every cell, as a persistence cycle writes it.
    pub fn snapshot(&self) -> (r: Snapshot)
        ensures
            r@ == self@.snapshot(),
    {
        Snapshot { geometry: self.geometry, actions: self.actions.clone() }
    }

    /// A remote edit: sets the action at (layer, row, col); `false`, and no
    /// change, outside the grid.
    pub fn set_action(&mut self, layer: usize, row: usize, col: usize, action: KeyAction) -> (r: bool)
        requires
            old(self)@.wf(),
        ensures
            r == old(self)@.geometry.contains(layer as int, row as int, col as int),
            final(self)@.geometry == old(self)@.geometry,
            r ==> final(self)@.actions == old(self)@.actions.update(
                old(self)@.geometry.index(layer as int, row as int, col as int),
                action,
            ),
            !r ==> final(self)@ == old(self)@,
    {
        if layer < self.geometry.layers && row < self.geometry.rows && col < self.geometry.cols {
            proof { lemma_index_in_grid(self.geometry, layer as int, row as int, col as int); }
            let i = self.geometry.flat_index(layer, row, col, self.actions.len());
            self.actions.set(i, action);
            true
        } else {
            false
        }
    }

    /// Bootstraps the keymap from a store: from its snapshot where one passes
    /// validation, else from the default grid, which is then persisted. (Without
    /// a store the default grid is the keymap as it is.)
    pub fn new_from_storage(default: KeyMap, storage: &mut Storage) -> (r: KeyMap)
        requires
            default@.wf(),
        ensures
            r@.wf(),
            r@ == loaded(default@, old(storage)@.snapshot),
            final(storage)@ == (StorageView {
                config: old(storage)@.config,
                snapshot: seeded(default@, old(storage)@.snapshot),
            }),
    {
        match storage.valid_actions(default.geometry) {
            Some(actions) => KeyMap { geometry: default.geometry, actions },
            None => {
                storage.write(default.snapshot());
                default
            },
        }
    }
}

} // verus!
