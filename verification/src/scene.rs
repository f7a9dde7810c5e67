//! Ownership of the single displayed geometry.
//!
//! The scene shows exactly one geometry for the watched mesh at any time.
//! `SceneBinding` tracks the renderer node holding it and swaps it for a
//! new one as one operation, so no observable state ever has zero or two
//! geometries for the watched file.  Before the first successful load the
//! slot holds a placeholder.

use vstd::prelude::*;

verus! {

use crate::normalize::NormalizedMesh;

/// What the displayed node currently shows.
pub enum Geometry {
    /// The startup stand-in shown before any successful load.
    Placeholder,
    /// A successfully loaded and normalized mesh.
    Loaded(NormalizedMesh),
}

/// Owner of the one displayed geometry: the renderer nodes bound for the
/// watched mesh (always exactly one), what that node shows, and the next
/// fresh node id.
pub struct SceneBinding {
    /// Ids of the renderer nodes currently present for the watched mesh.
    pub nodes: Vec<u64>,
    /// What the present node displays.
    pub current: Geometry,
    /// The id the next inserted node will get; larger than any id in use.
    pub next_id: u64,
}

impl SceneBinding {
    /// Exactly one node is bound, its id is stale-proof (below `next_id`),
    /// and a loaded geometry is well formed.
    pub open spec fn wf(self) -> bool {
        &&& self.nodes@.len() == 1
        &&& self.nodes@[0] < self.next_id
        &&& (self.current matches Geometry::Loaded(m) ==> m.wf())
    }

    /// A scene showing the startup placeholder under node id 0.
    pub fn new() -> (b: SceneBinding)
        ensures
            b.wf(),
            b.nodes@ == seq![0u64],
            b.current is Placeholder,
            b.next_id == 1,
    {
        let mut nodes: Vec<u64> = Vec::new();
        nodes.push(0);
        proof {
            assert(nodes@ =~= seq![0u64]);
        }
        SceneBinding { nodes, current: Geometry::Placeholder, next_id: 1 }
    }

    /// Swap the displayed geometry for `m` as a single logical operation:
    /// the previous node leaves and a fresh node enters in the same step,
    /// so the scene never holds zero or two geometries for the watched
    /// mesh.  Returns the removed and the inserted node id, for the caller
    /// to mirror onto the renderer.
    pub fn replace(&mut self, m: NormalizedMesh) -> (ids: (u64, u64))
        requires
            old(self).wf(),
            m.wf(),
            old(self).next_id < u64::MAX,
        ensures
            final(self).wf(),
            final(self).nodes@.len() == 1,
            ids.0 == old(self).nodes@[0],
            ids.1 == old(self).next_id,
            ids.0 != ids.1,
            final(self).nodes@ == seq![ids.1],
            final(self).current == Geometry::Loaded(m),
            final(self).next_id == old(self).next_id + 1,
    {
        let removed = self.nodes[0];
        let added = self.next_id;
        let _ = self.nodes.pop();
        self.nodes.push(added);
        self.next_id = added + 1;
        self.current = Geometry::Loaded(m);
        proof {
            assert(self.nodes@ =~= seq![added]);
        }
        (removed, added)
    }
}

} // verus!
