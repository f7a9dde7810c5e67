//! The per-frame reload decision.
//!
//! Each frame the driver polls the change watcher; on a positive signal it
//! reads the file and hands the outcome — a raw mesh or a load failure —
//! to `apply_load_result`, which normalizes and swaps the displayed
//! geometry on success and leaves the scene untouched on any failure.
//! A failed reload is never fatal: the viewer keeps showing the last good
//! geometry and waits for the next change signal.

use vstd::prelude::*;

verus! {

use crate::mesh::{RawMesh, LoadError};
use crate::normalize::{normalize, NormalizeError, MAX_VERTICES, max_extent, norm_x, norm_y,
    norm_z};
use crate::scene::{SceneBinding, Geometry};

/// Why a reload attempt was skipped.  Every variant is recoverable.
#[derive(Clone, Copy, PartialEq, Eq, Structural, Debug)]
pub enum ReloadError {
    /// The file could not be read or did not hold a mesh.
    Load(LoadError),
    /// The mesh was read but cannot be normalized.
    Normalize(NormalizeError),
}

impl ReloadError {
    /// A user-facing description of why the reload was skipped.
    pub fn describe(&self) -> &'static str {
        match self {
            ReloadError::Load(e) => e.describe(),
            ReloadError::Normalize(e) => e.describe(),
        }
    }
}

/// Whether this frame should attempt a reload: a change was signalled and
/// automatic reloading has not been suppressed.
pub fn should_reload(changed: bool, stop_requested: bool) -> (r: bool)
    ensures
        r == (changed && !stop_requested),
{
    changed && !stop_requested
}

/// Apply the outcome of one load attempt to the scene.
///
/// On a loadable, normalizable mesh the displayed geometry is swapped for
/// the normalized result and the affected node ids are returned; on any
/// failure the scene — and with it the previously displayed geometry — is
/// left exactly as it was, and the reason is returned.
pub fn apply_load_result(binding: &mut SceneBinding, loaded: Result<RawMesh, LoadError>) -> (r:
    Result<(u64, u64), ReloadError>)
    requires
        old(binding).wf(),
        old(binding).next_id < u64::MAX,
        loaded matches Ok(m) ==> m.wf(),
    ensures
        final(binding).wf(),
        loaded matches Err(le) ==> r == Err::<(u64, u64), ReloadError>(ReloadError::Load(le))
            && *final(binding) == *old(binding),
        loaded matches Ok(raw) ==> {
            &&& raw.vertices@.len() == 0 ==> r == Err::<(u64, u64), ReloadError>(
                ReloadError::Normalize(NormalizeError::EmptyMesh),
            ) && *final(binding) == *old(binding)
            &&& raw.vertices@.len() > MAX_VERTICES ==> r == Err::<(u64, u64), ReloadError>(
                ReloadError::Normalize(NormalizeError::IndexWidthExceeded),
            ) && *final(binding) == *old(binding)
            &&& 1 <= raw.vertices@.len() <= MAX_VERTICES && max_extent(raw.vertices@) == 0 ==> r
                == Err::<(u64, u64), ReloadError>(
                ReloadError::Normalize(NormalizeError::DegenerateMesh),
            ) && *final(binding) == *old(binding)
            &&& 1 <= raw.vertices@.len() <= MAX_VERTICES && max_extent(raw.vertices@) > 0 ==> (r
                matches Ok(ids) && {
                &&& ids.0 == old(binding).nodes@[0]
                &&& ids.1 == old(binding).next_id
                &&& ids.0 != ids.1
                &&& final(binding).nodes@ == seq![ids.1]
                &&& final(binding).next_id == old(binding).next_id + 1
                &&& final(binding).current matches Geometry::Loaded(nm) && {
                    &&& nm.faces@ == raw.faces@
                    &&& nm.vertices@.len() == raw.vertices@.len()
                    &&& forall|i: int|
                        0 <= i < raw.vertices@.len() ==> {
                            let v = #[trigger] nm.vertices@[i];
                            v.x as int == norm_x(raw.vertices@, i) && v.y as int == norm_y(
                                raw.vertices@,
                                i,
                            ) && v.z as int == norm_z(raw.vertices@, i)
                        }
                }
            })
        },
{
    match loaded {
        Err(le) => Err(ReloadError::Load(le)),
        Ok(raw) => match normalize(&raw) {
            Err(ne) => Err(ReloadError::Normalize(ne)),
            Ok(nm) => {
                let ids = binding.replace(nm);
                Ok(ids)
            },
        },
    }
}

} // verus!
