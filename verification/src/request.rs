use vstd::prelude::*;

use crate::wire::{unique_offsets, Region};

verus! {

/// The snapshot type options that are available when creating a new
/// snapshot.
#[derive(Clone, Copy, Debug, PartialEq, Eq, Structural)]
pub enum SnapshotType {
    /// Only the pages dirtied since the previous full or diff snapshot.
    Diff,
    /// The entire guest memory image.
    Full,
}

impl Default for SnapshotType {
    /// The capture strategy used when a request does not name one.
    fn default() -> (r: SnapshotType)
        ensures
            r is Full,
    {
        SnapshotType::Full
    }
}

/// The validated configuration of a create-snapshot operation.
#[derive(Clone, Debug, PartialEq)]
pub struct CreateSnapshotParams {
    /// The type of snapshot to create.
    pub snapshot_type: SnapshotType,
    /// Destination for the serialized microVM state.
    pub snapshot_path: String,
    /// Destination for the guest memory image.
    pub mem_file_path: String,
    /// Optional version tag for the state encoding; the engine's current
    /// version is used when absent.
    pub version: Option<String>,
}

/// The mathematical image of a [`CreateSnapshotParams`].
#[verifier::ext_equal]
pub struct CreateModel {
    /// The type of snapshot to create.
    pub snapshot_type: SnapshotType,
    /// Destination for the serialized microVM state.
    pub snapshot_path: Seq<char>,
    /// Destination for the guest memory image.
    pub mem_file_path: Seq<char>,
    /// Optional version tag for the state encoding.
    pub version: Option<Seq<char>>,
}

impl View for CreateSnapshotParams {
    type V = CreateModel;

    open spec fn view(&self) -> CreateModel {
        CreateModel {
            snapshot_type: self.snapshot_type,
            snapshot_path: self.snapshot_path@,
            mem_file_path: self.mem_file_path@,
            version: match self.version {
                Some(s) => Some(s@),
                None => None,
            },
        }
    }
}

/// A create request is well formed when its two destinations differ.
pub open spec fn create_wf(m: CreateModel) -> bool {
    m.snapshot_path != m.mem_file_path
}

/// The validated configuration of a load-snapshot operation.
#[derive(Clone, Debug, PartialEq)]
pub struct LoadSnapshotParams {
    /// Source of the serialized microVM state.
    pub snapshot_path: String,
    /// Source of the guest memory image.
    pub mem_file_path: String,
    /// Activate dirty page tracking after the restore, so that a subsequent
    /// diff snapshot is possible.
    pub enable_diff_snapshots: bool,
    /// Delegate guest page faults on the restored image to an external
    /// process.
    pub enable_user_page_faults: bool,
    /// Rendezvous path of the page-fault-delegation socket; carried through
    /// unchanged even while delegation is disabled.
    pub sock_file_path: String,
    /// Secondary memory file that backs the overlay regions.
    pub overlay_file_path: String,
    /// Guest-physical ranges satisfied from the overlay file instead of the
    /// base memory file; offsets are pairwise distinct.
    pub overlay_regions: Vec<Region>,
    /// File that describes the working set.
    pub ws_file_path: String,
    /// Ranges that make up the working set; earlier entries load first.
    pub ws_regions: Vec<Region>,
    /// Fault the working set in synchronously during the restore.
    pub load_ws: bool,
    /// Advisory access-pattern hint for the memory file, opaque to this
    /// model.
    pub fadvise: String,
}

/// The mathematical image of a [`LoadSnapshotParams`].
#[verifier::ext_equal]
pub struct LoadModel {
    /// Source of the serialized microVM state.
    pub snapshot_path: Seq<char>,
    /// Source of the guest memory image.
    pub mem_file_path: Seq<char>,
    /// Activate dirty page tracking after the restore.
    pub enable_diff_snapshots: bool,
    /// Delegate guest page faults to an external process.
    pub enable_user_page_faults: bool,
    /// Rendezvous path of the page-fault-delegation socket.
    pub sock_file_path: Seq<char>,
    /// Secondary memory file that backs the overlay regions.
    pub overlay_file_path: Seq<char>,
    /// Ranges satisfied from the overlay file.
    pub overlay_regions: Seq<Region>,
    /// File that describes the working set.
    pub ws_file_path: Seq<char>,
    /// Ranges that make up the working set.
    pub ws_regions: Seq<Region>,
    /// Fault the working set in synchronously during the restore.
    pub load_ws: bool,
    /// Advisory access-pattern hint for the memory file.
    pub fadvise: Seq<char>,
}

impl View for LoadSnapshotParams {
    type V = LoadModel;

    open spec fn view(&self) -> LoadModel {
        LoadModel {
            snapshot_path: self.snapshot_path@,
            mem_file_path: self.mem_file_path@,
            enable_diff_snapshots: self.enable_diff_snapshots,
            enable_user_page_faults: self.enable_user_page_faults,
            sock_file_path: self.sock_file_path@,
            overlay_file_path: self.overlay_file_path@,
            overlay_regions: self.overlay_regions@,
            ws_file_path: self.ws_file_path@,
            ws_regions: self.ws_regions@,
            load_ws: self.load_ws,
            fadvise: self.fadvise@,
        }
    }
}

/// A load request is well formed when its overlay mapping has pairwise
/// distinct offsets and each non-empty region list names its backing file.
pub open spec fn load_wf(m: LoadModel) -> bool {
    &&& unique_offsets(m.overlay_regions)
    &&& m.overlay_regions.len() > 0 ==> m.overlay_file_path.len() > 0
    &&& m.ws_regions.len() > 0 ==> m.ws_file_path.len() > 0
}

} // verus!
