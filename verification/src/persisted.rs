//! What of a manifest outlives the node that wrote it.
//!
//! The paths of VM state and images are local to a node and are not persisted: a manifest that
//! is read back has them empty, to be filled in for the node that reads it.

use crate::manifest::{
    resumable, AttachedDriveView, FirecrackerAttachedDriveArtifacts,
    FirecrackerMemoryArtifacts, FirecrackerRootfsArtifacts, FirecrackerSnapshotManifest,
    FirecrackerVmStateArtifacts, ImageView, ManifestView,
};
use crate::text::{copy_optional, optional_view};
use vstd::prelude::*;
use vstd::string::*;

verus! {

broadcast use group_string_axioms;

/// The persisted part of an attached drive.
#[derive(Clone, Debug, PartialEq, Eq)]
pub struct PersistedDrive {
    pub drive_id: String,
    pub read_only: bool,
    pub mount_path: String,
    pub sub_path: Option<String>,
    pub virtual_size: u64,
}

/// The persisted part of a manifest.
#[derive(Clone, Debug, PartialEq, Eq)]
pub struct PersistedManifest {
    pub version: u32,
    pub delta_empty: Option<bool>,
    /// Whether the snapshot has VM state.
    pub vm_state: bool,
    /// The size of the memory image, where the snapshot has one.
    pub memory_virtual_size: Option<u64>,
    pub rootfs_virtual_size: u64,
    pub attached_drives: Vec<PersistedDrive>,
}

/// What a [`PersistedDrive`] holds.
#[verifier::ext_equal]
pub struct PersistedDriveView {
    pub drive_id: Seq<char>,
    pub read_only: bool,
    pub mount_path: Seq<char>,
    pub sub_path: Option<Seq<char>>,
    pub virtual_size: u64,
}

/// What a [`PersistedManifest`] holds.
#[verifier::ext_equal]
pub struct PersistedView {
    pub version: u32,
    pub delta_empty: Option<bool>,
    pub vm_state: bool,
    pub memory_virtual_size: Option<u64>,
    pub rootfs_virtual_size: u64,
    pub attached_drives: Seq<PersistedDriveView>,
}

impl View for PersistedDrive {
    type V = PersistedDriveView;

    open spec fn view(&self) -> PersistedDriveView {
        PersistedDriveView {
            drive_id: self.drive_id@,
            read_only: self.read_only,
            mount_path: self.mount_path@,
            sub_path: optional_view(self.sub_path),
            virtual_size: self.virtual_size,
        }
    }
}

impl View for PersistedManifest {
    type V = PersistedView;

    open spec fn view(&self) -> PersistedView {
        PersistedView {
            version: self.version,
            delta_empty: self.delta_empty,
            vm_state: self.vm_state,
            memory_virtual_size: self.memory_virtual_size,
            rootfs_virtual_size: self.rootfs_virtual_size,
            attached_drives: self.attached_drives@.map_values(|d: PersistedDrive| d@),
        }
    }
}

/// What is persisted of an attached drive.
pub open spec fn persisted_drive(d: AttachedDriveView) -> PersistedDriveView {
    PersistedDriveView {
        drive_id: d.drive_id,
        read_only: d.read_only,
        mount_path: d.mount_path,
        sub_path: d.sub_path,
        virtual_size: d.virtual_size,
    }
}

/// What is persisted of a manifest.
pub open spec fn persisted(m: ManifestView) -> PersistedView {
    PersistedView {
        version: m.version,
        delta_empty: m.delta_empty,
        vm_state: m.vm_state is Some,
        memory_virtual_size: match m.memory {
            Some(memory) => Some(memory.virtual_size),
            None => None,
        },
        rootfs_virtual_size: m.rootfs.virtual_size,
        attached_drives: m.attached_drives.map_values(|d: AttachedDriveView| persisted_drive(d)),
    }
}

/// The attached drive that a persisted one is read back as.
pub open spec fn read_back_drive(d: PersistedDriveView) -> AttachedDriveView {
    AttachedDriveView {
        drive_id: d.drive_id,
        read_only: d.read_only,
        mount_path: d.mount_path,
        sub_path: d.sub_path,
        virtual_size: d.virtual_size,
        image_config_path: Seq::empty(),
    }
}

/// The manifest that a persisted one is read back as.
pub open spec fn read_back(p: PersistedView) -> ManifestView {
    ManifestView {
        version: p.version,
        delta_empty: p.delta_empty,
        vm_state: if p.vm_state {
            Some(Seq::empty())
        } else {
            None
        },
        memory: match p.memory_virtual_size {
            Some(virtual_size) => Some(
                ImageView { image_config_path: Seq::empty(), virtual_size },
            ),
            None => None,
        },
        rootfs: ImageView {
            image_config_path: Seq::empty(),
            virtual_size: p.rootfs_virtual_size,
        },
        attached_drives: p.attached_drives.map_values(|d: PersistedDriveView| read_back_drive(d)),
    }
}

/// The manifest `m` with every path that is local to a node empty.
pub open spec fn without_local_paths(m: ManifestView) -> ManifestView {
    ManifestView {
        vm_state: match m.vm_state {
            Some(_) => Some(Seq::empty()),
            None => None,
        },
        memory: match m.memory {
            Some(memory) => Some(ImageView { image_config_path: Seq::empty(), ..memory }),
            None => None,
        },
        rootfs: ImageView { image_config_path: Seq::empty(), ..m.rootfs },
        attached_drives: m.attached_drives.map_values(
            |d: AttachedDriveView| AttachedDriveView { image_config_path: Seq::empty(), ..d },
        ),
        ..m
    }
}

impl FirecrackerSnapshotManifest {
    /// What is persisted of this manifest.
    pub fn persisted(&self) -> (r: PersistedManifest)
        ensures
            r@ == persisted(self@),
    {
        let mut drives: Vec<PersistedDrive> = Vec::new();
        let mut i: usize = 0;
        while i < self.attached_drives.len()
            invariant
                i <= self.attached_drives@.len(),
                drives@.len() == i,
                forall|k: int|
                    0 <= k < i ==> (#[trigger] drives@[k])@ == persisted_drive(
                        self@.attached_drives[k],
                    ),
            decreases self.attached_drives@.len() - i,
        {
            let drive = &self.attached_drives[i];
            assert(self@.attached_drives[i as int] == drive@);
            drives.push(
                PersistedDrive {
                    drive_id: drive.drive_id.clone(),
                    read_only: drive.read_only,
                    mount_path: drive.mount_path.clone(),
                    sub_path: copy_optional(&drive.sub_path),
                    virtual_size: drive.virtual_size,
                },
            );
            i += 1;
        }
        let r = PersistedManifest {
            version: self.version,
            delta_empty: self.delta_empty,
            vm_state: self.vm_state.is_some(),
            memory_virtual_size: match &self.memory {
                Some(memory) => Some(memory.virtual_size),
                None => None,
            },
            rootfs_virtual_size: self.rootfs.virtual_size,
            attached_drives: drives,
        };
        assert(r@.attached_drives =~= persisted(self@).attached_drives);
        r
    }
}

impl PersistedManifest {
    /// The manifest that this one is read back as; its node-local paths are empty.
    pub fn read_back(&self) -> (r: FirecrackerSnapshotManifest)
        ensures
            r@ == read_back(self@),
    {
        let mut drives: Vec<FirecrackerAttachedDriveArtifacts> = Vec::new();
        let mut i: usize = 0;
        while i < self.attached_drives.len()
            invariant
                i <= self.attached_drives@.len(),
                drives@.len() == i,
                forall|k: int|
                    0 <= k < i ==> (#[trigger] drives@[k])@ == read_back_drive(
                        self@.attached_drives[k],
                    ),
            decreases self.attached_drives@.len() - i,
        {
            let drive = &self.attached_drives[i];
            assert(self@.attached_drives[i as int] == drive@);
            drives.push(
                FirecrackerAttachedDriveArtifacts {
                    drive_id: drive.drive_id.clone(),
                    read_only: drive.read_only,
                    mount_path: drive.mount_path.clone(),
                    sub_path: copy_optional(&drive.sub_path),
                    virtual_size: drive.virtual_size,
                    image_config_path: String::new(),
                },
            );
            i += 1;
        }
        let r = FirecrackerSnapshotManifest {
            version: self.version,
            delta_empty: self.delta_empty,
            vm_state: if self.vm_state {
                Some(FirecrackerVmStateArtifacts { path: String::new() })
            } else {
                None
            },
            memory: match self.memory_virtual_size {
                Some(virtual_size) => Some(
                    FirecrackerMemoryArtifacts { image_config_path: String::new(), virtual_size },
                ),
                None => None,
            },
            rootfs: FirecrackerRootfsArtifacts {
                image_config_path: String::new(),
                virtual_size: self.rootfs_virtual_size,
            },
            attached_drives: drives,
        };
        assert(r@.attached_drives =~= read_back(self@).attached_drives);
        r
    }
}

/// Reading back what was persisted of a manifest gives the manifest with its node-local paths
/// empty; in particular `delta_empty` and whether it can be resumed are kept.
pub proof fn law_reading_back_keeps_manifest(m: ManifestView)
    ensures
        read_back(persisted(m)) == without_local_paths(m),
        read_back(persisted(m)).delta_empty == m.delta_empty,
        resumable(read_back(persisted(m))) == resumable(m),
{
    assert(read_back(persisted(m)).attached_drives =~= without_local_paths(m).attached_drives);
}

/// Persisting a manifest that was read back gives what it was read from.
pub proof fn law_persisting_again_changes_nothing(p: PersistedView)
    ensures
        persisted(read_back(p)) == p,
{
    assert(persisted(read_back(p)).attached_drives =~= p.attached_drives);
}

} // verus!
