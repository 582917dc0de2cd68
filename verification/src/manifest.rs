//! The manifest that describes a Firecracker snapshot on disk.

use crate::drive::{drive_views, ExtraDrive, ExtraDriveView};
use crate::text::{copy_optional, optional_view, views};
use vstd::prelude::*;
use vstd::string::*;

verus! {

broadcast use group_string_axioms;

/// The version of the persisted manifest format.
pub const MANIFEST_FORMAT_VERSION: u32 = 1;

/// Whether a capture left all disks unchanged, from what is known of each: a known modification
/// of any disk decides, and an unknown disk is not taken for an unchanged one.
pub open spec fn combined_delta_empty(values: Seq<Option<bool>>) -> Option<bool> {
    if values.contains(Some(false)) {
        Some(false)
    } else if values.contains(None) {
        None
    } else {
        Some(true)
    }
}

/// Whether a capture left all disks unchanged, from what is known of each.
pub fn combine_disk_delta_empty(values: &[Option<bool>]) -> (r: Option<bool>)
    ensures
        r == combined_delta_empty(values@),
{
    let mut unknown: bool = false;
    let mut i: usize = 0;
    while i < values.len()
        invariant
            i <= values@.len(),
            forall|k: int| 0 <= k < i ==> #[trigger] values@[k] != Some(false),
            unknown <==> exists|k: int| 0 <= k < i && #[trigger] values@[k] == None::<bool>,
        decreases values@.len() - i,
    {
        match values[i] {
            Some(false) => {
                assert(values@[i as int] == Some(false));
                return Some(false);
            },
            None => {
                assert(values@[i as int] == None::<bool>);
                unknown = true;
            },
            Some(true) => {},
        }
        i += 1;
    }
    if unknown {
        None
    } else {
        Some(true)
    }
}

/// What is unknown is never taken for unchanged: all disks are said to be unchanged exactly where
/// each is known to be, and a modification of any disk is enough for the contrary.
pub proof fn law_unknown_delta_is_not_empty(values: Seq<Option<bool>>)
    ensures
        combined_delta_empty(values) == Some(true) <==> forall|i: int|
            0 <= i < values.len() ==> #[trigger] values[i] == Some(true),
        combined_delta_empty(values) == Some(false) <==> exists|i: int|
            0 <= i < values.len() && #[trigger] values[i] == Some(false),
{
    if combined_delta_empty(values) == Some(true) {
        assert forall|i: int| 0 <= i < values.len() implies #[trigger] values[i] == Some(true) by {
            assert(values.contains(values[i]));
        }
    }
}

/// Disks can be combined in groups: the groups' answers combine to the answer for all disks.
pub proof fn law_delta_empty_combines_in_groups(a: Seq<Option<bool>>, b: Seq<Option<bool>>)
    ensures
        combined_delta_empty(a + b) == combined_delta_empty(
            seq![combined_delta_empty(a), combined_delta_empty(b)],
        ),
{
    let groups = seq![combined_delta_empty(a), combined_delta_empty(b)];
    assert forall|v: Option<bool>| #[trigger] (a + b).contains(v) == (a.contains(v) || b.contains(v)) by {
        if a.contains(v) {
            let i = choose|i: int| 0 <= i < a.len() && a[i] == v;
            assert((a + b)[i] == v);
        }
        if b.contains(v) {
            let i = choose|i: int| 0 <= i < b.len() && b[i] == v;
            assert((a + b)[a.len() + i] == v);
        }
    }
    assert(groups[0] == combined_delta_empty(a));
    assert(groups[1] == combined_delta_empty(b));
    assert(groups.contains(Some(false)) <==> groups[0] == Some(false) || groups[1] == Some(false));
    assert(groups.contains(None) <==> groups[0] == None::<bool> || groups[1] == None::<bool>);
}

/// The order in which disks are looked at does not matter.
pub proof fn law_delta_empty_ignores_order(a: Seq<Option<bool>>, b: Seq<Option<bool>>)
    requires
        a.to_multiset() == b.to_multiset(),
    ensures
        combined_delta_empty(a) == combined_delta_empty(b),
{
    broadcast use vstd::seq_lib::group_to_multiset_ensures;

    assert(a.contains(Some(false)) <==> a.to_multiset().contains(Some(false)));
    assert(b.contains(Some(false)) <==> b.to_multiset().contains(Some(false)));
    assert(a.contains(None) <==> a.to_multiset().contains(None));
    assert(b.contains(None) <==> b.to_multiset().contains(None));
}

/// Where the Firecracker VM state of a snapshot lies.
#[derive(Clone, Debug, PartialEq, Eq)]
pub struct FirecrackerVmStateArtifacts {
    pub path: String,
}

/// The memory image of a snapshot.
#[derive(Clone, Debug, PartialEq, Eq)]
pub struct FirecrackerMemoryArtifacts {
    pub image_config_path: String,
    pub virtual_size: u64,
}

/// The root file system image of a snapshot.
#[derive(Clone, Debug, PartialEq, Eq)]
pub struct FirecrackerRootfsArtifacts {
    pub image_config_path: String,
    pub virtual_size: u64,
}

/// One attached drive of a snapshot.
#[derive(Clone, Debug, PartialEq, Eq)]
pub struct FirecrackerAttachedDriveArtifacts {
    pub drive_id: String,
    pub read_only: bool,
    pub mount_path: String,
    pub sub_path: Option<String>,
    pub virtual_size: u64,
    pub image_config_path: String,
}

/// The on-disk layout of a Firecracker snapshot, apart from how snapshots are held in memory.
///
/// All paths in a manifest should be absolute.
#[derive(Clone, Debug, PartialEq, Eq)]
pub struct FirecrackerSnapshotManifest {
    /// The version of the persisted format.
    pub version: u32,
    /// Whether the disks were unchanged by the captured interval, before compaction; memory is
    /// left out, and `None` is unknown.
    pub delta_empty: Option<bool>,
    /// The VM state. `None` for disk-only snapshots, which can only boot fresh from their rootfs.
    pub vm_state: Option<FirecrackerVmStateArtifacts>,
    /// The memory image. `None` for disk-only snapshots.
    pub memory: Option<FirecrackerMemoryArtifacts>,
    pub rootfs: FirecrackerRootfsArtifacts,
    pub attached_drives: Vec<FirecrackerAttachedDriveArtifacts>,
}

/// What an image of a manifest holds: its config path and its size.
#[verifier::ext_equal]
pub struct ImageView {
    pub image_config_path: Seq<char>,
    pub virtual_size: u64,
}

/// What a [`FirecrackerAttachedDriveArtifacts`] holds.
#[verifier::ext_equal]
pub struct AttachedDriveView {
    pub drive_id: Seq<char>,
    pub read_only: bool,
    pub mount_path: Seq<char>,
    pub sub_path: Option<Seq<char>>,
    pub virtual_size: u64,
    pub image_config_path: Seq<char>,
}

/// What a [`FirecrackerSnapshotManifest`] holds.
#[verifier::ext_equal]
pub struct ManifestView {
    pub version: u32,
    pub delta_empty: Option<bool>,
    pub vm_state: Option<Seq<char>>,
    pub memory: Option<ImageView>,
    pub rootfs: ImageView,
    pub attached_drives: Seq<AttachedDriveView>,
}

impl View for FirecrackerMemoryArtifacts {
    type V = ImageView;

    open spec fn view(&self) -> ImageView {
        ImageView {
            image_config_path: self.image_config_path@,
            virtual_size: self.virtual_size,
        }
    }
}

impl View for FirecrackerRootfsArtifacts {
    type V = ImageView;

    open spec fn view(&self) -> ImageView {
        ImageView {
            image_config_path: self.image_config_path@,
            virtual_size: self.virtual_size,
        }
    }
}

impl View for FirecrackerAttachedDriveArtifacts {
    type V = AttachedDriveView;

    open spec fn view(&self) -> AttachedDriveView {
        AttachedDriveView {
            drive_id: self.drive_id@,
            read_only: self.read_only,
            mount_path: self.mount_path@,
            sub_path: optional_view(self.sub_path),
            virtual_size: self.virtual_size,
            image_config_path: self.image_config_path@,
        }
    }
}

/// The views of some attached drives.
pub open spec fn attached_views(
    drives: Seq<FirecrackerAttachedDriveArtifacts>,
) -> Seq<AttachedDriveView> {
    drives.map_values(|d: FirecrackerAttachedDriveArtifacts| d@)
}

impl View for FirecrackerSnapshotManifest {
    type V = ManifestView;

    open spec fn view(&self) -> ManifestView {
        ManifestView {
            version: self.version,
            delta_empty: self.delta_empty,
            vm_state: match self.vm_state {
                Some(vm_state) => Some(vm_state.path@),
                None => None,
            },
            memory: match self.memory {
                Some(memory) => Some(memory@),
                None => None,
            },
            rootfs: self.rootfs@,
            attached_drives: attached_views(self.attached_drives@),
        }
    }
}

/// Why a drive cannot be part of a snapshot.
#[derive(Clone, Debug, PartialEq, Eq)]
pub enum AttachedDriveError {
    /// The drive's virtual size is not known.
    SizeUnknown { drive_id: String },
    /// The drive's virtual size is zero.
    SizeZero { drive_id: String },
}

/// What an [`AttachedDriveError`] holds.
pub enum AttachedDriveErrorView {
    SizeUnknown(Seq<char>),
    SizeZero(Seq<char>),
}

impl View for AttachedDriveError {
    type V = AttachedDriveErrorView;

    open spec fn view(&self) -> AttachedDriveErrorView {
        match *self {
            AttachedDriveError::SizeUnknown { drive_id } => AttachedDriveErrorView::SizeUnknown(
                drive_id@,
            ),
            AttachedDriveError::SizeZero { drive_id } => AttachedDriveErrorView::SizeZero(drive_id@),
        }
    }
}

impl AttachedDriveErrorView {
    /// The error in words.
    pub open spec fn message(self) -> Seq<char> {
        match self {
            AttachedDriveErrorView::SizeUnknown(id) => "snapshot attached drive '"@ + id
                + "' virtual size must be known"@,
            AttachedDriveErrorView::SizeZero(id) => "snapshot attached drive '"@ + id
                + "' virtual size must be non-zero"@,
        }
    }
}

impl AttachedDriveError {
    /// The error in words.
    pub fn message(&self) -> (r: String)
        ensures
            r@ == self@.message(),
            match *self {
                AttachedDriveError::SizeUnknown { drive_id } => r@ == "snapshot attached drive '"@
                    + drive_id@ + "' virtual size must be known"@,
                AttachedDriveError::SizeZero { drive_id } => r@ == "snapshot attached drive '"@
                    + drive_id@ + "' virtual size must be non-zero"@,
            },
    {
        match self {
            AttachedDriveError::SizeUnknown { drive_id } => "snapshot attached drive '".to_owned()
                .concat(drive_id.as_str()).concat("' virtual size must be known"),
            AttachedDriveError::SizeZero { drive_id } => "snapshot attached drive '".to_owned()
                .concat(drive_id.as_str()).concat("' virtual size must be non-zero"),
        }
    }
}

/// Whether a drive's size is known and not zero, as a snapshot needs it.
pub open spec fn sized(drive: ExtraDriveView) -> bool {
    drive.virtual_size is Some && drive.virtual_size->0 != 0
}

/// The index of the first drive that is not [`sized`], or the number of drives.
pub open spec fn first_unsized(drives: Seq<ExtraDriveView>) -> int
    decreases drives.len(),
{
    if drives.len() == 0 || !sized(drives.first()) {
        0
    } else {
        1 + first_unsized(drives.drop_first())
    }
}

/// Why a drive that is not [`sized`] is refused.
pub open spec fn size_error(drive: ExtraDriveView) -> AttachedDriveErrorView {
    if drive.virtual_size is None {
        AttachedDriveErrorView::SizeUnknown(drive.drive_id)
    } else {
        AttachedDriveErrorView::SizeZero(drive.drive_id)
    }
}

/// How a manifest records a drive.
pub open spec fn recorded_drive(drive: ExtraDriveView) -> AttachedDriveView {
    AttachedDriveView {
        drive_id: drive.drive_id,
        read_only: drive.read_only,
        mount_path: drive.mount_path,
        sub_path: drive.sub_path,
        virtual_size: drive.virtual_size->0,
        image_config_path: drive.image_config_path,
    }
}

/// How a manifest records some drives.
pub open spec fn recorded_drives(drives: Seq<ExtraDriveView>) -> Seq<AttachedDriveView> {
    drives.map_values(|d: ExtraDriveView| recorded_drive(d))
}

/// The manifest `m` with the given drives in place of its own; refused for the first drive that
/// is not [`sized`].
pub open spec fn with_drives(m: ManifestView, drives: Seq<ExtraDriveView>) -> Result<
    ManifestView,
    AttachedDriveErrorView,
> {
    let i = first_unsized(drives);
    if i == drives.len() {
        Ok(ManifestView { attached_drives: recorded_drives(drives), ..m })
    } else {
        Err(size_error(drives[i]))
    }
}

/// The view of the outcome of building a manifest.
pub open spec fn built_view(
    r: Result<FirecrackerSnapshotManifest, AttachedDriveError>,
) -> Result<ManifestView, AttachedDriveErrorView> {
    match r {
        Ok(m) => Ok(m@),
        Err(e) => Err(e@),
    }
}

/// A manifest without attached drives.
pub open spec fn bare_manifest(
    vm_state: Option<Seq<char>>,
    memory: Option<ImageView>,
    rootfs: ImageView,
) -> ManifestView {
    ManifestView {
        version: MANIFEST_FORMAT_VERSION,
        delta_empty: None,
        vm_state,
        memory,
        rootfs,
        attached_drives: Seq::empty(),
    }
}

/// Whether a snapshot carries what resuming needs: VM state and a memory image.
pub open spec fn resumable(m: ManifestView) -> bool {
    m.vm_state is Some && m.memory is Some
}

/// The drive to attach for a recorded one, mounted at `mount_path`.
pub open spec fn restored_drive(drive: AttachedDriveView, mount_path: Seq<char>) -> ExtraDriveView {
    ExtraDriveView {
        drive_id: drive.drive_id,
        image_config_path: drive.image_config_path,
        read_only: drive.read_only,
        virtual_size: Some(drive.virtual_size),
        mount_path,
        sub_path: drive.sub_path,
    }
}

/// The drives to attach for recorded ones, each mounted at the mount path of its index.
pub open spec fn restored_drives(
    drives: Seq<AttachedDriveView>,
    mount_paths: Seq<Seq<char>>,
) -> Seq<ExtraDriveView> {
    Seq::new(drives.len(), |i: int| restored_drive(drives[i], mount_paths[i]))
}

/// Whether `mount` is where the drive is to be mounted: what `normalize` gives for the drive's id
/// and recorded mount path or, where that fails, what `fallback` gives for its id.
pub open spec fn mount_resolved<E, N, D>(
    drive: FirecrackerAttachedDriveArtifacts,
    normalize: N,
    fallback: D,
    mount: String,
) -> bool where N: Fn(&String, String) -> Result<String, E>, D: Fn(&String) -> String {
    ||| call_ensures(normalize, (&drive.drive_id, drive.mount_path), Ok(mount))
    ||| exists|e: E|
        #![trigger call_ensures(normalize, (&drive.drive_id, drive.mount_path), Err::<String, E>(e))]
        call_ensures(normalize, (&drive.drive_id, drive.mount_path), Err::<String, E>(e))
            && call_ensures(fallback, (&drive.drive_id,), mount)
}

/// Whether `drive` is mounted at a path where a recorded drive is to be mounted.
pub open spec fn mounted_as_resolved<E, N, D>(
    recorded: FirecrackerAttachedDriveArtifacts,
    normalize: N,
    fallback: D,
    drive: ExtraDrive,
) -> bool where N: Fn(&String, String) -> Result<String, E>, D: Fn(&String) -> String {
    exists|mount: String| #[trigger]
        mount_resolved(recorded, normalize, fallback, mount) && drive->mount_path@ == mount@
}

/// Whether each drive's size is known and not zero.
pub open spec fn all_sized(drives: Seq<ExtraDrive>) -> bool {
    forall|i: int|
        0 <= i < drives.len() ==> (#[trigger] drives[i])->virtual_size is Some
            && drives[i]->virtual_size != Some(0u64)
}

/// Whether an error names the first drive whose size is unknown or zero, and says which it is.
pub open spec fn names_first_unsized(drives: Seq<ExtraDrive>, error: AttachedDriveError) -> bool {
    exists|i: int|
        0 <= i < drives.len() && all_sized(drives.take(i)) && (match error {
            AttachedDriveError::SizeUnknown { drive_id } => drive_id
                == (#[trigger] drives[i])->drive_id && drives[i]->virtual_size is None,
            AttachedDriveError::SizeZero { drive_id } => drive_id == drives[i]->drive_id
                && drives[i]->virtual_size == Some(0u64),
        })
}

/// Whether `recorded` are the records of `given`, in their order and field by field.
pub open spec fn records(
    given: Seq<ExtraDrive>,
    recorded: Seq<FirecrackerAttachedDriveArtifacts>,
) -> bool {
    &&& recorded.len() == given.len()
    &&& forall|i: int|
        0 <= i < given.len() ==> {
            &&& (#[trigger] recorded[i]).drive_id == given[i]->drive_id
            &&& recorded[i].read_only == given[i]->read_only
            &&& recorded[i].mount_path == given[i]->mount_path
            &&& recorded[i].sub_path == given[i]->sub_path
            &&& given[i]->virtual_size == Some(recorded[i].virtual_size)
            &&& recorded[i].image_config_path == given[i]->image_config_path
        }
}

/// Whether `drives` are the drives to attach for `recorded`, in their order and, but for where they
/// are mounted, field by field.
pub open spec fn restores(
    recorded: Seq<FirecrackerAttachedDriveArtifacts>,
    drives: Seq<ExtraDrive>,
) -> bool {
    &&& drives.len() == recorded.len()
    &&& forall|i: int|
        0 <= i < recorded.len() ==> {
            &&& (#[trigger] drives[i])->drive_id == recorded[i].drive_id
            &&& drives[i]->read_only == recorded[i].read_only
            &&& drives[i]->sub_path == recorded[i].sub_path
            &&& drives[i]->virtual_size == Some(recorded[i].virtual_size)
            &&& drives[i]->image_config_path == recorded[i].image_config_path
        }
}

impl FirecrackerSnapshotManifest {
    /// A manifest for a full snapshot: disks, VM state and memory.
    pub fn new(
        vm_state_path: &str,
        mem_image_config_path: &str,
        mem_virtual_size: u64,
        rootfs_image_config_path: &str,
        rootfs_virtual_size: u64,
        attached_drives: &[ExtraDrive],
    ) -> (r: Result<FirecrackerSnapshotManifest, AttachedDriveError>)
        ensures
            built_view(r) == with_drives(
                bare_manifest(
                    Some(vm_state_path@),
                    Some(
                        (ImageView {
                            image_config_path: mem_image_config_path@,
                            virtual_size: mem_virtual_size,
                        }),
                    ),
                    (ImageView {
                        image_config_path: rootfs_image_config_path@,
                        virtual_size: rootfs_virtual_size,
                    }),
                ),
                drive_views(attached_drives@),
            ),
            r is Ok ==> resumable(r->Ok_0@),
            r is Ok <==> all_sized(attached_drives@),
            r matches Err(e) ==> names_first_unsized(attached_drives@, e),
            r matches Ok(m) ==> {
                &&& m.version == 1
                &&& m.delta_empty is None
                &&& m.vm_state is Some && m.vm_state->0.path@ == vm_state_path@
                &&& m.memory is Some && m.memory->0.image_config_path@ == mem_image_config_path@
                &&& m.memory->0.virtual_size == mem_virtual_size
                &&& m.rootfs.image_config_path@ == rootfs_image_config_path@
                &&& m.rootfs.virtual_size == rootfs_virtual_size
                &&& records(attached_drives@, m.attached_drives@)
            },
    {
        let bare = FirecrackerSnapshotManifest {
            version: MANIFEST_FORMAT_VERSION,
            delta_empty: None,
            vm_state: Some(FirecrackerVmStateArtifacts { path: vm_state_path.to_owned() }),
            memory: Some(
                FirecrackerMemoryArtifacts {
                    image_config_path: mem_image_config_path.to_owned(),
                    virtual_size: mem_virtual_size,
                },
            ),
            rootfs: FirecrackerRootfsArtifacts {
                image_config_path: rootfs_image_config_path.to_owned(),
                virtual_size: rootfs_virtual_size,
            },
            attached_drives: Vec::new(),
        };
        assert(bare@.attached_drives =~= Seq::empty());
        bare.with_extra_drives(attached_drives)
    }

    /// A manifest for a disk-only snapshot: rootfs and attached drives, without VM state or
    /// memory. A sandbox launches from it by a fresh boot only.
    pub fn new_disk_only(
        rootfs_image_config_path: &str,
        rootfs_virtual_size: u64,
        attached_drives: &[ExtraDrive],
    ) -> (r: Result<FirecrackerSnapshotManifest, AttachedDriveError>)
        ensures
            built_view(r) == with_drives(
                bare_manifest(
                    None,
                    None,
                    (ImageView {
                        image_config_path: rootfs_image_config_path@,
                        virtual_size: rootfs_virtual_size,
                    }),
                ),
                drive_views(attached_drives@),
            ),
            r is Ok ==> !resumable(r->Ok_0@),
            r is Ok <==> all_sized(attached_drives@),
            r matches Err(e) ==> names_first_unsized(attached_drives@, e),
            r matches Ok(m) ==> {
                &&& m.version == 1
                &&& m.delta_empty is None
                &&& m.vm_state is None
                &&& m.memory is None
                &&& m.rootfs.image_config_path@ == rootfs_image_config_path@
                &&& m.rootfs.virtual_size == rootfs_virtual_size
                &&& records(attached_drives@, m.attached_drives@)
            },
    {
        let bare = FirecrackerSnapshotManifest {
            version: MANIFEST_FORMAT_VERSION,
            delta_empty: None,
            vm_state: None,
            memory: None,
            rootfs: FirecrackerRootfsArtifacts {
                image_config_path: rootfs_image_config_path.to_owned(),
                virtual_size: rootfs_virtual_size,
            },
            attached_drives: Vec::new(),
        };
        assert(bare@.attached_drives =~= Seq::empty());
        bare.with_extra_drives(attached_drives)
    }

    /// Whether this snapshot carries resumable VM state. Disk-only snapshots do not.
    pub fn has_memory_state(&self) -> (r: bool)
        ensures
            r == resumable(self@),
            r == (self.vm_state is Some && self.memory is Some),
    {
        self.vm_state.is_some() && self.memory.is_some()
    }

    /// This manifest with the given drives in place of its own.
    pub fn with_extra_drives(&self, extra_drives: &[ExtraDrive]) -> (r: Result<
        FirecrackerSnapshotManifest,
        AttachedDriveError,
    >)
        ensures
            built_view(r) == with_drives(self@, drive_views(extra_drives@)),
            r is Ok <==> forall|i: int|
                0 <= i < extra_drives@.len() ==> sized(#[trigger] extra_drives@[i]@),
            r is Ok <==> all_sized(extra_drives@),
            r matches Err(e) ==> names_first_unsized(extra_drives@, e),
            r matches Ok(m) ==> {
                &&& m.version == self.version
                &&& m.delta_empty == self.delta_empty
                &&& m.vm_state == self.vm_state
                &&& m.memory == self.memory
                &&& m.rootfs == self.rootfs
                &&& records(extra_drives@, m.attached_drives@)
            },
    {
        let ghost given = drive_views(extra_drives@);
        let mut attached: Vec<FirecrackerAttachedDriveArtifacts> = Vec::new();
        let mut i: usize = 0;
        while i < extra_drives.len()
            invariant
                i <= extra_drives@.len(),
                given == drive_views(extra_drives@),
                attached@.len() == i,
                forall|k: int|
                    0 <= k < i ==> (#[trigger] attached@[k])@ == recorded_drive(given[k]),
                forall|k: int| 0 <= k < i ==> sized(#[trigger] given[k]),
                all_sized(extra_drives@.take(i as int)),
                records(extra_drives@.take(i as int), attached@),
            decreases extra_drives@.len() - i,
        {
            let drive = &extra_drives[i];
            assert(given[i as int] == drive@);
            let ghost seen = extra_drives@.take(i as int);
            assert(extra_drives@.take(i + 1) =~= seen.push(*drive));
            assert(forall|k: int| 0 <= k < i ==> #[trigger] seen[k] == extra_drives@[k]);
            match drive.virtual_size() {
                None => {
                    proof {
                        lemma_first_unsized(given, i as int);
                    }
                    return Err(
                        AttachedDriveError::SizeUnknown { drive_id: drive.drive_id().clone() },
                    );
                },
                Some(virtual_size) => {
                    if virtual_size == 0 {
                        proof {
                            lemma_first_unsized(given, i as int);
                        }
                        return Err(
                            AttachedDriveError::SizeZero { drive_id: drive.drive_id().clone() },
                        );
                    }
                    let artifacts = FirecrackerAttachedDriveArtifacts {
                        drive_id: drive.drive_id().clone(),
                        read_only: drive.read_only(),
                        mount_path: drive.mount_path().clone(),
                        sub_path: copy_optional(drive.sub_path()),
                        virtual_size,
                        image_config_path: drive.image_config_path().clone(),
                    };
                    assert(artifacts@ == recorded_drive(given[i as int]));
                    attached.push(artifacts);
                },
            }
            i += 1;
        }
        proof {
            lemma_first_unsized(given, i as int);
            assert forall|k: int| 0 <= k < extra_drives@.len() implies sized(
                #[trigger] extra_drives@[k]@,
            ) by {
                assert(sized(given[k]));
            }
            assert(attached_views(attached@) =~= recorded_drives(given));
            assert(extra_drives@.take(i as int) =~= extra_drives@);
        }
        Ok(
            FirecrackerSnapshotManifest {
                version: self.version,
                delta_empty: self.delta_empty,
                vm_state: match &self.vm_state {
                    Some(vm_state) => Some(
                        FirecrackerVmStateArtifacts { path: vm_state.path.clone() },
                    ),
                    None => None,
                },
                memory: match &self.memory {
                    Some(memory) => Some(
                        FirecrackerMemoryArtifacts {
                            image_config_path: memory.image_config_path.clone(),
                            virtual_size: memory.virtual_size,
                        },
                    ),
                    None => None,
                },
                rootfs: FirecrackerRootfsArtifacts {
                    image_config_path: self.rootfs.image_config_path.clone(),
                    virtual_size: self.rootfs.virtual_size,
                },
                attached_drives: attached,
            },
        )
    }

    /// Where each attached drive is to be mounted: its recorded mount path as `normalize` gives
    /// it, or what `fallback` gives for the drive where `normalize` fails.
    pub fn mount_paths<E, N, D>(&self, normalize: N, fallback: D) -> (r: Vec<String>) where
        N: Fn(&String, String) -> Result<String, E>,
        D: Fn(&String) -> String,

        requires
            forall|i: int|
                #![trigger self.attached_drives@[i]]
                0 <= i < self.attached_drives@.len() ==> call_requires(
                    normalize,
                    (&self.attached_drives@[i].drive_id, self.attached_drives@[i].mount_path),
                ) && call_requires(fallback, (&self.attached_drives@[i].drive_id,)),
        ensures
            r@.len() == self.attached_drives@.len(),
            forall|i: int|
                #![trigger r@[i]]
                0 <= i < r@.len() ==> mount_resolved(
                    self.attached_drives@[i],
                    normalize,
                    fallback,
                    r@[i],
                ),
    {
        let mut mounts: Vec<String> = Vec::new();
        let mut i: usize = 0;
        while i < self.attached_drives.len()
            invariant
                i <= self.attached_drives@.len(),
                mounts@.len() == i,
                forall|k: int|
                    #![trigger self.attached_drives@[k]]
                    0 <= k < self.attached_drives@.len() ==> call_requires(
                        normalize,
                        (&self.attached_drives@[k].drive_id, self.attached_drives@[k].mount_path),
                    ) && call_requires(fallback, (&self.attached_drives@[k].drive_id,)),
                forall|k: int|
                    #![trigger mounts@[k]]
                    0 <= k < i ==> mount_resolved(
                        self.attached_drives@[k],
                        normalize,
                        fallback,
                        mounts@[k],
                    ),
            decreases self.attached_drives@.len() - i,
        {
            let drive = &self.attached_drives[i];
            let mount: String = match normalize(&drive.drive_id, drive.mount_path.clone()) {
                Ok(mount) => mount,
                Err(_) => fallback(&drive.drive_id),
            };
            mounts.push(mount);
            i += 1;
        }
        mounts
    }

    /// The attached drives as drives to attach to a sandbox, each mounted at the mount path of
    /// its index.
    pub fn drives_mounted_at(&self, mount_paths: &Vec<String>) -> (r: Vec<ExtraDrive>)
        requires
            mount_paths@.len() == self.attached_drives@.len(),
        ensures
            drive_views(r@) == restored_drives(self@.attached_drives, views(mount_paths@)),
            restores(self.attached_drives@, r@),
            forall|i: int|
                0 <= i < r@.len() ==> (#[trigger] r@[i])->mount_path@ == mount_paths@[i]@,
    {
        let mut drives: Vec<ExtraDrive> = Vec::new();
        let mut i: usize = 0;
        while i < self.attached_drives.len()
            invariant
                i <= self.attached_drives@.len(),
                mount_paths@.len() == self.attached_drives@.len(),
                drives@.len() == i,
                forall|k: int|
                    0 <= k < i ==> (#[trigger] drives@[k])@ == restored_drive(
                        self@.attached_drives[k],
                        views(mount_paths@)[k],
                    ),
                restores(self.attached_drives@.take(i as int), drives@),
                forall|k: int|
                    0 <= k < i ==> (#[trigger] drives@[k])->mount_path@ == mount_paths@[k]@,
            decreases self.attached_drives@.len() - i,
        {
            let drive = &self.attached_drives[i];
            let restored = ExtraDrive::Overlaybd {
                drive_id: drive.drive_id.clone(),
                image_config_path: drive.image_config_path.clone(),
                read_only: drive.read_only,
                virtual_size: Some(drive.virtual_size),
                mount_path: mount_paths[i].clone(),
                sub_path: copy_optional(&drive.sub_path),
            };
            assert(self@.attached_drives[i as int] == drive@);
            assert(views(mount_paths@)[i as int] == mount_paths@[i as int]@);
            assert(restored@ == restored_drive(drive@, mount_paths@[i as int]@));
            assert(self.attached_drives@.take(i + 1) =~= self.attached_drives@.take(i as int).push(
                *drive,
            ));
            drives.push(restored);
            i += 1;
        }
        assert(self.attached_drives@.take(i as int) =~= self.attached_drives@);
        assert(drive_views(drives@) =~= restored_drives(self@.attached_drives, views(mount_paths@)));
        drives
    }

    /// The attached drives as drives to attach to a sandbox. Each is mounted where `normalize`
    /// puts it for its id and recorded mount path or, where `normalize` fails, where `fallback`
    /// puts it for its id.
    pub fn extra_drives<E, N, D>(&self, normalize: N, fallback: D) -> (r: Vec<ExtraDrive>) where
        N: Fn(&String, String) -> Result<String, E>,
        D: Fn(&String) -> String,

        requires
            forall|i: int|
                #![trigger self.attached_drives@[i]]
                0 <= i < self.attached_drives@.len() ==> call_requires(
                    normalize,
                    (&self.attached_drives@[i].drive_id, self.attached_drives@[i].mount_path),
                ) && call_requires(fallback, (&self.attached_drives@[i].drive_id,)),
        ensures
            restores(self.attached_drives@, r@),
            forall|i: int|
                0 <= i < r@.len() ==> mounted_as_resolved(
                    self.attached_drives@[i],
                    normalize,
                    fallback,
                    #[trigger] r@[i],
                ),
            exists|mounts: Seq<String>|
                #![trigger views(mounts)]
                mounts.len() == self.attached_drives@.len() && drive_views(r@) == restored_drives(
                    self@.attached_drives,
                    views(mounts),
                ) && (forall|i: int|
                    #![trigger mounts[i]]
                    0 <= i < mounts.len() ==> mount_resolved(
                        self.attached_drives@[i],
                        normalize,
                        fallback,
                        mounts[i],
                    )),
    {
        let mounts: Vec<String> = self.mount_paths(&normalize, &fallback);
        let r = self.drives_mounted_at(&mounts);
        assert forall|i: int| 0 <= i < r@.len() implies mounted_as_resolved(
            self.attached_drives@[i],
            normalize,
            fallback,
            #[trigger] r@[i],
        ) by {
            assert(mount_resolved(self.attached_drives@[i], normalize, fallback, mounts@[i]));
        }
        r
    }
}

/// [`first_unsized`] is the index before which every drive is sized, and at which none is.
pub proof fn lemma_first_unsized(drives: Seq<ExtraDriveView>, i: int)
    requires
        0 <= i <= drives.len(),
        forall|k: int| 0 <= k < i ==> sized(#[trigger] drives[k]),
        i < drives.len() ==> !sized(drives[i]),
    ensures
        first_unsized(drives) == i,
    decreases i,
{
    if i > 0 {
        assert(sized(drives[0]));
        let rest = drives.drop_first();
        assert forall|k: int| 0 <= k < i - 1 implies sized(#[trigger] rest[k]) by {
            assert(rest[k] == drives[k + 1]);
        }
        lemma_first_unsized(rest, i - 1);
    }
}

/// Drives recorded in a manifest and restored from it are the drives that were recorded, mounted
/// where they were: nothing of a drive is lost.
pub proof fn law_recorded_drives_restore(drives: Seq<ExtraDriveView>)
    requires
        forall|i: int| 0 <= i < drives.len() ==> sized(#[trigger] drives[i]),
    ensures
        restored_drives(
            recorded_drives(drives),
            drives.map_values(|d: ExtraDriveView| d.mount_path),
        ) == drives,
{
    let mounts = drives.map_values(|d: ExtraDriveView| d.mount_path);
    assert forall|i: int| 0 <= i < drives.len() implies #[trigger] restored_drives(
        recorded_drives(drives),
        mounts,
    )[i] == drives[i] by {
        assert(sized(drives[i]));
    }
    assert(restored_drives(recorded_drives(drives), mounts) =~= drives);
}

/// A manifest rebuilt with its own drives, mounted at `mount_paths`, is the same manifest with
/// those mount paths. Left out are manifests with a drive of size zero, which rebuilding refuses.
pub proof fn law_rebuilding_keeps_manifest(m: ManifestView, mount_paths: Seq<Seq<char>>)
    requires
        mount_paths.len() == m.attached_drives.len(),
        forall|i: int|
            0 <= i < m.attached_drives.len() ==> (#[trigger] m.attached_drives[i]).virtual_size
                != 0,
    ensures
        with_drives(m, restored_drives(m.attached_drives, mount_paths)) == Ok::<
            ManifestView,
            AttachedDriveErrorView,
        >(
            ManifestView {
                attached_drives: Seq::new(
                    m.attached_drives.len(),
                    |i: int|
                        AttachedDriveView {
                            mount_path: mount_paths[i],
                            ..m.attached_drives[i]
                        },
                ),
                ..m
            },
        ),
{
    let drives = restored_drives(m.attached_drives, mount_paths);
    assert forall|i: int| 0 <= i < drives.len() implies sized(#[trigger] drives[i]) by {
        assert(m.attached_drives[i].virtual_size != 0);
    }
    lemma_first_unsized(drives, drives.len() as int);
    assert(recorded_drives(drives) =~= Seq::new(
        m.attached_drives.len(),
        |i: int| AttachedDriveView { mount_path: mount_paths[i], ..m.attached_drives[i] },
    ));
}

/// Every manifest that comes out of [`with_drives`] has drives of a size other than zero, keeps
/// all else of the manifest that it was made from, and is resumable exactly where that was.
pub proof fn law_with_drives_keeps_the_rest(m: ManifestView, drives: Seq<ExtraDriveView>)
    ensures
        with_drives(m, drives) matches Ok(r) ==> {
            &&& forall|i: int|
                0 <= i < r.attached_drives.len() ==> (#[trigger] r.attached_drives[i]).virtual_size
                    != 0
            &&& r == ManifestView { attached_drives: r.attached_drives, ..m }
            &&& resumable(r) == resumable(m)
        },
        with_drives(m, drives) is Ok <==> forall|i: int|
            0 <= i < drives.len() ==> sized(#[trigger] drives[i]),
{
    lemma_first_unsized_splits(drives);
    if with_drives(m, drives) is Ok {
        let r = with_drives(m, drives)->Ok_0;
        assert forall|i: int| 0 <= i < r.attached_drives.len() implies (
        #[trigger] r.attached_drives[i]).virtual_size != 0 by {
            assert(sized(drives[i]));
        }
    }
}

/// What [`first_unsized`] says of the drives before it and at it.
pub proof fn lemma_first_unsized_splits(drives: Seq<ExtraDriveView>)
    ensures
        0 <= first_unsized(drives) <= drives.len(),
        forall|k: int| 0 <= k < first_unsized(drives) ==> sized(#[trigger] drives[k]),
        first_unsized(drives) < drives.len() ==> !sized(drives[first_unsized(drives)]),
    decreases drives.len(),
{
    if drives.len() > 0 && sized(drives.first()) {
        let rest = drives.drop_first();
        lemma_first_unsized_splits(rest);
        assert forall|k: int| 0 <= k < first_unsized(drives) implies sized(#[trigger] drives[k]) by {
            if k > 0 {
                assert(rest[k - 1] == drives[k]);
            }
        }
    }
}

} // verus!
