//! What a manifest says of the drives and images that it was made from, field by field.

use crate::drive::{drive_views, ExtraDrive, ExtraDriveView};
use crate::manifest::{
    all_sized, bare_manifest, built_view, mount_resolved, mounted_as_resolved,
    names_first_unsized, records, restored_drives, restores, resumable, with_drives,
    AttachedDriveError, AttachedDriveErrorView, AttachedDriveView, FirecrackerAttachedDriveArtifacts,
    FirecrackerSnapshotManifest, ImageView, ManifestView,
};
use crate::persisted::{persisted, read_back, PersistedManifest, PersistedView};
use vstd::prelude::*;

verus! {

/// A manifest that takes drives records each as it was given: under its id, as writable or not as it
/// was, mounted where it was, with its sub path, its size and its image config. A drive whose size
/// is unknown or zero is never recorded. Nothing else of the manifest changes.
pub proof fn law_drives_are_recorded_as_given(
    m: ManifestView,
    drives: Seq<ExtraDriveView>,
    r: ManifestView,
)
    requires
        with_drives(m, drives) == Ok::<ManifestView, AttachedDriveErrorView>(r),
    ensures
        r.attached_drives.len() == drives.len(),
        forall|i: int|
            0 <= i < drives.len() ==> {
                &&& (#[trigger] r.attached_drives[i]).drive_id == drives[i].drive_id
                &&& r.attached_drives[i].read_only == drives[i].read_only
                &&& r.attached_drives[i].mount_path == drives[i].mount_path
                &&& r.attached_drives[i].sub_path == drives[i].sub_path
                &&& r.attached_drives[i].image_config_path == drives[i].image_config_path
                &&& Some(r.attached_drives[i].virtual_size) == drives[i].virtual_size
                &&& r.attached_drives[i].virtual_size != 0
            },
        r.version == m.version,
        r.delta_empty == m.delta_empty,
        r.vm_state == m.vm_state,
        r.memory == m.memory,
        r.rootfs == m.rootfs,
{
    crate::manifest::law_with_drives_keeps_the_rest(m, drives);
    assert forall|i: int| 0 <= i < drives.len() implies Some(
        (#[trigger] r.attached_drives[i]).virtual_size,
    ) == drives[i].virtual_size by {
        assert(crate::manifest::sized(drives[i]));
    }
}

/// Drives are refused where one has an unknown size or the size zero, and only there. The error
/// names the first such drive and says which of the two it is.
pub proof fn law_first_drive_without_size_is_refused(m: ManifestView, drives: Seq<ExtraDriveView>)
    ensures
        with_drives(m, drives) is Err <==> exists|i: int|
            0 <= i < drives.len() && ((#[trigger] drives[i]).virtual_size is None
                || drives[i].virtual_size == Some(0u64)),
        with_drives(m, drives) matches Err(e) ==> exists|i: int|
            {
                &&& 0 <= i < drives.len()
                &&& forall|k: int|
                    0 <= k < i ==> (#[trigger] drives[k]).virtual_size is Some
                        && drives[k].virtual_size != Some(0u64)
                &&& (#[trigger] drives[i]).virtual_size is None ==> e
                    == AttachedDriveErrorView::SizeUnknown(drives[i].drive_id)
                &&& drives[i].virtual_size is Some ==> drives[i].virtual_size == Some(0u64) && e
                    == AttachedDriveErrorView::SizeZero(drives[i].drive_id)
            },
{
    crate::manifest::lemma_first_unsized_splits(drives);
    let n = crate::manifest::first_unsized(drives);
    if with_drives(m, drives) is Err {
        assert(!crate::manifest::sized(drives[n]));
        assert forall|k: int| 0 <= k < n implies (#[trigger] drives[k]).virtual_size is Some
            && drives[k].virtual_size != Some(0u64) by {
            assert(crate::manifest::sized(drives[k]));
        }
    } else {
        assert forall|i: int| 0 <= i < drives.len() implies !((
        #[trigger] drives[i]).virtual_size is None || drives[i].virtual_size == Some(0u64)) by {
            assert(crate::manifest::sized(drives[i]));
        }
    }
}

/// The error of a refused drive names the drive and says what is wrong with its size.
pub proof fn law_drive_error_names_drive(drive_id: Seq<char>)
    ensures
        AttachedDriveErrorView::SizeUnknown(drive_id).message() == "snapshot attached drive '"@
            + drive_id + "' virtual size must be known"@,
        AttachedDriveErrorView::SizeZero(drive_id).message() == "snapshot attached drive '"@
            + drive_id + "' virtual size must be non-zero"@,
{
}

/// A drive is restored as it was recorded: under its id, as writable or not as it was, with its sub
/// path, its size and its image config, and mounted at the mount path of its index.
pub proof fn law_drives_are_restored_as_recorded(
    recorded: Seq<AttachedDriveView>,
    mount_paths: Seq<Seq<char>>,
)
    ensures
        restored_drives(recorded, mount_paths).len() == recorded.len(),
        forall|i: int|
            0 <= i < recorded.len() ==> {
                let drive = #[trigger] restored_drives(recorded, mount_paths)[i];
                &&& drive.drive_id == recorded[i].drive_id
                &&& drive.read_only == recorded[i].read_only
                &&& drive.sub_path == recorded[i].sub_path
                &&& drive.image_config_path == recorded[i].image_config_path
                &&& drive.virtual_size == Some(recorded[i].virtual_size)
                &&& drive.mount_path == mount_paths[i]
            },
{
}

/// The same of drives and records themselves: what a manifest records and restores is each drive
/// field by field, and what it refuses is the first drive of an unknown size or of size zero.
pub proof fn law_drive_records_hold_the_fields(
    given: Seq<ExtraDrive>,
    recorded: Seq<FirecrackerAttachedDriveArtifacts>,
    error: AttachedDriveError,
)
    ensures
        records(given, recorded) ==> recorded.len() == given.len() && forall|i: int|
            0 <= i < given.len() ==> {
                &&& (#[trigger] recorded[i]).drive_id == given[i]->drive_id
                &&& recorded[i].read_only == given[i]->read_only
                &&& recorded[i].mount_path == given[i]->mount_path
                &&& recorded[i].sub_path == given[i]->sub_path
                &&& Some(recorded[i].virtual_size) == given[i]->virtual_size
                &&& recorded[i].image_config_path == given[i]->image_config_path
            },
        restores(recorded, given) ==> recorded.len() == given.len() && forall|i: int|
            0 <= i < given.len() ==> {
                &&& (#[trigger] given[i])->drive_id == recorded[i].drive_id
                &&& given[i]->read_only == recorded[i].read_only
                &&& given[i]->sub_path == recorded[i].sub_path
                &&& given[i]->virtual_size == Some(recorded[i].virtual_size)
                &&& given[i]->image_config_path == recorded[i].image_config_path
            },
        all_sized(given) <==> forall|i: int|
            0 <= i < given.len() ==> (#[trigger] given[i])->virtual_size is Some
                && given[i]->virtual_size != Some(0u64),
        names_first_unsized(given, error) ==> exists|i: int|
            {
                &&& 0 <= i < given.len()
                &&& forall|k: int|
                    0 <= k < i ==> (#[trigger] given[k])->virtual_size is Some
                        && given[k]->virtual_size != Some(0u64)
                &&& match error {
                    AttachedDriveError::SizeUnknown { drive_id } => (
                    #[trigger] given[i])->virtual_size is None && drive_id == given[i]->drive_id,
                    AttachedDriveError::SizeZero { drive_id } => given[i]->virtual_size == Some(0u64)
                        && drive_id == given[i]->drive_id,
                }
            },
{
    if names_first_unsized(given, error) {
        let i = choose|i: int|
            0 <= i < given.len() && all_sized(given.take(i)) && (match error {
                AttachedDriveError::SizeUnknown { drive_id } => drive_id
                    == (#[trigger] given[i])->drive_id && given[i]->virtual_size is None,
                AttachedDriveError::SizeZero { drive_id } => drive_id == given[i]->drive_id
                    && given[i]->virtual_size == Some(0u64),
            });
        assert forall|k: int| 0 <= k < i implies (#[trigger] given[k])->virtual_size is Some
            && given[k]->virtual_size != Some(0u64) by {
            assert(given.take(i)[k] == given[k]);
        }
    }
}

/// A new manifest is of the first format version, says nothing of changes to the disks, has the
/// images that it was given and no drives.
pub proof fn law_new_manifest_holds_its_parts(
    vm_state: Option<Seq<char>>,
    memory: Option<ImageView>,
    rootfs: ImageView,
)
    ensures
        bare_manifest(vm_state, memory, rootfs).version == 1,
        bare_manifest(vm_state, memory, rootfs).delta_empty is None,
        bare_manifest(vm_state, memory, rootfs).vm_state == vm_state,
        bare_manifest(vm_state, memory, rootfs).memory == memory,
        bare_manifest(vm_state, memory, rootfs).rootfs == rootfs,
        bare_manifest(vm_state, memory, rootfs).attached_drives.len() == 0,
{
}

/// A snapshot can be resumed exactly where it has both VM state and a memory image.
pub proof fn law_resuming_needs_vm_state_and_memory(m: ManifestView)
    ensures
        resumable(m) ==> m.vm_state is Some,
        resumable(m) ==> m.memory is Some,
        m.vm_state is Some && m.memory is Some ==> resumable(m),
{
}

/// The view of a manifest shows the manifest's own fields.
pub proof fn law_manifest_view_shows_fields(m: FirecrackerSnapshotManifest)
    ensures
        m@.version == m.version,
        m@.delta_empty == m.delta_empty,
        m@.vm_state is Some <==> m.vm_state is Some,
        m.vm_state matches Some(vm_state) ==> m@.vm_state == Some(vm_state.path@),
        m@.memory is Some <==> m.memory is Some,
        m.memory matches Some(memory) ==> m@.memory->0.image_config_path
            == memory.image_config_path@ && m@.memory->0.virtual_size == memory.virtual_size,
        m@.rootfs.image_config_path == m.rootfs.image_config_path@,
        m@.rootfs.virtual_size == m.rootfs.virtual_size,
        m@.attached_drives.len() == m.attached_drives@.len(),
        forall|i: int|
            0 <= i < m.attached_drives@.len() ==> {
                let drive = m.attached_drives@[i];
                &&& (#[trigger] m@.attached_drives[i]).drive_id == drive.drive_id@
                &&& m@.attached_drives[i].read_only == drive.read_only
                &&& m@.attached_drives[i].mount_path == drive.mount_path@
                &&& m@.attached_drives[i].sub_path is Some <==> drive.sub_path is Some
                &&& drive.sub_path matches Some(sub_path) ==> m@.attached_drives[i].sub_path
                    == Some(sub_path@)
                &&& m@.attached_drives[i].virtual_size == drive.virtual_size
                &&& m@.attached_drives[i].image_config_path == drive.image_config_path@
            },
{
}

/// The view of a drive shows the drive's own fields.
pub proof fn law_drive_view_shows_fields(drives: Seq<ExtraDrive>)
    ensures
        drive_views(drives).len() == drives.len(),
        forall|i: int|
            0 <= i < drives.len() ==> {
                let view = #[trigger] drive_views(drives)[i];
                &&& view.drive_id == drives[i]->drive_id@
                &&& view.read_only == drives[i]->read_only
                &&& view.mount_path == drives[i]->mount_path@
                &&& view.sub_path is Some <==> drives[i]->sub_path is Some
                &&& drives[i]->sub_path matches Some(sub_path) ==> view.sub_path == Some(sub_path@)
                &&& view.virtual_size == drives[i]->virtual_size
                &&& view.image_config_path == drives[i]->image_config_path@
            },
{
}

/// What came of building a manifest is seen as it is.
pub proof fn law_built_view_shows_outcome(
    r: Result<FirecrackerSnapshotManifest, AttachedDriveError>,
)
    ensures
        r matches Ok(m) ==> built_view(r) == Ok::<ManifestView, AttachedDriveErrorView>(m@),
        r matches Err(e) ==> built_view(r) is Err,
        r matches Err(AttachedDriveError::SizeUnknown { drive_id }) ==> built_view(r) == Err::<
            ManifestView,
            AttachedDriveErrorView,
        >(AttachedDriveErrorView::SizeUnknown(drive_id@)),
        r matches Err(AttachedDriveError::SizeZero { drive_id }) ==> built_view(r) == Err::<
            ManifestView,
            AttachedDriveErrorView,
        >(AttachedDriveErrorView::SizeZero(drive_id@)),
{
}

/// What is persisted of a manifest: its version, what it says of changes to the disks, whether it
/// has VM state, the sizes of its images, and of each drive all but the image config.
pub proof fn law_persisted_fields_are_the_manifests(m: ManifestView)
    ensures
        persisted(m).version == m.version,
        persisted(m).delta_empty == m.delta_empty,
        persisted(m).vm_state <==> m.vm_state is Some,
        persisted(m).memory_virtual_size is Some <==> m.memory is Some,
        m.memory matches Some(memory) ==> persisted(m).memory_virtual_size == Some(
            memory.virtual_size,
        ),
        persisted(m).rootfs_virtual_size == m.rootfs.virtual_size,
        persisted(m).attached_drives.len() == m.attached_drives.len(),
        forall|i: int|
            0 <= i < m.attached_drives.len() ==> {
                let drive = #[trigger] persisted(m).attached_drives[i];
                &&& drive.drive_id == m.attached_drives[i].drive_id
                &&& drive.read_only == m.attached_drives[i].read_only
                &&& drive.mount_path == m.attached_drives[i].mount_path
                &&& drive.sub_path == m.attached_drives[i].sub_path
                &&& drive.virtual_size == m.attached_drives[i].virtual_size
            },
{
}

/// A persisted manifest is read back with what was persisted, and with empty paths where a path is
/// local to a node.
pub proof fn law_read_back_fields_are_the_persisted(p: PersistedView)
    ensures
        read_back(p).version == p.version,
        read_back(p).delta_empty == p.delta_empty,
        read_back(p).vm_state is Some <==> p.vm_state,
        read_back(p).vm_state matches Some(path) ==> path.len() == 0,
        read_back(p).memory is Some <==> p.memory_virtual_size is Some,
        read_back(p).memory matches Some(memory) ==> Some(memory.virtual_size)
            == p.memory_virtual_size && memory.image_config_path.len() == 0,
        read_back(p).rootfs.virtual_size == p.rootfs_virtual_size,
        read_back(p).rootfs.image_config_path.len() == 0,
        read_back(p).attached_drives.len() == p.attached_drives.len(),
        forall|i: int|
            0 <= i < p.attached_drives.len() ==> {
                let drive = #[trigger] read_back(p).attached_drives[i];
                &&& drive.drive_id == p.attached_drives[i].drive_id
                &&& drive.read_only == p.attached_drives[i].read_only
                &&& drive.mount_path == p.attached_drives[i].mount_path
                &&& drive.sub_path == p.attached_drives[i].sub_path
                &&& drive.virtual_size == p.attached_drives[i].virtual_size
                &&& drive.image_config_path.len() == 0
            },
{
}

/// The view of a persisted manifest shows its own fields.
pub proof fn law_persisted_view_shows_fields(p: PersistedManifest)
    ensures
        p@.version == p.version,
        p@.delta_empty == p.delta_empty,
        p@.vm_state == p.vm_state,
        p@.memory_virtual_size == p.memory_virtual_size,
        p@.rootfs_virtual_size == p.rootfs_virtual_size,
        p@.attached_drives.len() == p.attached_drives@.len(),
        forall|i: int|
            0 <= i < p.attached_drives@.len() ==> {
                let drive = p.attached_drives@[i];
                &&& (#[trigger] p@.attached_drives[i]).drive_id == drive.drive_id@
                &&& p@.attached_drives[i].read_only == drive.read_only
                &&& p@.attached_drives[i].mount_path == drive.mount_path@
                &&& p@.attached_drives[i].sub_path is Some <==> drive.sub_path is Some
                &&& drive.sub_path matches Some(sub_path) ==> p@.attached_drives[i].sub_path
                    == Some(sub_path@)
                &&& p@.attached_drives[i].virtual_size == drive.virtual_size
            },
{
}

/// A drive is mounted at its recorded mount path as normalized or, only where that can fail, at the
/// default for its id.
pub proof fn law_mount_path_is_normalized_or_default<E, N, D>(
    recorded: FirecrackerAttachedDriveArtifacts,
    normalize: N,
    fallback: D,
    mount: String,
    drive: ExtraDrive,
) where N: Fn(&String, String) -> Result<String, E>, D: Fn(&String) -> String
    ensures
        mount_resolved::<E, N, D>(recorded, normalize, fallback, mount) ==> call_ensures(
            normalize,
            (&recorded.drive_id, recorded.mount_path),
            Ok::<String, E>(mount),
        ) || (call_ensures(fallback, (&recorded.drive_id,), mount) && exists|e: E|
            #![trigger call_ensures(normalize, (&recorded.drive_id, recorded.mount_path), Err::<String, E>(e))]
            call_ensures(
                normalize,
                (&recorded.drive_id, recorded.mount_path),
                Err::<String, E>(e),
            )),
        mounted_as_resolved::<E, N, D>(recorded, normalize, fallback, drive) ==> exists|m: String|
            #[trigger] mount_resolved::<E, N, D>(recorded, normalize, fallback, m)
                && drive->mount_path@ == m@,
{
}

} // verus!
