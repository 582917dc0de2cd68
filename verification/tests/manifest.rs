use agentenv_snapshot::drive::ExtraDrive;
use agentenv_snapshot::manifest::{
    combine_disk_delta_empty, AttachedDriveError, FirecrackerAttachedDriveArtifacts,
    FirecrackerMemoryArtifacts, FirecrackerRootfsArtifacts, FirecrackerSnapshotManifest,
    FirecrackerVmStateArtifacts, MANIFEST_FORMAT_VERSION,
};
use agentenv_snapshot::persisted::{PersistedDrive, PersistedManifest};

fn drive(id: &str, virtual_size: Option<u64>) -> ExtraDrive {
    ExtraDrive::Overlaybd {
        drive_id: id.to_string(),
        image_config_path: "/tmp/data/image.json".to_string(),
        read_only: true,
        mount_path: "/mnt/data".to_string(),
        virtual_size,
        sub_path: None,
    }
}

fn full(drives: &[ExtraDrive]) -> Result<FirecrackerSnapshotManifest, AttachedDriveError> {
    FirecrackerSnapshotManifest::new(
        "vm_state.bin",
        "mem_image.json",
        4096,
        "rootfs/image.json",
        4096,
        drives,
    )
}

fn as_recorded(_id: &String, path: String) -> Result<String, ()> {
    Ok(path)
}

fn default_mount(id: &String) -> String {
    format!("/mnt/{}", id)
}

#[test]
fn disk_delta_empty_aggregation_preserves_unknown_and_writes() {
    assert_eq!(combine_disk_delta_empty(&[]), Some(true));
    assert_eq!(combine_disk_delta_empty(&[Some(true), Some(true)]), Some(true));
    assert_eq!(combine_disk_delta_empty(&[Some(true), None]), None);
    assert_eq!(combine_disk_delta_empty(&[None, Some(false)]), Some(false));
    assert_eq!(combine_disk_delta_empty(&[Some(false), None]), Some(false));
}

#[test]
fn delta_empty_combines_in_groups_and_any_order() {
    let values = [None, Some(false), Some(true)];
    for a in values {
        for b in values {
            for c in values {
                let all = combine_disk_delta_empty(&[a, b, c]);
                let grouped = combine_disk_delta_empty(&[combine_disk_delta_empty(&[a, b]), c]);
                assert_eq!(all, grouped);
                assert_eq!(all, combine_disk_delta_empty(&[c, a, b]));
                assert_eq!(all == Some(true), [a, b, c] == [Some(true); 3]);
                assert_eq!(all == Some(false), [a, b, c].contains(&Some(false)));
            }
        }
    }
}

#[test]
fn delta_empty_manifest_round_trip_and_legacy_default() {
    let mut manifest =
        FirecrackerSnapshotManifest::new_disk_only("rootfs/image.json", 8192, &[]).unwrap();
    let old = manifest.persisted();
    assert_eq!(old.delta_empty, None);
    assert_eq!(old.read_back().delta_empty, None);
    for flag in [true, false] {
        manifest.delta_empty = Some(flag);
        let written = manifest.persisted();
        assert_eq!(written.delta_empty, Some(flag));
        assert_eq!(written.read_back().delta_empty, Some(flag));
    }
}

#[test]
fn attached_drive_virtual_size_is_serialized_and_mapped_to_runtime_input() {
    let known = FirecrackerAttachedDriveArtifacts {
        drive_id: "data".to_string(),
        read_only: true,
        mount_path: "/mnt/data".to_string(),
        sub_path: None,
        virtual_size: 4096,
        image_config_path: "drives/data/image.json".to_string(),
    };

    let manifest = FirecrackerSnapshotManifest {
        version: MANIFEST_FORMAT_VERSION,
        delta_empty: None,
        vm_state: Some(FirecrackerVmStateArtifacts { path: "vm_state.bin".to_string() }),
        memory: Some(FirecrackerMemoryArtifacts {
            image_config_path: "mem_image.json".to_string(),
            virtual_size: 4096,
        }),
        rootfs: FirecrackerRootfsArtifacts {
            image_config_path: "rootfs/image.json".to_string(),
            virtual_size: 4096,
        },
        attached_drives: vec![known],
    };
    assert_eq!(manifest.persisted().attached_drives[0].virtual_size, 4096);

    let drives = manifest.extra_drives(as_recorded, default_mount);
    assert_eq!(drives[0].virtual_size(), Some(4096));
}

#[test]
fn full_manifest_round_trips_and_reports_memory_state() {
    let manifest = full(&[]).expect("full manifest should build");
    assert!(manifest.has_memory_state());

    let written = manifest.persisted();
    assert!(written.vm_state);
    assert_eq!(written.memory_virtual_size, Some(4096));

    let parsed = written.read_back();
    assert!(parsed.has_memory_state());
}

#[test]
fn disk_only_manifest_omits_vm_state_and_memory() {
    let manifest = FirecrackerSnapshotManifest::new_disk_only("rootfs/image.json", 4096, &[])
        .expect("disk-only manifest should build");
    assert!(!manifest.has_memory_state());

    let written = manifest.persisted();
    assert!(!written.vm_state);
    assert!(written.memory_virtual_size.is_none());

    let parsed = written.read_back();
    assert!(parsed.vm_state.is_none());
    assert!(parsed.memory.is_none());
    assert!(!parsed.has_memory_state());
}

#[test]
fn legacy_manifest_json_with_memory_fields_parses_as_full() {
    let parsed = PersistedManifest {
        version: 1,
        delta_empty: None,
        vm_state: true,
        memory_virtual_size: Some(1024),
        rootfs_virtual_size: 2048,
        attached_drives: vec![],
    }
    .read_back();

    assert!(parsed.has_memory_state());
    assert_eq!(parsed.memory.as_ref().map(|memory| memory.virtual_size), Some(1024));
}

#[test]
fn new_rejects_attached_drive_without_virtual_size() {
    let err = full(&[drive("data", None)])
        .expect_err("snapshot attached drive virtual size should be required");
    assert!(err.message().contains("virtual size must be known"));
    assert_eq!(err.message(), "snapshot attached drive 'data' virtual size must be known");
}

#[test]
fn with_extra_drives_rejects_zero_virtual_size() {
    let manifest = full(&[]).expect("empty attached drives should be valid");
    let err = manifest
        .with_extra_drives(&[drive("data", Some(0))])
        .expect_err("snapshot attached drive virtual size should be non-zero");
    assert!(err.message().contains("virtual size must be non-zero"));
    assert_eq!(err.message(), "snapshot attached drive 'data' virtual size must be non-zero");
}

#[test]
fn first_drive_without_size_is_named() {
    let err = full(&[drive("a", Some(1)), drive("b", Some(0)), drive("c", None)]).unwrap_err();
    assert_eq!(err, AttachedDriveError::SizeZero { drive_id: "b".to_string() });
}

#[test]
fn manifest_holds_what_it_was_built_from() {
    let manifest = full(&[drive("data", Some(7))]).unwrap();
    assert_eq!(manifest.version, 1);
    assert_eq!(manifest.delta_empty, None);
    assert_eq!(manifest.vm_state.as_ref().unwrap().path, "vm_state.bin");
    assert_eq!(manifest.memory.as_ref().unwrap().image_config_path, "mem_image.json");
    assert_eq!(manifest.rootfs.image_config_path, "rootfs/image.json");
    assert_eq!(manifest.attached_drives.len(), 1);
    assert_eq!(manifest.attached_drives[0].drive_id, "data");
    assert_eq!(manifest.attached_drives[0].virtual_size, 7);
}

#[test]
fn new_drives_take_the_place_of_the_old_and_change_nothing_else() {
    let mut manifest = full(&[drive("old", Some(7))]).unwrap();
    manifest.delta_empty = Some(true);
    let changed = manifest.with_extra_drives(&[drive("new", Some(8))]).unwrap();
    assert_eq!(changed.attached_drives.len(), 1);
    assert_eq!(changed.attached_drives[0].drive_id, "new");
    assert_eq!(changed.delta_empty, Some(true));
    assert_eq!(changed.rootfs, manifest.rootfs);
    assert_eq!(changed.memory, manifest.memory);
}

#[test]
fn recorded_drives_come_back_as_they_were() {
    let drives = [drive("a", Some(1)), drive("b", Some(2))];
    let manifest = full(&drives).unwrap();
    assert_eq!(manifest.extra_drives(as_recorded, default_mount), drives.to_vec());
    let again = manifest
        .with_extra_drives(&manifest.extra_drives(as_recorded, default_mount))
        .unwrap();
    assert_eq!(again, manifest);
}

#[test]
fn mount_path_that_cannot_be_normalized_falls_back_to_the_default() {
    let manifest = full(&[drive("a", Some(1))]).unwrap();
    let refuse = |_id: &String, _path: String| -> Result<String, ()> { Err(()) };
    assert_eq!(manifest.mount_paths(refuse, default_mount), vec!["/mnt/a".to_string()]);
    let drives = manifest.extra_drives(refuse, default_mount);
    assert_eq!(drives[0].mount_path(), "/mnt/a");
}

#[test]
fn read_back_manifest_has_no_local_paths() {
    let manifest = full(&[drive("a", Some(1))]).unwrap();
    let parsed = manifest.persisted().read_back();
    assert_eq!(parsed.vm_state.as_ref().unwrap().path, "");
    assert_eq!(parsed.memory.as_ref().unwrap().image_config_path, "");
    assert_eq!(parsed.rootfs.image_config_path, "");
    assert_eq!(parsed.rootfs.virtual_size, 4096);
    assert_eq!(parsed.attached_drives[0].image_config_path, "");
    assert_eq!(parsed.attached_drives[0].mount_path, "/mnt/data");
}

#[test]
fn persisting_what_was_read_back_changes_nothing() {
    let written = PersistedManifest {
        version: 3,
        delta_empty: Some(false),
        vm_state: true,
        memory_virtual_size: None,
        rootfs_virtual_size: 9,
        attached_drives: vec![PersistedDrive {
            drive_id: "d".to_string(),
            read_only: false,
            mount_path: "/m".to_string(),
            sub_path: Some("s".to_string()),
            virtual_size: 5,
        }],
    };
    assert_eq!(written.read_back().persisted(), written);
}
