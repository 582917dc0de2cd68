use agentenv_snapshot::cold_start::{CommandContext, StartupCommand};
use agentenv_snapshot::drive::ExtraDrive;
use agentenv_snapshot::image::{
    local_lowers, single_layer_config, CompactOutput, ImageConfig, LayerConfig,
};
use agentenv_snapshot::manifest::FirecrackerSnapshotManifest;
use agentenv_snapshot::record::{
    CommittedSnapshot, SnapshotAlias, SnapshotId, SnapshotRecord, SnapshotResources,
    SnapshotSource, VirtualizationMode,
};
use agentenv_snapshot::squash::{
    SnapshotPublishSource, SquashAction, SquashEvent, SquashJob, SquashOutcome, SquashRun,
};

fn layer(file: &str) -> LayerConfig {
    LayerConfig {
        file: file.to_string(),
        digest: String::new(),
        size: 0,
        details: String::new(),
    }
}

fn config(files: &[&str]) -> ImageConfig {
    ImageConfig {
        repo_blob_url: String::new(),
        lowers: files.iter().map(|file| layer(file)).collect(),
        upper: String::new(),
        result_file: String::new(),
        details: String::new(),
    }
}

fn committed() -> CommittedSnapshot {
    CommittedSnapshot {
        rootfs_layers: vec![],
        memory_layers: vec![],
        attached_drives: vec![],
        disk_publications: vec![],
        delta_empty: Some(true),
        context: "context".to_string(),
        startup: Some(StartupCommand {
            start_cmd: "./server".to_string(),
            ready_cmd: "true".to_string(),
            context: CommandContext::default(),
        }),
        runtime_versions: "versions".to_string(),
        virtualization_mode: VirtualizationMode::Pvm,
        image_configs: "configs".to_string(),
        custom_extension_params: "params".to_string(),
    }
}

fn record(id: &str) -> SnapshotRecord {
    SnapshotRecord {
        id: SnapshotId { text: id.to_string() },
        alias: None,
        source: SnapshotSource::Sandbox { source_sandbox_id: "sandbox".to_string() },
        resources: SnapshotResources { cpu_count: 2, memory_mib: 512, disk_size_mib: 1024 },
        created_at_unix_ms: 5,
        updated_at_unix_ms: 6,
        committed: Some(committed()),
    }
}

fn job() -> SquashJob {
    SquashJob {
        reference: "base".to_string(),
        alias: Some(SnapshotAlias { text: "flat".to_string() }),
        twin_id: SnapshotId { text: "twin".to_string() },
        staging_root: "/stage".to_string(),
        base_layer_file: "base.commit".to_string(),
    }
}

fn drive(virtual_size: u64) -> ExtraDrive {
    ExtraDrive::Overlaybd {
        drive_id: "data".to_string(),
        image_config_path: "/drives/data/image.json".to_string(),
        read_only: false,
        virtual_size: Some(virtual_size),
        mount_path: "/mnt/data".to_string(),
        sub_path: None,
    }
}

fn manifest(drives: &[ExtraDrive]) -> FirecrackerSnapshotManifest {
    FirecrackerSnapshotManifest::new(
        "/run/vm_state.bin",
        "/run/memory/image.json",
        4096,
        "/run/rootfs/image.json",
        8192,
        drives,
    )
    .unwrap()
}

fn resolved(manifest: FirecrackerSnapshotManifest) -> SquashEvent {
    let mount_paths = manifest.attached_drives.iter().map(|d| d.mount_path.clone()).collect();
    SquashEvent::Resolved { manifest, mount_paths }
}

/// A squash that has loaded the given layers.
fn loaded(rootfs: &[&str], memory: &[&str]) -> SquashRun {
    SquashRun::begin(job())
        .advance(SquashEvent::Found(Some(record("source"))))
        .advance(resolved(manifest(&[])))
        .advance(SquashEvent::Loaded(config(rootfs)))
        .advance(SquashEvent::Loaded(config(memory)))
}

fn failure(run: SquashRun) -> String {
    assert!(matches!(run.action(), SquashAction::Finish));
    run.finish().unwrap().unwrap_err()
}

fn failed(reason: &str) -> SquashEvent {
    SquashEvent::Failed { reason: reason.to_string() }
}

#[test]
fn local_lowers_rejects_remote_layers() {
    let image = ImageConfig {
        repo_blob_url: "s3://bucket/prefix/managed-layers".to_string(),
        lowers: vec![
            layer("/local/a.commit"),
            LayerConfig {
                file: String::new(),
                digest: "sha256:remote".to_string(),
                size: 4096,
                details: String::new(),
            },
        ],
        upper: "{}".to_string(),
        result_file: String::new(),
        details: String::new(),
    };

    let message = local_lowers(image, "rootfs").expect_err("remote layers must be rejected");
    assert!(message.contains("cannot squash rootfs chain"), "{message}");
    assert!(message.contains("layer 1"), "{message}");
}

#[test]
fn local_lowers_returns_all_local_layers() {
    let lowers = local_lowers(config(&["/local/a.commit", "/local/b.commit"]), "rootfs")
        .expect("local chain should parse");
    assert_eq!(lowers.len(), 2);
    assert_eq!(lowers[1].file, "/local/b.commit");
}

#[test]
fn blank_file_is_a_remote_layer() {
    assert_eq!(
        local_lowers(config(&["/a", "/b", " \t"]), "memory"),
        Err("cannot squash memory chain: layer 2 has no local file (remote layers are unsupported)"
            .to_string())
    );
    assert_eq!(local_lowers(config(&[]), "memory"), Ok(vec![]));
}

#[test]
fn chains_shorter_than_two_layers_are_left_alone() {
    let only = LayerConfig {
        file: "/local/only.commit".to_string(),
        digest: "sha256:only".to_string(),
        size: 42,
        details: String::new(),
    };
    let single = ImageConfig {
        repo_blob_url: String::new(),
        lowers: vec![only],
        upper: String::new(),
        result_file: String::new(),
        details: String::new(),
    };

    // A single rootfs layer and no memory layer: nothing is made or merged.
    let run = SquashRun::begin(job())
        .advance(SquashEvent::Found(Some(record("source"))))
        .advance(resolved(manifest(&[])))
        .advance(SquashEvent::Loaded(single.clone()))
        .advance(SquashEvent::Loaded(config(&[])));
    assert!(matches!(run.action(), SquashAction::Finish));
    let outcome = run.finish().unwrap().expect("single-layer chain is allowed");
    assert_eq!(outcome, SquashOutcome::AlreadyFlat(record("source")));

    // Beside a memory chain that is merged, the rootfs chain keeps its config.
    let run = SquashRun::begin(job())
        .advance(SquashEvent::Found(Some(record("source"))))
        .advance(resolved(manifest(&[])))
        .advance(SquashEvent::Loaded(single))
        .advance(SquashEvent::Loaded(config(&["/m/a", "/m/b"])))
        .advance(SquashEvent::DirMade);
    match run.action() {
        SquashAction::MakeDir(dir) => assert_eq!(dir, "/stage/memory"),
        other => panic!("unexpected action: {:?}", other),
    }
    let run = run
        .advance(SquashEvent::DirMade)
        .advance(SquashEvent::Merged(Some("/stage/memory/base.commit".to_string())))
        .advance(SquashEvent::Written);
    match run.action() {
        SquashAction::Publish { manifest, .. } => {
            assert_eq!(manifest.rootfs.image_config_path, "/run/rootfs/image.json");
        }
        other => panic!("unexpected action: {:?}", other),
    }

    // Beside a rootfs chain that is merged, so does an empty memory chain.
    let run = loaded(&["/r/a", "/r/b"], &[])
        .advance(SquashEvent::DirMade)
        .advance(SquashEvent::DirMade)
        .advance(SquashEvent::Merged(Some("/stage/rootfs/base.commit".to_string())))
        .advance(SquashEvent::Written);
    match run.action() {
        SquashAction::Publish { manifest, .. } => {
            let memory = manifest.memory.as_ref().expect("empty chain is allowed");
            assert_eq!(memory.image_config_path, "/run/memory/image.json");
        }
        other => panic!("unexpected action: {:?}", other),
    }
}

#[test]
fn both_chains_are_merged_and_the_twin_is_published() {
    let run = SquashRun::begin(job());
    match run.action() {
        SquashAction::Lookup(reference) => assert_eq!(reference, "base"),
        other => panic!("unexpected action: {:?}", other),
    }
    let run = run.advance(SquashEvent::Found(Some(record("source"))));
    match run.action() {
        SquashAction::Resolve(found) => assert_eq!(found.id.text, "source"),
        other => panic!("unexpected action: {:?}", other),
    }
    let mut source = manifest(&[drive(77)]);
    source.delta_empty = Some(true);
    let run = run.advance(resolved(source.clone()));
    match run.action() {
        SquashAction::LoadConfig(path) => assert_eq!(path, "/run/rootfs/image.json"),
        other => panic!("unexpected action: {:?}", other),
    }
    let run = run.advance(SquashEvent::Loaded(config(&["/r/a", "/r/b", "/r/c"])));
    match run.action() {
        SquashAction::LoadConfig(path) => assert_eq!(path, "/run/memory/image.json"),
        other => panic!("unexpected action: {:?}", other),
    }
    let run = run.advance(SquashEvent::Loaded(config(&["/m/a", "/m/b"])));
    match run.action() {
        SquashAction::MakeDir(dir) => assert_eq!(dir, "/stage"),
        other => panic!("unexpected action: {:?}", other),
    }
    let run = run.advance(SquashEvent::DirMade);
    match run.action() {
        SquashAction::MakeDir(dir) => assert_eq!(dir, "/stage/rootfs"),
        other => panic!("unexpected action: {:?}", other),
    }
    let run = run.advance(SquashEvent::DirMade);
    match run.action() {
        SquashAction::Merge { lowers, output, mode } => {
            assert_eq!(lowers, &config(&["/r/a", "/r/b", "/r/c"]).lowers);
            assert_eq!(output, "/stage/rootfs/base.commit");
            assert_eq!(mode, CompactOutput::Raw);
        }
        other => panic!("unexpected action: {:?}", other),
    }
    let run = run.advance(SquashEvent::Merged(Some("/stage/rootfs/base.commit".to_string())));
    match run.action() {
        SquashAction::WriteConfig { path, config: written } => {
            assert_eq!(path, "/stage/rootfs/image.json");
            assert_eq!(written, &config(&["/stage/rootfs/base.commit"]));
        }
        other => panic!("unexpected action: {:?}", other),
    }
    let run = run.advance(SquashEvent::Written).advance(SquashEvent::DirMade);
    match run.action() {
        SquashAction::Merge { lowers, output, mode } => {
            assert_eq!(lowers.len(), 2);
            assert_eq!(output, "/stage/memory/base.commit");
            assert_eq!(mode, CompactOutput::MemorySnapshot);
        }
        other => panic!("unexpected action: {:?}", other),
    }
    let run = run
        .advance(SquashEvent::Merged(Some("/stage/memory/base.commit".to_string())))
        .advance(SquashEvent::Written);
    match run.action() {
        SquashAction::Publish { metadata, manifest } => {
            assert_eq!(metadata.id.text, "twin");
            assert_eq!(metadata.alias.as_ref().unwrap().text, "flat");
            assert_eq!(
                metadata.source,
                SnapshotPublishSource::Sandbox { source_sandbox_id: "sandbox".to_string() }
            );
            assert_eq!(metadata.context, "context");
            assert_eq!(metadata.startup, committed().startup);
            assert_eq!(metadata.resources, record("source").resources);
            assert_eq!(metadata.runtime_versions, "versions");
            assert_eq!(metadata.virtualization_mode, VirtualizationMode::Pvm);
            assert_eq!(metadata.image_configs, "configs");
            assert_eq!(metadata.custom_extension_params, "params");
            assert_eq!(manifest.vm_state, source.vm_state);
            assert_eq!(manifest.rootfs.image_config_path, "/stage/rootfs/image.json");
            assert_eq!(manifest.rootfs.virtual_size, 8192);
            let memory = manifest.memory.as_ref().unwrap();
            assert_eq!(memory.image_config_path, "/stage/memory/image.json");
            assert_eq!(memory.virtual_size, 4096);
            assert_eq!(manifest.attached_drives, source.attached_drives);
            assert_eq!(manifest.delta_empty, None);
        }
        other => panic!("unexpected action: {:?}", other),
    }
    let run = run.advance(SquashEvent::Published(record("twin")));
    let outcome = run.finish().unwrap().unwrap();
    assert_eq!(outcome, SquashOutcome::Squashed(record("twin")));
    assert_eq!(outcome.record(), record("twin"));
}

#[test]
fn names_can_be_drawn_once_there_is_something_to_merge() {
    let mut unnamed = job();
    unnamed.twin_id.text = String::new();
    unnamed.staging_root = String::new();
    let run = SquashRun::begin(unnamed)
        .advance(SquashEvent::Found(Some(record("source"))))
        .advance(resolved(manifest(&[])))
        .advance(SquashEvent::Loaded(config(&["/r/a", "/r/b"])))
        .advance(SquashEvent::Loaded(config(&[])))
        .with_names("/late".to_string(), SnapshotId { text: "later".to_string() });
    assert_eq!(run.job.reference, "base");
    match run.action() {
        SquashAction::MakeDir(dir) => assert_eq!(dir, "/late"),
        other => panic!("unexpected action: {:?}", other),
    }
    let run = run
        .advance(SquashEvent::DirMade)
        .advance(SquashEvent::DirMade)
        .advance(SquashEvent::Merged(Some("/late/rootfs/base.commit".to_string())))
        .advance(SquashEvent::Written);
    match run.action() {
        SquashAction::Publish { metadata, manifest } => {
            assert_eq!(metadata.id.text, "later");
            assert_eq!(metadata.alias.as_ref().unwrap().text, "flat");
            assert_eq!(manifest.rootfs.image_config_path, "/late/rootfs/image.json");
        }
        other => panic!("unexpected action: {:?}", other),
    }
}

#[test]
fn disk_only_snapshot_has_a_disk_only_twin() {
    let source = FirecrackerSnapshotManifest::new_disk_only("/run/rootfs/image.json", 8192, &[]);
    let run = SquashRun::begin(job())
        .advance(SquashEvent::Found(Some(record("source"))))
        .advance(resolved(source.unwrap()))
        .advance(SquashEvent::Loaded(config(&["/r/a", "/r/b"])))
        .advance(SquashEvent::DirMade)
        .advance(SquashEvent::DirMade)
        .advance(SquashEvent::Merged(Some("/stage/rootfs/base.commit".to_string())))
        .advance(SquashEvent::Written);
    match run.action() {
        SquashAction::Publish { manifest, .. } => {
            assert!(!manifest.has_memory_state());
            assert_eq!(manifest.rootfs.image_config_path, "/stage/rootfs/image.json");
        }
        other => panic!("unexpected action: {:?}", other),
    }
}

#[test]
fn template_has_a_template_twin() {
    let mut source = record("source");
    source.source = SnapshotSource::Template { details: "build".to_string() };
    let run = SquashRun::begin(job())
        .advance(SquashEvent::Found(Some(source)))
        .advance(resolved(manifest(&[])))
        .advance(SquashEvent::Loaded(config(&["/r/a", "/r/b"])))
        .advance(SquashEvent::Loaded(config(&["/m/a"])))
        .advance(SquashEvent::DirMade)
        .advance(SquashEvent::DirMade)
        .advance(SquashEvent::Merged(Some("/stage/rootfs/base.commit".to_string())))
        .advance(SquashEvent::Written);
    match run.action() {
        SquashAction::Publish { metadata, .. } => {
            assert_eq!(metadata.source, SnapshotPublishSource::Template);
        }
        other => panic!("unexpected action: {:?}", other),
    }
}

#[test]
fn squashed_chains_are_flat() {
    let run = SquashRun::begin(job())
        .advance(SquashEvent::Found(Some(record("twin"))))
        .advance(resolved(manifest(&[])))
        .advance(SquashEvent::Loaded(single_layer_config("/r/base".to_string())))
        .advance(SquashEvent::Loaded(single_layer_config("/m/base".to_string())));
    assert_eq!(run.finish(), Some(Ok(SquashOutcome::AlreadyFlat(record("twin")))));
}

#[test]
fn single_remote_layers_are_flat() {
    let flat = Some(Ok(SquashOutcome::AlreadyFlat(record("source"))));
    let source = FirecrackerSnapshotManifest::new_disk_only("/run/rootfs/image.json", 8192, &[]);
    let run = SquashRun::begin(job())
        .advance(SquashEvent::Found(Some(record("source"))))
        .advance(resolved(source.unwrap()))
        .advance(SquashEvent::Loaded(config(&[""])));
    assert_eq!(run.finish(), flat);
    assert_eq!(loaded(&[""], &[]).finish(), flat);
    assert_eq!(loaded(&["/r/a"], &[" "]).finish(), flat);
    assert_eq!(loaded(&[""], &[""]).finish(), flat);
}

#[test]
fn single_remote_layer_is_refused_beside_a_chain_to_merge() {
    assert_eq!(
        failure(loaded(&[""], &["/m/a", "/m/b"])),
        "cannot squash rootfs chain: layer 0 has no local file (remote layers are unsupported)"
    );
    assert_eq!(
        failure(loaded(&["/r/a", "/r/b"], &[""])),
        "cannot squash memory chain: layer 0 has no local file (remote layers are unsupported)"
    );
    assert_eq!(
        failure(loaded(&[""], &["/m/a", ""])),
        "cannot squash rootfs chain: layer 0 has no local file (remote layers are unsupported)"
    );
}

#[test]
fn published_twin_is_flat() {
    let run = loaded(&["/r/a", "/r/b"], &["/m/only"])
        .advance(SquashEvent::DirMade)
        .advance(SquashEvent::DirMade)
        .advance(SquashEvent::Merged(Some("/stage/rootfs/base.commit".to_string())));
    let written = match run.action() {
        SquashAction::WriteConfig { config, .. } => config.clone(),
        other => panic!("unexpected action: {:?}", other),
    };
    let twin = run
        .advance(SquashEvent::Written)
        .advance(SquashEvent::Published(record("twin")))
        .finish()
        .unwrap()
        .unwrap()
        .record();
    let again = SquashRun::begin(job())
        .advance(SquashEvent::Found(Some(twin.clone())))
        .advance(resolved(manifest(&[])))
        .advance(SquashEvent::Loaded(written))
        .advance(SquashEvent::Loaded(config(&["/m/only"])));
    assert_eq!(again.finish(), Some(Ok(SquashOutcome::AlreadyFlat(twin))));
}

#[test]
fn what_else_a_config_says_is_carried_along() {
    let mut image = config(&["/r/a", "/r/b"]);
    image.lowers[1].details = "{\"dir\":\"/x\"}".to_string();
    let run = SquashRun::begin(job())
        .advance(SquashEvent::Found(Some(record("source"))))
        .advance(resolved(manifest(&[])))
        .advance(SquashEvent::Loaded(image.clone()))
        .advance(SquashEvent::Loaded(config(&[])))
        .advance(SquashEvent::DirMade)
        .advance(SquashEvent::DirMade);
    match run.action() {
        SquashAction::Merge { lowers, .. } => assert_eq!(lowers, &image.lowers),
        other => panic!("unexpected action: {:?}", other),
    }
}

#[test]
fn squash_that_is_under_way_has_no_outcome() {
    assert_eq!(SquashRun::begin(job()).finish(), None);
    assert_eq!(loaded(&["/r/a", "/r/b"], &[]).finish(), None);
}

#[test]
fn missing_snapshot_is_not_squashed() {
    let run = SquashRun::begin(job()).advance(SquashEvent::Found(None));
    assert_eq!(failure(run), "snapshot 'base' not found");
}

#[test]
fn unready_snapshot_is_not_squashed() {
    let mut source = record("source");
    source.committed = None;
    let run = SquashRun::begin(job()).advance(SquashEvent::Found(Some(source)));
    assert_eq!(failure(run), "snapshot 'base' is not ready");
}

#[test]
fn failures_tell_what_was_being_done() {
    let start = || SquashRun::begin(job());
    assert_eq!(failure(start().advance(failed("x"))), "x");
    let found = || start().advance(SquashEvent::Found(Some(record("source"))));
    assert_eq!(failure(found().advance(failed("x"))), "x");
    let known = || found().advance(resolved(manifest(&[])));
    assert_eq!(
        failure(known().advance(failed("x"))),
        "load rootfs image config /run/rootfs/image.json: x"
    );
    assert_eq!(
        failure(known().advance(SquashEvent::Loaded(config(&["/a", ""])))),
        "cannot squash rootfs chain: layer 1 has no local file (remote layers are unsupported)"
    );
    let rootfs = || known().advance(SquashEvent::Loaded(config(&["/a", "/b"])));
    assert_eq!(
        failure(rootfs().advance(failed("x"))),
        "load memory image config /run/memory/image.json: x"
    );
    assert_eq!(
        failure(rootfs().advance(SquashEvent::Loaded(config(&[""])))),
        "cannot squash memory chain: layer 0 has no local file (remote layers are unsupported)"
    );
    let staging = || rootfs().advance(SquashEvent::Loaded(config(&[])));
    assert_eq!(failure(staging().advance(failed("x"))), "create squash staging dir /stage: x");
    let making = || staging().advance(SquashEvent::DirMade);
    assert_eq!(failure(making().advance(failed("x"))), "create rootfs squash dir /stage/rootfs: x");
    let merging = || making().advance(SquashEvent::DirMade);
    assert_eq!(failure(merging().advance(failed("x"))), "merge rootfs chain into one layer: x");
    assert_eq!(
        failure(merging().advance(SquashEvent::Merged(None))),
        "rootfs chain merge produced no layer"
    );
    let writing = || merging().advance(SquashEvent::Merged(Some("/f".to_string())));
    assert_eq!(failure(writing().advance(failed("x"))), "write squashed rootfs image config: x");
    assert_eq!(
        failure(writing().advance(SquashEvent::NotSerialized { reason: "x".to_string() })),
        "serialize squashed rootfs image config: x"
    );
    let publishing = || writing().advance(SquashEvent::Written);
    assert_eq!(failure(publishing().advance(failed("x"))), "publish squashed snapshot: x");
}

#[test]
fn drive_of_unusable_size_fails_the_twin() {
    let mut source = manifest(&[drive(77)]);
    source.attached_drives[0].virtual_size = 0;
    let run = SquashRun::begin(job())
        .advance(SquashEvent::Found(Some(record("source"))))
        .advance(resolved(source))
        .advance(SquashEvent::Loaded(config(&["/r/a", "/r/b"])))
        .advance(SquashEvent::Loaded(config(&[])))
        .advance(SquashEvent::DirMade)
        .advance(SquashEvent::DirMade)
        .advance(SquashEvent::Merged(Some("/f".to_string())))
        .advance(SquashEvent::Written);
    assert_eq!(
        failure(run),
        "build squashed snapshot manifest: snapshot attached drive 'data' virtual size must be non-zero"
    );
}
