use agentenv_snapshot::api::{
    delete_response, page_response, snapshots_get, snapshots_snapshot_id_delete,
    snapshots_snapshot_id_get, snapshots_snapshot_id_squash_post, squash_response, ApiError,
    SnapshotDeleteResponse, SnapshotGetResponse, SnapshotPage, SnapshotSquashResponse,
    SnapshotsGetResponse,
};
use agentenv_snapshot::info::{committed_chain_stats, is_presentable, SnapshotInfo};
use agentenv_snapshot::page::{is_older, page_key, paginate, PageKey};
use agentenv_snapshot::record::{
    rootfs_snapshot_image_tag, CommittedAttachedDrive, CommittedSnapshot, ExternalLayer,
    ManagedLayer, OverlaybdLayerRef, PersistedDiskImagePublication, SnapshotAlias, SnapshotId,
    SnapshotRecord, SnapshotResources, SnapshotSource, VirtualizationMode,
};
use agentenv_snapshot::squash::SquashOutcome;
use agentenv_snapshot::time::{SystemTime, UtcDateTime};

fn managed(size: u64) -> ManagedLayer {
    ManagedLayer { digest: "sha256:managed".to_string(), size, details: String::new() }
}

fn external(size: u64) -> OverlaybdLayerRef {
    OverlaybdLayerRef::External(ExternalLayer {
        digest: "sha256:external".to_string(),
        size,
        details: String::new(),
    })
}

fn mock_committed() -> CommittedSnapshot {
    CommittedSnapshot {
        rootfs_layers: vec![],
        memory_layers: vec![],
        attached_drives: vec![],
        disk_publications: vec![],
        delta_empty: None,
        context: String::new(),
        startup: None,
        runtime_versions: String::new(),
        virtualization_mode: VirtualizationMode::Kvm,
        image_configs: String::new(),
        custom_extension_params: String::new(),
    }
}

fn mock_ready(committed: CommittedSnapshot) -> SnapshotRecord {
    SnapshotRecord {
        id: SnapshotId { text: "018f0d93".to_string() },
        alias: None,
        source: SnapshotSource::Sandbox { source_sandbox_id: "sandbox".to_string() },
        resources: SnapshotResources { cpu_count: 2, memory_mib: 512, disk_size_mib: 1024 },
        created_at_unix_ms: 1_500,
        updated_at_unix_ms: -1,
        committed: Some(committed),
    }
}

fn template() -> SnapshotRecord {
    SnapshotRecord {
        source: SnapshotSource::Template { details: String::new() },
        ..mock_ready(mock_committed())
    }
}

fn publication(image_ref: &str, tag: &str) -> PersistedDiskImagePublication {
    PersistedDiskImagePublication {
        image_ref: image_ref.to_string(),
        tag: tag.to_string(),
        manifest_digest: "sha256:manifest".to_string(),
        repo_blob_url: "https://registry.example/v2/ns/app/blobs".to_string(),
    }
}

fn fault() -> ApiError {
    ApiError { code: 503, message: "store is away".to_string() }
}

#[test]
fn snapshot_info_includes_published_rootfs_image_ref() {
    let mut record = mock_ready(mock_committed());
    let tag = rootfs_snapshot_image_tag(&record.id);
    let expected = format!("registry.example/ns/app:{tag}");
    record.committed.as_mut().unwrap().disk_publications = vec![PersistedDiskImagePublication {
        image_ref: expected.clone(),
        tag,
        manifest_digest: "sha256:manifest".to_string(),
        repo_blob_url: "https://registry.example/v2/ns/app/blobs".to_string(),
    }];

    let info = SnapshotInfo::from(record);

    assert_eq!(info.image_ref.as_deref(), Some(expected.as_str()));
}

#[test]
fn snapshot_info_omits_image_ref_without_publication() {
    let record = mock_ready(mock_committed());

    let info = SnapshotInfo::from(record);

    assert_eq!(info.image_ref, None);
}

#[test]
fn image_ref_is_that_of_the_first_publication_with_the_tag() {
    let mut committed = mock_committed();
    let tag = "agentenv-snapshot-018f0d93";
    committed.disk_publications = vec![
        publication("other", "latest"),
        publication("first", tag),
        publication("second", tag),
    ];
    let record = mock_ready(committed);
    assert_eq!(rootfs_snapshot_image_tag(&record.id), tag);
    assert_eq!(record.published_rootfs_image_ref(), Some(&"first".to_string()));
    let mut unready = record.clone();
    unready.committed = None;
    assert_eq!(unready.published_rootfs_image_ref(), None);
}

#[test]
fn snapshot_info_tells_what_the_record_holds() {
    let mut record = mock_ready(mock_committed());
    record.alias = Some(SnapshotAlias { text: "base".to_string() });
    record.committed.as_mut().unwrap().delta_empty = Some(true);
    let info = SnapshotInfo::from(record);
    assert_eq!(info.snapshot_id, "018f0d93");
    assert_eq!(info.names, vec!["base".to_string()]);
    assert_eq!((info.cpu_count, info.memory_mb, info.disk_size_mb), (2, 512, 1024));
    assert_eq!(info.created_at, UtcDateTime { timestamp: 1, subsec_nanos: 500_000_000 });
    assert_eq!(info.updated_at, UtcDateTime { timestamp: -1, subsec_nanos: 999_000_000 });
    assert_eq!(info.delta_empty, Some(true));
}

#[test]
fn unready_snapshot_tells_nothing_of_its_chain() {
    let mut record = mock_ready(mock_committed());
    record.committed = None;
    let info = SnapshotInfo::from(record);
    assert_eq!(info.names, Vec::<String>::new());
    assert_eq!(info.rootfs_layer_count, None);
    assert_eq!(info.memory_layer_count, None);
    assert_eq!(info.chain_size_mb, None);
    assert_eq!(info.delta_empty, None);
}

#[test]
fn chain_stats_count_layers_and_whole_mib() {
    let mib = 1024 * 1024;
    let mut committed = mock_committed();
    assert_eq!(committed_chain_stats(&committed), (Some(0), Some(0), Some(0)));
    committed.rootfs_layers = vec![OverlaybdLayerRef::Managed(managed(mib)), external(mib)];
    committed.memory_layers = vec![managed(mib), managed(mib), managed(mib - 1)];
    committed.attached_drives = vec![
        CommittedAttachedDrive::Overlaybd { drive_id: "a".to_string(), layers: vec![] },
        CommittedAttachedDrive::Overlaybd {
            drive_id: "b".to_string(),
            layers: vec![external(2 * mib), external(mib)],
        },
    ];
    assert_eq!(committed.total_bytes(), Some(8 * mib - 1));
    assert_eq!(committed_chain_stats(&committed), (Some(2), Some(3), Some(7)));
}

#[test]
fn record_with_uncountable_layers_or_times_is_not_presentable() {
    let mut committed = mock_committed();
    committed.rootfs_layers = vec![external(u64::MAX)];
    let mut record = mock_ready(committed);
    assert!(is_presentable(&record));
    record.committed.as_mut().unwrap().memory_layers = vec![managed(1)];
    assert_eq!(record.committed.as_ref().unwrap().total_bytes(), None);
    assert!(!is_presentable(&record));
    let mut record = mock_ready(mock_committed());
    record.updated_at_unix_ms = i64::MAX;
    assert!(!is_presentable(&record));
}

#[test]
fn list_starts_at_the_newest_or_at_the_token() {
    let sandbox = Some("s".to_string());
    let (cursor, filter) = snapshots_get(&sandbox, &None, None, key(9, "z")).unwrap();
    assert_eq!(cursor, key(9, "z"));
    assert_eq!(filter.sandbox_id, sandbox);
    assert_eq!(filter.name, None);
    let name = Some("n".to_string());
    let parsed = Some(Ok(key(3, "a")));
    let (cursor, filter) = snapshots_get(&None, &name, parsed, key(9, "z")).unwrap();
    assert_eq!(cursor, key(3, "a"));
    assert_eq!(filter.name, name);
}

#[test]
fn unreadable_token_is_a_bad_request() {
    let parsed = Some(Err("no colon".to_string()));
    let response = snapshots_get(&None, &None, parsed, key(9, "z")).unwrap_err();
    assert_eq!(
        response,
        SnapshotsGetResponse::BadRequest(ApiError {
            code: 400,
            message: "invalid next token: no colon".to_string(),
        })
    );
}

fn key(secs: i64, id: &str) -> PageKey {
    PageKey { time: SystemTime { secs, nanos: 0 }, id: SnapshotId { text: id.to_string() } }
}

fn made(secs: i64, id: &str) -> SnapshotRecord {
    let mut record = mock_ready(mock_committed());
    record.id.text = id.to_string();
    record.created_at_unix_ms = secs * 1000;
    record
}

fn ids(records: &[SnapshotRecord]) -> Vec<String> {
    records.iter().map(|record| record.id.text.clone()).collect()
}

#[test]
fn age_goes_by_time_and_then_by_id() {
    assert!(is_older(&key(1, "b"), &key(2, "a")));
    assert!(!is_older(&key(2, "a"), &key(1, "b")));
    assert!(is_older(&key(1, "a"), &key(1, "b")));
    assert!(is_older(&key(1, "a"), &key(1, "ab")));
    assert!(!is_older(&key(1, "a"), &key(1, "a")));
    assert!(is_older(&key(i64::MIN, "z"), &key(i64::MAX, "")));
}

#[test]
fn pages_continue_each_other_newest_first() {
    let records =
        vec![made(5, "a"), made(9, "b"), made(5, "c"), made(-3, "d"), made(7, "e"), made(20, "f")];
    let (page, next) = paginate(records.clone(), &key(10, "z"), None);
    assert_eq!(ids(&page), ["b", "e", "c", "a", "d"]);
    assert_eq!(next, None);
    let mut seen = vec![];
    let mut cursor = key(10, "z");
    loop {
        let (page, next) = paginate(records.clone(), &cursor, Some(2));
        assert!(page.len() <= 2);
        seen.extend(ids(&page));
        match next {
            Some(next) => {
                assert_eq!(next, page_key(page.last().unwrap()));
                cursor = next;
            }
            None => break,
        }
    }
    assert_eq!(seen, ["b", "e", "c", "a", "d"]);
}

#[test]
fn list_shows_each_snapshot_that_was_asked_for_once() {
    let records = vec![made(1, "a"), made(3, "b"), made(2, "c")];
    let sandbox = Some("sandbox".to_string());
    let (mut cursor, filter) = snapshots_get(&sandbox, &None, None, key(9, "z")).unwrap();
    assert_eq!(filter.sandbox_id, sandbox);
    let mut shown = vec![];
    loop {
        let (items, next) = paginate(records.clone(), &cursor, Some(1));
        assert!(items.iter().all(|item| item.source == records[0].source));
        let next_token = next.as_ref().map(|key| key.id.text.clone());
        match page_response(Ok(SnapshotPage { items, next_token })) {
            SnapshotsGetResponse::Snapshots { body, .. } => {
                shown.extend(body.into_iter().map(|info| info.snapshot_id));
            }
            other => panic!("unexpected response: {:?}", other),
        }
        match next {
            Some(next) => cursor = next,
            None => break,
        }
    }
    assert_eq!(shown, ["b", "c", "a"]);
}

#[test]
fn page_that_holds_all_that_is_left_is_the_last() {
    let records = vec![made(1, "a"), made(2, "b")];
    let (page, next) = paginate(records.clone(), &key(9, "z"), Some(2));
    assert_eq!(ids(&page), ["b", "a"]);
    assert_eq!(next, None);
    let (page, next) = paginate(records.clone(), &key(1, "a"), Some(2));
    assert!(page.is_empty());
    assert_eq!(next, None);
    let (page, next) = paginate(records, &key(9, "z"), Some(0));
    assert!(page.is_empty());
    assert_eq!(next, None);
}

#[test]
fn list_is_ordered_by_time_and_id() {
    let key = page_key(&mock_ready(mock_committed()));
    assert_eq!(key.time, SystemTime { secs: 1, nanos: 500_000_000 });
    assert_eq!(key.id.text, "018f0d93");
}

#[test]
fn page_is_shown_in_its_order() {
    let mut second = mock_ready(mock_committed());
    second.id.text = "second".to_string();
    let page = SnapshotPage {
        items: vec![mock_ready(mock_committed()), second],
        next_token: Some("token".to_string()),
    };
    match page_response(Ok(page)) {
        SnapshotsGetResponse::Snapshots { body, next_token } => {
            assert_eq!(body.len(), 2);
            assert_eq!(body[0].snapshot_id, "018f0d93");
            assert_eq!(body[1].snapshot_id, "second");
            assert_eq!(next_token, Some("token".to_string()));
        }
        other => panic!("unexpected response: {:?}", other),
    }
    assert_eq!(page_response(Err(fault())), SnapshotsGetResponse::ServerError(fault()));
}

#[test]
fn get_shows_snapshots_of_sandboxes_only() {
    let record = mock_ready(mock_committed());
    assert_eq!(
        snapshots_snapshot_id_get("x", Ok(Some(record.clone()))),
        SnapshotGetResponse::Snapshot(SnapshotInfo::from(record))
    );
    let missing = SnapshotGetResponse::NotFound(ApiError {
        code: 404,
        message: "snapshot 'x' not found".to_string(),
    });
    assert_eq!(snapshots_snapshot_id_get("x", Ok(Some(template()))), missing);
    assert_eq!(snapshots_snapshot_id_get("x", Ok(None)), missing);
    assert_eq!(
        snapshots_snapshot_id_get("x", Err(fault())),
        SnapshotGetResponse::ServerError(fault())
    );
}

#[test]
fn delete_refuses_templates_and_can_be_repeated() {
    assert_eq!(
        snapshots_snapshot_id_delete("x", Ok(Some(template()))),
        Some(SnapshotDeleteResponse::NamesTemplate(ApiError {
            code: 409,
            message:
                "'x' is a template, not a sandbox snapshot; manage it through the template API"
                    .to_string(),
        }))
    );
    assert_eq!(snapshots_snapshot_id_delete("x", Ok(Some(mock_ready(mock_committed())))), None);
    assert_eq!(snapshots_snapshot_id_delete("x", Ok(None)), None);
    assert_eq!(
        snapshots_snapshot_id_delete("x", Err(fault())),
        Some(SnapshotDeleteResponse::ServerError(fault()))
    );
    assert_eq!(delete_response(Ok(())), SnapshotDeleteResponse::Deleted);
    assert_eq!(delete_response(Err(fault())), SnapshotDeleteResponse::ServerError(fault()));
}

#[test]
fn squash_alias_is_read_first() {
    assert_eq!(snapshots_snapshot_id_squash_post(None), Ok(None));
    let alias = SnapshotAlias { text: "flat".to_string() };
    assert_eq!(snapshots_snapshot_id_squash_post(Some(Ok(alias.clone()))), Ok(Some(alias)));
    assert_eq!(
        snapshots_snapshot_id_squash_post(Some(Err("too long".to_string()))),
        Err(SnapshotSquashResponse::BadRequest(ApiError {
            code: 400,
            message: "invalid snapshot alias: too long".to_string(),
        }))
    );
}

#[test]
fn squash_is_answered_with_the_record_to_go_on_with() {
    let record = mock_ready(mock_committed());
    let info = SnapshotInfo::from(record.clone());
    for outcome in [SquashOutcome::Squashed(record.clone()), SquashOutcome::AlreadyFlat(record)] {
        assert_eq!(
            squash_response("x", Ok(outcome)),
            SnapshotSquashResponse::Published(info.clone())
        );
    }
}

#[test]
fn failed_squash_is_answered_by_what_it_says() {
    let answer = |message: &str| squash_response("x", Err(message.to_string()));
    let error = |code: i32, message: &str| ApiError { code, message: message.to_string() };
    assert_eq!(
        answer("snapshot 'base' not found"),
        SnapshotSquashResponse::NotFound(error(404, "snapshot 'x' not found"))
    );
    let unready = "snapshot 'base' is not ready";
    assert_eq!(answer(unready), SnapshotSquashResponse::BadRequest(error(400, unready)));
    let remote =
        "cannot squash rootfs chain: layer 1 has no local file (remote layers are unsupported)";
    assert_eq!(answer(remote), SnapshotSquashResponse::BadRequest(error(400, remote)));
    let full = "publish squashed snapshot: disk full";
    assert_eq!(answer(full), SnapshotSquashResponse::ServerError(error(500, full)));
    assert_eq!(
        answer("snapshot 'not found' is not ready"),
        SnapshotSquashResponse::NotFound(error(404, "snapshot 'x' not found"))
    );
}
