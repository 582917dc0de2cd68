use agentenv_snapshot::cli::{
    create, list, run, squash, Args, ClientRequest, Format, Presentation, Row, Sub,
};
use agentenv_snapshot::info::SnapshotInfo;
use agentenv_snapshot::time::UtcDateTime;

fn snapshot(id: &str) -> SnapshotInfo {
    let epoch = UtcDateTime { timestamp: 0, subsec_nanos: 0 };
    SnapshotInfo {
        snapshot_id: id.to_string(),
        names: vec![],
        cpu_count: 1,
        memory_mb: 1,
        disk_size_mb: 1,
        created_at: epoch,
        updated_at: epoch,
        image_ref: None,
        rootfs_layer_count: None,
        memory_layer_count: None,
        chain_size_mb: None,
        delta_empty: None,
    }
}

#[test]
fn each_subcommand_asks_for_its_own() {
    let name = Some("n".to_string());
    let (request, presentation) = run(Args {
        cmd: Sub::Create { sandbox_id: "s".to_string(), name: name.clone(), disk_only: true },
    });
    assert_eq!(
        request,
        ClientRequest::CreateSnapshot {
            sandbox_id: "s".to_string(),
            name: name.clone(),
            disk_only: true,
        }
    );
    assert_eq!(presentation, Presentation::Created);
    let (request, presentation) =
        run(Args { cmd: Sub::Squash { snapshot_id: "a".to_string(), name: name.clone() } });
    assert_eq!(
        request,
        ClientRequest::SquashSnapshot { snapshot_id: "a".to_string(), name: name.clone() }
    );
    assert_eq!(presentation, Presentation::Squashed { snapshot_id: "a".to_string(), name });
    let sandbox_id = Some("s".to_string());
    let (request, presentation) = run(Args {
        cmd: Sub::List { sandbox_id: sandbox_id.clone(), output: Some(Format::Json) },
    });
    assert_eq!(request, ClientRequest::ListSnapshots { sandbox_id });
    assert_eq!(presentation, Presentation::Listed { output: Some(Format::Json) });
}

#[test]
fn created_snapshot_is_shown_with_its_image() {
    let mut made = snapshot("018f");
    assert_eq!(create(&made), vec!["Created snapshot 018f".to_string()]);
    made.image_ref = Some("registry.example.com/team/app:agentenv-snapshot-018f".to_string());
    assert_eq!(
        create(&made),
        vec![
            "Created snapshot 018f".to_string(),
            "Image: registry.example.com/team/app:agentenv-snapshot-018f".to_string(),
        ]
    );
}

#[test]
fn flat_squash_is_reported_as_flat() {
    assert_eq!(
        squash("a", &None, &snapshot("a")),
        vec!["Snapshot a chain is already flat; nothing to squash".to_string()]
    );
}

#[test]
fn flat_squash_by_alias_is_reported_as_flat() {
    let mut flat = snapshot("018f");
    flat.names = vec!["other".to_string(), "my-base".to_string()];
    let line = vec!["Snapshot my-base chain is already flat; nothing to squash".to_string()];
    assert_eq!(squash("my-base", &None, &flat), line);
    assert_eq!(squash("my-base", &Some("my-flat".to_string()), &flat), line);
    assert_eq!(
        squash("another", &None, &flat),
        vec!["Squashed into snapshot 018f".to_string()]
    );
}

#[test]
fn alias_that_goes_to_the_twin_is_no_sign_of_a_flat_squash() {
    let mut twin = snapshot("018f");
    twin.names = vec!["my-base".to_string()];
    assert_eq!(
        squash("my-base", &Some("my-base".to_string()), &twin),
        vec!["Squashed into snapshot 018f".to_string()]
    );
}

#[test]
fn squash_is_reported_with_what_is_known() {
    let mut twin = snapshot("b");
    assert_eq!(squash("a", &None, &twin), vec!["Squashed into snapshot b".to_string()]);
    twin.chain_size_mb = Some(120);
    assert_eq!(
        squash("a", &None, &twin),
        vec!["Squashed into snapshot b".to_string(), "Chain size: 120 MiB".to_string()]
    );
    twin.rootfs_layer_count = Some(1);
    assert_eq!(
        squash("a", &None, &twin),
        vec![
            "Squashed into snapshot b".to_string(),
            "Rootfs layers: 1".to_string(),
            "Chain size: 120 MiB".to_string(),
        ]
    );
}

#[test]
fn list_has_a_row_for_each_snapshot() {
    let mut named = snapshot("a");
    named.names = vec!["x".to_string(), "y".to_string()];
    named.image_ref = Some("ref".to_string());
    assert_eq!(
        list(&vec![named, snapshot("b")]),
        vec![
            Row {
                snapshot_id: "a".to_string(),
                names: "x,y".to_string(),
                image_ref: "ref".to_string(),
            },
            Row {
                snapshot_id: "b".to_string(),
                names: "-".to_string(),
                image_ref: "-".to_string(),
            },
        ]
    );
}
