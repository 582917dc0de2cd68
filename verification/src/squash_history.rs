//! What a squash does and why it ends, told by what has happened in it.

use crate::image::{
    layer_views, lemma_first_remote, local, remote_error, single_layer, Chain, ImageConfig,
    LayerConfig, LayerView,
};
use crate::manifest::{FirecrackerSnapshotManifest, ManifestView};
use crate::path::joined_path;
use crate::record::{SnapshotId, SnapshotRecord, SnapshotSource};
use crate::squash::{
    chain_dir, expects, merged_config_path, merged_layer_path, named, next, state_wf, twin_manifest,
    twin_metadata, PlanView, SnapshotPublishMetadata, SnapshotPublishSource, SquashEvent,
    SquashEventView, SquashJob, SquashOutcome, SquashPlan, SquashState, SquashStateView,
};
use crate::squash_laws::{after, fits, is_twin, law_states_are_well_formed};
use crate::text::{decimal, optional_view, views, white_space};
use vstd::prelude::*;

verus! {

/// What each state has to do with all events before it.
spec fn told_by(job: SquashJob, state: SquashStateView, events: Seq<SquashEventView>) -> bool {
    match state {
        SquashStateView::Looking => events.len() == 0,
        SquashStateView::Resolving { record } => events.len() == 1 && knows_record(record, events),
        SquashStateView::LoadingRootfs { record, manifest, mount_paths } => events.len() == 2
            && knows_record(record, events) && knows_manifest(manifest, mount_paths, events),
        SquashStateView::LoadingMemory { record, manifest, mount_paths, rootfs_lowers } =>
            events.len() == 3 && knows_record(record, events) && knows_manifest(
                manifest,
                mount_paths,
                events,
            ) && manifest.memory is Some && (events[2] matches SquashEventView::Loaded(config)
                && config.lowers == rootfs_lowers),
        SquashStateView::Staging { record, plan } => knows_record(record, events) && knows_plan(
            plan,
            events,
        ),
        SquashStateView::MakingDir { record, plan, chain, dir } => knows_record(record, events)
            && knows_plan(plan, events) && dir == own_dir(job, chain),
        SquashStateView::Merging { record, plan, chain, dir, layer_path } => knows_record(
            record,
            events,
        ) && knows_plan(plan, events) && dir == own_dir(job, chain) && layer_path == joined_path(
            dir,
            job.base_layer_file@,
        ),
        SquashStateView::Writing { record, plan, chain, config_path, .. } => knows_record(
            record,
            events,
        ) && knows_plan(plan, events) && config_path == joined_path(
            own_dir(job, chain),
            "image.json"@,
        ),
        SquashStateView::Publishing { .. } => events.len() > 2 && (events[0] matches
            SquashEventView::Found(Some(record)) && record.committed is Some) && events[1]
            is Resolved,
        _ => true,
    }
}

spec fn knows_record(record: SnapshotRecord, events: Seq<SquashEventView>) -> bool {
    events.len() > 0 && events[0] == SquashEventView::Found(Some(record)) && record.committed is Some
}

spec fn knows_manifest(
    manifest: ManifestView,
    mount_paths: Seq<Seq<char>>,
    events: Seq<SquashEventView>,
) -> bool {
    events.len() > 1 && events[1] == (SquashEventView::Resolved { manifest, mount_paths })
}

spec fn knows_plan(plan: PlanView, events: Seq<SquashEventView>) -> bool {
    &&& knows_manifest(plan.manifest, plan.mount_paths, events)
    &&& events.len() > 2
    &&& events[2] matches SquashEventView::Loaded(config)
    &&& config.lowers == plan.rootfs_lowers
    &&& if plan.manifest.memory is Some {
        events.len() > 3 && (events[3] matches SquashEventView::Loaded(memory) && memory.lowers
            == plan.memory_lowers)
    } else {
        plan.memory_lowers.len() == 0
    }
}

spec fn own_dir(job: SquashJob, chain: Chain) -> Seq<char> {
    match chain {
        Chain::Rootfs => joined_path(job.staging_root@, "rootfs"@),
        Chain::Memory => joined_path(job.staging_root@, "memory"@),
    }
}

proof fn lemma_step_told(
    job: SquashJob,
    state: SquashStateView,
    before: Seq<SquashEventView>,
    event: SquashEventView,
)
    requires
        expects(state, event),
        state_wf(state),
        told_by(job, state, before),
    ensures
        told_by(job, next(job, state, event), before.push(event)),
{
    let events = before.push(event);
    assert(forall|i: int| 0 <= i < before.len() ==> #[trigger] events[i] == before[i]);
}

proof fn lemma_told(job: SquashJob, events: Seq<SquashEventView>)
    requires
        fits(job, events),
    ensures
        told_by(job, after(job, events), events),
    decreases events.len(),
{
    if events.len() > 0 {
        let before = events.drop_last();
        lemma_told(job, before);
        law_states_are_well_formed(job, before);
        assert(before.push(events.last()) =~= events);
        lemma_step_told(job, after(job, before), before, events.last());
    }
}

/// The config that is written for a merged chain names the file that came of merging that chain,
/// as its one layer and by nothing else. It is written beside that layer, under the chain's name.
pub proof fn law_written_config_names_the_merged_layer(
    job: SquashJob,
    events: Seq<SquashEventView>,
)
    requires
        fits(job, events),
        after(job, events) is Writing,
    ensures
        events.len() > 0,
        after(job, events.drop_last()) is Merging,
        events.last() is Merged && events.last()->Merged_0 is Some,
        after(job, events.drop_last())->Merging_chain == after(job, events)->Writing_chain,
        after(job, events)->config.lowers.len() == 1,
        after(job, events)->config.lowers[0].file == events.last()->Merged_0->0,
        after(job, events)->config.lowers[0].digest.len() == 0,
        after(job, events)->config.lowers[0].size == 0,
        after(job, events)->config.lowers[0].details.len() == 0,
        after(job, events)->config.repo_blob_url.len() == 0,
        after(job, events)->config.upper.len() == 0,
        after(job, events)->config.result_file.len() == 0,
        after(job, events)->config.details.len() == 0,
        after(job, events)->config_path == joined_path(
            joined_path(
                job.staging_root@,
                if after(job, events)->Writing_chain is Rootfs {
                    "rootfs"@
                } else {
                    "memory"@
                },
            ),
            "image.json"@,
        ),
{
    lemma_told(job, events);
    law_states_are_well_formed(job, events.drop_last());
}

/// What is merged for a chain are the layers of the image config that was loaded for it, all of them
/// and in their order, into a file of the repository's name for such layers in the chain's own
/// directory.
pub proof fn law_merge_takes_the_loaded_layers(job: SquashJob, events: Seq<SquashEventView>)
    requires
        fits(job, events),
    ensures
        after(job, events) matches SquashStateView::Merging { plan, chain, dir, layer_path, .. } ==> {
            let source = if chain is Rootfs {
                2int
            } else {
                3int
            };
            let layers = if chain is Rootfs {
                plan.rootfs_lowers
            } else {
                plan.memory_lowers
            };
            &&& events.len() > source && events[source] is Loaded
            &&& layers == events[source]->Loaded_0.lowers
            &&& layers.len() >= 2
            &&& dir == joined_path(
                job.staging_root@,
                if chain is Rootfs {
                    "rootfs"@
                } else {
                    "memory"@
                },
            )
            &&& layer_path == joined_path(dir, job.base_layer_file@)
        },
        after(job, events) matches SquashStateView::MakingDir { chain, dir, .. } ==> dir
            == joined_path(
            job.staging_root@,
            if chain is Rootfs {
                "rootfs"@
            } else {
                "memory"@
            },
        ),
{
    lemma_told(job, events);
    law_states_are_well_formed(job, events);
}

/// A squash works on the snapshot that was found and the manifest that it was resolved to.
pub proof fn law_squash_works_on_what_was_found(job: SquashJob, events: Seq<SquashEventView>)
    requires
        fits(job, events),
    ensures
        after(job, events) matches SquashStateView::Resolving { record } ==> events
            == seq![SquashEventView::Found(Some(record))] && record.committed is Some,
        after(job, events) matches SquashStateView::LoadingRootfs { record, manifest, mount_paths }
            ==> events == seq![
            SquashEventView::Found(Some(record)),
            SquashEventView::Resolved { manifest, mount_paths },
        ],
        after(job, events) matches SquashStateView::LoadingMemory { record, manifest, .. } ==> {
            &&& events.len() == 3
            &&& events[0] == SquashEventView::Found(Some(record))
            &&& events[1] is Resolved && events[1]->manifest == manifest
            &&& manifest.memory is Some
        },
{
    lemma_told(job, events);
    match after(job, events) {
        SquashStateView::Resolving { record } => {
            assert(events =~= seq![SquashEventView::Found(Some(record))]);
        },
        SquashStateView::LoadingRootfs { record, manifest, mount_paths } => {
            assert(events =~= seq![
                SquashEventView::Found(Some(record)),
                SquashEventView::Resolved { manifest, mount_paths },
            ]);
        },
        _ => {},
    }
}

/// In which order a squash does its work: it looks the snapshot up, makes it runnable, loads its
/// rootfs config and, where it has a memory image, the memory config. Then it is over, unless some
/// chain has two layers or more: such chains are merged, the rootfs chain before the memory chain,
/// each by making its directory, merging and writing its config. At last the twin is published.
pub proof fn law_squash_works_in_order(job: SquashJob, events: Seq<SquashEventView>)
    requires
        fits(job, events),
        events.len() > 0,
    ensures
        match (after(job, events.drop_last()), events.last(), after(job, events)) {
            (_, SquashEventView::Failed(_), state) => state is Failed,
            (_, SquashEventView::NotSerialized(_), state) => state is Failed,
            (SquashStateView::Looking, SquashEventView::Found(found), state) => match found {
                Some(record) => if record.committed is Some {
                    state is Resolving
                } else {
                    state is Failed
                },
                None => state is Failed,
            },
            (SquashStateView::Resolving { .. }, _, state) => state is LoadingRootfs,
            (
                SquashStateView::LoadingRootfs { manifest, .. },
                SquashEventView::Loaded(config),
                state,
            ) => if manifest.memory is Some {
                state is LoadingMemory || (state is Failed && config.lowers.len() >= 2)
            } else if config.lowers.len() >= 2 {
                state is Staging || state is Failed
            } else {
                state is Done
            },
            (
                SquashStateView::LoadingMemory { rootfs_lowers, .. },
                SquashEventView::Loaded(config),
                state,
            ) => if rootfs_lowers.len() >= 2 || config.lowers.len() >= 2 {
                state is Staging || state is Failed
            } else {
                state is Done
            },
            (SquashStateView::Staging { plan, .. }, _, state) => state matches
                SquashStateView::MakingDir { chain, .. } && (chain is Rootfs
                <==> plan.rootfs_lowers.len() >= 2),
            (SquashStateView::MakingDir { chain, .. }, _, state) => state matches
                SquashStateView::Merging { chain: c, .. } && c == chain,
            (SquashStateView::Merging { chain, .. }, SquashEventView::Merged(file), state) =>
                if file is Some {
                    state matches SquashStateView::Writing { chain: c, .. } && c == chain
                } else {
                    state is Failed
                },
            (SquashStateView::Writing { plan, chain, .. }, _, state) => if chain is Rootfs
                && plan.memory_lowers.len() >= 2 {
                state matches SquashStateView::MakingDir { chain: c, .. } && c is Memory
            } else {
                state is Publishing || state is Failed
            },
            (SquashStateView::Publishing { .. }, SquashEventView::Published(twin), state) => state
                == SquashStateView::Done(SquashOutcome::Squashed(twin)),
            _ => false,
        },
{
    law_states_are_well_formed(job, events.drop_last());
}

/// Why a squash failed is told in words: what was being done, and why it could not be.
pub proof fn law_failure_is_told_in_words(
    job: SquashJob,
    events: Seq<SquashEventView>,
    message: Seq<char>,
)
    requires
        fits(job, events),
        after(job, events) == (SquashStateView::Failed { message }),
    ensures
        events.len() > 0,
        match (after(job, events.drop_last()), events.last()) {
            (SquashStateView::Looking, SquashEventView::Failed(reason)) => message == reason,
            (SquashStateView::Looking, SquashEventView::Found(None)) => message == "snapshot '"@
                + job.reference@ + "' not found"@,
            (SquashStateView::Looking, SquashEventView::Found(Some(record))) => record.committed
                is None && message == "snapshot '"@ + job.reference@ + "' is not ready"@,
            (SquashStateView::Resolving { .. }, SquashEventView::Failed(reason)) => message
                == reason,
            (SquashStateView::LoadingRootfs { manifest, .. }, SquashEventView::Failed(reason)) =>
                message == "load rootfs image config "@ + manifest.rootfs.image_config_path + ": "@
                    + reason,
            (SquashStateView::LoadingMemory { manifest, .. }, SquashEventView::Failed(reason)) =>
                message == "load memory image config "@ + manifest.memory->0.image_config_path
                    + ": "@ + reason,
            (SquashStateView::LoadingRootfs { .. }, SquashEventView::Loaded(config)) =>
                remote_error(config.lowers, "rootfs"@) == Some(message),
            (
                SquashStateView::LoadingMemory { rootfs_lowers, .. },
                SquashEventView::Loaded(config),
            ) => if remote_error(rootfs_lowers, "rootfs"@) is Some {
                remote_error(rootfs_lowers, "rootfs"@) == Some(message)
            } else {
                remote_error(config.lowers, "memory"@) == Some(message)
            },
            (SquashStateView::Staging { .. }, SquashEventView::Failed(reason)) => message
                == "create squash staging dir "@ + job.staging_root@ + ": "@ + reason,
            (SquashStateView::MakingDir { chain, dir, .. }, SquashEventView::Failed(reason)) =>
                message == "create "@ + label(chain) + " squash dir "@ + dir + ": "@ + reason,
            (SquashStateView::Merging { chain, .. }, SquashEventView::Failed(reason)) => message
                == "merge "@ + label(chain) + " chain into one layer"@ + ": "@ + reason,
            (SquashStateView::Merging { chain, .. }, SquashEventView::Merged(None)) => message
                == label(chain) + " chain merge produced no layer"@,
            (SquashStateView::Writing { chain, .. }, SquashEventView::Failed(reason)) => message
                == "write squashed "@ + label(chain) + " image config"@ + ": "@ + reason,
            (SquashStateView::Writing { chain, .. }, SquashEventView::NotSerialized(reason)) =>
                message == "serialize squashed "@ + label(chain) + " image config"@ + ": "@ + reason,
            (SquashStateView::Writing { plan, .. }, SquashEventView::Written) => exists|i: int|
                0 <= i < plan.manifest.attached_drives.len() && (
                #[trigger] plan.manifest.attached_drives[i]).virtual_size == 0 && message
                    == "build squashed snapshot manifest: snapshot attached drive '"@
                    + plan.manifest.attached_drives[i].drive_id
                    + "' virtual size must be non-zero"@,
            (SquashStateView::Publishing { .. }, SquashEventView::Failed(reason)) => message
                == "publish squashed snapshot: "@ + reason,
            _ => false,
        },
{
    let state = after(job, events.drop_last());
    assert(remote_error(Seq::<LayerView>::empty(), "memory"@) is None);
    law_states_are_well_formed(job, events.drop_last());
    if let (SquashStateView::Writing { plan, .. }, SquashEventView::Written) = (
        state,
        events.last(),
    ) {
        lemma_unusable_drive(job, plan, message);
    }
    if state is Publishing {
        lemma_literal_with_colon_publish();
        if let SquashEventView::Failed(reason) = events.last() {
            assert("publish squashed snapshot"@ + ": "@ + reason
                =~= "publish squashed snapshot: "@ + reason);
        }
    }
}

/// The chain's name.
pub open spec fn label(chain: Chain) -> Seq<char> {
    if chain is Rootfs {
        "rootfs"@
    } else {
        "memory"@
    }
}

proof fn lemma_literal_with_colon_publish()
    ensures
        "publish squashed snapshot"@ + ": "@ == "publish squashed snapshot: "@,
{
    reveal_strlit("publish squashed snapshot");
    reveal_strlit("publish squashed snapshot: ");
    reveal_strlit(": ");
    assert("publish squashed snapshot"@ + ": "@ =~= "publish squashed snapshot: "@);
}

proof fn lemma_unusable_drive(job: SquashJob, plan: PlanView, message: Seq<char>)
    requires
        plan.wf(),
        twin_manifest(job, plan) is Err,
        message == "build squashed snapshot manifest"@ + ": "@ + twin_manifest(
            job,
            plan,
        )->Err_0.message(),
    ensures
        exists|i: int|
            0 <= i < plan.manifest.attached_drives.len() && (
            #[trigger] plan.manifest.attached_drives[i]).virtual_size == 0 && message
                == "build squashed snapshot manifest: snapshot attached drive '"@
                + plan.manifest.attached_drives[i].drive_id + "' virtual size must be non-zero"@,
{
    let drives = crate::manifest::restored_drives(
        plan.manifest.attached_drives,
        plan.mount_paths,
    );
    crate::manifest::lemma_first_unsized_splits(drives);
    let i = crate::manifest::first_unsized(drives);
    assert(!crate::manifest::sized(drives[i]));
    let id = plan.manifest.attached_drives[i].drive_id;
    reveal_strlit("build squashed snapshot manifest");
    reveal_strlit(": ");
    reveal_strlit("snapshot attached drive '");
    reveal_strlit("build squashed snapshot manifest: snapshot attached drive '");
    assert("build squashed snapshot manifest"@ + ": "@ + "snapshot attached drive '"@
        =~= "build squashed snapshot manifest: snapshot attached drive '"@);
    let end = "' virtual size must be non-zero"@;
    assert(message =~= "build squashed snapshot manifest"@ + ": "@ + "snapshot attached drive '"@ + id
        + end);
}

/// The twin is published under its own id and alias, and with all that the source is known by:
/// where it came from, its context, startup, resources, versions, mode, image configs and extension
/// parameters.
pub proof fn law_twin_is_published_with_the_sources_settings(
    job: SquashJob,
    record: SnapshotRecord,
)
    requires
        record.committed is Some,
    ensures
        twin_metadata(job, record).id == job.twin_id,
        twin_metadata(job, record).alias == job.alias,
        record.source is Template ==> twin_metadata(job, record).source is Template,
        record.source matches SnapshotSource::Sandbox { source_sandbox_id } ==> twin_metadata(
            job,
            record,
        ).source == (SnapshotPublishSource::Sandbox { source_sandbox_id }),
        twin_metadata(job, record).context == record.committed->0.context,
        twin_metadata(job, record).startup == record.committed->0.startup,
        twin_metadata(job, record).resources == record.resources,
        twin_metadata(job, record).runtime_versions == record.committed->0.runtime_versions,
        twin_metadata(job, record).virtualization_mode == record.committed->0.virtualization_mode,
        twin_metadata(job, record).image_configs == record.committed->0.image_configs,
        twin_metadata(job, record).custom_extension_params
            == record.committed->0.custom_extension_params,
{
}

/// The twin's manifest, image by image: the config that was written for a chain that was merged and
/// the source's own for one that was not, with the source's sizes and VM state. It is a new
/// manifest of the first format version that says nothing of changes to the disks.
pub proof fn law_twin_manifest_points_at_the_merged_configs(job: SquashJob, plan: PlanView)
    requires
        plan.wf(),
    ensures
        twin_manifest(job, plan) matches Ok(twin) ==> {
            let source = plan.manifest;
            let full = source.vm_state is Some && source.memory is Some;
            &&& twin.version == 1
            &&& twin.delta_empty is None
            &&& twin.rootfs.virtual_size == source.rootfs.virtual_size
            &&& plan.rootfs_lowers.len() < 2 ==> twin.rootfs.image_config_path
                == source.rootfs.image_config_path
            &&& plan.rootfs_lowers.len() >= 2 ==> twin.rootfs.image_config_path == joined_path(
                joined_path(job.staging_root@, "rootfs"@),
                "image.json"@,
            )
            &&& !full ==> twin.vm_state is None && twin.memory is None
            &&& full ==> twin.vm_state == source.vm_state && twin.memory is Some
                && twin.memory->0.virtual_size == source.memory->0.virtual_size
            &&& full && plan.memory_lowers.len() < 2 ==> twin.memory->0.image_config_path
                == source.memory->0.image_config_path
            &&& full && plan.memory_lowers.len() >= 2 ==> twin.memory->0.image_config_path
                == joined_path(joined_path(job.staging_root@, "memory"@), "image.json"@)
            &&& twin.attached_drives.len() == source.attached_drives.len()
            &&& forall|i: int|
                0 <= i < source.attached_drives.len() ==> {
                    let drive = #[trigger] twin.attached_drives[i];
                    &&& drive.drive_id == source.attached_drives[i].drive_id
                    &&& drive.read_only == source.attached_drives[i].read_only
                    &&& drive.mount_path == plan.mount_paths[i]
                    &&& drive.sub_path == source.attached_drives[i].sub_path
                    &&& drive.virtual_size == source.attached_drives[i].virtual_size
                    &&& drive.image_config_path == source.attached_drives[i].image_config_path
                }
        },
{
    crate::squash_laws::law_twin_manifest_is_equivalent(job, plan);
}

/// A layer is local where its file is given by more than white space, and the error of a chain that
/// has another names the first such layer by its number.
pub proof fn law_first_layer_without_a_file_is_named(
    layers: Seq<LayerView>,
    label: Seq<char>,
    i: int,
)
    requires
        0 <= i <= layers.len(),
        forall|k: int|
            0 <= k < i ==> exists|c: int|
                0 <= c < layers[k].file.len() && !white_space(
                    #[trigger] (#[trigger] layers[k]).file[c],
                ),
        i < layers.len() ==> forall|c: int|
            0 <= c < layers[i].file.len() ==> white_space(#[trigger] layers[i].file[c]),
    ensures
        i == layers.len() ==> remote_error(layers, label) is None,
        i < layers.len() ==> remote_error(layers, label) == Some(
            "cannot squash "@ + label + " chain: layer "@ + decimal(i as nat)
                + " has no local file (remote layers are unsupported)"@,
        ),
{
    assert forall|k: int| 0 <= k < i implies local(#[trigger] layers[k]) by {
        let c = choose|c: int|
            0 <= c < layers[k].file.len() && !white_space(#[trigger] layers[k].file[c]);
        assert(!white_space(layers[k].file[c]));
    }
    lemma_first_remote(layers, i);
}

/// The image of one layer has that file for its one layer, and nothing else.
pub proof fn law_single_layer_names_its_file(file: Seq<char>)
    ensures
        single_layer(file).lowers.len() == 1,
        single_layer(file).lowers[0].file == file,
        single_layer(file).lowers[0].digest.len() == 0,
        single_layer(file).lowers[0].size == 0,
        single_layer(file).lowers[0].details.len() == 0,
        single_layer(file).repo_blob_url.len() == 0,
        single_layer(file).upper.len() == 0,
        single_layer(file).result_file.len() == 0,
        single_layer(file).details.len() == 0,
{
}

/// Each chain goes by its own name, has its own directory under the staging directory, and is
/// written as it must be: rootfs layers raw, memory layers as the settings for memory say.
pub proof fn law_chains_are_kept_apart(job: SquashJob, staging_root: String, twin_id: SnapshotId)
    ensures
        Chain::Rootfs.name() == "rootfs"@,
        Chain::Memory.name() == "memory"@,
        Chain::Rootfs.output() is Raw,
        Chain::Memory.output() is MemorySnapshot,
        chain_dir(job, Chain::Rootfs) == joined_path(job.staging_root@, "rootfs"@),
        chain_dir(job, Chain::Memory) == joined_path(job.staging_root@, "memory"@),
        forall|chain: Chain| #[trigger]
            merged_layer_path(job, chain) == joined_path(
                chain_dir(job, chain),
                job.base_layer_file@,
            ),
        forall|chain: Chain| #[trigger]
            merged_config_path(job, chain) == joined_path(chain_dir(job, chain), "image.json"@),
        named(job, staging_root, twin_id).reference == job.reference,
        named(job, staging_root, twin_id).alias == job.alias,
        named(job, staging_root, twin_id).base_layer_file == job.base_layer_file,
        named(job, staging_root, twin_id).staging_root == staging_root,
        named(job, staging_root, twin_id).twin_id == twin_id,
{
}

/// The outcome's record is the twin's or the source's.
pub proof fn law_outcome_holds_its_record(record: SnapshotRecord)
    ensures
        SquashOutcome::Squashed(record).the_record() == record,
        SquashOutcome::AlreadyFlat(record).the_record() == record,
        is_twin(SquashStateView::Done(SquashOutcome::Squashed(record)), record),
        !is_twin(SquashStateView::Done(SquashOutcome::AlreadyFlat(record)), record),
{
}

/// The views of layers and image configs show what they hold.
pub proof fn law_image_views_show_what_they_hold(config: ImageConfig, layers: Seq<LayerConfig>)
    ensures
        config@.repo_blob_url == config.repo_blob_url@,
        config@.lowers == layer_views(config.lowers@),
        config@.upper == config.upper@,
        config@.result_file == config.result_file@,
        config@.details == config.details@,
        layer_views(layers).len() == layers.len(),
        forall|i: int|
            0 <= i < layers.len() ==> {
                let view = #[trigger] layer_views(layers)[i];
                &&& view.file == layers[i].file@
                &&& view.digest == layers[i].digest@
                &&& view.size == layers[i].size
                &&& view.details == layers[i].details@
            },
{
}

/// The views of plans and events show what they hold.
pub proof fn law_squash_event_views_show_what_they_hold(
    plan: SquashPlan,
    found: Option<SnapshotRecord>,
    manifest: FirecrackerSnapshotManifest,
    mount_paths: Vec<String>,
    config: ImageConfig,
    file: Option<String>,
    reason: String,
    record: SnapshotRecord,
)
    ensures
        plan@.manifest == plan.manifest@,
        plan@.mount_paths == views(plan.mount_paths@),
        plan@.rootfs_lowers == layer_views(plan.rootfs_lowers@),
        plan@.memory_lowers == layer_views(plan.memory_lowers@),
        plan@.lowers(Chain::Rootfs) == plan@.rootfs_lowers,
        plan@.lowers(Chain::Memory) == plan@.memory_lowers,
        plan@.flat() <==> plan.rootfs_lowers@.len() <= 1 && plan.memory_lowers@.len() <= 1,
        SquashEvent::Found(found)@ == SquashEventView::Found(found),
        (SquashEvent::Resolved { manifest, mount_paths })@ == (SquashEventView::Resolved {
            manifest: manifest@,
            mount_paths: views(mount_paths@),
        }),
        SquashEvent::Loaded(config)@ == SquashEventView::Loaded(config@),
        SquashEvent::DirMade@ is DirMade,
        SquashEvent::Merged(file)@ == SquashEventView::Merged(optional_view(file)),
        SquashEvent::Written@ is Written,
        (SquashEvent::NotSerialized { reason })@ == SquashEventView::NotSerialized(reason@),
        SquashEvent::Published(record)@ == SquashEventView::Published(record),
        (SquashEvent::Failed { reason })@ == SquashEventView::Failed(reason@),
{
}

/// The views of states show what they hold.
pub proof fn law_squash_state_views_show_what_they_hold(
    record: SnapshotRecord,
    manifest: FirecrackerSnapshotManifest,
    mount_paths: Vec<String>,
    rootfs_lowers: Vec<LayerConfig>,
    plan: SquashPlan,
    chain: Chain,
    dir: String,
    path: String,
    config: ImageConfig,
    metadata: SnapshotPublishMetadata,
    outcome: SquashOutcome,
)
    ensures
        SquashState::Looking@ is Looking,
        (SquashState::Resolving { record })@ == (SquashStateView::Resolving { record }),
        (SquashState::LoadingRootfs { record, manifest, mount_paths })@
            == (SquashStateView::LoadingRootfs {
            record,
            manifest: manifest@,
            mount_paths: views(mount_paths@),
        }),
        (SquashState::LoadingMemory { record, manifest, mount_paths, rootfs_lowers })@
            == (SquashStateView::LoadingMemory {
            record,
            manifest: manifest@,
            mount_paths: views(mount_paths@),
            rootfs_lowers: layer_views(rootfs_lowers@),
        }),
        (SquashState::Staging { record, plan })@ == (SquashStateView::Staging {
            record,
            plan: plan@,
        }),
        (SquashState::MakingDir { record, plan, chain, dir })@ == (SquashStateView::MakingDir {
            record,
            plan: plan@,
            chain,
            dir: dir@,
        }),
        (SquashState::Merging { record, plan, chain, dir, layer_path: path })@
            == (SquashStateView::Merging {
            record,
            plan: plan@,
            chain,
            dir: dir@,
            layer_path: path@,
        }),
        (SquashState::Writing { record, plan, chain, config_path: path, config })@
            == (SquashStateView::Writing {
            record,
            plan: plan@,
            chain,
            config_path: path@,
            config: config@,
        }),
        (SquashState::Publishing { metadata, manifest })@ == (SquashStateView::Publishing {
            metadata,
            manifest: manifest@,
        }),
        SquashState::Done(outcome)@ == SquashStateView::Done(outcome),
        (SquashState::Failed { message: dir })@ == (SquashStateView::Failed { message: dir@ }),
{
}

} // verus!
