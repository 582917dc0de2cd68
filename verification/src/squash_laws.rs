//! What holds of every squash, whatever the repository and the disk answer.

use crate::image::{
    first_remote, lemma_first_remote, lemma_none_remote, local, remote_error, single_layer, Chain,
    ImageConfigView, LayerView,
};
use crate::manifest::{
    law_with_drives_keeps_the_rest, restored_drives, resumable, sized, AttachedDriveErrorView,
    AttachedDriveView, ManifestView,
};
use crate::path::{absolute, law_join_stays_under_base};
use crate::record::{SnapshotId, SnapshotRecord};
use crate::squash::{
    chain_dir, expects, merged_config_path, merged_layer_path, named, next, planned, rootfs_known, state_wf,
    twin_manifest, twin_metadata, PlanView, SquashEventView, SquashJob, SquashOutcome,
    SquashStateView,
};
use vstd::prelude::*;

verus! {

/// Where a squash is after the given events.
pub open spec fn after(job: SquashJob, events: Seq<SquashEventView>) -> SquashStateView
    decreases events.len(),
{
    if events.len() == 0 {
        SquashStateView::Looking
    } else {
        next(job, after(job, events.drop_last()), events.last())
    }
}

/// Whether each event is what can come of the action before it.
pub open spec fn fits(job: SquashJob, events: Seq<SquashEventView>) -> bool
    decreases events.len(),
{
    events.len() > 0 ==> fits(job, events.drop_last()) && expects(
        after(job, events.drop_last()),
        events.last(),
    )
}

/// How many events may still come.
spec fn rank(state: SquashStateView) -> int {
    match state {
        SquashStateView::Looking => 12,
        SquashStateView::Resolving { .. } => 11,
        SquashStateView::LoadingRootfs { .. } => 10,
        SquashStateView::LoadingMemory { .. } => 9,
        SquashStateView::Staging { .. } => 8,
        SquashStateView::MakingDir { chain, .. } => if chain is Rootfs {
            7
        } else {
            4
        },
        SquashStateView::Merging { chain, .. } => if chain is Rootfs {
            6
        } else {
            3
        },
        SquashStateView::Writing { chain, .. } => if chain is Rootfs {
            5
        } else {
            2
        },
        SquashStateView::Publishing { .. } => 1,
        SquashStateView::Done(_) => 0,
        SquashStateView::Failed { .. } => 0,
    }
}

/// What one event does: it keeps the state well-formed and brings the end closer.
proof fn lemma_step(job: SquashJob, state: SquashStateView, event: SquashEventView)
    requires
        expects(state, event),
        state_wf(state),
    ensures
        state_wf(next(job, state, event)),
        0 <= rank(next(job, state, event)) < rank(state),
{
}

proof fn lemma_run(job: SquashJob, events: Seq<SquashEventView>)
    requires
        fits(job, events),
    ensures
        state_wf(after(job, events)),
        0 <= rank(after(job, events)) <= 12 - events.len(),
    decreases events.len(),
{
    if events.len() > 0 {
        lemma_run(job, events.drop_last());
        lemma_step(job, after(job, events.drop_last()), events.last());
    }
}

/// Every squash is over after at most twelve events.
pub proof fn law_squash_ends(job: SquashJob, events: Seq<SquashEventView>)
    requires
        fits(job, events),
    ensures
        events.len() <= 12,
        events.len() == 12 ==> after(job, events) is Done || after(job, events) is Failed,
{
    lemma_run(job, events);
}

/// Every state that a squash reaches is well-formed.
pub proof fn law_states_are_well_formed(job: SquashJob, events: Seq<SquashEventView>)
    requires
        fits(job, events),
    ensures
        state_wf(after(job, events)),
{
    lemma_run(job, events);
}

/// Whether an event tells of something that was changed on disk or in the repository.
pub open spec fn changes_something(event: SquashEventView) -> bool {
    event is DirMade || event is Merged || event is Written || event is Published
}

/// The record in a state that has one.
spec fn held_record(state: SquashStateView) -> Option<SnapshotRecord> {
    match state {
        SquashStateView::Resolving { record } => Some(record),
        SquashStateView::LoadingRootfs { record, .. } => Some(record),
        SquashStateView::LoadingMemory { record, .. } => Some(record),
        SquashStateView::Staging { record, .. } => Some(record),
        SquashStateView::MakingDir { record, .. } => Some(record),
        SquashStateView::Merging { record, .. } => Some(record),
        SquashStateView::Writing { record, .. } => Some(record),
        SquashStateView::Done(SquashOutcome::AlreadyFlat(record)) => Some(record),
        _ => None,
    }
}

/// Whether a state comes before anything is changed.
spec fn unchanged_so_far(state: SquashStateView) -> bool {
    match state {
        SquashStateView::Looking => true,
        SquashStateView::Resolving { .. } => true,
        SquashStateView::LoadingRootfs { .. } => true,
        SquashStateView::LoadingMemory { .. } => true,
        SquashStateView::Staging { .. } => true,
        SquashStateView::Done(SquashOutcome::AlreadyFlat(_)) => true,
        _ => false,
    }
}

/// What the record in a state has to do with the record found at first.
spec fn stems_from(job: SquashJob, state: SquashStateView, first: SquashEventView) -> bool {
    &&& held_record(state) matches Some(record) ==> first == SquashEventView::Found(Some(record))
    &&& state matches SquashStateView::Publishing { metadata, .. } ==> {
        &&& first matches SquashEventView::Found(Some(record))
        &&& record.committed is Some
        &&& metadata == twin_metadata(job, record)
    }
}

proof fn lemma_step_record(
    job: SquashJob,
    state: SquashStateView,
    event: SquashEventView,
    first: SquashEventView,
)
    requires
        expects(state, event),
        state_wf(state),
        if state is Looking {
            first == event
        } else {
            stems_from(job, state, first)
        },
    ensures
        stems_from(job, next(job, state, event), first),
        !(next(job, state, event) is Looking),
        unchanged_so_far(next(job, state, event)) ==> unchanged_so_far(state)
            && !changes_something(event),
{
}

proof fn lemma_held_record(job: SquashJob, events: Seq<SquashEventView>)
    requires
        fits(job, events),
    ensures
        events.len() > 0 ==> stems_from(job, after(job, events), events[0]),
        events.len() > 0 <==> !(after(job, events) is Looking),
        unchanged_so_far(after(job, events)) ==> forall|i: int|
            0 <= i < events.len() ==> !changes_something(#[trigger] events[i]),
    decreases events.len(),
{
    if events.len() > 0 {
        let before = events.drop_last();
        lemma_held_record(job, before);
        lemma_run(job, before);
        if before.len() > 0 {
            assert(events[0] == before[0]);
        }
        lemma_step_record(job, after(job, before), events.last(), events[0]);
        if unchanged_so_far(after(job, events)) {
            assert forall|i: int| 0 <= i < events.len() implies !changes_something(
                #[trigger] events[i],
            ) by {
                if i < before.len() {
                    assert(before[i] == events[i]);
                }
            }
        }
    }
}

proof fn lemma_names_matter_later(
    job: SquashJob,
    events: Seq<SquashEventView>,
    staging_root: String,
    twin_id: SnapshotId,
)
    requires
        fits(job, events),
        unchanged_so_far(after(job, events)),
    ensures
        fits(named(job, staging_root, twin_id), events),
        after(named(job, staging_root, twin_id), events) == after(job, events),
    decreases events.len(),
{
    if events.len() > 0 {
        let before = events.drop_last();
        lemma_run(job, before);
        lemma_held_record(job, before);
        if before.len() > 0 {
            assert(events[0] == before[0]);
        }
        lemma_step_record(job, after(job, before), events.last(), events[0]);
        lemma_names_matter_later(job, before, staging_root, twin_id);
    }
}

/// The names of the staging directory and the twin matter only once there is something to merge: a
/// squash that is given them then is where it would be if it had had them from the beginning, and
/// one that finds nothing to merge never needs them.
pub proof fn law_names_can_be_drawn_late(
    job: SquashJob,
    events: Seq<SquashEventView>,
    staging_root: String,
    twin_id: SnapshotId,
)
    requires
        fits(job, events),
        after(job, events) is Staging || after(job, events) matches SquashStateView::Done(
            SquashOutcome::AlreadyFlat(_),
        ),
    ensures
        fits(named(job, staging_root, twin_id), events),
        after(named(job, staging_root, twin_id), events) == after(job, events),
{
    lemma_names_matter_later(job, events, staging_root, twin_id);
}

/// Where there is nothing to merge, the outcome is the source record as it was found, and nothing
/// was changed on disk or in the repository.
pub proof fn law_flat_source_is_left_alone(
    job: SquashJob,
    events: Seq<SquashEventView>,
    record: SnapshotRecord,
)
    requires
        fits(job, events),
        after(job, events) == SquashStateView::Done(SquashOutcome::AlreadyFlat(record)),
    ensures
        events[0] == SquashEventView::Found(Some(record)),
        forall|i: int| 0 <= i < events.len() ==> !changes_something(#[trigger] events[i]),
{
    lemma_held_record(job, events);
}

/// Whatever is published is published under the twin's id and alias, and carries the source's
/// settings: the source itself is never published again.
pub proof fn law_only_the_twin_is_published(job: SquashJob, events: Seq<SquashEventView>)
    requires
        fits(job, events),
    ensures
        after(job, events) matches SquashStateView::Publishing { metadata, .. } ==> {
            &&& metadata.id == job.twin_id
            &&& metadata.alias == job.alias
            &&& events[0] matches SquashEventView::Found(Some(source))
            &&& source.committed is Some
            &&& metadata == twin_metadata(job, source)
        },
{
    lemma_held_record(job, events);
}

/// The events of a squash of `record` up to where its layers are known.
pub open spec fn loading_events(
    record: SnapshotRecord,
    manifest: ManifestView,
    mount_paths: Seq<Seq<char>>,
    rootfs: ImageConfigView,
    memory: ImageConfigView,
) -> Seq<SquashEventView> {
    let start = seq![
        SquashEventView::Found(Some(record)),
        SquashEventView::Resolved { manifest, mount_paths },
        SquashEventView::Loaded(rootfs),
    ];
    if manifest.memory is Some {
        start.push(SquashEventView::Loaded(memory))
    } else {
        start
    }
}

/// Where a squash of a committed snapshot is once its layers are known.
proof fn lemma_after_loading(
    job: SquashJob,
    record: SnapshotRecord,
    manifest: ManifestView,
    mount_paths: Seq<Seq<char>>,
    rootfs: ImageConfigView,
    memory: ImageConfigView,
)
    requires
        record.committed is Some,
    ensures
        after(job, loading_events(record, manifest, mount_paths, rootfs, memory)) == planned(
            record,
            (PlanView {
                manifest,
                mount_paths,
                rootfs_lowers: rootfs.lowers,
                memory_lowers: if manifest.memory is Some {
                    memory.lowers
                } else {
                    Seq::empty()
                },
            }),
        ),
{
    let e1 = seq![SquashEventView::Found(Some(record))];
    let e2 = e1.push(SquashEventView::Resolved { manifest, mount_paths });
    let e3 = e2.push(SquashEventView::Loaded(rootfs));
    assert(e1.drop_last() =~= Seq::empty());
    assert(e2.drop_last() =~= e1);
    assert(e3.drop_last() =~= e2);
    assert(after(job, Seq::empty()) is Looking);
    assert(after(job, e1) == (SquashStateView::Resolving { record }));
    assert(after(job, e2) == (SquashStateView::LoadingRootfs { record, manifest, mount_paths }));
    assert(after(job, e3) == rootfs_known(record, manifest, mount_paths, rootfs.lowers));
    let all = loading_events(record, manifest, mount_paths, rootfs, memory);
    if manifest.memory is Some {
        let e4 = e3.push(SquashEventView::Loaded(memory));
        assert(e4.drop_last() =~= e3);
        assert(all =~= e4);
    } else {
        assert(all =~= e3);
    }
}

/// A committed snapshot is found flat exactly where each of its chains has one layer at most,
/// wherever these layers lie.
pub proof fn law_flat_means_single_layers(
    job: SquashJob,
    record: SnapshotRecord,
    manifest: ManifestView,
    mount_paths: Seq<Seq<char>>,
    rootfs: ImageConfigView,
    memory: ImageConfigView,
)
    requires
        record.committed is Some,
    ensures
        after(job, loading_events(record, manifest, mount_paths, rootfs, memory))
            == SquashStateView::Done(SquashOutcome::AlreadyFlat(record)) <==> rootfs.lowers.len()
            <= 1 && (manifest.memory is Some ==> memory.lowers.len() <= 1),
{
    lemma_after_loading(job, record, manifest, mount_paths, rootfs, memory);
}

/// A committed snapshot is refused for its layers exactly where some chain has layers to merge and
/// some layer is not local.
pub proof fn law_remote_layers_are_refused(
    job: SquashJob,
    record: SnapshotRecord,
    manifest: ManifestView,
    mount_paths: Seq<Seq<char>>,
    rootfs: ImageConfigView,
    memory: ImageConfigView,
)
    requires
        record.committed is Some,
    ensures
        ({
            let has_memory = manifest.memory is Some;
            after(job, loading_events(record, manifest, mount_paths, rootfs, memory)) is Failed
                <==> (rootfs.lowers.len() >= 2 || (has_memory && memory.lowers.len() >= 2)) && !(
            all_local(rootfs.lowers) && (has_memory ==> all_local(memory.lowers)))
        }),
{
    lemma_after_loading(job, record, manifest, mount_paths, rootfs, memory);
    lemma_all_local(rootfs.lowers);
    lemma_all_local(memory.lowers);
}

/// Whether all layers are local.
pub open spec fn all_local(layers: Seq<LayerView>) -> bool {
    forall|i: int| 0 <= i < layers.len() ==> local(#[trigger] layers[i])
}

proof fn lemma_all_local(layers: Seq<LayerView>)
    ensures
        all_local(layers) <==> first_remote(layers) == layers.len(),
{
    if all_local(layers) {
        lemma_first_remote(layers, layers.len() as int);
    } else if first_remote(layers) == layers.len() {
        lemma_none_remote(layers);
    }
}

/// Squashing is idempotent: a snapshot whose image configs are such as squashing writes them is
/// found flat, and is its own outcome.
pub proof fn law_squashing_is_idempotent(
    job: SquashJob,
    twin: SnapshotRecord,
    manifest: ManifestView,
    mount_paths: Seq<Seq<char>>,
    rootfs_file: Seq<char>,
    memory_file: Seq<char>,
)
    requires
        twin.committed is Some,
    ensures
        after(
            job,
            loading_events(
                twin,
                manifest,
                mount_paths,
                single_layer(rootfs_file),
                single_layer(memory_file),
            ),
        ) == SquashStateView::Done(SquashOutcome::AlreadyFlat(twin)),
{
    law_flat_means_single_layers(
        job,
        twin,
        manifest,
        mount_paths,
        single_layer(rootfs_file),
        single_layer(memory_file),
    );
}

/// The twin's manifest tells the same of the snapshot as the source's: the sizes of its rootfs and
/// memory, its VM state, whether it can be resumed, and its drives, mounted at their mount paths.
/// A chain that was not merged keeps its config, and one that was has the config written for it.
pub proof fn law_twin_manifest_is_equivalent(job: SquashJob, plan: PlanView)
    requires
        plan.wf(),
    ensures
        twin_manifest(job, plan) matches Ok(twin) ==> {
            let source = plan.manifest;
            &&& resumable(twin) == resumable(source)
            &&& twin.rootfs.virtual_size == source.rootfs.virtual_size
            &&& twin.rootfs.image_config_path == if plan.rootfs_lowers.len() < 2 {
                source.rootfs.image_config_path
            } else {
                merged_config_path(job, Chain::Rootfs)
            }
            &&& resumable(source) ==> twin.vm_state == source.vm_state
                && twin.memory->0.virtual_size == source.memory->0.virtual_size
                && twin.memory->0.image_config_path == if plan.memory_lowers.len() < 2 {
                source.memory->0.image_config_path
            } else {
                merged_config_path(job, Chain::Memory)
            }
            &&& !resumable(source) ==> twin.vm_state is None && twin.memory is None
            &&& twin.attached_drives == Seq::new(
                source.attached_drives.len(),
                |i: int|
                    AttachedDriveView {
                        mount_path: plan.mount_paths[i],
                        ..source.attached_drives[i]
                    },
            )
        },
        twin_manifest(job, plan) is Ok <==> forall|i: int|
            0 <= i < plan.manifest.attached_drives.len() ==> (
            #[trigger] plan.manifest.attached_drives[i]).virtual_size != 0,
{
    let source = plan.manifest;
    let drives = restored_drives(source.attached_drives, plan.mount_paths);
    assert(forall|i: int|
        0 <= i < drives.len() ==> (sized(#[trigger] drives[i])
            <==> source.attached_drives[i].virtual_size != 0));
    law_with_drives_keeps_the_rest(source, drives);
    assert((forall|i: int| 0 <= i < drives.len() ==> sized(#[trigger] drives[i])) <==> (forall|
        i: int,
    |
        0 <= i < source.attached_drives.len() ==> (
        #[trigger] source.attached_drives[i]).virtual_size != 0)) by {
        if forall|i: int| 0 <= i < drives.len() ==> sized(#[trigger] drives[i]) {
            assert forall|i: int| 0 <= i < source.attached_drives.len() implies (
            #[trigger] source.attached_drives[i]).virtual_size != 0 by {
                assert(sized(drives[i]));
            }
        }
    }
    if twin_manifest(job, plan) is Ok {
        let twin = twin_manifest(job, plan)->Ok_0;
        assert(twin.attached_drives =~= Seq::new(
            source.attached_drives.len(),
            |i: int|
                AttachedDriveView {
                    mount_path: plan.mount_paths[i],
                    ..source.attached_drives[i]
                },
        ));
    }
}

/// A squash has published exactly where it ends with a twin, which is the record that came of
/// publishing it. One that failed, or found nothing to merge, has published nothing.
pub proof fn law_success_is_publication(job: SquashJob, events: Seq<SquashEventView>)
    requires
        fits(job, events),
    ensures
        forall|twin: SnapshotRecord| #[trigger]
            is_twin(after(job, events), twin) <==> events.len() > 0 && events.last()
                == SquashEventView::Published(twin),
        !(after(job, events) matches SquashStateView::Done(SquashOutcome::Squashed(_))) ==> forall|
            i: int,
        |
            0 <= i < events.len() ==> !(#[trigger] events[i] is Published),
    decreases events.len(),
{
    if events.len() > 0 {
        let before = events.drop_last();
        law_success_is_publication(job, before);
        lemma_run(job, before);
        lemma_step_end(job, after(job, before), events.last());
        assert forall|i: int| 0 <= i < before.len() implies !(#[trigger] events[i] is Published) by {
            assert(events[i] == before[i]);
        }
    }
}

/// Whether a squash ended with `twin` as the twin.
pub open spec fn is_twin(state: SquashStateView, twin: SnapshotRecord) -> bool {
    state == SquashStateView::Done(SquashOutcome::Squashed(twin))
}

proof fn lemma_step_end(job: SquashJob, state: SquashStateView, event: SquashEventView)
    requires
        expects(state, event),
        state_wf(state),
    ensures
        forall|twin: SnapshotRecord| #[trigger]
            is_twin(next(job, state, event), twin) <==> event == SquashEventView::Published(twin),
{
}

/// The paths that a state makes or writes lie where they should.
spec fn at_own_paths(job: SquashJob, state: SquashStateView) -> bool {
    match state {
        SquashStateView::MakingDir { chain, dir, .. } => dir == chain_dir(job, chain),
        SquashStateView::Merging { chain, dir, layer_path, .. } => dir == chain_dir(job, chain)
            && layer_path == merged_layer_path(job, chain),
        SquashStateView::Writing { chain, config_path, config, .. } => config_path
            == merged_config_path(job, chain) && config.lowers.len() == 1,
        _ => true,
    }
}

proof fn lemma_step_paths(job: SquashJob, state: SquashStateView, event: SquashEventView)
    requires
        expects(state, event),
        state_wf(state),
        at_own_paths(job, state),
    ensures
        at_own_paths(job, next(job, state, event)),
{
}

proof fn lemma_paths(job: SquashJob, events: Seq<SquashEventView>)
    requires
        fits(job, events),
    ensures
        at_own_paths(job, after(job, events)),
    decreases events.len(),
{
    if events.len() > 0 {
        lemma_paths(job, events.drop_last());
        lemma_run(job, events.drop_last());
        lemma_step_paths(job, after(job, events.drop_last()), events.last());
    }
}

/// A squash makes its directories, layers and configs under its staging directory only, and each
/// config that it writes lists one layer.
pub proof fn law_squash_stays_in_staging(job: SquashJob, events: Seq<SquashEventView>)
    requires
        fits(job, events),
        !absolute(job.base_layer_file@),
    ensures
        match after(job, events) {
            SquashStateView::MakingDir { dir, .. } => job.staging_root@.is_prefix_of(dir),
            SquashStateView::Merging { layer_path, .. } => job.staging_root@.is_prefix_of(
                layer_path,
            ),
            SquashStateView::Writing { config_path, config, .. } => job.staging_root@.is_prefix_of(
                config_path,
            ) && config.lowers.len() == 1,
            _ => true,
        },
{
    lemma_paths(job, events);
    lemma_chain_paths(job, Chain::Rootfs);
    lemma_chain_paths(job, Chain::Memory);
}

proof fn lemma_chain_paths(job: SquashJob, chain: Chain)
    requires
        !absolute(job.base_layer_file@),
    ensures
        job.staging_root@.is_prefix_of(chain_dir(job, chain)),
        job.staging_root@.is_prefix_of(merged_layer_path(job, chain)),
        job.staging_root@.is_prefix_of(merged_config_path(job, chain)),
{
    reveal_strlit("rootfs");
    reveal_strlit("memory");
    reveal_strlit("image.json");
    let root = job.staging_root@;
    let dir = chain_dir(job, chain);
    law_join_stays_under_base(root, chain.name());
    law_join_stays_under_base(dir, job.base_layer_file@);
    law_join_stays_under_base(dir, "image.json"@);
    lemma_prefix(root, dir, merged_layer_path(job, chain));
    lemma_prefix(root, dir, merged_config_path(job, chain));
}

proof fn lemma_prefix(a: Seq<char>, b: Seq<char>, c: Seq<char>)
    requires
        a.is_prefix_of(b),
        b.is_prefix_of(c),
    ensures
        a.is_prefix_of(c),
{
    assert(c.subrange(0, a.len() as int) =~= b.subrange(0, a.len() as int));
}

/// Whether the config of a merged chain was written in the course of the events.
pub open spec fn config_written(
    job: SquashJob,
    events: Seq<SquashEventView>,
    chain: Chain,
) -> bool {
    exists|i: int|
        0 <= i < events.len() && #[trigger] events[i] is Written && (after(job, events.take(i))
            matches SquashStateView::Writing { chain: c, config_path, .. } && c == chain
            && config_path == merged_config_path(job, chain))
}

/// The plan in a state that has one.
spec fn held_plan(state: SquashStateView) -> Option<PlanView> {
    match state {
        SquashStateView::Staging { plan, .. } => Some(plan),
        SquashStateView::MakingDir { plan, .. } => Some(plan),
        SquashStateView::Merging { plan, .. } => Some(plan),
        SquashStateView::Writing { plan, .. } => Some(plan),
        _ => None,
    }
}

/// Whether a state lies after the turn of the rootfs chain.
spec fn past_rootfs(state: SquashStateView) -> bool {
    match state {
        SquashStateView::MakingDir { chain, .. } => chain is Memory,
        SquashStateView::Merging { chain, .. } => chain is Memory,
        SquashStateView::Writing { chain, .. } => chain is Memory,
        _ => false,
    }
}

/// A step from a state with a plan keeps the plan, or publishes the manifest that it gives.
proof fn lemma_step_plan(job: SquashJob, state: SquashStateView, event: SquashEventView)
    requires
        expects(state, event),
        state_wf(state),
    ensures
        held_plan(state) is Some ==> match next(job, state, event) {
            SquashStateView::Publishing { manifest, .. } => {
                &&& twin_manifest(job, held_plan(state)->0) == Ok::<
                    ManifestView,
                    AttachedDriveErrorView,
                >(manifest)
                &&& state matches SquashStateView::Writing { chain, plan, .. }
                &&& event is Written
                &&& chain is Rootfs ==> plan.memory_lowers.len() < 2
            },
            SquashStateView::Failed { .. } => true,
            _ => held_plan(next(job, state, event)) == held_plan(state),
        },
        held_plan(state) is None ==> !(next(job, state, event) is Publishing) && !past_rootfs(
            next(job, state, event),
        ),
        past_rootfs(next(job, state, event)) ==> past_rootfs(state) || (state is Staging
            && held_plan(state)->0.rootfs_lowers.len() < 2) || (state matches
            SquashStateView::Writing { chain, .. } && chain is Rootfs && event is Written),
{
}

/// The plan of a squash: the source's manifest as it was resolved, and the layers of the image
/// configs that were loaded.
pub open spec fn plan_of(events: Seq<SquashEventView>) -> PlanView {
    let manifest = events[1]->manifest;
    PlanView {
        manifest,
        mount_paths: events[1]->mount_paths,
        rootfs_lowers: events[2]->Loaded_0.lowers,
        memory_lowers: if manifest.memory is Some {
            events[3]->Loaded_0.lowers
        } else {
            Seq::empty()
        },
    }
}

/// The number of events after which the plan is known.
spec fn planning_events(events: Seq<SquashEventView>) -> int {
    if events[1]->manifest.memory is Some {
        4
    } else {
        3
    }
}

/// What a state holds of the events before it.
spec fn remembers(state: SquashStateView, events: Seq<SquashEventView>) -> bool {
    match state {
        SquashStateView::Looking => events.len() == 0,
        SquashStateView::Resolving { .. } => events.len() == 1,
        SquashStateView::LoadingRootfs { manifest, mount_paths, .. } => events.len() == 2
            && manifest == events[1]->manifest && mount_paths == events[1]->mount_paths,
        SquashStateView::LoadingMemory { manifest, mount_paths, rootfs_lowers, .. } => events.len()
            == 3 && manifest == events[1]->manifest && mount_paths == events[1]->mount_paths
            && rootfs_lowers == events[2]->Loaded_0.lowers && manifest.memory is Some,
        _ => held_plan(state) matches Some(plan) ==> plan == plan_of(events) && events.len()
            >= planning_events(events),
    }
}

proof fn lemma_step_remembers(
    job: SquashJob,
    state: SquashStateView,
    before: Seq<SquashEventView>,
    event: SquashEventView,
)
    requires
        expects(state, event),
        state_wf(state),
        remembers(state, before),
    ensures
        remembers(next(job, state, event), before.push(event)),
{
    let events = before.push(event);
    assert(forall|i: int| 0 <= i < before.len() ==> #[trigger] events[i] == before[i]);
    if held_plan(state) is Some {
        assert(plan_of(events) == plan_of(before));
    }
}

proof fn lemma_remembers(job: SquashJob, events: Seq<SquashEventView>)
    requires
        fits(job, events),
    ensures
        remembers(after(job, events), events),
    decreases events.len(),
{
    if events.len() > 0 {
        let before = events.drop_last();
        lemma_remembers(job, before);
        lemma_run(job, before);
        lemma_step_remembers(job, after(job, before), before, events.last());
        assert(before.push(events.last()) =~= events);
    }
}

/// What was written once the events have come this far.
spec fn written_so_far(job: SquashJob, events: Seq<SquashEventView>) -> bool {
    match after(job, events) {
        SquashStateView::Publishing { manifest, .. } => published_as_planned(
            job,
            events,
            plan_of(events),
            manifest,
        ),
        state => past_rootfs(state) && held_plan(state)->0.rootfs_lowers.len() >= 2
            ==> config_written(job, events, Chain::Rootfs),
    }
}

/// Whether `manifest` is the twin's manifest for `plan`, and each merged chain of it was written.
pub open spec fn published_as_planned(
    job: SquashJob,
    events: Seq<SquashEventView>,
    plan: PlanView,
    manifest: ManifestView,
) -> bool {
    &&& plan.wf()
    &&& twin_manifest(job, plan) == Ok::<ManifestView, AttachedDriveErrorView>(manifest)
    &&& plan.rootfs_lowers.len() >= 2 ==> config_written(job, events, Chain::Rootfs)
    &&& plan.memory_lowers.len() >= 2 ==> config_written(job, events, Chain::Memory)
}

proof fn lemma_written_stays(job: SquashJob, events: Seq<SquashEventView>, chain: Chain)
    requires
        events.len() > 0,
        config_written(job, events.drop_last(), chain),
    ensures
        config_written(job, events, chain),
{
    let before = events.drop_last();
    let i = choose|i: int|
        0 <= i < before.len() && #[trigger] before[i] is Written && (after(job, before.take(i))
            matches SquashStateView::Writing { chain: c, config_path, .. } && c == chain
            && config_path == merged_config_path(job, chain));
    assert(before.take(i) =~= events.take(i));
    assert(events[i] is Written);
}

proof fn lemma_written_now(job: SquashJob, events: Seq<SquashEventView>, chain: Chain)
    requires
        events.len() > 0,
        events.last() is Written,
        after(job, events.drop_last()) matches SquashStateView::Writing { chain: c, .. } && c
            == chain,
        at_own_paths(job, after(job, events.drop_last())),
    ensures
        config_written(job, events, chain),
{
    let i = events.len() - 1;
    assert(events.take(i) =~= events.drop_last());
    assert(events[i] is Written);
}

proof fn lemma_written(job: SquashJob, events: Seq<SquashEventView>)
    requires
        fits(job, events),
    ensures
        written_so_far(job, events),
    decreases events.len(),
{
    if events.len() > 0 {
        let before = events.drop_last();
        let state = after(job, before);
        let event = events.last();
        lemma_written(job, before);
        lemma_run(job, before);
        lemma_run(job, events);
        lemma_paths(job, before);
        lemma_remembers(job, before);
        lemma_step_plan(job, state, event);
        if config_written(job, before, Chain::Rootfs) {
            lemma_written_stays(job, events, Chain::Rootfs);
        }
        if event is Written {
            let chain = state->Writing_chain;
            lemma_written_now(job, events, chain);
        }
        if let SquashStateView::Publishing { manifest, .. } = after(job, events) {
            let plan = held_plan(state)->0;
            assert(plan == plan_of(before));
            assert(plan_of(events) == plan_of(before));
        }
    }
}

/// A twin is published with the manifest that follows from the source's manifest and layers, after
/// the config of each of its merged chains was written where the manifest says.
pub proof fn law_twin_is_written_before_it_is_published(
    job: SquashJob,
    events: Seq<SquashEventView>,
    manifest: ManifestView,
)
    requires
        fits(job, events),
        after(job, events) matches SquashStateView::Publishing { manifest: m, .. } && m == manifest,
    ensures
        published_as_planned(job, events, plan_of(events), manifest),
{
    lemma_written(job, events);
}

proof fn lemma_prefix_fits(job: SquashJob, events: Seq<SquashEventView>, n: int)
    requires
        fits(job, events),
        0 <= n <= events.len(),
    ensures
        fits(job, events.take(n)),
    decreases events.len(),
{
    if n == events.len() {
        assert(events.take(n) =~= events);
    } else {
        lemma_prefix_fits(job, events.drop_last(), n);
        assert(events.drop_last().take(n) =~= events.take(n));
    }
}

/// Whether the events left a chain with a config of `n` layers: the source's own where the chain
/// was not merged, and one that was written for it where it was.
pub open spec fn left_with(
    job: SquashJob,
    events: Seq<SquashEventView>,
    chain: Chain,
    n: nat,
) -> bool {
    if plan_of(events).lowers(chain).len() < 2 {
        n == plan_of(events).lowers(chain).len()
    } else {
        exists|i: int|
            0 <= i < events.len() && #[trigger] events[i] is Written && (after(job, events.take(i))
                matches SquashStateView::Writing { chain: c, config, .. } && c == chain && n
                == config.lowers.len())
    }
}

proof fn lemma_left_flat(job: SquashJob, events: Seq<SquashEventView>, chain: Chain, n: nat)
    requires
        fits(job, events),
        left_with(job, events, chain, n),
    ensures
        n <= 1,
{
    if plan_of(events).lowers(chain).len() >= 2 {
        let i = choose|i: int|
            0 <= i < events.len() && #[trigger] events[i] is Written && (after(job, events.take(i))
                matches SquashStateView::Writing { chain: c, config, .. } && c == chain && n
                == config.lowers.len());
        lemma_prefix_fits(job, events, i);
        lemma_paths(job, events.take(i));
    }
}

/// The twin that a squash has published is flat: a second squash, which loads for each chain as
/// many layers as the first has left it with, changes nothing and has the twin for its outcome.
pub proof fn law_published_twin_is_flat(
    job: SquashJob,
    events: Seq<SquashEventView>,
    twin: SnapshotRecord,
    again: SquashJob,
    manifest: ManifestView,
    mount_paths: Seq<Seq<char>>,
    rootfs: ImageConfigView,
    memory: ImageConfigView,
)
    requires
        fits(job, events),
        is_twin(after(job, events), twin),
        twin.committed is Some,
        left_with(job, events, Chain::Rootfs, rootfs.lowers.len()),
        manifest.memory is Some ==> left_with(job, events, Chain::Memory, memory.lowers.len()),
    ensures
        after(again, loading_events(twin, manifest, mount_paths, rootfs, memory))
            == SquashStateView::Done(SquashOutcome::AlreadyFlat(twin)),
{
    lemma_left_flat(job, events, Chain::Rootfs, rootfs.lowers.len());
    if manifest.memory is Some {
        lemma_left_flat(job, events, Chain::Memory, memory.lowers.len());
    }
    law_flat_means_single_layers(again, twin, manifest, mount_paths, rootfs, memory);
}

proof fn lemma_step_local(job: SquashJob, state: SquashStateView, event: SquashEventView)
    requires
        expects(state, event),
        state_wf(state),
        has_local_plan(state),
    ensures
        has_local_plan(next(job, state, event)),
{
}

/// Whether every layer of a state's plan is local, where it has one.
spec fn has_local_plan(state: SquashStateView) -> bool {
    held_plan(state) matches Some(plan) ==> first_remote(plan.rootfs_lowers)
        == plan.rootfs_lowers.len() && first_remote(plan.memory_lowers) == plan.memory_lowers.len()
}

proof fn lemma_local(job: SquashJob, events: Seq<SquashEventView>)
    requires
        fits(job, events),
    ensures
        has_local_plan(after(job, events)),
    decreases events.len(),
{
    if events.len() > 0 {
        lemma_local(job, events.drop_last());
        lemma_run(job, events.drop_last());
        lemma_step_local(job, after(job, events.drop_last()), events.last());
    }
}

/// Only chains of two or more layers are merged, and only where all these layers are local files.
pub proof fn law_only_local_layers_are_merged(job: SquashJob, events: Seq<SquashEventView>)
    requires
        fits(job, events),
    ensures
        after(job, events) matches SquashStateView::Merging { plan, chain, .. } ==> plan.lowers(
            chain,
        ).len() >= 2 && all_local(plan.lowers(chain)),
{
    lemma_run(job, events);
    lemma_local(job, events);
    if let SquashStateView::Merging { plan, chain, .. } = after(job, events) {
        lemma_none_remote(plan.lowers(chain));
    }
}

/// The layers of a chain as far as its image config was loaded.
pub open spec fn loaded_lowers(events: Seq<SquashEventView>, chain: Chain) -> Seq<LayerView> {
    match chain {
        Chain::Rootfs => events[2]->Loaded_0.lowers,
        Chain::Memory => if events.len() > 3 {
            events[3]->Loaded_0.lowers
        } else {
            Seq::empty()
        },
    }
}

/// A squash that fails on the layers it has loaded names the first layer of a chain that is not
/// local, and does so only where some chain has layers to merge.
pub proof fn law_refusal_names_remote_layer(
    job: SquashJob,
    events: Seq<SquashEventView>,
    message: Seq<char>,
)
    requires
        fits(job, events),
        events.len() > 0,
        events.last() is Loaded,
        after(job, events) == (SquashStateView::Failed { message }),
    ensures
        exists|chain: Chain| #[trigger]
            remote_error(loaded_lowers(events, chain), chain.name()) == Some(message),
        loaded_lowers(events, Chain::Rootfs).len() >= 2 || loaded_lowers(
            events,
            Chain::Memory,
        ).len() >= 2,
{
    let before = events.drop_last();
    lemma_run(job, before);
    lemma_remembers(job, before);
    let state = after(job, before);
    assert(events.last() == events[events.len() - 1]);
    assert(forall|i: int| 0 <= i < before.len() ==> #[trigger] events[i] == before[i]);
    let rootfs = loaded_lowers(events, Chain::Rootfs);
    let memory = loaded_lowers(events, Chain::Memory);
    if state is LoadingRootfs {
        assert(remote_error(Seq::<LayerView>::empty(), Chain::Memory.name()) is None);
        assert(remote_error(rootfs, Chain::Rootfs.name()) == Some(message));
    } else {
        assert(state is LoadingMemory);
        if remote_error(rootfs, Chain::Rootfs.name()) is Some {
            assert(remote_error(rootfs, Chain::Rootfs.name()) == Some(message));
        } else {
            assert(remote_error(memory, Chain::Memory.name()) == Some(message));
        }
    }
}

} // verus!
