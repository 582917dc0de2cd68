//! Squashing: merging a snapshot's chains of layers into single layers.
//!
//! A capture can compact only the layers that its own sandbox has made: those inherited from the
//! snapshot it was launched from are shared and never change. So chains grow from generation to
//! generation. Squashing merges the whole chain of a committed snapshot into one layer and
//! publishes the result as a new snapshot. The source snapshot is left as it is.
//!
//! [`SquashRun`] holds how far a squash has come. [`SquashRun::action`] says what is to be done
//! next in the repository or on disk, and [`SquashRun::advance`] takes what came of it. The chains
//! of attached drives are not squashed.
//!
//! A snapshot whose chains have one layer at most is flat already and its own outcome, wherever its
//! layers lie. Only where there is something to merge must all layers be local files.

use crate::image::{
    layer_views, local_lowers, remote_error, remote_message, single_layer, single_layer_config,
    Chain, CompactOutput, ImageConfig, ImageConfigView, LayerConfig, LayerView,
};
use crate::manifest::{
    bare_manifest, restored_drives, with_drives, AttachedDriveError, AttachedDriveErrorView,
    FirecrackerSnapshotManifest, ImageView, ManifestView,
};
use crate::path::{join_path, joined_path};
use crate::record::{
    SnapshotAlias, SnapshotId, SnapshotRecord, SnapshotResources, SnapshotSource,
    VirtualizationMode,
};
use crate::cold_start::StartupCommand;
use crate::text::views;
use vstd::prelude::*;
use vstd::string::*;

verus! {

broadcast use group_string_axioms;

/// Outcome of a squash request.
#[derive(Clone, Debug, PartialEq, Eq)]
pub enum SquashOutcome {
    /// A squashed twin was published.
    Squashed(SnapshotRecord),
    /// The source's chains were single layers already; there was nothing to merge.
    AlreadyFlat(SnapshotRecord),
}

impl SquashOutcome {
    /// The record to go on with.
    pub open spec fn the_record(self) -> SnapshotRecord {
        match self {
            SquashOutcome::Squashed(record) => record,
            SquashOutcome::AlreadyFlat(record) => record,
        }
    }

    /// The record to go on with: the twin's, or the source's where there was nothing to merge.
    pub fn record(self) -> (r: SnapshotRecord)
        ensures
            r == self.the_record(),
    {
        match self {
            SquashOutcome::Squashed(record) => record,
            SquashOutcome::AlreadyFlat(record) => record,
        }
    }
}

/// What a published snapshot says it was made from.
#[derive(Clone, Debug, PartialEq, Eq)]
pub enum SnapshotPublishSource {
    Sandbox { source_sandbox_id: String },
    Template,
}

/// What a snapshot is published with, besides its manifest.
#[derive(Clone, Debug, PartialEq, Eq)]
pub struct SnapshotPublishMetadata {
    pub id: SnapshotId,
    pub alias: Option<SnapshotAlias>,
    pub source: SnapshotPublishSource,
    pub context: String,
    pub startup: Option<StartupCommand>,
    pub resources: SnapshotResources,
    pub runtime_versions: String,
    pub virtualization_mode: VirtualizationMode,
    pub image_configs: String,
    pub custom_extension_params: String,
}

/// A squash to be done.
#[derive(Clone, Debug, PartialEq, Eq)]
pub struct SquashJob {
    /// The id or alias of the snapshot to squash.
    pub reference: String,
    /// The alias for the twin.
    pub alias: Option<SnapshotAlias>,
    /// The id for the twin.
    pub twin_id: SnapshotId,
    /// The directory for merged layers, which is the job's own.
    pub staging_root: String,
    /// The file name that the repository knows a self-contained base layer by.
    pub base_layer_file: String,
}

/// A job with the given names for its staging directory and its twin.
pub open spec fn named(job: SquashJob, staging_root: String, twin_id: SnapshotId) -> SquashJob {
    SquashJob { staging_root, twin_id, ..job }
}

/// What the merging and publishing of a squash works on.
#[derive(Debug)]
pub struct SquashPlan {
    /// The source's manifest.
    pub manifest: FirecrackerSnapshotManifest,
    /// Where each attached drive of the manifest is mounted.
    pub mount_paths: Vec<String>,
    pub rootfs_lowers: Vec<LayerConfig>,
    pub memory_lowers: Vec<LayerConfig>,
}

/// What a [`SquashPlan`] holds.
#[verifier::ext_equal]
pub struct PlanView {
    pub manifest: ManifestView,
    pub mount_paths: Seq<Seq<char>>,
    pub rootfs_lowers: Seq<LayerView>,
    pub memory_lowers: Seq<LayerView>,
}

impl View for SquashPlan {
    type V = PlanView;

    open spec fn view(&self) -> PlanView {
        PlanView {
            manifest: self.manifest@,
            mount_paths: views(self.mount_paths@),
            rootfs_lowers: layer_views(self.rootfs_lowers@),
            memory_lowers: layer_views(self.memory_lowers@),
        }
    }
}

impl PlanView {
    /// The layers of a chain.
    pub open spec fn lowers(self, chain: Chain) -> Seq<LayerView> {
        match chain {
            Chain::Rootfs => self.rootfs_lowers,
            Chain::Memory => self.memory_lowers,
        }
    }

    /// Whether no chain has layers to merge.
    pub open spec fn flat(self) -> bool {
        self.rootfs_lowers.len() <= 1 && self.memory_lowers.len() <= 1
    }

    /// Every drive has a mount path, and only a snapshot with a memory image has memory layers.
    pub open spec fn wf(self) -> bool {
        &&& self.mount_paths.len() == self.manifest.attached_drives.len()
        &&& self.manifest.memory is None ==> self.memory_lowers.len() == 0
    }
}

/// How far a squash has come.
#[derive(Debug)]
pub enum SquashState {
    /// The snapshot is to be looked up.
    Looking,
    /// The snapshot is to be made runnable on this node.
    Resolving { record: SnapshotRecord },
    /// The rootfs image config is to be loaded.
    LoadingRootfs {
        record: SnapshotRecord,
        manifest: FirecrackerSnapshotManifest,
        mount_paths: Vec<String>,
    },
    /// The memory image config is to be loaded.
    LoadingMemory {
        record: SnapshotRecord,
        manifest: FirecrackerSnapshotManifest,
        mount_paths: Vec<String>,
        rootfs_lowers: Vec<LayerConfig>,
    },
    /// The staging directory is to be made.
    Staging { record: SnapshotRecord, plan: SquashPlan },
    /// The directory for a chain's merged layer is to be made.
    MakingDir { record: SnapshotRecord, plan: SquashPlan, chain: Chain, dir: String },
    /// A chain is to be merged into one layer.
    Merging {
        record: SnapshotRecord,
        plan: SquashPlan,
        chain: Chain,
        dir: String,
        layer_path: String,
    },
    /// The config of a merged chain is to be written.
    Writing {
        record: SnapshotRecord,
        plan: SquashPlan,
        chain: Chain,
        config_path: String,
        config: ImageConfig,
    },
    /// The twin is to be published.
    Publishing { metadata: SnapshotPublishMetadata, manifest: FirecrackerSnapshotManifest },
    /// The squash is done.
    Done(SquashOutcome),
    /// The squash has failed.
    Failed { message: String },
}

/// What a [`SquashState`] holds.
pub enum SquashStateView {
    Looking,
    Resolving { record: SnapshotRecord },
    LoadingRootfs { record: SnapshotRecord, manifest: ManifestView, mount_paths: Seq<Seq<char>> },
    LoadingMemory {
        record: SnapshotRecord,
        manifest: ManifestView,
        mount_paths: Seq<Seq<char>>,
        rootfs_lowers: Seq<LayerView>,
    },
    Staging { record: SnapshotRecord, plan: PlanView },
    MakingDir { record: SnapshotRecord, plan: PlanView, chain: Chain, dir: Seq<char> },
    Merging {
        record: SnapshotRecord,
        plan: PlanView,
        chain: Chain,
        dir: Seq<char>,
        layer_path: Seq<char>,
    },
    Writing {
        record: SnapshotRecord,
        plan: PlanView,
        chain: Chain,
        config_path: Seq<char>,
        config: ImageConfigView,
    },
    Publishing { metadata: SnapshotPublishMetadata, manifest: ManifestView },
    Done(SquashOutcome),
    Failed { message: Seq<char> },
}

impl View for SquashState {
    type V = SquashStateView;

    open spec fn view(&self) -> SquashStateView {
        match *self {
            SquashState::Looking => SquashStateView::Looking,
            SquashState::Resolving { record } => SquashStateView::Resolving { record },
            SquashState::LoadingRootfs { record, manifest, mount_paths } =>
                SquashStateView::LoadingRootfs {
                    record,
                    manifest: manifest@,
                    mount_paths: views(mount_paths@),
                },
            SquashState::LoadingMemory { record, manifest, mount_paths, rootfs_lowers } =>
                SquashStateView::LoadingMemory {
                    record,
                    manifest: manifest@,
                    mount_paths: views(mount_paths@),
                    rootfs_lowers: layer_views(rootfs_lowers@),
                },
            SquashState::Staging { record, plan } => SquashStateView::Staging {
                record,
                plan: plan@,
            },
            SquashState::MakingDir { record, plan, chain, dir } => SquashStateView::MakingDir {
                record,
                plan: plan@,
                chain,
                dir: dir@,
            },
            SquashState::Merging { record, plan, chain, dir, layer_path } =>
                SquashStateView::Merging {
                    record,
                    plan: plan@,
                    chain,
                    dir: dir@,
                    layer_path: layer_path@,
                },
            SquashState::Writing { record, plan, chain, config_path, config } =>
                SquashStateView::Writing {
                    record,
                    plan: plan@,
                    chain,
                    config_path: config_path@,
                    config: config@,
                },
            SquashState::Publishing { metadata, manifest } => SquashStateView::Publishing {
                metadata,
                manifest: manifest@,
            },
            SquashState::Done(outcome) => SquashStateView::Done(outcome),
            SquashState::Failed { message } => SquashStateView::Failed { message: message@ },
        }
    }
}

/// What came of an action.
#[derive(Debug)]
pub enum SquashEvent {
    /// The snapshot was looked up; `None` where there is none.
    Found(Option<SnapshotRecord>),
    /// The snapshot was made runnable. `mount_paths` says where each attached drive of its
    /// manifest is mounted.
    Resolved { manifest: FirecrackerSnapshotManifest, mount_paths: Vec<String> },
    /// An image config was loaded.
    Loaded(ImageConfig),
    /// A directory was made.
    DirMade,
    /// A chain was merged into the layer in this file; `None` where no layer came of it.
    Merged(Option<String>),
    /// A config was written.
    Written,
    /// A config could not be turned into bytes.
    NotSerialized { reason: String },
    /// The twin was published.
    Published(SnapshotRecord),
    /// The action failed.
    Failed { reason: String },
}

/// What a [`SquashEvent`] holds.
pub enum SquashEventView {
    Found(Option<SnapshotRecord>),
    Resolved { manifest: ManifestView, mount_paths: Seq<Seq<char>> },
    Loaded(ImageConfigView),
    DirMade,
    Merged(Option<Seq<char>>),
    Written,
    NotSerialized(Seq<char>),
    Published(SnapshotRecord),
    Failed(Seq<char>),
}

impl View for SquashEvent {
    type V = SquashEventView;

    open spec fn view(&self) -> SquashEventView {
        match *self {
            SquashEvent::Found(record) => SquashEventView::Found(record),
            SquashEvent::Resolved { manifest, mount_paths } => SquashEventView::Resolved {
                manifest: manifest@,
                mount_paths: views(mount_paths@),
            },
            SquashEvent::Loaded(config) => SquashEventView::Loaded(config@),
            SquashEvent::DirMade => SquashEventView::DirMade,
            SquashEvent::Merged(file) => SquashEventView::Merged(
                crate::text::optional_view(file),
            ),
            SquashEvent::Written => SquashEventView::Written,
            SquashEvent::NotSerialized { reason } => SquashEventView::NotSerialized(reason@),
            SquashEvent::Published(record) => SquashEventView::Published(record),
            SquashEvent::Failed { reason } => SquashEventView::Failed(reason@),
        }
    }
}

/// What is to be done next.
#[derive(Debug)]
pub enum SquashAction<'a> {
    /// Look this snapshot up.
    Lookup(&'a String),
    /// Make this snapshot runnable on this node.
    Resolve(&'a SnapshotRecord),
    /// Load the image config at this path.
    LoadConfig(&'a String),
    /// Make this directory, and those above it.
    MakeDir(&'a String),
    /// Merge these layers into one, in the file `output`.
    Merge { lowers: &'a Vec<LayerConfig>, output: &'a String, mode: CompactOutput },
    /// Write this config to this path.
    WriteConfig { path: &'a String, config: &'a ImageConfig },
    /// Publish a snapshot.
    Publish { metadata: &'a SnapshotPublishMetadata, manifest: &'a FirecrackerSnapshotManifest },
    /// Nothing: the squash is over.
    Finish,
}

/// The directory for a chain's merged layer.
pub open spec fn chain_dir(job: SquashJob, chain: Chain) -> Seq<char> {
    joined_path(job.staging_root@, chain.name())
}

/// The file for a chain's merged layer.
pub open spec fn merged_layer_path(job: SquashJob, chain: Chain) -> Seq<char> {
    joined_path(chain_dir(job, chain), job.base_layer_file@)
}

/// The path of the config of a merged chain.
pub open spec fn merged_config_path(job: SquashJob, chain: Chain) -> Seq<char> {
    joined_path(chain_dir(job, chain), "image.json"@)
}

/// The path of the config that a twin is published with, for a chain whose config lies at
/// `source`: a chain of fewer than two layers keeps it.
pub open spec fn twin_config_path(
    job: SquashJob,
    plan: PlanView,
    chain: Chain,
    source: Seq<char>,
) -> Seq<char> {
    if plan.lowers(chain).len() < 2 {
        source
    } else {
        merged_config_path(job, chain)
    }
}

/// The manifest of the twin.
pub open spec fn twin_manifest(job: SquashJob, plan: PlanView) -> Result<
    ManifestView,
    AttachedDriveErrorView,
> {
    let source = plan.manifest;
    let rootfs = ImageView {
        image_config_path: twin_config_path(
            job,
            plan,
            Chain::Rootfs,
            source.rootfs.image_config_path,
        ),
        virtual_size: source.rootfs.virtual_size,
    };
    let drives = restored_drives(source.attached_drives, plan.mount_paths);
    match (source.vm_state, source.memory) {
        (Some(vm_state), Some(memory)) => {
            let twin_memory = ImageView {
                image_config_path: twin_config_path(
                    job,
                    plan,
                    Chain::Memory,
                    memory.image_config_path,
                ),
                virtual_size: memory.virtual_size,
            };
            with_drives(bare_manifest(Some(vm_state), Some(twin_memory), rootfs), drives)
        },
        _ => with_drives(bare_manifest(None, None, rootfs), drives),
    }
}

/// What the twin of `record` is published with.
pub open spec fn twin_metadata(job: SquashJob, record: SnapshotRecord) -> SnapshotPublishMetadata {
    let committed = record.committed->0;
    SnapshotPublishMetadata {
        id: job.twin_id,
        alias: job.alias,
        source: match record.source {
            SnapshotSource::Sandbox { source_sandbox_id } => SnapshotPublishSource::Sandbox {
                source_sandbox_id,
            },
            SnapshotSource::Template { .. } => SnapshotPublishSource::Template,
        },
        context: committed.context,
        startup: committed.startup,
        resources: record.resources,
        runtime_versions: committed.runtime_versions,
        virtualization_mode: committed.virtualization_mode,
        image_configs: committed.image_configs,
        custom_extension_params: committed.custom_extension_params,
    }
}

/// The error of a snapshot that is not there.
pub open spec fn not_found_error(reference: Seq<char>) -> Seq<char> {
    "snapshot '"@ + reference + "' not found"@
}

/// The error of a snapshot that is not committed yet.
pub open spec fn not_ready_error(reference: Seq<char>) -> Seq<char> {
    "snapshot '"@ + reference + "' is not ready"@
}

/// An error with what was being done when it came.
pub open spec fn in_context(context: Seq<char>, reason: Seq<char>) -> Seq<char> {
    context + ": "@ + reason
}

/// What the state holds together.
pub open spec fn state_wf(state: SquashStateView) -> bool {
    match state {
        SquashStateView::Resolving { record } => record.committed is Some,
        SquashStateView::LoadingRootfs { record, manifest, mount_paths } => record.committed is Some
            && mount_paths.len() == manifest.attached_drives.len(),
        SquashStateView::LoadingMemory { record, manifest, mount_paths, .. } =>
            record.committed is Some && mount_paths.len() == manifest.attached_drives.len()
                && manifest.memory is Some,
        SquashStateView::Staging { record, plan } => record.committed is Some && plan.wf()
            && !plan.flat(),
        SquashStateView::MakingDir { record, plan, chain, .. } => record.committed is Some
            && plan.wf() && plan.lowers(chain).len() >= 2,
        SquashStateView::Merging { record, plan, chain, .. } => record.committed is Some
            && plan.wf() && plan.lowers(chain).len() >= 2,
        SquashStateView::Writing { record, plan, chain, .. } => record.committed is Some
            && plan.wf() && plan.lowers(chain).len() >= 2,
        _ => true,
    }
}

/// Whether `event` is what can come of the action of `state`.
pub open spec fn expects(state: SquashStateView, event: SquashEventView) -> bool {
    match state {
        SquashStateView::Looking => event is Found || event is Failed,
        SquashStateView::Resolving { .. } => event is Failed || (
        event matches SquashEventView::Resolved { manifest, mount_paths } && mount_paths.len()
            == manifest.attached_drives.len()),
        SquashStateView::LoadingRootfs { .. } => event is Loaded || event is Failed,
        SquashStateView::LoadingMemory { .. } => event is Loaded || event is Failed,
        SquashStateView::Staging { .. } => event is DirMade || event is Failed,
        SquashStateView::MakingDir { .. } => event is DirMade || event is Failed,
        SquashStateView::Merging { .. } => event is Merged || event is Failed,
        SquashStateView::Writing { .. } => event is Written || event is NotSerialized
            || event is Failed,
        SquashStateView::Publishing { .. } => event is Published || event is Failed,
        SquashStateView::Done(_) => false,
        SquashStateView::Failed { .. } => false,
    }
}

/// Where a squash is once all layers are known: done where there is nothing to merge, wherever the
/// layers lie, and refused where there is and a layer is not local.
pub open spec fn planned(record: SnapshotRecord, plan: PlanView) -> SquashStateView {
    if plan.flat() {
        SquashStateView::Done(SquashOutcome::AlreadyFlat(record))
    } else if remote_error(plan.rootfs_lowers, Chain::Rootfs.name()) is Some {
        SquashStateView::Failed {
            message: remote_error(plan.rootfs_lowers, Chain::Rootfs.name())->0,
        }
    } else if remote_error(plan.memory_lowers, Chain::Memory.name()) is Some {
        SquashStateView::Failed {
            message: remote_error(plan.memory_lowers, Chain::Memory.name())->0,
        }
    } else {
        SquashStateView::Staging { record, plan }
    }
}

/// Where a squash is once the rootfs layers are known. A chain that must be merged is tested at
/// once; one that need not be waits until it is known whether the memory chain must.
pub open spec fn rootfs_known(
    record: SnapshotRecord,
    manifest: ManifestView,
    mount_paths: Seq<Seq<char>>,
    rootfs_lowers: Seq<LayerView>,
) -> SquashStateView {
    if rootfs_lowers.len() >= 2 && remote_error(rootfs_lowers, Chain::Rootfs.name()) is Some {
        SquashStateView::Failed {
            message: remote_error(rootfs_lowers, Chain::Rootfs.name())->0,
        }
    } else if manifest.memory is Some {
        SquashStateView::LoadingMemory { record, manifest, mount_paths, rootfs_lowers }
    } else {
        planned(
            record,
            PlanView { manifest, mount_paths, rootfs_lowers, memory_lowers: Seq::empty() },
        )
    }
}

/// Where a squash is once all chains are merged.
pub open spec fn merged(job: SquashJob, record: SnapshotRecord, plan: PlanView) -> SquashStateView {
    match twin_manifest(job, plan) {
        Ok(manifest) => SquashStateView::Publishing {
            metadata: twin_metadata(job, record),
            manifest,
        },
        Err(error) => SquashStateView::Failed {
            message: in_context("build squashed snapshot manifest"@, error.message()),
        },
    }
}

/// Where a squash is when it is a chain's turn: only a chain of two or more layers is merged, and
/// the memory chain comes after the rootfs chain.
pub open spec fn turn(
    job: SquashJob,
    record: SnapshotRecord,
    plan: PlanView,
    chain: Chain,
) -> SquashStateView {
    if plan.lowers(chain).len() >= 2 {
        SquashStateView::MakingDir { record, plan, chain, dir: chain_dir(job, chain) }
    } else {
        after_turn(job, record, plan, chain)
    }
}

/// Where a squash is after a chain's turn.
pub open spec fn after_turn(
    job: SquashJob,
    record: SnapshotRecord,
    plan: PlanView,
    chain: Chain,
) -> SquashStateView {
    if chain is Rootfs && plan.memory_lowers.len() >= 2 {
        SquashStateView::MakingDir {
            record,
            plan,
            chain: Chain::Memory,
            dir: chain_dir(job, Chain::Memory),
        }
    } else {
        merged(job, record, plan)
    }
}

/// What `state` turns into by `event`, where it expects it.
pub open spec fn next(
    job: SquashJob,
    state: SquashStateView,
    event: SquashEventView,
) -> SquashStateView {
    match (state, event) {
        (SquashStateView::Looking, SquashEventView::Found(None)) => SquashStateView::Failed {
            message: not_found_error(job.reference@),
        },
        (SquashStateView::Looking, SquashEventView::Found(Some(record))) => if record.committed
            is None {
            SquashStateView::Failed { message: not_ready_error(job.reference@) }
        } else {
            SquashStateView::Resolving { record }
        },
        (SquashStateView::Looking, SquashEventView::Failed(reason)) => SquashStateView::Failed {
            message: reason,
        },
        (
            SquashStateView::Resolving { record },
            SquashEventView::Resolved { manifest, mount_paths },
        ) => SquashStateView::LoadingRootfs { record, manifest, mount_paths },
        (SquashStateView::Resolving { .. }, SquashEventView::Failed(reason)) =>
            SquashStateView::Failed { message: reason },
        (
            SquashStateView::LoadingRootfs { record, manifest, mount_paths },
            SquashEventView::Loaded(config),
        ) => rootfs_known(record, manifest, mount_paths, config.lowers),
        (SquashStateView::LoadingRootfs { manifest, .. }, SquashEventView::Failed(reason)) =>
            SquashStateView::Failed {
                message: in_context(
                    "load rootfs image config "@ + manifest.rootfs.image_config_path,
                    reason,
                ),
            },
        (
            SquashStateView::LoadingMemory { record, manifest, mount_paths, rootfs_lowers },
            SquashEventView::Loaded(config),
        ) => planned(
            record,
            PlanView { manifest, mount_paths, rootfs_lowers, memory_lowers: config.lowers },
        ),
        (SquashStateView::LoadingMemory { manifest, .. }, SquashEventView::Failed(reason)) =>
            SquashStateView::Failed {
                message: in_context(
                    "load memory image config "@ + manifest.memory->0.image_config_path,
                    reason,
                ),
            },
        (SquashStateView::Staging { record, plan }, SquashEventView::DirMade) => turn(
            job,
            record,
            plan,
            Chain::Rootfs,
        ),
        (SquashStateView::Staging { .. }, SquashEventView::Failed(reason)) =>
            SquashStateView::Failed {
                message: in_context("create squash staging dir "@ + job.staging_root@, reason),
            },
        (SquashStateView::MakingDir { record, plan, chain, dir }, SquashEventView::DirMade) =>
            SquashStateView::Merging {
                record,
                plan,
                chain,
                dir,
                layer_path: joined_path(dir, job.base_layer_file@),
            },
        (SquashStateView::MakingDir { chain, dir, .. }, SquashEventView::Failed(reason)) =>
            SquashStateView::Failed {
                message: in_context(
                    "create "@ + chain.name() + " squash dir "@ + dir,
                    reason,
                ),
            },
        (
            SquashStateView::Merging { record, plan, chain, dir, .. },
            SquashEventView::Merged(Some(file)),
        ) => SquashStateView::Writing {
            record,
            plan,
            chain,
            config_path: joined_path(dir, "image.json"@),
            config: single_layer(file),
        },
        (SquashStateView::Merging { chain, .. }, SquashEventView::Merged(None)) =>
            SquashStateView::Failed { message: chain.name() + " chain merge produced no layer"@ },
        (SquashStateView::Merging { chain, .. }, SquashEventView::Failed(reason)) =>
            SquashStateView::Failed {
                message: in_context("merge "@ + chain.name() + " chain into one layer"@, reason),
            },
        (SquashStateView::Writing { record, plan, chain, .. }, SquashEventView::Written) =>
            after_turn(job, record, plan, chain),
        (SquashStateView::Writing { chain, .. }, SquashEventView::NotSerialized(reason)) =>
            SquashStateView::Failed {
                message: in_context(
                    "serialize squashed "@ + chain.name() + " image config"@,
                    reason,
                ),
            },
        (SquashStateView::Writing { chain, .. }, SquashEventView::Failed(reason)) =>
            SquashStateView::Failed {
                message: in_context("write squashed "@ + chain.name() + " image config"@, reason),
            },
        (SquashStateView::Publishing { .. }, SquashEventView::Published(record)) =>
            SquashStateView::Done(SquashOutcome::Squashed(record)),
        (SquashStateView::Publishing { .. }, SquashEventView::Failed(reason)) =>
            SquashStateView::Failed { message: in_context("publish squashed snapshot"@, reason) },
        _ => state,
    }
}

fn with_context(context: String, reason: &str) -> (r: String)
    ensures
        r@ == in_context(context@, reason@),
{
    context.concat(": ").concat(reason)
}

fn failed_in(context: String, reason: &str) -> (r: SquashState)
    ensures
        r@ == (SquashStateView::Failed { message: in_context(context@, reason@) }),
{
    SquashState::Failed { message: with_context(context, reason) }
}

fn plan_state(record: SnapshotRecord, plan: SquashPlan) -> (r: SquashState)
    ensures
        r@ == planned(record, plan@),
{
    if plan.rootfs_lowers.len() <= 1 && plan.memory_lowers.len() <= 1 {
        SquashState::Done(SquashOutcome::AlreadyFlat(record))
    } else if let Some(message) = remote_message(&plan.rootfs_lowers, Chain::Rootfs.label()) {
        SquashState::Failed { message }
    } else if let Some(message) = remote_message(&plan.memory_lowers, Chain::Memory.label()) {
        SquashState::Failed { message }
    } else {
        SquashState::Staging { record, plan }
    }
}

fn rootfs_known_state(
    record: SnapshotRecord,
    manifest: FirecrackerSnapshotManifest,
    mount_paths: Vec<String>,
    config: ImageConfig,
) -> (r: SquashState)
    ensures
        r@ == rootfs_known(record, manifest@, views(mount_paths@), config@.lowers),
{
    let rootfs_lowers: Vec<LayerConfig> = if config.lowers.len() >= 2 {
        match local_lowers(config, Chain::Rootfs.label()) {
            Ok(lowers) => lowers,
            Err(message) => {
                return SquashState::Failed { message };
            },
        }
    } else {
        config.lowers
    };
    if manifest.memory.is_some() {
        SquashState::LoadingMemory { record, manifest, mount_paths, rootfs_lowers }
    } else {
        let memory_lowers: Vec<LayerConfig> = Vec::new();
        assert(layer_views(memory_lowers@) =~= Seq::empty());
        plan_state(record, SquashPlan { manifest, mount_paths, rootfs_lowers, memory_lowers })
    }
}

/// The path of the config that a twin is published with, for a chain of `layers` layers.
fn twin_config(job: &SquashJob, layers: usize, chain: Chain, source: &String) -> (r: String)
    ensures
        r@ == (if layers < 2 {
            source@
        } else {
            merged_config_path(*job, chain)
        }),
{
    if layers < 2 {
        source.clone()
    } else {
        join_path(join_path(job.staging_root.as_str(), chain.label()).as_str(), "image.json")
    }
}

/// The manifest of the twin.
pub fn build_twin_manifest(job: &SquashJob, plan: &SquashPlan) -> (r: Result<
    FirecrackerSnapshotManifest,
    AttachedDriveError,
>)
    requires
        plan@.wf(),
    ensures
        crate::manifest::built_view(r) == twin_manifest(*job, plan@),
{
    let source = &plan.manifest;
    let drives = source.drives_mounted_at(&plan.mount_paths);
    let rootfs_path: String = twin_config(
        job,
        plan.rootfs_lowers.len(),
        Chain::Rootfs,
        &source.rootfs.image_config_path,
    );
    match (&source.vm_state, &source.memory) {
        (Some(vm_state), Some(memory)) => {
            let memory_path: String = twin_config(
                job,
                plan.memory_lowers.len(),
                Chain::Memory,
                &memory.image_config_path,
            );
            FirecrackerSnapshotManifest::new(
                vm_state.path.as_str(),
                memory_path.as_str(),
                memory.virtual_size,
                rootfs_path.as_str(),
                source.rootfs.virtual_size,
                drives.as_slice(),
            )
        },
        _ => FirecrackerSnapshotManifest::new_disk_only(
            rootfs_path.as_str(),
            source.rootfs.virtual_size,
            drives.as_slice(),
        ),
    }
}

/// What the twin of `record` is published with.
pub fn build_twin_metadata(job: &SquashJob, record: SnapshotRecord) -> (r: SnapshotPublishMetadata)
    requires
        record.committed is Some,
    ensures
        r == twin_metadata(*job, record),
{
    let committed = record.committed.unwrap();
    SnapshotPublishMetadata {
        id: SnapshotId { text: job.twin_id.text.clone() },
        alias: match &job.alias {
            Some(alias) => Some(SnapshotAlias { text: alias.text.clone() }),
            None => None,
        },
        source: match record.source {
            SnapshotSource::Sandbox { source_sandbox_id } => SnapshotPublishSource::Sandbox {
                source_sandbox_id,
            },
            SnapshotSource::Template { .. } => SnapshotPublishSource::Template,
        },
        context: committed.context,
        startup: committed.startup,
        resources: record.resources,
        runtime_versions: committed.runtime_versions,
        virtualization_mode: committed.virtualization_mode,
        image_configs: committed.image_configs,
        custom_extension_params: committed.custom_extension_params,
    }
}

fn merged_state(job: &SquashJob, record: SnapshotRecord, plan: SquashPlan) -> (r: SquashState)
    requires
        record.committed is Some,
        plan@.wf(),
    ensures
        r@ == merged(*job, record, plan@),
{
    match build_twin_manifest(job, &plan) {
        Ok(manifest) => SquashState::Publishing {
            metadata: build_twin_metadata(job, record),
            manifest,
        },
        Err(error) => failed_in(
            "build squashed snapshot manifest".to_owned(),
            error.message().as_str(),
        ),
    }
}

fn after_turn_state(
    job: &SquashJob,
    record: SnapshotRecord,
    plan: SquashPlan,
    chain: Chain,
) -> (r: SquashState)
    requires
        record.committed is Some,
        plan@.wf(),
    ensures
        r@ == after_turn(*job, record, plan@, chain),
        state_wf(r@),
{
    let rootfs: bool = match chain {
        Chain::Rootfs => true,
        Chain::Memory => false,
    };
    if rootfs && plan.memory_lowers.len() >= 2 {
        let dir: String = join_path(job.staging_root.as_str(), Chain::Memory.label());
        SquashState::MakingDir { record, plan, chain: Chain::Memory, dir }
    } else {
        merged_state(job, record, plan)
    }
}

fn first_turn_state(job: &SquashJob, record: SnapshotRecord, plan: SquashPlan) -> (r: SquashState)
    requires
        record.committed is Some,
        plan@.wf(),
    ensures
        r@ == turn(*job, record, plan@, Chain::Rootfs),
        state_wf(r@),
{
    if plan.rootfs_lowers.len() >= 2 {
        let dir: String = join_path(job.staging_root.as_str(), Chain::Rootfs.label());
        SquashState::MakingDir { record, plan, chain: Chain::Rootfs, dir }
    } else {
        after_turn_state(job, record, plan, Chain::Rootfs)
    }
}

/// A squash and how far it has come.
#[derive(Debug)]
pub struct SquashRun {
    pub job: SquashJob,
    pub state: SquashState,
}

impl SquashRun {
    /// A squash from the beginning.
    pub fn begin(job: SquashJob) -> (r: SquashRun)
        ensures
            r.job == job,
            r.state@ is Looking,
            state_wf(r.state@),
    {
        SquashRun { job, state: SquashState::Looking }
    }

    /// This squash with the given names for its staging directory and its twin. They can be drawn
    /// when it is known that there is something to merge: nothing depends on them before.
    pub fn with_names(self, staging_root: String, twin_id: SnapshotId) -> (r: SquashRun)
        requires
            self.state@ is Staging,
        ensures
            r.job == named(self.job, staging_root, twin_id),
            r.state == self.state,
    {
        SquashRun {
            job: SquashJob {
                reference: self.job.reference,
                alias: self.job.alias,
                twin_id,
                staging_root,
                base_layer_file: self.job.base_layer_file,
            },
            state: self.state,
        }
    }

    /// What is to be done next.
    pub fn action(&self) -> (r: SquashAction<'_>)
        requires
            state_wf(self.state@),
        ensures
            match self.state {
                SquashState::Looking => r == SquashAction::Lookup(&self.job.reference),
                SquashState::Resolving { record } => r == SquashAction::Resolve(&record),
                SquashState::LoadingRootfs { manifest, .. } => r == SquashAction::LoadConfig(
                    &manifest.rootfs.image_config_path,
                ),
                SquashState::LoadingMemory { manifest, .. } => r == SquashAction::LoadConfig(
                    &manifest.memory->0.image_config_path,
                ),
                SquashState::Staging { .. } => r == SquashAction::MakeDir(&self.job.staging_root),
                SquashState::MakingDir { dir, .. } => r == SquashAction::MakeDir(&dir),
                SquashState::Merging { plan, chain, layer_path, .. } => r matches SquashAction::Merge {
                    lowers,
                    output,
                    mode,
                } && layer_views(lowers@) == plan@.lowers(chain) && *output == layer_path && mode
                    == chain.output() && (match chain {
                    Chain::Rootfs => *lowers == plan.rootfs_lowers && mode is Raw,
                    Chain::Memory => *lowers == plan.memory_lowers && mode is MemorySnapshot,
                }),
                SquashState::Writing { config_path, config, .. } => r
                    == (SquashAction::WriteConfig { path: &config_path, config: &config }),
                SquashState::Publishing { metadata, manifest } => r == (SquashAction::Publish {
                    metadata: &metadata,
                    manifest: &manifest,
                }),
                SquashState::Done(_) => r is Finish,
                SquashState::Failed { .. } => r is Finish,
            },
    {
        match &self.state {
            SquashState::Looking => SquashAction::Lookup(&self.job.reference),
            SquashState::Resolving { record } => SquashAction::Resolve(record),
            SquashState::LoadingRootfs { manifest, .. } => SquashAction::LoadConfig(
                &manifest.rootfs.image_config_path,
            ),
            SquashState::LoadingMemory { manifest, .. } => SquashAction::LoadConfig(
                &manifest.memory.as_ref().unwrap().image_config_path,
            ),
            SquashState::Staging { .. } => SquashAction::MakeDir(&self.job.staging_root),
            SquashState::MakingDir { dir, .. } => SquashAction::MakeDir(dir),
            SquashState::Merging { plan, chain, layer_path, .. } => SquashAction::Merge {
                lowers: match chain {
                    Chain::Rootfs => &plan.rootfs_lowers,
                    Chain::Memory => &plan.memory_lowers,
                },
                output: layer_path,
                mode: chain.compact_output(),
            },
            SquashState::Writing { config_path, config, .. } => SquashAction::WriteConfig {
                path: config_path,
                config,
            },
            SquashState::Publishing { metadata, manifest } => SquashAction::Publish {
                metadata,
                manifest,
            },
            SquashState::Done(_) => SquashAction::Finish,
            SquashState::Failed { .. } => SquashAction::Finish,
        }
    }

    /// The squash after `event`, which came of its action.
    pub fn advance(self, event: SquashEvent) -> (r: SquashRun)
        requires
            state_wf(self.state@),
            expects(self.state@, event@),
        ensures
            r.job == self.job,
            r.state@ == next(self.job, self.state@, event@),
            state_wf(r.state@),
    {
        let job = self.job;
        let state: SquashState = match (self.state, event) {
            (SquashState::Looking, SquashEvent::Found(found)) => match found {
                None => SquashState::Failed {
                    message: "snapshot '".to_owned().concat(job.reference.as_str()).concat(
                        "' not found",
                    ),
                },
                Some(record) => if record.committed.is_none() {
                    SquashState::Failed {
                        message: "snapshot '".to_owned().concat(job.reference.as_str()).concat(
                            "' is not ready",
                        ),
                    }
                } else {
                    SquashState::Resolving { record }
                },
            },
            (SquashState::Looking, SquashEvent::Failed { reason }) => SquashState::Failed {
                message: reason,
            },
            (
                SquashState::Resolving { record },
                SquashEvent::Resolved { manifest, mount_paths },
            ) => SquashState::LoadingRootfs { record, manifest, mount_paths },
            (SquashState::Resolving { .. }, SquashEvent::Failed { reason }) => SquashState::Failed {
                message: reason,
            },
            (
                SquashState::LoadingRootfs { record, manifest, mount_paths },
                SquashEvent::Loaded(config),
            ) => rootfs_known_state(record, manifest, mount_paths, config),
            (SquashState::LoadingRootfs { manifest, .. }, SquashEvent::Failed { reason }) =>
                failed_in(
                    "load rootfs image config ".to_owned().concat(
                        manifest.rootfs.image_config_path.as_str(),
                    ),
                    reason.as_str(),
                ),
            (
                SquashState::LoadingMemory { record, manifest, mount_paths, rootfs_lowers },
                SquashEvent::Loaded(config),
            ) => plan_state(
                record,
                SquashPlan { manifest, mount_paths, rootfs_lowers, memory_lowers: config.lowers },
            ),
            (SquashState::LoadingMemory { manifest, .. }, SquashEvent::Failed { reason }) =>
                failed_in(
                    "load memory image config ".to_owned().concat(
                        manifest.memory.as_ref().unwrap().image_config_path.as_str(),
                    ),
                    reason.as_str(),
                ),
            (SquashState::Staging { record, plan }, SquashEvent::DirMade) => first_turn_state(
                &job,
                record,
                plan,
            ),
            (SquashState::Staging { .. }, SquashEvent::Failed { reason }) => failed_in(
                "create squash staging dir ".to_owned().concat(job.staging_root.as_str()),
                reason.as_str(),
            ),
            (SquashState::MakingDir { record, plan, chain, dir }, SquashEvent::DirMade) => {
                let layer_path: String = join_path(dir.as_str(), job.base_layer_file.as_str());
                SquashState::Merging { record, plan, chain, dir, layer_path }
            },
            (SquashState::MakingDir { chain, dir, .. }, SquashEvent::Failed { reason }) =>
                failed_in(
                    "create ".to_owned().concat(chain.label()).concat(" squash dir ").concat(
                        dir.as_str(),
                    ),
                    reason.as_str(),
                ),
            (
                SquashState::Merging { record, plan, chain, dir, .. },
                SquashEvent::Merged(file),
            ) => match file {
                Some(file) => SquashState::Writing {
                    record,
                    plan,
                    chain,
                    config_path: join_path(dir.as_str(), "image.json"),
                    config: single_layer_config(file),
                },
                None => SquashState::Failed {
                    message: chain.label().to_owned().concat(" chain merge produced no layer"),
                },
            },
            (SquashState::Merging { chain, .. }, SquashEvent::Failed { reason }) => failed_in(
                "merge ".to_owned().concat(chain.label()).concat(" chain into one layer"),
                reason.as_str(),
            ),
            (SquashState::Writing { record, plan, chain, .. }, SquashEvent::Written) =>
                after_turn_state(&job, record, plan, chain),
            (SquashState::Writing { chain, .. }, SquashEvent::NotSerialized { reason }) =>
                failed_in(
                    "serialize squashed ".to_owned().concat(chain.label()).concat(
                        " image config",
                    ),
                    reason.as_str(),
                ),
            (SquashState::Writing { chain, .. }, SquashEvent::Failed { reason }) => failed_in(
                "write squashed ".to_owned().concat(chain.label()).concat(" image config"),
                reason.as_str(),
            ),
            (SquashState::Publishing { .. }, SquashEvent::Published(record)) => SquashState::Done(
                SquashOutcome::Squashed(record),
            ),
            (SquashState::Publishing { .. }, SquashEvent::Failed { reason }) => failed_in(
                "publish squashed snapshot".to_owned(),
                reason.as_str(),
            ),
            (state, _) => state,
        };
        SquashRun { job, state }
    }

    /// What came of the squash, once it is over.
    pub fn finish(self) -> (r: Option<Result<SquashOutcome, String>>)
        ensures
            match self.state {
                SquashState::Done(outcome) => r == Some(Ok::<SquashOutcome, String>(outcome)),
                SquashState::Failed { message } => r == Some(
                    Err::<SquashOutcome, String>(message),
                ),
                _ => r is None,
            },
    {
        match self.state {
            SquashState::Done(outcome) => Some(Ok(outcome)),
            SquashState::Failed { message } => Some(Err(message)),
            _ => None,
        }
    }
}

} // verus!
