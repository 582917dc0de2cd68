//! Snapshots as the repository knows them.

use crate::cold_start::StartupCommand;
use vstd::prelude::*;
use vstd::string::*;

verus! {

broadcast use group_string_axioms;

/// The id of a snapshot.
#[derive(Clone, Debug, PartialEq, Eq)]
pub struct SnapshotId {
    pub text: String,
}

/// A name that stands for a snapshot.
#[derive(Clone, Debug, PartialEq, Eq)]
pub struct SnapshotAlias {
    pub text: String,
}

/// What a snapshot was made from.
#[derive(Clone, Debug, PartialEq, Eq)]
pub enum SnapshotSource {
    /// A running sandbox.
    Sandbox { source_sandbox_id: String },
    /// A template build. What else is known of it is a document that is carried along unread.
    Template { details: String },
}

/// What a sandbox gets that is launched from a snapshot.
#[derive(Clone, Copy, Debug, PartialEq, Eq)]
pub struct SnapshotResources {
    pub cpu_count: i32,
    pub memory_mib: i32,
    pub disk_size_mib: i32,
}

/// The kind of virtual machine that a snapshot was captured on.
#[derive(Clone, Copy, Debug, PartialEq, Eq)]
pub enum VirtualizationMode {
    Kvm,
    Pvm,
}

/// A layer that the repository holds itself. What else is known of it, its `details`, is a
/// document that is carried along unread.
#[derive(Clone, Debug, PartialEq, Eq)]
pub struct ManagedLayer {
    pub digest: String,
    pub size: u64,
    pub details: String,
}

/// A layer in an OCI registry. What else is known of it, its `details`, is a document that is
/// carried along unread.
#[derive(Clone, Debug, PartialEq, Eq)]
pub struct ExternalLayer {
    pub digest: String,
    pub size: u64,
    pub details: String,
}

/// A layer of a disk image.
#[derive(Clone, Debug, PartialEq, Eq)]
pub enum OverlaybdLayerRef {
    Managed(ManagedLayer),
    External(ExternalLayer),
}

/// An attached drive of a committed snapshot.
#[derive(Clone, Debug, PartialEq, Eq)]
pub enum CommittedAttachedDrive {
    Overlaybd { drive_id: String, layers: Vec<OverlaybdLayerRef> },
}

/// A disk of a snapshot that was published as an image.
#[derive(Clone, Debug, PartialEq, Eq)]
pub struct PersistedDiskImagePublication {
    pub image_ref: String,
    pub tag: String,
    pub manifest_digest: String,
    pub repo_blob_url: String,
}

/// The committed part of a snapshot. Its `context`, `runtime_versions`, `image_configs` and
/// `custom_extension_params` are documents that are carried along unread.
#[derive(Clone, Debug, PartialEq, Eq)]
pub struct CommittedSnapshot {
    pub rootfs_layers: Vec<OverlaybdLayerRef>,
    pub memory_layers: Vec<ManagedLayer>,
    pub attached_drives: Vec<CommittedAttachedDrive>,
    pub disk_publications: Vec<PersistedDiskImagePublication>,
    /// Whether the captured interval left the disks unchanged; `None` is unknown.
    pub delta_empty: Option<bool>,
    pub context: String,
    pub startup: Option<StartupCommand>,
    pub runtime_versions: String,
    pub virtualization_mode: VirtualizationMode,
    pub image_configs: String,
    pub custom_extension_params: String,
}

/// A snapshot in the repository.
#[derive(Clone, Debug, PartialEq, Eq)]
pub struct SnapshotRecord {
    pub id: SnapshotId,
    pub alias: Option<SnapshotAlias>,
    pub source: SnapshotSource,
    pub resources: SnapshotResources,
    pub created_at_unix_ms: i64,
    pub updated_at_unix_ms: i64,
    /// `None` while the snapshot is not ready.
    pub committed: Option<CommittedSnapshot>,
}

/// The size of a layer in bytes.
pub open spec fn layer_size(layer: OverlaybdLayerRef) -> u64 {
    match layer {
        OverlaybdLayerRef::Managed(managed) => managed.size,
        OverlaybdLayerRef::External(external) => external.size,
    }
}

/// The bytes of some layers in all.
pub open spec fn layers_bytes(layers: Seq<OverlaybdLayerRef>) -> nat
    decreases layers.len(),
{
    if layers.len() == 0 {
        0
    } else {
        layers_bytes(layers.drop_last()) + layer_size(layers.last()) as nat
    }
}

/// The bytes of some managed layers in all.
pub open spec fn managed_bytes(layers: Seq<ManagedLayer>) -> nat
    decreases layers.len(),
{
    if layers.len() == 0 {
        0
    } else {
        managed_bytes(layers.drop_last()) + layers.last().size as nat
    }
}

/// The bytes of the layers of some attached drives in all.
pub open spec fn drives_bytes(drives: Seq<CommittedAttachedDrive>) -> nat
    decreases drives.len(),
{
    if drives.len() == 0 {
        0
    } else {
        drives_bytes(drives.drop_last()) + layers_bytes(drives.last()->layers@)
    }
}

/// The bytes of all layers of a snapshot: rootfs, memory and attached drives.
pub open spec fn chain_bytes(committed: CommittedSnapshot) -> nat {
    layers_bytes(committed.rootfs_layers@) + managed_bytes(committed.memory_layers@) + drives_bytes(
        committed.attached_drives@,
    )
}

/// The tag under which a snapshot's rootfs is published.
pub open spec fn rootfs_tag(id: SnapshotId) -> Seq<char> {
    "agentenv-snapshot-"@ + id.text@
}

/// The reference of the first publication with the given tag.
pub open spec fn image_ref_tagged(
    publications: Seq<PersistedDiskImagePublication>,
    tag: Seq<char>,
) -> Option<Seq<char>>
    decreases publications.len(),
{
    if publications.len() == 0 {
        None
    } else if publications.first().tag@ == tag {
        Some(publications.first().image_ref@)
    } else {
        image_ref_tagged(publications.drop_first(), tag)
    }
}

/// The reference under which a snapshot's rootfs was published, if it was.
pub open spec fn published_ref(record: SnapshotRecord) -> Option<Seq<char>> {
    match record.committed {
        Some(committed) => image_ref_tagged(committed.disk_publications@, rootfs_tag(record.id)),
        None => None,
    }
}

/// Whether a snapshot was made from a sandbox.
pub open spec fn from_sandbox(record: SnapshotRecord) -> bool {
    record.source is Sandbox
}

/// The tag under which a snapshot's rootfs is published.
pub fn rootfs_snapshot_image_tag(id: &SnapshotId) -> (r: String)
    ensures
        r@ == rootfs_tag(*id),
{
    "agentenv-snapshot-".to_owned().concat(id.text.as_str())
}

/// The sum of `start` and the bytes of some layers, where it fits.
fn add_layers(start: Option<u64>, layers: &Vec<OverlaybdLayerRef>) -> (r: Option<u64>)
    ensures
        r == (match start {
            Some(n) if n + layers_bytes(layers@) <= u64::MAX => Some(
                (n + layers_bytes(layers@)) as u64,
            ),
            _ => None,
        }),
{
    let mut total: Option<u64> = start;
    let mut i: usize = 0;
    while i < layers.len()
        invariant
            i <= layers@.len(),
            total == (match start {
                Some(n) if n + layers_bytes(layers@.take(i as int)) <= u64::MAX => Some(
                    (n + layers_bytes(layers@.take(i as int))) as u64,
                ),
                _ => None,
            }),
        decreases layers@.len() - i,
    {
        assert(layers@.take(i + 1).drop_last() =~= layers@.take(i as int));
        let size: u64 = match &layers[i] {
            OverlaybdLayerRef::Managed(managed) => managed.size,
            OverlaybdLayerRef::External(external) => external.size,
        };
        total = match total {
            Some(n) => n.checked_add(size),
            None => None,
        };
        i += 1;
    }
    assert(layers@.take(layers@.len() as int) =~= layers@);
    total
}

impl SnapshotRecord {
    /// The reference under which this snapshot's rootfs was published, if it was.
    pub fn published_rootfs_image_ref(&self) -> (r: Option<&String>)
        ensures
            match r {
                Some(image_ref) => published_ref(*self) == Some(image_ref@),
                None => published_ref(*self) is None,
            },
    {
        let committed = match &self.committed {
            Some(committed) => committed,
            None => {
                return None;
            },
        };
        let tag: String = rootfs_snapshot_image_tag(&self.id);
        let publications = &committed.disk_publications;
        let mut i: usize = 0;
        assert(publications@.skip(0) =~= publications@);
        while i < publications.len()
            invariant
                i <= publications@.len(),
                tag@ == rootfs_tag(self.id),
                image_ref_tagged(publications@, tag@) == image_ref_tagged(
                    publications@.skip(i as int),
                    tag@,
                ),
                self.committed == Some(*committed),
                publications@ == committed.disk_publications@,
            decreases publications@.len() - i,
        {
            assert(publications@.skip(i as int).first() == publications@[i as int]);
            assert(publications@.skip(i as int).drop_first() =~= publications@.skip(i + 1));
            if publications[i].tag == tag {
                return Some(&publications[i].image_ref);
            }
            i += 1;
        }
        None
    }
}

impl CommittedSnapshot {
    /// The bytes of all layers, where their number fits.
    pub fn total_bytes(&self) -> (r: Option<u64>)
        ensures
            r == (if chain_bytes(*self) <= u64::MAX {
                Some(chain_bytes(*self) as u64)
            } else {
                None
            }),
    {
        let mut total: Option<u64> = add_layers(Some(0), &self.rootfs_layers);
        let ghost rootfs = layers_bytes(self.rootfs_layers@);
        let ghost memory = self.memory_layers@;
        let mut i: usize = 0;
        while i < self.memory_layers.len()
            invariant
                i <= memory.len(),
                memory == self.memory_layers@,
                total == (if rootfs + managed_bytes(memory.take(i as int)) <= u64::MAX {
                    Some((rootfs + managed_bytes(memory.take(i as int))) as u64)
                } else {
                    None
                }),
            decreases memory.len() - i,
        {
            assert(memory.take(i + 1).drop_last() =~= memory.take(i as int));
            total = match total {
                Some(n) => n.checked_add(self.memory_layers[i].size),
                None => None,
            };
            i += 1;
        }
        assert(memory.take(memory.len() as int) =~= memory);
        let ghost base = rootfs + managed_bytes(memory);
        let ghost drives = self.attached_drives@;
        let mut j: usize = 0;
        while j < self.attached_drives.len()
            invariant
                j <= drives.len(),
                drives == self.attached_drives@,
                total == (if base + drives_bytes(drives.take(j as int)) <= u64::MAX {
                    Some((base + drives_bytes(drives.take(j as int))) as u64)
                } else {
                    None
                }),
            decreases drives.len() - j,
        {
            assert(drives.take(j + 1).drop_last() =~= drives.take(j as int));
            match &self.attached_drives[j] {
                CommittedAttachedDrive::Overlaybd { layers, .. } => {
                    total = add_layers(total, layers);
                },
            }
            j += 1;
        }
        assert(drives.take(drives.len() as int) =~= drives);
        total
    }
}

/// The bytes of layers are the sum of their sizes, of whichever kind they are.
pub proof fn law_each_layer_counts_with_its_size(
    layers: Seq<OverlaybdLayerRef>,
    memory: Seq<ManagedLayer>,
    managed: ManagedLayer,
    external: ExternalLayer,
)
    ensures
        layers_bytes(Seq::empty()) == 0,
        layers_bytes(layers.push(OverlaybdLayerRef::Managed(managed))) == layers_bytes(layers)
            + managed.size,
        layers_bytes(layers.push(OverlaybdLayerRef::External(external))) == layers_bytes(layers)
            + external.size,
        managed_bytes(Seq::empty()) == 0,
        managed_bytes(memory.push(managed)) == managed_bytes(memory) + managed.size,
{
    assert(layers.push(OverlaybdLayerRef::Managed(managed)).drop_last() =~= layers);
    assert(layers.push(OverlaybdLayerRef::External(external)).drop_last() =~= layers);
    assert(memory.push(managed).drop_last() =~= memory);
}

/// The bytes of a snapshot are those of its rootfs, its memory and each of its drives, and no
/// others.
pub proof fn law_each_chain_counts(
    committed: CommittedSnapshot,
    drives: Seq<CommittedAttachedDrive>,
    drive_id: String,
    layers: Vec<OverlaybdLayerRef>,
)
    ensures
        chain_bytes(committed) == layers_bytes(committed.rootfs_layers@) + managed_bytes(
            committed.memory_layers@,
        ) + drives_bytes(committed.attached_drives@),
        drives_bytes(Seq::empty()) == 0,
        drives_bytes(drives.push(CommittedAttachedDrive::Overlaybd { drive_id, layers }))
            == drives_bytes(drives) + layers_bytes(layers@),
{
    assert(drives.push(
        CommittedAttachedDrive::Overlaybd { drive_id, layers },
    ).drop_last() =~= drives);
}

/// Of several publications under a tag the first counts.
pub proof fn law_first_publication_counts(
    publications: Seq<PersistedDiskImagePublication>,
    tag: Seq<char>,
    i: int,
)
    requires
        0 <= i <= publications.len(),
        forall|k: int| 0 <= k < i ==> (#[trigger] publications[k]).tag@ != tag,
        i < publications.len() ==> publications[i].tag@ == tag,
    ensures
        i < publications.len() ==> image_ref_tagged(publications, tag) == Some(
            publications[i].image_ref@,
        ),
        i == publications.len() ==> image_ref_tagged(publications, tag) is None,
    decreases i,
{
    if i > 0 {
        let rest = publications.drop_first();
        assert(publications[0].tag@ != tag);
        assert forall|k: int| 0 <= k < i - 1 implies (#[trigger] rest[k]).tag@ != tag by {
            assert(rest[k] == publications[k + 1]);
        }
        law_first_publication_counts(rest, tag, i - 1);
    }
}

/// A snapshot's rootfs is published under its id, and its reference is looked for under that tag.
pub proof fn law_publication_is_tagged_with_the_id(record: SnapshotRecord)
    ensures
        rootfs_tag(record.id) == "agentenv-snapshot-"@ + record.id.text@,
        record.committed is None ==> published_ref(record) is None,
        record.committed matches Some(committed) ==> published_ref(record) == image_ref_tagged(
            committed.disk_publications@,
            "agentenv-snapshot-"@ + record.id.text@,
        ),
        from_sandbox(record) <==> record.source is Sandbox,
{
}

} // verus!
