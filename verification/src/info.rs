//! What the API tells of a snapshot.

use crate::record::{
    chain_bytes, image_ref_tagged, published_ref, rootfs_tag, CommittedSnapshot,
    PersistedDiskImagePublication, SnapshotRecord,
};
use crate::text::{optional_view, views};
use crate::time::{
    lemma_ms_calendar_range, ms_has_calendar_time, system_time_from_unix_ms,
    utc_date_time, UtcDateTime,
};
use vstd::prelude::*;
use vstd::string::*;

verus! {

broadcast use group_string_axioms;

/// What the API tells of a snapshot.
#[derive(Clone, Debug, PartialEq, Eq)]
pub struct SnapshotInfo {
    pub snapshot_id: String,
    pub names: Vec<String>,
    pub cpu_count: i32,
    pub memory_mb: i32,
    pub disk_size_mb: i32,
    pub created_at: UtcDateTime,
    pub updated_at: UtcDateTime,
    /// The reference of the published rootfs image, where there is one.
    pub image_ref: Option<String>,
    pub rootfs_layer_count: Option<i32>,
    pub memory_layer_count: Option<i32>,
    /// The size of all layers in MiB, rounded down, without regard to layers that snapshots share.
    pub chain_size_mb: Option<i64>,
    /// Whether the captured interval left the disks unchanged; `None` is unknown.
    pub delta_empty: Option<bool>,
}

/// What a [`SnapshotInfo`] holds.
#[verifier::ext_equal]
pub struct InfoView {
    pub snapshot_id: Seq<char>,
    pub names: Seq<Seq<char>>,
    pub cpu_count: i32,
    pub memory_mb: i32,
    pub disk_size_mb: i32,
    pub created_at: UtcDateTime,
    pub updated_at: UtcDateTime,
    pub image_ref: Option<Seq<char>>,
    pub rootfs_layer_count: Option<i32>,
    pub memory_layer_count: Option<i32>,
    pub chain_size_mb: Option<i64>,
    pub delta_empty: Option<bool>,
}

impl View for SnapshotInfo {
    type V = InfoView;

    open spec fn view(&self) -> InfoView {
        InfoView {
            snapshot_id: self.snapshot_id@,
            names: views(self.names@),
            cpu_count: self.cpu_count,
            memory_mb: self.memory_mb,
            disk_size_mb: self.disk_size_mb,
            created_at: self.created_at,
            updated_at: self.updated_at,
            image_ref: optional_view(self.image_ref),
            rootfs_layer_count: self.rootfs_layer_count,
            memory_layer_count: self.memory_layer_count,
            chain_size_mb: self.chain_size_mb,
            delta_empty: self.delta_empty,
        }
    }
}

/// The views of some snapshot infos.
pub open spec fn info_views(infos: Seq<SnapshotInfo>) -> Seq<InfoView> {
    infos.map_values(|i: SnapshotInfo| i@)
}

/// A number of layers, where it fits.
pub open spec fn layer_count(n: nat) -> Option<i32> {
    if n <= i32::MAX {
        Some(n as i32)
    } else {
        None
    }
}

/// The bytes in a MiB.
pub const MIB: u64 = 1_048_576;

/// What a committed snapshot's chain looks like: its number of rootfs layers, its number of memory
/// layers, and the MiB of all its layers.
pub open spec fn chain_stats(committed: CommittedSnapshot) -> (
    Option<i32>,
    Option<i32>,
    Option<i64>,
) {
    (
        layer_count(committed.rootfs_layers@.len()),
        layer_count(committed.memory_layers@.len()),
        Some((chain_bytes(committed) / MIB as nat) as i64),
    )
}

/// The calendar time of a point in time in milliseconds since the Unix epoch.
pub open spec fn calendar_time(unix_ms: i64) -> UtcDateTime {
    UtcDateTime {
        timestamp: (unix_ms as int / 1000) as i64,
        subsec_nanos: (unix_ms as int % 1000 * 1_000_000) as u32,
    }
}

/// Whether a record can be shown: its times have calendar times, and the bytes of its layers can
/// be counted.
pub open spec fn presentable(record: SnapshotRecord) -> bool {
    &&& ms_has_calendar_time(record.created_at_unix_ms)
    &&& ms_has_calendar_time(record.updated_at_unix_ms)
    &&& record.committed matches Some(committed) ==> chain_bytes(committed) <= u64::MAX
}

/// What the API tells of a record.
pub open spec fn info(record: SnapshotRecord) -> InfoView {
    let stats = match record.committed {
        Some(committed) => chain_stats(committed),
        None => (None, None, None),
    };
    InfoView {
        snapshot_id: record.id.text@,
        names: match record.alias {
            Some(alias) => seq![alias.text@],
            None => Seq::empty(),
        },
        cpu_count: record.resources.cpu_count,
        memory_mb: record.resources.memory_mib,
        disk_size_mb: record.resources.disk_size_mib,
        created_at: calendar_time(record.created_at_unix_ms),
        updated_at: calendar_time(record.updated_at_unix_ms),
        image_ref: published_ref(record),
        rootfs_layer_count: stats.0,
        memory_layer_count: stats.1,
        chain_size_mb: stats.2,
        delta_empty: match record.committed {
            Some(committed) => committed.delta_empty,
            None => None,
        },
    }
}

fn count_layers(n: usize) -> (r: Option<i32>)
    ensures
        r == layer_count(n as nat),
{
    if n <= i32::MAX as usize {
        Some(n as i32)
    } else {
        None
    }
}

/// What a committed snapshot's chain looks like.
pub fn committed_chain_stats(committed: &CommittedSnapshot) -> (r: (
    Option<i32>,
    Option<i32>,
    Option<i64>,
))
    requires
        chain_bytes(*committed) <= u64::MAX,
    ensures
        r == chain_stats(*committed),
{
    let total: u64 = committed.total_bytes().unwrap();
    (
        count_layers(committed.rootfs_layers.len()),
        count_layers(committed.memory_layers.len()),
        Some((total / MIB) as i64),
    )
}

/// The calendar time of a point in time in milliseconds since the Unix epoch, where it has one.
pub fn calendar_time_of(unix_ms: i64) -> (r: Option<UtcDateTime>)
    ensures
        r is Some <==> ms_has_calendar_time(unix_ms),
        r matches Some(t) ==> t == calendar_time(unix_ms),
{
    let time = system_time_from_unix_ms(unix_ms);
    proof {
        lemma_ms_calendar_range(unix_ms, time);
    }
    utc_date_time(time)
}

/// Whether a record can be shown.
pub fn is_presentable(record: &SnapshotRecord) -> (r: bool)
    ensures
        r == presentable(*record),
{
    let countable: bool = match &record.committed {
        Some(committed) => committed.total_bytes().is_some(),
        None => true,
    };
    calendar_time_of(record.created_at_unix_ms).is_some() && calendar_time_of(
        record.updated_at_unix_ms,
    ).is_some() && countable
}

impl SnapshotInfo {
    /// What the API tells of a record.
    pub fn from(record: SnapshotRecord) -> (r: SnapshotInfo)
        requires
            presentable(record),
        ensures
            r@ == info(record),
    {
        let image_ref: Option<String> = match record.published_rootfs_image_ref() {
            Some(image_ref) => Some(image_ref.clone()),
            None => None,
        };
        let (rootfs_layer_count, memory_layer_count, chain_size_mb) = match &record.committed {
            Some(committed) => committed_chain_stats(committed),
            None => (None, None, None),
        };
        let delta_empty: Option<bool> = match &record.committed {
            Some(committed) => committed.delta_empty,
            None => None,
        };
        let created_at = calendar_time_of(record.created_at_unix_ms).unwrap();
        let updated_at = calendar_time_of(record.updated_at_unix_ms).unwrap();
        let mut names: Vec<String> = Vec::new();
        if let Some(alias) = record.alias {
            names.push(alias.text);
        }
        let r = SnapshotInfo {
            snapshot_id: record.id.text,
            names,
            cpu_count: record.resources.cpu_count,
            memory_mb: record.resources.memory_mib,
            disk_size_mb: record.resources.disk_size_mib,
            created_at,
            updated_at,
            image_ref,
            rootfs_layer_count,
            memory_layer_count,
            chain_size_mb,
            delta_empty,
        };
        assert(r@.names =~= info(record).names);
        r
    }
}

/// A snapshot has an image reference exactly where its rootfs was published under its tag, and it
/// is the reference of such a publication.
pub proof fn law_image_ref_is_published(record: SnapshotRecord)
    ensures
        info(record).image_ref is Some <==> (record.committed matches Some(committed) && exists|
            i: int,
        |
            0 <= i < committed.disk_publications@.len() && (
            #[trigger] committed.disk_publications@[i]).tag@ == rootfs_tag(record.id)),
        info(record).image_ref matches Some(image_ref) ==> exists|i: int|
            0 <= i < record.committed->0.disk_publications@.len() && (
            #[trigger] record.committed->0.disk_publications@[i]).image_ref@ == image_ref
                && record.committed->0.disk_publications@[i].tag@ == rootfs_tag(record.id),
{
    if let Some(committed) = record.committed {
        lemma_image_ref_tagged(committed.disk_publications@, rootfs_tag(record.id));
    }
}

proof fn lemma_image_ref_tagged(
    publications: Seq<PersistedDiskImagePublication>,
    tag: Seq<char>,
)
    ensures
        image_ref_tagged(publications, tag) is Some <==> exists|i: int|
            0 <= i < publications.len() && (#[trigger] publications[i]).tag@ == tag,
        image_ref_tagged(publications, tag) matches Some(image_ref) ==> exists|i: int|
            0 <= i < publications.len() && (#[trigger] publications[i]).image_ref@ == image_ref
                && publications[i].tag@ == tag,
    decreases publications.len(),
{
    if publications.len() > 0 && publications.first().tag@ == tag {
        assert(publications[0].tag@ == tag);
    } else if publications.len() > 0 {
        let rest = publications.drop_first();
        lemma_image_ref_tagged(rest, tag);
        if image_ref_tagged(rest, tag) is Some {
            let image_ref = image_ref_tagged(rest, tag)->0;
            let i = choose|i: int|
                0 <= i < rest.len() && (#[trigger] rest[i]).image_ref@ == image_ref && rest[i].tag@
                    == tag;
            assert(publications[i + 1] == rest[i]);
        }
        if exists|i: int| 0 <= i < publications.len() && (#[trigger] publications[i]).tag@ == tag {
            let i = choose|i: int|
                0 <= i < publications.len() && (#[trigger] publications[i]).tag@ == tag;
            assert(rest[i - 1] == publications[i]);
        }
    }
}

/// What is told of a snapshot is what its record holds: its id, its alias as its one name, its
/// resources, its times to the millisecond, its published image, and the delta tag as it was
/// captured. Unknown stays unknown.
pub proof fn law_info_tells_the_record(record: SnapshotRecord)
    requires
        presentable(record),
    ensures
        info(record).snapshot_id == record.id.text@,
        record.alias is None ==> info(record).names.len() == 0,
        record.alias matches Some(alias) ==> info(record).names.len() == 1 && info(record).names[0]
            == alias.text@,
        info(record).cpu_count == record.resources.cpu_count,
        info(record).memory_mb == record.resources.memory_mib,
        info(record).disk_size_mb == record.resources.disk_size_mib,
        info(record).created_at.timestamp * 1_000_000_000 + info(record).created_at.subsec_nanos
            == record.created_at_unix_ms * 1_000_000,
        info(record).created_at.subsec_nanos < 1_000_000_000,
        info(record).updated_at.timestamp * 1_000_000_000 + info(record).updated_at.subsec_nanos
            == record.updated_at_unix_ms * 1_000_000,
        info(record).updated_at.subsec_nanos < 1_000_000_000,
        info(record).image_ref == published_ref(record),
        record.committed matches Some(committed) ==> info(record).delta_empty
            == committed.delta_empty,
        record.committed is None ==> info(record).delta_empty is None,
{
}

/// What is told of a committed snapshot's chain is its numbers of layers, where these can be told,
/// and the whole MiB of all its layers; of one that is not committed, nothing.
pub proof fn law_info_tells_the_chain(record: SnapshotRecord)
    requires
        presentable(record),
    ensures
        record.committed is None ==> info(record).rootfs_layer_count is None
            && info(record).memory_layer_count is None && info(record).chain_size_mb is None,
        record.committed matches Some(committed) ==> {
            let told = info(record);
            let bytes = chain_bytes(committed) as int;
            &&& committed.rootfs_layers@.len() <= i32::MAX ==> told.rootfs_layer_count is Some
                && told.rootfs_layer_count->0 == committed.rootfs_layers@.len()
            &&& committed.rootfs_layers@.len() > i32::MAX ==> told.rootfs_layer_count is None
            &&& committed.memory_layers@.len() <= i32::MAX ==> told.memory_layer_count is Some
                && told.memory_layer_count->0 == committed.memory_layers@.len()
            &&& committed.memory_layers@.len() > i32::MAX ==> told.memory_layer_count is None
            &&& told.chain_size_mb is Some
            &&& told.chain_size_mb->0 * 1_048_576 <= bytes
            &&& bytes < (told.chain_size_mb->0 + 1) * 1_048_576
        },
{
}

/// A record can be shown exactly where its times have calendar times and its bytes can be counted.
pub proof fn law_presentable_records(record: SnapshotRecord)
    ensures
        presentable(record) <==> ms_has_calendar_time(record.created_at_unix_ms)
            && ms_has_calendar_time(record.updated_at_unix_ms) && (record.committed is Some
            ==> chain_bytes(record.committed->0) <= 0xffff_ffff_ffff_ffff),
{
}

/// The view of an info shows its own fields.
pub proof fn law_info_view_shows_fields(infos: Seq<SnapshotInfo>)
    ensures
        info_views(infos).len() == infos.len(),
        forall|i: int|
            0 <= i < infos.len() ==> {
                let view = #[trigger] info_views(infos)[i];
                &&& view.snapshot_id == infos[i].snapshot_id@
                &&& view.names.len() == infos[i].names@.len()
                &&& forall|k: int|
                    0 <= k < view.names.len() ==> #[trigger] view.names[k] == infos[i].names@[k]@
                &&& view.cpu_count == infos[i].cpu_count
                &&& view.memory_mb == infos[i].memory_mb
                &&& view.disk_size_mb == infos[i].disk_size_mb
                &&& view.created_at == infos[i].created_at
                &&& view.updated_at == infos[i].updated_at
                &&& view.image_ref is Some <==> infos[i].image_ref is Some
                &&& infos[i].image_ref matches Some(image_ref) ==> view.image_ref == Some(
                    image_ref@,
                )
                &&& view.rootfs_layer_count == infos[i].rootfs_layer_count
                &&& view.memory_layer_count == infos[i].memory_layer_count
                &&& view.chain_size_mb == infos[i].chain_size_mb
                &&& view.delta_empty == infos[i].delta_empty
            },
{
}

} // verus!
