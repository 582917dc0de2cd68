//! The `snapshot` command: what it asks of the server, and what it prints of the answers.

use crate::info::{info, InfoView, SnapshotInfo};
use crate::record::{published_ref, SnapshotRecord};
use crate::text::{
    copy_optional, join, joined, optional_view, signed_decimal, signed_decimal_text, views,
};
use vstd::prelude::*;
use vstd::string::*;

verus! {

broadcast use group_string_axioms;

/// How a list is printed.
#[derive(Clone, Copy, Debug, PartialEq, Eq)]
pub enum Format {
    Table,
    Json,
}

/// The arguments of the command.
#[derive(Clone, Debug, PartialEq, Eq)]
pub struct Args {
    pub cmd: Sub,
}

/// A subcommand.
#[derive(Clone, Debug, PartialEq, Eq)]
pub enum Sub {
    /// Make a persistent snapshot of a running sandbox.
    Create {
        sandbox_id: String,
        /// The name of the snapshot.
        name: Option<String>,
        /// Capture the disks only, without VM state and memory.
        disk_only: bool,
    },
    /// Merge the chain of a snapshot into a new, flat snapshot.
    Squash {
        snapshot_id: String,
        /// The alias of the flat snapshot.
        name: Option<String>,
    },
    /// List snapshots.
    List {
        /// Only those made from this sandbox.
        sandbox_id: Option<String>,
        /// How to print the list, where it is said.
        output: Option<Format>,
    },
}

/// What the command asks of the server.
#[derive(Clone, Debug, PartialEq, Eq)]
pub enum ClientRequest {
    CreateSnapshot { sandbox_id: String, name: Option<String>, disk_only: bool },
    SquashSnapshot { snapshot_id: String, name: Option<String> },
    ListSnapshots { sandbox_id: Option<String> },
}

/// What the command does with the answer.
#[derive(Clone, Debug, PartialEq, Eq)]
pub enum Presentation {
    /// Print the lines of [`create`].
    Created,
    /// Print the lines of [`squash`] for the snapshot asked for and the alias given for the twin.
    Squashed { snapshot_id: String, name: Option<String> },
    /// Print the rows of [`list`].
    Listed { output: Option<Format> },
}

/// What the command asks of the server for its arguments, and what it does with the answer.
pub fn run(args: Args) -> (r: (ClientRequest, Presentation))
    ensures
        match args.cmd {
            Sub::Create { sandbox_id, name, disk_only } => r.0 == (ClientRequest::CreateSnapshot {
                sandbox_id,
                name,
                disk_only,
            }) && r.1 == Presentation::Created,
            Sub::Squash { snapshot_id, name } => r.0 == (ClientRequest::SquashSnapshot {
                snapshot_id,
                name,
            }) && r.1 == (Presentation::Squashed { snapshot_id, name }),
            Sub::List { sandbox_id, output } => r.0 == (ClientRequest::ListSnapshots { sandbox_id })
                && r.1 == (Presentation::Listed { output }),
        },
{
    match args.cmd {
        Sub::Create { sandbox_id, name, disk_only } => (
            ClientRequest::CreateSnapshot { sandbox_id, name, disk_only },
            Presentation::Created,
        ),
        Sub::Squash { snapshot_id, name } => {
            let asked_for = Presentation::Squashed {
                snapshot_id: snapshot_id.clone(),
                name: copy_optional(&name),
            };
            (ClientRequest::SquashSnapshot { snapshot_id, name }, asked_for)
        },
        Sub::List { sandbox_id, output } => (
            ClientRequest::ListSnapshots { sandbox_id },
            Presentation::Listed { output },
        ),
    }
}

/// What is printed of a snapshot that was made: its id, and its image where it has one.
pub open spec fn created_lines(snapshot: InfoView) -> Seq<Seq<char>> {
    let first = "Created snapshot "@ + snapshot.snapshot_id;
    match snapshot.image_ref {
        Some(image_ref) => seq![first, "Image: "@ + image_ref],
        None => seq![first],
    }
}

/// What is printed of a snapshot that was made.
pub fn create(snapshot: &SnapshotInfo) -> (r: Vec<String>)
    ensures
        views(r@) == created_lines(snapshot@),
{
    let mut r: Vec<String> = Vec::new();
    r.push("Created snapshot ".to_owned().concat(snapshot.snapshot_id.as_str()));
    if let Some(image_ref) = &snapshot.image_ref {
        r.push("Image: ".to_owned().concat(image_ref.as_str()));
    }
    assert(views(r@) =~= created_lines(snapshot@));
    r
}

/// What is printed where there was nothing to squash.
pub open spec fn flat_line(snapshot_id: Seq<char>) -> Seq<char> {
    "Snapshot "@ + snapshot_id + " chain is already flat; nothing to squash"@
}

/// The line with the number of rootfs layers, where it is known.
pub open spec fn layers_line(snapshot: InfoView) -> Seq<Seq<char>> {
    match snapshot.rootfs_layer_count {
        Some(layers) => seq!["Rootfs layers: "@ + signed_decimal(layers as int)],
        None => Seq::empty(),
    }
}

/// The line with the size of the chain, where it is known.
pub open spec fn size_line(snapshot: InfoView) -> Seq<Seq<char>> {
    match snapshot.chain_size_mb {
        Some(size) => seq!["Chain size: "@ + signed_decimal(size as int) + " MiB"@],
        None => Seq::empty(),
    }
}

/// Whether the answer to a squash of `snapshot_id` is the snapshot asked for, which comes back where
/// there was nothing to squash. It may have been asked for by its id, or by one of its names. A
/// name that was given to the twin as well tells nothing.
pub open spec fn same_snapshot(
    snapshot_id: Seq<char>,
    name: Option<Seq<char>>,
    snapshot: InfoView,
) -> bool {
    snapshot.snapshot_id == snapshot_id || (snapshot.names.contains(snapshot_id) && name != Some(
        snapshot_id,
    ))
}

/// What is printed of a squash of `snapshot_id`, with the alias `name` for the twin, that was
/// answered with `snapshot`.
pub open spec fn squashed_lines(
    snapshot_id: Seq<char>,
    name: Option<Seq<char>>,
    snapshot: InfoView,
) -> Seq<Seq<char>> {
    if same_snapshot(snapshot_id, name, snapshot) {
        seq![flat_line(snapshot_id)]
    } else {
        seq!["Squashed into snapshot "@ + snapshot.snapshot_id] + layers_line(snapshot) + size_line(
            snapshot,
        )
    }
}

/// Whether `text` is among `names`.
fn is_among(text: &String, names: &Vec<String>) -> (r: bool)
    ensures
        r == views(names@).contains(text@),
{
    let mut i: usize = 0;
    while i < names.len()
        invariant
            i <= names@.len(),
            forall|k: int| 0 <= k < i ==> (#[trigger] names@[k])@ != text@,
        decreases names@.len() - i,
    {
        if names[i] == *text {
            assert(views(names@)[i as int] == text@);
            return true;
        }
        i += 1;
    }
    proof {
        if views(names@).contains(text@) {
            let k = choose|k: int| 0 <= k < views(names@).len() && views(names@)[k] == text@;
            assert(names@[k]@ == text@);
        }
    }
    false
}

/// What is printed of a squash of `snapshot_id`, with the alias `name` for the twin, that was
/// answered with `snapshot`.
pub fn squash(snapshot_id: &str, name: &Option<String>, snapshot: &SnapshotInfo) -> (r: Vec<String>)
    ensures
        views(r@) == squashed_lines(snapshot_id@, optional_view(*name), snapshot@),
{
    let asked_for: String = snapshot_id.to_owned();
    let for_twin: bool = match name {
        Some(name) => *name == asked_for,
        None => false,
    };
    let mut r: Vec<String> = Vec::new();
    if snapshot.snapshot_id == asked_for || (is_among(&asked_for, &snapshot.names) && !for_twin) {
        r.push(
            "Snapshot ".to_owned().concat(snapshot_id).concat(
                " chain is already flat; nothing to squash",
            ),
        );
    } else {
        r.push("Squashed into snapshot ".to_owned().concat(snapshot.snapshot_id.as_str()));
        if let Some(layers) = snapshot.rootfs_layer_count {
            r.push(
                "Rootfs layers: ".to_owned().concat(signed_decimal_text(layers as i64).as_str()),
            );
        }
        if let Some(size) = snapshot.chain_size_mb {
            r.push(
                "Chain size: ".to_owned().concat(signed_decimal_text(size).as_str()).concat(" MiB"),
            );
        }
    }
    assert(views(r@) =~= squashed_lines(snapshot_id@, optional_view(*name), snapshot@));
    r
}

/// A row of the list of snapshots.
#[derive(Clone, Debug, PartialEq, Eq)]
pub struct Row {
    pub snapshot_id: String,
    pub names: String,
    pub image_ref: String,
}

/// What a [`Row`] holds.
#[verifier::ext_equal]
pub struct RowView {
    pub snapshot_id: Seq<char>,
    pub names: Seq<char>,
    pub image_ref: Seq<char>,
}

impl View for Row {
    type V = RowView;

    open spec fn view(&self) -> RowView {
        RowView {
            snapshot_id: self.snapshot_id@,
            names: self.names@,
            image_ref: self.image_ref@,
        }
    }
}

/// The row of a snapshot, with a dash for what it does not have.
pub open spec fn row(snapshot: InfoView) -> RowView {
    RowView {
        snapshot_id: snapshot.snapshot_id,
        names: if snapshot.names.len() == 0 {
            "-"@
        } else {
            joined(snapshot.names, ","@)
        },
        image_ref: match snapshot.image_ref {
            Some(image_ref) => image_ref,
            None => "-"@,
        },
    }
}

/// The row of a snapshot.
fn row_of(snapshot: &SnapshotInfo) -> (r: Row)
    ensures
        r@ == row(snapshot@),
{
    Row {
        snapshot_id: snapshot.snapshot_id.clone(),
        names: if snapshot.names.len() == 0 {
            "-".to_owned()
        } else {
            join(&snapshot.names, ",")
        },
        image_ref: match &snapshot.image_ref {
            Some(image_ref) => image_ref.clone(),
            None => "-".to_owned(),
        },
    }
}

/// The rows of a list of snapshots, in their order.
pub fn list(snapshots: &Vec<SnapshotInfo>) -> (r: Vec<Row>)
    ensures
        r@.len() == snapshots@.len(),
        forall|i: int| 0 <= i < r@.len() ==> (#[trigger] r@[i])@ == row(snapshots@[i]@),
{
    let mut r: Vec<Row> = Vec::new();
    let mut i: usize = 0;
    while i < snapshots.len()
        invariant
            i <= snapshots@.len(),
            r@.len() == i,
            forall|k: int| 0 <= k < i ==> (#[trigger] r@[k])@ == row(snapshots@[k]@),
        decreases snapshots@.len() - i,
    {
        r.push(row_of(&snapshots[i]));
        i += 1;
    }
    r
}

/// A squash that is answered with the snapshot asked for is reported as flat, whether it was asked
/// for by its id or by its alias, as long as the twin was not to have that alias too. Any other
/// squash is reported as a new snapshot.
pub proof fn law_flat_squash_is_reported(
    record: SnapshotRecord,
    snapshot_id: Seq<char>,
    name: Option<Seq<char>>,
)
    ensures
        squashed_lines(record.id.text@, name, info(record)) == seq![flat_line(record.id.text@)],
        record.alias matches Some(alias) && name != Some(alias.text@) ==> squashed_lines(
            record.alias->0.text@,
            name,
            info(record),
        ) == seq![flat_line(record.alias->0.text@)],
        snapshot_id != record.id.text@ && (record.alias matches Some(alias) ==> snapshot_id
            != alias.text@ || name == Some(snapshot_id)) ==> squashed_lines(snapshot_id, name, info(record)).first()
            == "Squashed into snapshot "@ + record.id.text@,
{
    if let Some(alias) = record.alias {
        assert(info(record).names[0] == alias.text@);
    }
}

/// The published image of a snapshot is shown where it has one: in a line of its own for a new
/// snapshot, and in its row of a list.
pub proof fn law_published_image_is_shown(record: SnapshotRecord)
    ensures
        match published_ref(record) {
            Some(image_ref) => created_lines(info(record)).last() == "Image: "@ + image_ref && row(
                info(record),
            ).image_ref == image_ref,
            None => created_lines(info(record)).len() == 1 && row(info(record)).image_ref == "-"@,
        },
{
}

/// A row shows a snapshot's id, its names, and its image: its one name as it is, several with
/// commas between them, and a dash for what it does not have.
pub proof fn law_row_shows_the_snapshot(snapshot: InfoView)
    ensures
        row(snapshot).snapshot_id == snapshot.snapshot_id,
        snapshot.names.len() == 0 ==> row(snapshot).names == "-"@,
        snapshot.names.len() == 1 ==> row(snapshot).names == snapshot.names[0],
        snapshot.names.len() >= 2 ==> row(snapshot).names == joined(
            snapshot.names.drop_last(),
            ","@,
        ) + ","@ + snapshot.names.last(),
        row(snapshot).names == "-"@ ==> snapshot.names.len() == 0 || (snapshot.names.len() == 1
            && snapshot.names[0] == "-"@),
        snapshot.image_ref is None ==> row(snapshot).image_ref == "-"@,
        snapshot.image_ref matches Some(image_ref) ==> row(snapshot).image_ref == image_ref,
{
    reveal_strlit("-");
    reveal_strlit(",");
    if snapshot.names.len() >= 2 && row(snapshot).names == "-"@ {
        let k = joined(snapshot.names.drop_last(), ","@).len() as int;
        assert(row(snapshot).names.len() == k + ","@.len() + snapshot.names.last().len());
        assert(","@.len() == 1 && "-"@.len() == 1);
        assert(k == 0);
        assert(row(snapshot).names[0] == ","@[0]);
        assert("-"@[0] == '-' && ","@[0] == ',');
    }
}

/// A list shows each snapshot by its alias, and one without an alias by a dash.
pub proof fn law_row_shows_the_alias(record: SnapshotRecord)
    ensures
        record.alias matches Some(alias) ==> row(info(record)).names == alias.text@,
        record.alias is None ==> row(info(record)).names == "-"@,
        row(info(record)).snapshot_id == record.id.text@,
{
    law_row_shows_the_snapshot(info(record));
}

/// A new snapshot is announced by its id, and its image by its reference on a line of its own.
pub proof fn law_created_lines_name_snapshot_and_image(snapshot: InfoView)
    ensures
        created_lines(snapshot)[0] == "Created snapshot "@ + snapshot.snapshot_id,
        snapshot.image_ref is None ==> created_lines(snapshot).len() == 1,
        snapshot.image_ref matches Some(image_ref) ==> created_lines(snapshot).len() == 2
            && created_lines(snapshot)[1] == "Image: "@ + image_ref,
{
}

/// A squash is announced by the new snapshot's id, its number of rootfs layers and the size of its
/// chain, each on a line of its own and the last two where they are known; one that found nothing
/// to merge, on one line that says so.
pub proof fn law_squashed_lines_tell_what_is_known(
    snapshot_id: Seq<char>,
    name: Option<Seq<char>>,
    snapshot: InfoView,
)
    ensures
        ({
            let lines = squashed_lines(snapshot_id, name, snapshot);
            let by_name = exists|i: int|
                0 <= i < snapshot.names.len() && #[trigger] snapshot.names[i] == snapshot_id;
            let flat = snapshot.snapshot_id == snapshot_id || (by_name && name != Some(
                snapshot_id,
            ));
            let layers = snapshot.rootfs_layer_count;
            let size = snapshot.chain_size_mb;
            &&& flat ==> lines.len() == 1 && lines[0] == "Snapshot "@ + snapshot_id
                + " chain is already flat; nothing to squash"@
            &&& !flat ==> lines[0] == "Squashed into snapshot "@ + snapshot.snapshot_id
            &&& !flat && layers is None && size is None ==> lines.len() == 1
            &&& !flat && layers is Some ==> lines.len() >= 2 && lines[1] == "Rootfs layers: "@
                + signed_decimal(layers->0 as int)
            &&& !flat && layers is Some && size is None ==> lines.len() == 2
            &&& !flat && layers is None && size is Some ==> lines.len() == 2
            &&& !flat && layers is Some && size is Some ==> lines.len() == 3
            &&& !flat && size is Some ==> lines.last() == "Chain size: "@ + signed_decimal(
                size->0 as int,
            ) + " MiB"@
        }),
{
    if snapshot.names.contains(snapshot_id) {
        let i = choose|i: int| 0 <= i < snapshot.names.len() && snapshot.names[i] == snapshot_id;
        assert(snapshot.names[i] == snapshot_id);
    }
    if exists|i: int| 0 <= i < snapshot.names.len() && #[trigger] snapshot.names[i] == snapshot_id {
        assert(snapshot.names.contains(snapshot_id));
    }
}

/// The view of a row shows its own fields.
pub proof fn law_row_view_shows_fields(row: Row)
    ensures
        row@.snapshot_id == row.snapshot_id@,
        row@.names == row.names@,
        row@.image_ref == row.image_ref@,
{
}

} // verus!
