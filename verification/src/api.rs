//! The answers of the snapshot API.
//!
//! The API tells of snapshots that were made from sandboxes. Templates are snapshots too, but they
//! have an API of their own: this one neither shows nor deletes them.

use crate::info::{info, info_views, presentable, InfoView, SnapshotInfo};
use crate::page::PageKey;
use crate::record::{from_sandbox, SnapshotAlias, SnapshotRecord, SnapshotSource};
use crate::squash::{not_found_error, SquashOutcome};
use crate::text::{contains, copy_optional, occurs};
use vstd::prelude::*;
use vstd::string::*;

verus! {

broadcast use group_string_axioms;

/// An error that the API answers with.
#[derive(Clone, Debug, PartialEq, Eq)]
pub struct ApiError {
    pub code: i32,
    pub message: String,
}

/// What an [`ApiError`] holds.
#[verifier::ext_equal]
pub struct ApiErrorView {
    pub code: i32,
    pub message: Seq<char>,
}

impl View for ApiError {
    type V = ApiErrorView;

    open spec fn view(&self) -> ApiErrorView {
        ApiErrorView { code: self.code, message: self.message@ }
    }
}

/// Which snapshots are to be listed, of those made from sandboxes.
#[derive(Clone, Debug, PartialEq, Eq)]
pub struct SnapshotListFilter {
    /// Only those made from this sandbox.
    pub sandbox_id: Option<String>,
    /// Only those of this name.
    pub name: Option<String>,
}

/// Whether a record is one that `filter` asks for: made from a sandbox, from the given one where
/// there is one, and of the given name where there is one.
pub open spec fn admits(filter: SnapshotListFilter, record: SnapshotRecord) -> bool {
    &&& from_sandbox(record)
    &&& filter.sandbox_id matches Some(sandbox_id) ==> record.source->source_sandbox_id@
        == sandbox_id@
    &&& filter.name matches Some(name) ==> (record.alias matches Some(alias) && alias.text@
        == name@)
}

/// A page of a listing.
#[derive(Clone, Debug, PartialEq, Eq)]
pub struct SnapshotPage {
    pub items: Vec<SnapshotRecord>,
    /// The token for the page after it, where there is one.
    pub next_token: Option<String>,
}

/// The answer to a request for a list of snapshots.
#[derive(Clone, Debug, PartialEq, Eq)]
pub enum SnapshotsGetResponse {
    Snapshots { body: Vec<SnapshotInfo>, next_token: Option<String> },
    BadRequest(ApiError),
    ServerError(ApiError),
}

/// What a [`SnapshotsGetResponse`] holds.
pub enum SnapshotsGetView {
    Snapshots { body: Seq<InfoView>, next_token: Option<String> },
    BadRequest(ApiErrorView),
    ServerError(ApiErrorView),
}

impl View for SnapshotsGetResponse {
    type V = SnapshotsGetView;

    open spec fn view(&self) -> SnapshotsGetView {
        match *self {
            SnapshotsGetResponse::Snapshots { body, next_token } => SnapshotsGetView::Snapshots {
                body: info_views(body@),
                next_token,
            },
            SnapshotsGetResponse::BadRequest(error) => SnapshotsGetView::BadRequest(error@),
            SnapshotsGetResponse::ServerError(error) => SnapshotsGetView::ServerError(error@),
        }
    }
}

/// The answer to a request for a snapshot.
#[derive(Clone, Debug, PartialEq, Eq)]
pub enum SnapshotGetResponse {
    Snapshot(SnapshotInfo),
    NotFound(ApiError),
    ServerError(ApiError),
}

/// What a [`SnapshotGetResponse`] holds.
pub enum SnapshotGetView {
    Snapshot(InfoView),
    NotFound(ApiErrorView),
    ServerError(ApiErrorView),
}

impl View for SnapshotGetResponse {
    type V = SnapshotGetView;

    open spec fn view(&self) -> SnapshotGetView {
        match *self {
            SnapshotGetResponse::Snapshot(info) => SnapshotGetView::Snapshot(info@),
            SnapshotGetResponse::NotFound(error) => SnapshotGetView::NotFound(error@),
            SnapshotGetResponse::ServerError(error) => SnapshotGetView::ServerError(error@),
        }
    }
}

/// The answer to a request to delete a snapshot.
#[derive(Clone, Debug, PartialEq, Eq)]
pub enum SnapshotDeleteResponse {
    Deleted,
    NamesTemplate(ApiError),
    ServerError(ApiError),
}

/// What a [`SnapshotDeleteResponse`] holds.
pub enum SnapshotDeleteView {
    Deleted,
    NamesTemplate(ApiErrorView),
    ServerError(ApiErrorView),
}

impl View for SnapshotDeleteResponse {
    type V = SnapshotDeleteView;

    open spec fn view(&self) -> SnapshotDeleteView {
        match *self {
            SnapshotDeleteResponse::Deleted => SnapshotDeleteView::Deleted,
            SnapshotDeleteResponse::NamesTemplate(error) => SnapshotDeleteView::NamesTemplate(
                error@,
            ),
            SnapshotDeleteResponse::ServerError(error) => SnapshotDeleteView::ServerError(error@),
        }
    }
}

/// The answer to a request to squash a snapshot.
#[derive(Clone, Debug, PartialEq, Eq)]
pub enum SnapshotSquashResponse {
    Published(SnapshotInfo),
    BadRequest(ApiError),
    NotFound(ApiError),
    ServerError(ApiError),
}

/// What a [`SnapshotSquashResponse`] holds.
pub enum SnapshotSquashView {
    Published(InfoView),
    BadRequest(ApiErrorView),
    NotFound(ApiErrorView),
    ServerError(ApiErrorView),
}

impl View for SnapshotSquashResponse {
    type V = SnapshotSquashView;

    open spec fn view(&self) -> SnapshotSquashView {
        match *self {
            SnapshotSquashResponse::Published(info) => SnapshotSquashView::Published(info@),
            SnapshotSquashResponse::BadRequest(error) => SnapshotSquashView::BadRequest(error@),
            SnapshotSquashResponse::NotFound(error) => SnapshotSquashView::NotFound(error@),
            SnapshotSquashResponse::ServerError(error) => SnapshotSquashView::ServerError(error@),
        }
    }
}

/// The answer to a page token that cannot be read.
pub open spec fn bad_token(reason: Seq<char>) -> SnapshotsGetView {
    SnapshotsGetView::BadRequest(
        ApiErrorView { code: 400, message: "invalid next token: "@ + reason },
    )
}

/// Begins a request for a list of snapshots: from where to list, and which.
///
/// `parsed` is what came of reading the request's page token, where it has one; without one the
/// listing starts at `newest`.
pub fn snapshots_get(
    sandbox_id: &Option<String>,
    name: &Option<String>,
    parsed: Option<Result<PageKey, String>>,
    newest: PageKey,
) -> (r: Result<(PageKey, SnapshotListFilter), SnapshotsGetResponse>)
    ensures
        r matches Ok((_, filter)) ==> filter.sandbox_id == *sandbox_id && filter.name == *name,
        match parsed {
            None => r is Ok && r->Ok_0.0 == newest,
            Some(Ok(cursor)) => r is Ok && r->Ok_0.0 == cursor,
            Some(Err(reason)) => r is Err && r->Err_0@ == bad_token(reason@),
        },
{
    let cursor: PageKey = match parsed {
        None => newest,
        Some(Ok(cursor)) => cursor,
        Some(Err(reason)) => {
            return Err(
                SnapshotsGetResponse::BadRequest(
                    ApiError {
                        code: 400,
                        message: "invalid next token: ".to_owned().concat(reason.as_str()),
                    },
                ),
            );
        },
    };
    Ok(
        (
            cursor,
            SnapshotListFilter {
                sandbox_id: copy_optional(sandbox_id),
                name: copy_optional(name),
            },
        ),
    )
}

/// The infos of some records, in their order.
pub open spec fn infos(records: Seq<SnapshotRecord>) -> Seq<InfoView> {
    records.map_values(|r: SnapshotRecord| info(r))
}

/// The answer to a request for a list of snapshots, for the page that came of it.
pub open spec fn page_answer(page: Result<SnapshotPage, ApiError>) -> SnapshotsGetView {
    match page {
        Ok(page) => SnapshotsGetView::Snapshots {
            body: infos(page.items@),
            next_token: page.next_token,
        },
        Err(fault) => SnapshotsGetView::ServerError(fault@),
    }
}

/// The answer to a request for a list of snapshots, for the page that came of it.
pub fn page_response(page: Result<SnapshotPage, ApiError>) -> (r: SnapshotsGetResponse)
    requires
        page matches Ok(p) ==> forall|i: int|
            0 <= i < p.items@.len() ==> presentable(#[trigger] p.items@[i]),
    ensures
        r@ == page_answer(page),
{
    let page = match page {
        Ok(page) => page,
        Err(fault) => {
            return SnapshotsGetResponse::ServerError(fault);
        },
    };
    let ghost records = page.items@;
    let items: Vec<SnapshotRecord> = page.items;
    let mut body: Vec<SnapshotInfo> = Vec::new();
    for record in it: items
        invariant
            it.seq() == records,
            forall|i: int| 0 <= i < records.len() ==> presentable(#[trigger] records[i]),
            body@.len() == it.index(),
            forall|i: int| 0 <= i < body@.len() ==> (#[trigger] body@[i])@ == info(records[i]),
    {
        body.push(SnapshotInfo::from(record));
    }
    assert(info_views(body@) =~= infos(records));
    SnapshotsGetResponse::Snapshots { body, next_token: page.next_token }
}

/// The answer to a request for the snapshot `snapshot_id`, for what was found under that id.
pub open spec fn get_answer(
    snapshot_id: Seq<char>,
    found: Result<Option<SnapshotRecord>, ApiError>,
) -> SnapshotGetView {
    match found {
        Ok(Some(record)) if from_sandbox(record) => SnapshotGetView::Snapshot(info(record)),
        Ok(_) => SnapshotGetView::NotFound(
            ApiErrorView { code: 404, message: not_found_error(snapshot_id) },
        ),
        Err(fault) => SnapshotGetView::ServerError(fault@),
    }
}

fn not_found(snapshot_id: &str) -> (r: ApiError)
    ensures
        r@ == (ApiErrorView { code: 404, message: not_found_error(snapshot_id@) }),
{
    ApiError {
        code: 404,
        message: "snapshot '".to_owned().concat(snapshot_id).concat("' not found"),
    }
}

/// The answer to a request for the snapshot `snapshot_id`, for what was found under that id.
pub fn snapshots_snapshot_id_get(
    snapshot_id: &str,
    found: Result<Option<SnapshotRecord>, ApiError>,
) -> (r: SnapshotGetResponse)
    requires
        found matches Ok(Some(record)) ==> (from_sandbox(record) ==> presentable(record)),
    ensures
        r@ == get_answer(snapshot_id@, found),
{
    match found {
        Ok(Some(record)) => match &record.source {
            SnapshotSource::Sandbox { .. } => SnapshotGetResponse::Snapshot(
                SnapshotInfo::from(record),
            ),
            SnapshotSource::Template { .. } => SnapshotGetResponse::NotFound(not_found(snapshot_id)),
        },
        Ok(None) => SnapshotGetResponse::NotFound(not_found(snapshot_id)),
        Err(fault) => SnapshotGetResponse::ServerError(fault),
    }
}

/// The error of a request to delete a template as a snapshot.
pub open spec fn template_error(snapshot_id: Seq<char>) -> Seq<char> {
    "'"@ + snapshot_id
        + "' is a template, not a sandbox snapshot; manage it through the template API"@
}

/// The answer that a request to delete a snapshot has before anything is deleted, if it has one;
/// without one the snapshot is to be deleted.
pub open spec fn refusal(
    snapshot_id: Seq<char>,
    found: Result<Option<SnapshotRecord>, ApiError>,
) -> Option<SnapshotDeleteView> {
    match found {
        Ok(Some(record)) if !from_sandbox(record) => Some(
            SnapshotDeleteView::NamesTemplate(
                ApiErrorView { code: 409, message: template_error(snapshot_id) },
            ),
        ),
        Ok(_) => None,
        Err(fault) => Some(SnapshotDeleteView::ServerError(fault@)),
    }
}

/// Begins a request to delete the snapshot `snapshot_id`, for what was found under that id: an
/// answer, or `None` where the snapshot is to be deleted.
///
/// A template is refused: to say that it is deleted would be untrue, and to delete it would take
/// it from every sandbox launched from it. A snapshot that is not there is deleted all the same,
/// so that the request can be repeated.
pub fn snapshots_snapshot_id_delete(
    snapshot_id: &str,
    found: Result<Option<SnapshotRecord>, ApiError>,
) -> (r: Option<SnapshotDeleteResponse>)
    ensures
        match r {
            Some(response) => refusal(snapshot_id@, found) == Some(response@),
            None => refusal(snapshot_id@, found) is None,
        },
{
    match found {
        Ok(Some(record)) => match &record.source {
            SnapshotSource::Sandbox { .. } => None,
            SnapshotSource::Template { .. } => Some(
                SnapshotDeleteResponse::NamesTemplate(
                    ApiError {
                        code: 409,
                        message: "'".to_owned().concat(snapshot_id).concat(
                            "' is a template, not a sandbox snapshot; manage it through the template API",
                        ),
                    },
                ),
            ),
        },
        Ok(None) => None,
        Err(fault) => Some(SnapshotDeleteResponse::ServerError(fault)),
    }
}

/// The answer to a request to delete a snapshot, for what came of deleting it.
pub open spec fn delete_answer(deleted: Result<(), ApiError>) -> SnapshotDeleteView {
    match deleted {
        Ok(()) => SnapshotDeleteView::Deleted,
        Err(fault) => SnapshotDeleteView::ServerError(fault@),
    }
}

/// The answer to a request to delete a snapshot, for what came of deleting it.
pub fn delete_response(deleted: Result<(), ApiError>) -> (r: SnapshotDeleteResponse)
    ensures
        r@ == delete_answer(deleted),
{
    match deleted {
        Ok(()) => SnapshotDeleteResponse::Deleted,
        Err(fault) => SnapshotDeleteResponse::ServerError(fault),
    }
}

/// The answer to an alias that cannot be read.
pub open spec fn bad_alias(reason: Seq<char>) -> SnapshotSquashView {
    SnapshotSquashView::BadRequest(
        ApiErrorView { code: 400, message: "invalid snapshot alias: "@ + reason },
    )
}

/// Begins a request to squash a snapshot: the alias for the twin.
///
/// `parsed` is what came of reading the request's alias, where it has one.
pub fn snapshots_snapshot_id_squash_post(
    parsed: Option<Result<SnapshotAlias, String>>,
) -> (r: Result<Option<SnapshotAlias>, SnapshotSquashResponse>)
    ensures
        match parsed {
            None => r == Ok::<Option<SnapshotAlias>, SnapshotSquashResponse>(None),
            Some(Ok(alias)) => r == Ok::<Option<SnapshotAlias>, SnapshotSquashResponse>(
                Some(alias),
            ),
            Some(Err(reason)) => r is Err && r->Err_0@ == bad_alias(reason@),
        },
{
    match parsed {
        None => Ok(None),
        Some(Ok(alias)) => Ok(Some(alias)),
        Some(Err(reason)) => Err(
            SnapshotSquashResponse::BadRequest(
                ApiError {
                    code: 400,
                    message: "invalid snapshot alias: ".to_owned().concat(reason.as_str()),
                },
            ),
        ),
    }
}

/// The answer to a squash that failed with `message`: what is wrong with the request is told apart
/// from what is wrong with the server by what the message says.
pub open spec fn failed_squash_answer(
    snapshot_id: Seq<char>,
    message: Seq<char>,
) -> SnapshotSquashView {
    if occurs("not found"@, message) {
        SnapshotSquashView::NotFound(
            ApiErrorView { code: 404, message: not_found_error(snapshot_id) },
        )
    } else if occurs("cannot squash"@, message) || occurs("is not ready"@, message) {
        SnapshotSquashView::BadRequest(ApiErrorView { code: 400, message })
    } else {
        SnapshotSquashView::ServerError(ApiErrorView { code: 500, message })
    }
}

/// The answer to a request to squash the snapshot `snapshot_id`, for what came of squashing it.
pub open spec fn squash_answer(
    snapshot_id: Seq<char>,
    outcome: Result<SquashOutcome, String>,
) -> SnapshotSquashView {
    match outcome {
        Ok(outcome) => SnapshotSquashView::Published(info(outcome.the_record())),
        Err(message) => failed_squash_answer(snapshot_id, message@),
    }
}

/// The answer to a request to squash the snapshot `snapshot_id`, for what came of squashing it.
pub fn squash_response(snapshot_id: &str, outcome: Result<SquashOutcome, String>) -> (r:
    SnapshotSquashResponse)
    requires
        outcome matches Ok(o) ==> presentable(o.the_record()),
    ensures
        r@ == squash_answer(snapshot_id@, outcome),
{
    let message: String = match outcome {
        Ok(outcome) => {
            return SnapshotSquashResponse::Published(SnapshotInfo::from(outcome.record()));
        },
        Err(message) => message,
    };
    if contains(message.as_str(), "not found") {
        SnapshotSquashResponse::NotFound(not_found(snapshot_id))
    } else if contains(message.as_str(), "cannot squash") || contains(
        message.as_str(),
        "is not ready",
    ) {
        SnapshotSquashResponse::BadRequest(ApiError { code: 400, message })
    } else {
        SnapshotSquashResponse::ServerError(ApiError { code: 500, message })
    }
}

} // verus!
