//! What holds of the API's answers, for all requests.

use crate::api::{
    admits, bad_alias, bad_token, delete_answer, failed_squash_answer, get_answer, infos,
    page_answer, refusal, squash_answer, template_error, ApiError, ApiErrorView,
    SnapshotDeleteResponse, SnapshotDeleteView, SnapshotGetResponse, SnapshotGetView,
    SnapshotListFilter, SnapshotPage, SnapshotSquashResponse, SnapshotSquashView,
    SnapshotsGetResponse, SnapshotsGetView,
};
use crate::image::{first_remote, remote_error, remote_layer_error, Chain};
use crate::info::{info, info_views, SnapshotInfo};
use crate::page::{
    distinct_ids, law_page_is_in_order, law_page_shows_listed_records, law_pages_continue, lists,
    next_key, page_items, strictly_newest_first, PageKeyView,
};
use crate::record::{from_sandbox, SnapshotRecord};
use crate::squash::{
    not_found_error, not_ready_error, SquashEventView, SquashJob, SquashOutcome, SquashStateView,
};
use crate::squash_laws::{after, fits, law_refusal_names_remote_layer, loaded_lowers};
use crate::text::{decimal, occurs, occurs_at};
use vstd::prelude::*;

verus! {

/// A list shows what was asked for: of the records that the repository lists for a filter, a page
/// shows each at most once, from the newest to the oldest, all of them admitted by the filter and
/// none of them a template. The page behind it goes on from there and repeats none of them.
pub proof fn law_list_shows_what_was_asked_for(
    filter: SnapshotListFilter,
    records: Seq<SnapshotRecord>,
    cursor: PageKeyView,
    rest: Seq<SnapshotRecord>,
    limit: Option<usize>,
    page: SnapshotPage,
    more: Seq<SnapshotRecord>,
)
    requires
        distinct_ids(records),
        forall|i: int| 0 <= i < records.len() ==> admits(filter, #[trigger] records[i]),
        lists(rest, records, cursor),
        page.items@ == page_items(rest, limit),
        next_key(rest, limit) matches Some(key) ==> lists(more, records, key),
    ensures
        page_answer(Ok(page)) == (SnapshotsGetView::Snapshots {
            body: infos(page.items@),
            next_token: page.next_token,
        }),
        forall|i: int|
            0 <= i < page.items@.len() ==> admits(filter, #[trigger] page.items@[i])
                && !(page.items@[i].source is Template) && infos(page.items@)[i] == info(
                page.items@[i],
            ),
        strictly_newest_first(page.items@),
        forall|i: int, j: int|
            0 <= i < j < page.items@.len() ==> (#[trigger] infos(page.items@)[i]).snapshot_id != (
            #[trigger] infos(page.items@)[j]).snapshot_id,
        next_key(rest, limit) is Some ==> rest == page.items@ + more,
        next_key(rest, limit) is Some ==> forall|i: int, j: int|
            0 <= i < page.items@.len() && 0 <= j < more.len() ==> (
            #[trigger] page.items@[i]).id.text@ != (#[trigger] more[j]).id.text@,
{
    let admitted = |r: SnapshotRecord| admits(filter, r);
    let items = page.items@;
    law_page_shows_listed_records(records, cursor, rest, limit, admitted);
    law_page_is_in_order(records, cursor, rest, limit);
    law_pages_continue(records, cursor, rest, limit, more);
    assert forall|i: int| 0 <= i < items.len() implies admits(filter, #[trigger] items[i]) by {
        assert(admitted(page_items(rest, limit)[i]));
    }
    assert forall|i: int, j: int| 0 <= i < j < items.len() implies (
    #[trigger] infos(items)[i]).snapshot_id != (#[trigger] infos(items)[j]).snapshot_id by {
        assert(items[i].id.text@ != items[j].id.text@);
    }
    if next_key(rest, limit) is Some {
        law_page_is_in_order(records, cursor, rest, None);
        assert(page_items(rest, None) =~= rest);
        assert forall|i: int, j: int| 0 <= i < items.len() && 0 <= j < more.len() implies (
        #[trigger] items[i]).id.text@ != (#[trigger] more[j]).id.text@ by {
            assert(rest[i] == items[i]);
            assert(rest[items.len() + j] == more[j]);
        }
    }
}

/// A template is out of the API's sight: a request for it is answered as one for a snapshot that
/// is not there, and a request to delete it is refused before anything is deleted.
pub proof fn law_templates_are_left_alone(snapshot_id: Seq<char>, template: SnapshotRecord)
    requires
        !from_sandbox(template),
    ensures
        get_answer(snapshot_id, Ok(Some(template))) == get_answer(snapshot_id, Ok(None)),
        refusal(snapshot_id, Ok(Some(template))) == Some(
            SnapshotDeleteView::NamesTemplate(
                ApiErrorView { code: 409, message: template_error(snapshot_id) },
            ),
        ),
{
}

/// Deleting can be repeated: a request to delete a snapshot that is no longer there goes on to the
/// deletion, as one for a snapshot that is there does, and succeeds with it.
pub proof fn law_deletion_can_be_repeated(snapshot_id: Seq<char>, snapshot: SnapshotRecord)
    requires
        from_sandbox(snapshot),
    ensures
        refusal(snapshot_id, Ok(Some(snapshot))) is None,
        refusal(snapshot_id, Ok(None)) is None,
        delete_answer(Ok(())) == SnapshotDeleteView::Deleted,
{
}

/// Squashing a snapshot that is flat already is answered with that snapshot.
pub proof fn law_flat_squash_answers_with_source(snapshot_id: Seq<char>, record: SnapshotRecord)
    ensures
        squash_answer(snapshot_id, Ok(SquashOutcome::AlreadyFlat(record)))
            == SnapshotSquashView::Published(info(record)),
        info(record).snapshot_id == record.id.text@,
{
}

/// Squashing a snapshot that is not there is answered with a not-found error.
pub proof fn law_squashing_missing_snapshot_is_not_found(job: SquashJob)
    ensures
        after(job, seq![SquashEventView::Found(None)]) matches SquashStateView::Failed { message }
            && failed_squash_answer(job.reference@, message) == SnapshotSquashView::NotFound(
            ApiErrorView { code: 404, message: not_found_error(job.reference@) },
        ),
{
    let events = seq![SquashEventView::Found(None)];
    assert(events.drop_last() =~= Seq::empty());
    assert(after(job, events.drop_last()) is Looking);
    let message = not_found_error(job.reference@);
    reveal_strlit("not found");
    reveal_strlit("' not found");
    assert(message =~= ("snapshot '"@ + job.reference@ + seq!['\'', ' ']) + "not found"@
        + Seq::empty());
    lemma_occurs_between(
        "snapshot '"@ + job.reference@ + seq!['\'', ' '],
        "not found"@,
        Seq::empty(),
    );
}

/// Squashing a snapshot that is not committed yet is answered with a bad-request error, unless its
/// reference itself says "not found".
pub proof fn law_squashing_unready_snapshot_is_bad_request(job: SquashJob, record: SnapshotRecord)
    requires
        record.committed is None,
    ensures
        after(job, seq![SquashEventView::Found(Some(record))]) matches SquashStateView::Failed {
            message,
        } && message == not_ready_error(job.reference@) && (failed_squash_answer(
            job.reference@,
            message,
        ) == SnapshotSquashView::BadRequest(ApiErrorView { code: 400, message }) <==> !occurs(
            "not found"@,
            job.reference@,
        )),
{
    let events = seq![SquashEventView::Found(Some(record))];
    assert(events.drop_last() =~= Seq::empty());
    assert(after(job, events.drop_last()) is Looking);
    let reference = job.reference@;
    let message = not_ready_error(reference);
    reveal_strlit("snapshot '");
    reveal_strlit("snapshot ");
    reveal_strlit("' is not ready");
    reveal_strlit(" is not ready");
    reveal_strlit("is not ready");
    reveal_strlit("not found");
    let needle = "not found"@;
    let rest = reference + seq!['\''] + " is not ready"@;
    assert(message =~= "snapshot "@ + seq!['\''] + rest);
    if occurs(needle, reference) {
        let i = choose|i: int| #[trigger] occurs_at(needle, reference, i);
        assert(message.subrange(i + 10, i + 10 + needle.len()) =~= reference.subrange(
            i,
            i + needle.len(),
        ));
        assert(occurs_at(needle, message, i + 10));
    } else {
        if occurs(needle, message) {
            lemma_occurs_apart(needle, "snapshot "@, '\'', rest);
            assert forall|i: int| !#[trigger] occurs_at(needle, "snapshot "@, i) by {
                if occurs_at(needle, "snapshot "@, i) {
                    assert("snapshot "@.subrange(i, i + 9)[0] == needle[0]);
                }
            }
            lemma_occurs_apart(needle, reference, '\'', " is not ready"@);
            assert forall|i: int| !#[trigger] occurs_at(needle, " is not ready"@, i) by {
                if occurs_at(needle, " is not ready"@, i) {
                    let part = " is not ready"@.subrange(i, i + 9);
                    assert(part[0] == needle[0]);
                    assert(part[4] == needle[4]);
                }
            }
        }
        assert(message =~= ("snapshot '"@ + reference + seq!['\'', ' ']) + "is not ready"@
            + Seq::empty());
        lemma_occurs_between(
            "snapshot '"@ + reference + seq!['\'', ' '],
            "is not ready"@,
            Seq::empty(),
        );
    }
}

/// Squashing a snapshot that has layers to merge, and a layer that is not there as a local file, is
/// answered with a bad-request error that names the layer.
pub proof fn law_squashing_remote_layers_is_bad_request(
    job: SquashJob,
    events: Seq<SquashEventView>,
    message: Seq<char>,
)
    requires
        fits(job, events),
        events.len() > 0,
        events.last() is Loaded,
        after(job, events) == (SquashStateView::Failed { message }),
    ensures
        loaded_lowers(events, Chain::Rootfs).len() >= 2 || loaded_lowers(
            events,
            Chain::Memory,
        ).len() >= 2,
        exists|chain: Chain| #[trigger]
            remote_error(loaded_lowers(events, chain), chain.name()) == Some(message),
        failed_squash_answer(job.reference@, message) == SnapshotSquashView::BadRequest(
            ApiErrorView { code: 400, message },
        ),
{
    law_refusal_names_remote_layer(job, events, message);
    let chain = choose|chain: Chain| #[trigger]
        remote_error(loaded_lowers(events, chain), chain.name()) == Some(message);
    let index = first_remote(loaded_lowers(events, chain)) as nat;
    assert(message == remote_layer_error(chain.name(), index));
    lemma_remote_layer_answer(job.reference@, chain, index);
}

/// Whether `a` and `b` stand next to each other somewhere in `s`.
spec fn adjacent(s: Seq<char>, a: char, b: char) -> bool {
    exists|j: int| 0 <= j < s.len() - 1 && #[trigger] s[j] == a && s[j + 1] == b
}

/// Characters that are next to each other in neither of two texts, nor where these meet, are so
/// nowhere in the whole.
proof fn lemma_apart(x: Seq<char>, y: Seq<char>, a: char, b: char)
    requires
        !adjacent(x, a, b),
        !adjacent(y, a, b),
        y.len() > 0 ==> y.first() != b,
    ensures
        !adjacent(x + y, a, b),
{
    let s = x + y;
    if adjacent(s, a, b) {
        let j = choose|j: int| 0 <= j < s.len() - 1 && #[trigger] s[j] == a && s[j + 1] == b;
        if j + 1 < x.len() {
            assert(x[j] == a && x[j + 1] == b);
        } else if j >= x.len() {
            assert(y[j - x.len()] == a && y[j - x.len() + 1] == b);
        } else {
            assert(s[j + 1] == y.first());
        }
    }
}

/// A decimal numeral holds no letter.
proof fn lemma_decimal_has_no_letter(n: nat)
    ensures
        decimal(n).len() > 0,
        forall|j: int| 0 <= j < decimal(n).len() ==> '0' <= #[trigger] decimal(n)[j] <= '9',
    decreases n,
{
    if n >= 10 {
        lemma_decimal_has_no_letter(n / 10);
    }
}

proof fn lemma_remote_layer_answer(snapshot_id: Seq<char>, chain: Chain, index: nat)
    ensures
        failed_squash_answer(snapshot_id, remote_layer_error(chain.name(), index))
            == SnapshotSquashView::BadRequest(
            ApiErrorView { code: 400, message: remote_layer_error(chain.name(), index) },
        ),
{
    let message = remote_layer_error(chain.name(), index);
    let start = "cannot squash "@;
    let middle = " chain: layer "@;
    let end = " has no local file (remote layers are unsupported)"@;
    reveal_strlit("cannot squash ");
    reveal_strlit("cannot squash");
    reveal_strlit("rootfs");
    reveal_strlit("memory");
    reveal_strlit(" chain: layer ");
    reveal_strlit(" has no local file (remote layers are unsupported)");
    reveal_strlit("not found");
    assert(message =~= Seq::empty() + "cannot squash"@ + (seq![' '] + chain.name() + middle
        + decimal(index) + end));
    lemma_occurs_between(
        Seq::empty(),
        "cannot squash"@,
        seq![' '] + chain.name() + middle + decimal(index) + end,
    );
    lemma_decimal_has_no_letter(index);
    assert(!adjacent(start, 'o', 'u'));
    assert(!adjacent(chain.name(), 'o', 'u'));
    assert(!adjacent(middle, 'o', 'u'));
    assert(!adjacent(decimal(index), 'o', 'u'));
    assert(!adjacent(end, 'o', 'u'));
    lemma_apart(start, chain.name(), 'o', 'u');
    lemma_apart(start + chain.name(), middle, 'o', 'u');
    lemma_apart(start + chain.name() + middle, decimal(index), 'o', 'u');
    lemma_apart(start + chain.name() + middle + decimal(index), end, 'o', 'u');
    let needle = "not found"@;
    if occurs(needle, message) {
        let i = choose|i: int| #[trigger] occurs_at(needle, message, i);
        let part = message.subrange(i, i + needle.len());
        assert(part[5] == 'o' && part[6] == 'u');
        assert(message[i + 5] == 'o' && message[i + 5 + 1] == 'u');
    }
}

/// What occurs between two texts occurs in the whole.
proof fn lemma_occurs_between(before: Seq<char>, needle: Seq<char>, behind: Seq<char>)
    ensures
        occurs(needle, before + needle + behind),
{
    let hay = before + needle + behind;
    let i = before.len() as int;
    assert(hay.subrange(i, i + needle.len()) =~= needle);
    assert(occurs_at(needle, hay, i));
}

/// What occurs in two texts with a separator between them, and does not hold the separator, occurs
/// in one of the two.
proof fn lemma_occurs_apart(needle: Seq<char>, a: Seq<char>, separator: char, b: Seq<char>)
    requires
        occurs(needle, a + seq![separator] + b),
        forall|k: int| 0 <= k < needle.len() ==> #[trigger] needle[k] != separator,
    ensures
        occurs(needle, a) || occurs(needle, b),
{
    let hay = a + seq![separator] + b;
    let n = needle.len() as int;
    let i = choose|i: int| #[trigger] occurs_at(needle, hay, i);
    let m = a.len() as int;
    if i + n <= m {
        assert(a.subrange(i, i + n) =~= hay.subrange(i, i + n));
        assert(occurs_at(needle, a, i));
    } else if i > m {
        let j = i - m - 1;
        assert(b.subrange(j, j + n) =~= hay.subrange(i, i + n));
        assert(occurs_at(needle, b, j));
    } else {
        assert(hay.subrange(i, i + n)[m - i] == hay[m]);
        assert(needle[m - i] == separator);
    }
}

/// A request for a snapshot is answered with it where it is there and was made from a sandbox, with
/// the repository's own fault where it fails, and otherwise with a not-found error that names what
/// was asked for.
pub proof fn law_get_answers_what_was_found(
    snapshot_id: Seq<char>,
    found: Result<Option<SnapshotRecord>, ApiError>,
)
    ensures
        found matches Ok(Some(record)) && record.source is Sandbox ==> get_answer(snapshot_id, found)
            == SnapshotGetView::Snapshot(info(found->Ok_0->0)),
        (found matches Ok(None)) || (found matches Ok(Some(record)) && record.source is Template)
            ==> get_answer(snapshot_id, found) == SnapshotGetView::NotFound(
            ApiErrorView { code: 404, message: "snapshot '"@ + snapshot_id + "' not found"@ },
        ),
        found matches Err(fault) ==> get_answer(snapshot_id, found) == SnapshotGetView::ServerError(
            ApiErrorView { code: fault.code, message: fault.message@ },
        ),
{
}

/// A request to delete goes on to the deletion for what is absent or was made from a sandbox. A
/// template is refused by name, and the repository's fault is passed on, now as after the deletion.
pub proof fn law_delete_answers_what_was_found(
    snapshot_id: Seq<char>,
    found: Result<Option<SnapshotRecord>, ApiError>,
    deleted: Result<(), ApiError>,
)
    ensures
        (found matches Ok(None)) || (found matches Ok(Some(record)) && record.source is Sandbox)
            ==> refusal(snapshot_id, found) is None,
        found matches Ok(Some(record)) && record.source is Template ==> refusal(snapshot_id, found)
            == Some(
            SnapshotDeleteView::NamesTemplate(
                ApiErrorView {
                    code: 409,
                    message: "'"@ + snapshot_id
                        + "' is a template, not a sandbox snapshot; manage it through the template API"@,
                },
            ),
        ),
        found matches Err(fault) ==> refusal(snapshot_id, found) == Some(
            SnapshotDeleteView::ServerError(
                ApiErrorView { code: fault.code, message: fault.message@ },
            ),
        ),
        deleted is Ok ==> delete_answer(deleted) is Deleted,
        deleted matches Err(fault) ==> delete_answer(deleted) == SnapshotDeleteView::ServerError(
            ApiErrorView { code: fault.code, message: fault.message@ },
        ),
{
}

/// A list is answered with the info of each record of the page, in their order, and its token; a
/// fault of the repository is passed on. What cannot be read of a request is told as a bad request.
pub proof fn law_list_answers_the_page(
    page: Result<SnapshotPage, ApiError>,
    reason: Seq<char>,
)
    ensures
        page matches Ok(p) ==> page_answer(page) is Snapshots,
        page matches Ok(p) ==> page_answer(page)->next_token == p.next_token,
        page matches Ok(p) ==> page_answer(page)->body.len() == p.items@.len(),
        page matches Ok(p) ==> forall|i: int|
            0 <= i < p.items@.len() ==> #[trigger] page_answer(page)->body[i] == info(p.items@[i]),
        page matches Err(fault) ==> page_answer(page) == SnapshotsGetView::ServerError(
            ApiErrorView { code: fault.code, message: fault.message@ },
        ),
        bad_token(reason) == SnapshotsGetView::BadRequest(
            ApiErrorView { code: 400, message: "invalid next token: "@ + reason },
        ),
        bad_alias(reason) == SnapshotSquashView::BadRequest(
            ApiErrorView { code: 400, message: "invalid snapshot alias: "@ + reason },
        ),
{
}

/// A filter asks for snapshots made from sandboxes: from the sandbox it names, if it names one, and
/// of the name it gives, if it gives one.
pub proof fn law_filter_asks_for_sandbox_and_name(
    filter: SnapshotListFilter,
    record: SnapshotRecord,
)
    ensures
        record.source is Template ==> !admits(filter, record),
        filter.sandbox_id is Some && record.source is Sandbox
            && record.source->source_sandbox_id@ != filter.sandbox_id->0@ ==> !admits(
            filter,
            record,
        ),
        filter.name is Some && (record.alias is None || record.alias->0.text@ != filter.name->0@)
            ==> !admits(filter, record),
        record.source is Sandbox && (filter.sandbox_id is Some
            ==> record.source->source_sandbox_id@ == filter.sandbox_id->0@) && (filter.name is Some
            ==> record.alias is Some && record.alias->0.text@ == filter.name->0@) ==> admits(
            filter,
            record,
        ),
{
}

/// A squash is answered with the record to go on with, the twin's or the source's. One that failed
/// is answered by what its message says, and the message is passed on but for a not-found error,
/// which names what was asked for.
pub proof fn law_squash_answers_its_outcome(
    snapshot_id: Seq<char>,
    record: SnapshotRecord,
    message: String,
)
    ensures
        squash_answer(snapshot_id, Ok(SquashOutcome::Squashed(record)))
            == SnapshotSquashView::Published(info(record)),
        squash_answer(snapshot_id, Ok(SquashOutcome::AlreadyFlat(record)))
            == SnapshotSquashView::Published(info(record)),
        occurs("not found"@, message@) ==> squash_answer(snapshot_id, Err(message))
            == SnapshotSquashView::NotFound(
            ApiErrorView { code: 404, message: "snapshot '"@ + snapshot_id + "' not found"@ },
        ),
        !occurs("not found"@, message@) && (occurs("cannot squash"@, message@) || occurs(
            "is not ready"@,
            message@,
        )) ==> squash_answer(snapshot_id, Err(message)) == SnapshotSquashView::BadRequest(
            ApiErrorView { code: 400, message: message@ },
        ),
        !occurs("not found"@, message@) && !occurs("cannot squash"@, message@) && !occurs(
            "is not ready"@,
            message@,
        ) ==> squash_answer(snapshot_id, Err(message)) == SnapshotSquashView::ServerError(
            ApiErrorView { code: 500, message: message@ },
        ),
{
}

/// The views of the answers show what they hold.
pub proof fn law_answer_views_show_what_they_hold(
    error: ApiError,
    shown: SnapshotInfo,
    body: Vec<SnapshotInfo>,
    next_token: Option<String>,
)
    ensures
        error@.code == error.code,
        error@.message == error.message@,
        SnapshotsGetResponse::BadRequest(error)@ == SnapshotsGetView::BadRequest(error@),
        SnapshotsGetResponse::ServerError(error)@ == SnapshotsGetView::ServerError(error@),
        (SnapshotsGetResponse::Snapshots { body, next_token })@ == (SnapshotsGetView::Snapshots {
            body: info_views(body@),
            next_token,
        }),
        SnapshotGetResponse::Snapshot(shown)@ == SnapshotGetView::Snapshot(shown@),
        SnapshotGetResponse::NotFound(error)@ == SnapshotGetView::NotFound(error@),
        SnapshotGetResponse::ServerError(error)@ == SnapshotGetView::ServerError(error@),
        SnapshotDeleteResponse::Deleted@ is Deleted,
        SnapshotDeleteResponse::NamesTemplate(error)@ == SnapshotDeleteView::NamesTemplate(error@),
        SnapshotDeleteResponse::ServerError(error)@ == SnapshotDeleteView::ServerError(error@),
        SnapshotSquashResponse::Published(shown)@ == SnapshotSquashView::Published(shown@),
        SnapshotSquashResponse::BadRequest(error)@ == SnapshotSquashView::BadRequest(error@),
        SnapshotSquashResponse::NotFound(error)@ == SnapshotSquashView::NotFound(error@),
        SnapshotSquashResponse::ServerError(error)@ == SnapshotSquashView::ServerError(error@),
{
}

} // verus!
