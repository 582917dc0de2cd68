//! Listing snapshots page by page, newest first.

use crate::record::{SnapshotId, SnapshotRecord};
use crate::text::{law_text_order_is_total, text_less, text_precedes};
use crate::time::{system_time_from_unix_ms, SystemTime};
use vstd::prelude::*;
use vstd::string::*;

verus! {

broadcast use group_string_axioms;

/// What a listing is ordered by: the time at which a snapshot was made, and its id.
#[derive(Clone, Debug, PartialEq, Eq)]
pub struct PageKey {
    pub time: SystemTime,
    pub id: SnapshotId,
}

/// What a [`PageKey`] holds.
#[verifier::ext_equal]
pub struct PageKeyView {
    /// Nanoseconds since the Unix epoch.
    pub time: int,
    pub id: Seq<char>,
}

impl View for PageKey {
    type V = PageKeyView;

    open spec fn view(&self) -> PageKeyView {
        PageKeyView { time: self.time.since_epoch(), id: self.id.text@ }
    }
}

/// The page key of a record.
pub open spec fn record_key(record: SnapshotRecord) -> PageKeyView {
    PageKeyView { time: record.created_at_unix_ms * 1_000_000, id: record.id.text@ }
}

/// Whether `a` is older than `b`. Of two keys of one time, the one with the lesser id is older.
pub open spec fn older(a: PageKeyView, b: PageKeyView) -> bool {
    a.time < b.time || (a.time == b.time && text_less(a.id, b.id))
}

/// Whether no record is followed by a newer one.
pub open spec fn newest_first(records: Seq<SnapshotRecord>) -> bool {
    forall|i: int, j: int|
        0 <= i < j < records.len() ==> !older(
            record_key(#[trigger] records[i]),
            record_key(#[trigger] records[j]),
        )
}

/// Whether `rest` lists those of `records` that are older than `cursor`, newest first.
pub open spec fn lists(
    rest: Seq<SnapshotRecord>,
    records: Seq<SnapshotRecord>,
    cursor: PageKeyView,
) -> bool {
    &&& newest_first(rest)
    &&& forall|r: SnapshotRecord| #[trigger]
        rest.to_multiset().count(r) == if older(record_key(r), cursor) {
            records.to_multiset().count(r)
        } else {
            0
        }
}

/// The number of records on the first page of a listing.
pub open spec fn page_len(rest: Seq<SnapshotRecord>, limit: Option<usize>) -> int {
    match limit {
        Some(limit) if limit < rest.len() => limit as int,
        _ => rest.len() as int,
    }
}

/// The first page of a listing.
pub open spec fn page_items(rest: Seq<SnapshotRecord>, limit: Option<usize>) -> Seq<
    SnapshotRecord,
> {
    rest.take(page_len(rest, limit))
}

/// Where the page after the first page of a listing begins: behind its last record, where there
/// are more.
pub open spec fn next_key(rest: Seq<SnapshotRecord>, limit: Option<usize>) -> Option<PageKeyView> {
    let n = page_len(rest, limit);
    if 0 < n < rest.len() {
        Some(record_key(rest[n - 1]))
    } else {
        None
    }
}

/// The view of an optional page key.
pub open spec fn optional_key_view(key: Option<PageKey>) -> Option<PageKeyView> {
    match key {
        Some(key) => Some(key@),
        None => None,
    }
}

/// The page key of a record.
pub fn page_key(record: &SnapshotRecord) -> (r: PageKey)
    ensures
        r.time.wf(),
        r.id == record.id,
        r@ == record_key(*record),
{
    PageKey {
        time: system_time_from_unix_ms(record.created_at_unix_ms),
        id: SnapshotId { text: record.id.text.clone() },
    }
}

/// Whether `a` is older than `b`.
pub fn is_older(a: &PageKey, b: &PageKey) -> (r: bool)
    ensures
        r == older(a@, b@),
{
    let a_time: i128 = a.time.secs as i128 * 1_000_000_000 + a.time.nanos as i128;
    let b_time: i128 = b.time.secs as i128 * 1_000_000_000 + b.time.nanos as i128;
    a_time < b_time || (a_time == b_time && text_precedes(a.id.text.as_str(), b.id.text.as_str()))
}

/// A newest-first listing, with the page key of each of its records.
struct Listing {
    records: Vec<SnapshotRecord>,
    keys: Vec<PageKey>,
}

impl Listing {
    spec fn wf(self) -> bool {
        &&& self.keys@.len() == self.records@.len()
        &&& forall|i: int|
            0 <= i < self.keys@.len() ==> (#[trigger] self.keys@[i])@ == record_key(
                self.records@[i],
            )
        &&& newest_first(self.records@)
    }

    /// Where a record of the given key belongs: before the first record that is older.
    fn place(&self, key: &PageKey) -> (r: usize)
        requires
            self.wf(),
        ensures
            r <= self.records@.len(),
            forall|i: int| 0 <= i < r ==> !older(record_key(#[trigger] self.records@[i]), key@),
            forall|i: int|
                r <= i < self.records@.len() ==> older(record_key(#[trigger] self.records@[i]), key@),
    {
        let mut low: usize = 0;
        let mut high: usize = self.keys.len();
        while low < high
            invariant
                self.wf(),
                low <= high <= self.records@.len(),
                forall|i: int|
                    0 <= i < low ==> !older(record_key(#[trigger] self.records@[i]), key@),
                forall|i: int|
                    high <= i < self.records@.len() ==> older(
                        record_key(#[trigger] self.records@[i]),
                        key@,
                    ),
            decreases high - low,
        {
            let middle: usize = low + (high - low) / 2;
            let ghost pivot = record_key(self.records@[middle as int]);
            assert(self.keys@[middle as int]@ == pivot);
            if is_older(&self.keys[middle], key) {
                assert forall|i: int| middle <= i < self.records@.len() implies older(
                    record_key(#[trigger] self.records@[i]),
                    key@,
                ) by {
                    lemma_older_is_an_order(record_key(self.records@[i]), pivot, key@);
                }
                high = middle;
            } else {
                assert forall|i: int| 0 <= i <= middle implies !older(
                    record_key(#[trigger] self.records@[i]),
                    key@,
                ) by {
                    lemma_older_is_an_order(pivot, record_key(self.records@[i]), key@);
                }
                low = middle + 1;
            }
        }
        low
    }

    /// Puts a record where it belongs.
    fn put(&mut self, record: SnapshotRecord, key: PageKey)
        requires
            old(self).wf(),
            key@ == record_key(record),
        ensures
            final(self).wf(),
            final(self).records@.to_multiset() == old(self).records@.to_multiset().insert(record),
    {
        let place: usize = self.place(&key);
        let ghost before = self.records@;
        self.records.insert(place, record);
        self.keys.insert(place, key);
        proof {
            vstd::seq_lib::to_multiset_insert(before, place as int, record);
            let now = self.records@;
            assert forall|i: int, j: int| 0 <= i < j < now.len() implies !older(
                record_key(#[trigger] now[i]),
                record_key(#[trigger] now[j]),
            ) by {
                lemma_older_is_an_order(record_key(now[i]), record_key(now[j]), key@);
                let p = place as int;
                if i < p {
                    assert(now[i] == before[i]);
                } else if i > p {
                    assert(now[i] == before[i - 1]);
                }
                if j < p {
                    assert(now[j] == before[j]);
                } else if j > p {
                    assert(now[j] == before[j - 1]);
                }
            }
        }
    }
}

/// The page of `records` behind `cursor`, newest first and of at most `limit` records, and where
/// the page after it begins.
pub fn paginate(records: Vec<SnapshotRecord>, cursor: &PageKey, limit: Option<usize>) -> (r: (
    Vec<SnapshotRecord>,
    Option<PageKey>,
))
    ensures
        exists|rest: Seq<SnapshotRecord>| #[trigger]
            lists(rest, records@, cursor@) && r.0@ == page_items(rest, limit) && optional_key_view(
                r.1,
            ) == next_key(rest, limit),
{
    let ghost all = records@;
    let mut listing = Listing { records: Vec::new(), keys: Vec::new() };
    proof {
        vstd::seq_lib::to_multiset_len(listing.records@);
        assert(all.take(0) =~= Seq::empty());
        assert(listing.records@ =~= Seq::empty());
        assert forall|x: SnapshotRecord| #[trigger]
            listing.records@.to_multiset().count(x) == if older(record_key(x), cursor@) {
                all.take(0).to_multiset().count(x)
            } else {
                0
            } by {
            vstd::seq_lib::to_multiset_contains(Seq::<SnapshotRecord>::empty(), x);
        }
    }
    for record in it: records
        invariant
            it.seq() == all,
            listing.wf(),
            forall|x: SnapshotRecord| #[trigger]
                listing.records@.to_multiset().count(x) == if older(record_key(x), cursor@) {
                    all.take(it.index() as int).to_multiset().count(x)
                } else {
                    0
                },
    {
        proof {
            let i = it.index() as int;
            assert(all.take(i + 1) =~= all.take(i).push(record));
            vstd::seq_lib::to_multiset_build(all.take(i), record);
        }
        let key: PageKey = page_key(&record);
        if is_older(&key, cursor) {
            listing.put(record, key);
        }
    }
    let ghost rest = listing.records@;
    assert(all.take(all.len() as int) =~= all);
    assert(lists(rest, all, cursor@));
    let mut items: Vec<SnapshotRecord> = listing.records;
    let total: usize = items.len();
    if let Some(limit) = limit {
        items.truncate(limit);
    }
    assert(items@ =~= page_items(rest, limit));
    let count: usize = items.len();
    let next: Option<PageKey> = if 0 < count && count < total {
        Some(page_key(&items[count - 1]))
    } else {
        None
    };
    (items, next)
}

/// Age is a strict total order.
proof fn lemma_older_is_an_order(a: PageKeyView, b: PageKeyView, c: PageKeyView)
    ensures
        !older(a, a),
        older(a, b) && older(b, c) ==> older(a, c),
        older(a, b) ==> !older(b, a),
        older(a, b) || older(b, a) || a == b,
{
    law_text_order_is_total(a.id, b.id, c.id);
}

/// Whether no two records have the same id.
pub open spec fn distinct_ids(records: Seq<SnapshotRecord>) -> bool {
    forall|i: int, j: int|
        0 <= i < j < records.len() ==> (#[trigger] records[i]).id.text@ != (
        #[trigger] records[j]).id.text@
}

/// Whether each record is followed by older ones only.
pub open spec fn strictly_newest_first(records: Seq<SnapshotRecord>) -> bool {
    forall|i: int, j: int|
        0 <= i < j < records.len() ==> older(
            record_key(#[trigger] records[j]),
            record_key(#[trigger] records[i]),
        )
}

/// Listed records are among those that they were listed from, and older than the cursor; with
/// distinct ids they are strictly ordered, and nothing that belongs there is left out.
proof fn lemma_listed(rest: Seq<SnapshotRecord>, records: Seq<SnapshotRecord>, cursor: PageKeyView)
    requires
        lists(rest, records, cursor),
    ensures
        forall|r: SnapshotRecord| #[trigger]
            rest.contains(r) <==> records.contains(r) && older(record_key(r), cursor),
        distinct_ids(records) ==> strictly_newest_first(rest),
{
    assert forall|r: SnapshotRecord| #[trigger]
        rest.contains(r) <==> records.contains(r) && older(record_key(r), cursor) by {
        vstd::seq_lib::to_multiset_contains(rest, r);
        vstd::seq_lib::to_multiset_contains(records, r);
    }
    if distinct_ids(records) {
        assert(records.no_duplicates());
        records.lemma_multiset_has_no_duplicates();
        assert forall|x: SnapshotRecord| rest.to_multiset().contains(x) implies #[trigger]
            rest.to_multiset().count(x) == 1 by {
            assert(records.to_multiset().contains(x));
        }
        rest.lemma_multiset_has_no_duplicates_conv();
        assert forall|i: int, j: int| 0 <= i < j < rest.len() implies older(
            record_key(#[trigger] rest[j]),
            record_key(#[trigger] rest[i]),
        ) by {
            assert(rest.contains(rest[i]) && rest.contains(rest[j]));
            lemma_older_is_an_order(record_key(rest[i]), record_key(rest[j]), cursor);
            if record_key(rest[i]) == record_key(rest[j]) {
                let k = choose|k: int| 0 <= k < records.len() && records[k] == rest[i];
                let l = choose|l: int| 0 <= l < records.len() && records[l] == rest[j];
                assert(k != l);
            }
        }
    }
}

/// Strictly ordered listings of the same records are the same.
proof fn lemma_same_listing(a: Seq<SnapshotRecord>, b: Seq<SnapshotRecord>)
    requires
        strictly_newest_first(a),
        strictly_newest_first(b),
        forall|r: SnapshotRecord| #[trigger] a.contains(r) <==> b.contains(r),
    ensures
        a == b,
    decreases a.len(),
{
    if a.len() == 0 {
        if b.len() > 0 {
            assert(a.contains(b[0]) <==> b.contains(b[0]));
        }
        assert(a =~= b);
    } else {
        assert(a.contains(a[0]));
        assert(b.contains(a[0]));
        let j = choose|j: int| 0 <= j < b.len() && b[j] == a[0];
        assert(b.contains(b[0]));
        assert(a.contains(b[0]));
        let i = choose|i: int| 0 <= i < a.len() && a[i] == b[0];
        lemma_older_is_an_order(record_key(a[0]), record_key(b[0]), record_key(a[0]));
        assert(a[0] == b[0]) by {
            if i > 0 && j > 0 {
                assert(older(record_key(a[i]), record_key(a[0])));
                assert(older(record_key(b[j]), record_key(b[0])));
            }
        }
        let x = a.drop_first();
        let y = b.drop_first();
        assert forall|k: int, l: int| 0 <= k < l < x.len() implies older(
            record_key(#[trigger] x[l]),
            record_key(#[trigger] x[k]),
        ) by {
            assert(x[k] == a[k + 1] && x[l] == a[l + 1]);
        }
        assert forall|k: int, l: int| 0 <= k < l < y.len() implies older(
            record_key(#[trigger] y[l]),
            record_key(#[trigger] y[k]),
        ) by {
            assert(y[k] == b[k + 1] && y[l] == b[l + 1]);
        }
        assert forall|r: SnapshotRecord| #[trigger] x.contains(r) <==> y.contains(r) by {
            lemma_rest_contains(a, r);
            lemma_rest_contains(b, r);
        }
        lemma_same_listing(x, y);
        assert(a =~= seq![a[0]] + x);
        assert(b =~= seq![b[0]] + y);
    }
}

proof fn lemma_rest_contains(a: Seq<SnapshotRecord>, r: SnapshotRecord)
    requires
        a.len() > 0,
        strictly_newest_first(a),
    ensures
        a.drop_first().contains(r) <==> a.contains(r) && r != a[0],
{
    let x = a.drop_first();
    if x.contains(r) {
        let k = choose|k: int| 0 <= k < x.len() && x[k] == r;
        assert(a[k + 1] == r);
        lemma_older_is_an_order(record_key(a[0]), record_key(a[0]), record_key(a[0]));
    }
    if a.contains(r) && r != a[0] {
        let k = choose|k: int| 0 <= k < a.len() && a[k] == r;
        assert(x[k - 1] == r);
    }
}

/// A page shows each of its records once, from the newest to the oldest, and all of them are older
/// than the cursor.
pub proof fn law_page_is_in_order(
    records: Seq<SnapshotRecord>,
    cursor: PageKeyView,
    rest: Seq<SnapshotRecord>,
    limit: Option<usize>,
)
    requires
        distinct_ids(records),
        lists(rest, records, cursor),
    ensures
        strictly_newest_first(page_items(rest, limit)),
        distinct_ids(page_items(rest, limit)),
        forall|i: int|
            0 <= i < page_items(rest, limit).len() ==> older(
                record_key(#[trigger] page_items(rest, limit)[i]),
                cursor,
            ),
{
    lemma_listed(rest, records, cursor);
    let page = page_items(rest, limit);
    assert forall|i: int| 0 <= i < page.len() implies older(
        record_key(#[trigger] page[i]),
        cursor,
    ) by {
        assert(rest.contains(rest[i]));
    }
    assert forall|i: int, j: int| 0 <= i < j < page.len() implies (#[trigger] page[i]).id.text@ != (
    #[trigger] page[j]).id.text@ by {
        assert(rest.contains(rest[i]) && rest.contains(rest[j]));
        let k = choose|k: int| 0 <= k < records.len() && records[k] == rest[i];
        let l = choose|l: int| 0 <= l < records.len() && records[l] == rest[j];
        lemma_older_is_an_order(record_key(rest[i]), record_key(rest[j]), cursor);
        assert(k != l);
    }
}

/// A page shows only what it was made from: what holds of all listed records, such as that they
/// were made from a certain sandbox, holds of all shown.
pub proof fn law_page_shows_listed_records(
    records: Seq<SnapshotRecord>,
    cursor: PageKeyView,
    rest: Seq<SnapshotRecord>,
    limit: Option<usize>,
    holds: spec_fn(SnapshotRecord) -> bool,
)
    requires
        lists(rest, records, cursor),
        forall|i: int| 0 <= i < records.len() ==> holds(#[trigger] records[i]),
    ensures
        forall|i: int|
            0 <= i < page_items(rest, limit).len() ==> holds(
                #[trigger] page_items(rest, limit)[i],
            ),
{
    lemma_listed(rest, records, cursor);
    assert forall|i: int| 0 <= i < page_items(rest, limit).len() implies holds(
        #[trigger] page_items(rest, limit)[i],
    ) by {
        assert(rest.contains(rest[i]));
    }
}

/// Pages continue each other: the listing behind the key that comes with a page is the listing
/// without that page. So going from page to page shows everything, and nothing twice. A page that
/// comes without a key is the last, unless it was to be empty.
pub proof fn law_pages_continue(
    records: Seq<SnapshotRecord>,
    cursor: PageKeyView,
    rest: Seq<SnapshotRecord>,
    limit: Option<usize>,
    more: Seq<SnapshotRecord>,
)
    requires
        distinct_ids(records),
        lists(rest, records, cursor),
        next_key(rest, limit) matches Some(key) ==> lists(more, records, key),
    ensures
        next_key(rest, limit) is Some ==> rest == page_items(rest, limit) + more,
        next_key(rest, limit) is None && limit != Some(0usize) ==> rest == page_items(rest, limit),
{
    lemma_listed(rest, records, cursor);
    if let Some(key) = next_key(rest, limit) {
        lemma_listed(more, records, key);
        let n = page_len(rest, limit);
        let tail = rest.skip(n);
        assert forall|r: SnapshotRecord| #[trigger] tail.contains(r) <==> more.contains(r) by {
            if tail.contains(r) {
                let k = choose|k: int| 0 <= k < tail.len() && tail[k] == r;
                assert(rest[n + k] == r);
                assert(rest.contains(r));
                assert(older(record_key(rest[n + k]), record_key(rest[n - 1])));
            }
            if more.contains(r) {
                assert(rest.contains(rest[n - 1]));
                lemma_older_is_an_order(record_key(r), key, cursor);
                assert(rest.contains(r));
                let k = choose|k: int| 0 <= k < rest.len() && rest[k] == r;
                if k < n {
                    lemma_older_is_an_order(record_key(r), key, key);
                    if k < n - 1 {
                        assert(older(record_key(rest[n - 1]), record_key(rest[k])));
                    }
                }
                assert(tail[k - n] == r);
            }
        }
        assert(strictly_newest_first(tail)) by {
            assert forall|i: int, j: int| 0 <= i < j < tail.len() implies older(
                record_key(#[trigger] tail[j]),
                record_key(#[trigger] tail[i]),
            ) by {
                assert(tail[i] == rest[n + i] && tail[j] == rest[n + j]);
            }
        }
        lemma_same_listing(tail, more);
        assert(rest =~= page_items(rest, limit) + tail);
    } else if limit != Some(0usize) {
        assert(page_items(rest, limit) =~= rest);
    }
}

/// A later snapshot stands before an earlier one, whatever else tells them apart, and of two of one
/// time the one with the greater id does. What was made before the cursor's time is never left out
/// of the listing behind it; what was made after it, or was not listed, is never in it.
pub proof fn law_later_snapshots_come_first(
    records: Seq<SnapshotRecord>,
    cursor: PageKey,
    rest: Seq<SnapshotRecord>,
    limit: Option<usize>,
)
    requires
        lists(rest, records, cursor@),
    ensures
        forall|i: int, j: int|
            0 <= i < page_items(rest, limit).len() && 0 <= j < page_items(rest, limit).len() && (
            #[trigger] page_items(rest, limit)[i]).created_at_unix_ms < (
            #[trigger] page_items(rest, limit)[j]).created_at_unix_ms ==> j < i,
        forall|i: int, j: int|
            0 <= i < page_items(rest, limit).len() && 0 <= j < page_items(rest, limit).len() && (
            #[trigger] page_items(rest, limit)[i]).created_at_unix_ms == (
            #[trigger] page_items(rest, limit)[j]).created_at_unix_ms && text_less(
                page_items(rest, limit)[i].id.text@,
                page_items(rest, limit)[j].id.text@,
            ) ==> j < i,
        forall|r: SnapshotRecord| #[trigger]
            records.contains(r) && r.created_at_unix_ms * 1_000_000 < cursor.time.secs
                * 1_000_000_000 + cursor.time.nanos ==> rest.contains(r),
        forall|r: SnapshotRecord| #[trigger]
            records.contains(r) && r.created_at_unix_ms * 1_000_000 == cursor.time.secs
                * 1_000_000_000 + cursor.time.nanos && text_less(r.id.text@, cursor.id.text@)
                ==> rest.contains(r),
        forall|r: SnapshotRecord| #[trigger]
            rest.contains(r) ==> records.contains(r) && r.created_at_unix_ms * 1_000_000
                <= cursor.time.secs * 1_000_000_000 + cursor.time.nanos && (r.created_at_unix_ms
                * 1_000_000 == cursor.time.secs * 1_000_000_000 + cursor.time.nanos ==> text_less(
                r.id.text@,
                cursor.id.text@,
            )),
{
    lemma_listed(rest, records, cursor@);
    let page = page_items(rest, limit);
    assert forall|i: int, j: int|
        0 <= i < page.len() && 0 <= j < page.len() && (#[trigger] page[i]).created_at_unix_ms < (
        #[trigger] page[j]).created_at_unix_ms implies j < i by {
        if i < j {
            assert(!older(record_key(rest[i]), record_key(rest[j])));
        }
    }
    assert forall|i: int, j: int|
        0 <= i < page.len() && 0 <= j < page.len() && (#[trigger] page[i]).created_at_unix_ms == (
        #[trigger] page[j]).created_at_unix_ms && text_less(
            page[i].id.text@,
            page[j].id.text@,
        ) implies j < i by {
        law_text_order_is_total(page[i].id.text@, page[j].id.text@, page[i].id.text@);
        if i < j {
            assert(!older(record_key(rest[i]), record_key(rest[j])));
        }
    }
}

/// Nothing is listed more often than it is there, and what belongs behind the cursor is listed just
/// as often.
pub proof fn law_listing_counts_each_record(
    records: Seq<SnapshotRecord>,
    cursor: PageKey,
    rest: Seq<SnapshotRecord>,
    r: SnapshotRecord,
)
    requires
        lists(rest, records, cursor@),
    ensures
        rest.to_multiset().count(r) <= records.to_multiset().count(r),
        r.created_at_unix_ms * 1_000_000 < cursor.time.secs * 1_000_000_000 + cursor.time.nanos
            ==> rest.to_multiset().count(r) == records.to_multiset().count(r),
        r.created_at_unix_ms * 1_000_000 == cursor.time.secs * 1_000_000_000 + cursor.time.nanos
            && text_less(r.id.text@, cursor.id.text@) ==> rest.to_multiset().count(r)
            == records.to_multiset().count(r),
{
}

/// A page is the beginning of its listing, as long as asked for or as there is. It comes with a key
/// exactly where more is left, and that key is the time and id of its last record.
pub proof fn law_page_is_as_long_as_asked_for(rest: Seq<SnapshotRecord>, limit: Option<usize>)
    ensures
        limit is None ==> page_items(rest, limit) == rest && next_key(rest, limit) is None,
        limit matches Some(n) ==> {
            &&& n >= rest.len() ==> page_items(rest, limit) == rest && next_key(rest, limit) is None
            &&& n < rest.len() ==> page_items(rest, limit).len() == n
            &&& 0 < n < rest.len() ==> next_key(rest, limit) is Some && next_key(
                rest,
                limit,
            )->0.time == page_items(rest, limit).last().created_at_unix_ms * 1_000_000 && next_key(
                rest,
                limit,
            )->0.id == page_items(rest, limit).last().id.text@
        },
        forall|i: int|
            0 <= i < page_items(rest, limit).len() ==> #[trigger] page_items(rest, limit)[i]
                == rest[i],
        page_items(rest, limit).len() <= rest.len(),
{
    assert(rest.take(rest.len() as int) =~= rest);
}

/// A key is a time and an id, and is seen as such.
pub proof fn law_page_key_is_time_and_id(key: PageKey, record: SnapshotRecord)
    ensures
        key@.time == key.time.secs * 1_000_000_000 + key.time.nanos,
        key@.id == key.id.text@,
        record_key(record).time == record.created_at_unix_ms * 1_000_000,
        record_key(record).id == record.id.text@,
        optional_key_view(Some(key)) == Some(key@),
        optional_key_view(None) is None,
{
}

/// Age goes by time, and by id only where the times are the same.
pub proof fn law_age_goes_by_time(a: PageKeyView, b: PageKeyView)
    ensures
        a.time < b.time ==> older(a, b) && !older(b, a),
        a.time == b.time ==> (older(a, b) <==> text_less(a.id, b.id)),
{
}

} // verus!
