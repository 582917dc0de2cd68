//! Where a squash keeps the layers it merges until they are published.

use crate::path::{join_path, joined_path};
use vstd::prelude::*;
use vstd::string::*;

verus! {

broadcast use group_string_axioms;

/// Whether `c` is a hexadecimal digit in lower case.
pub open spec fn lower_hex(c: char) -> bool {
    '0' <= c <= '9' || 'a' <= c <= 'f'
}

/// Whether `s` is the text of a version 7 UUID: hexadecimal digits in lower case in groups of
/// eight, four, four, four and twelve, with the version and the variant in their places.
pub open spec fn uuid_v7_text(s: Seq<char>) -> bool {
    &&& s.len() == 36
    &&& forall|i: int|
        0 <= i < 36 ==> if i == 8 || i == 13 || i == 18 || i == 23 {
            #[trigger] s[i] == '-'
        } else {
            lower_hex(s[i])
        }
    &&& s[14] == '7'
    &&& (s[19] == '8' || s[19] == '9' || s[19] == 'a' || s[19] == 'b')
}

/// The staging directory of the given name under a home directory.
pub open spec fn staging_root(home: Seq<char>, name: Seq<char>) -> Seq<char> {
    joined_path(joined_path(home, "squash-staging"@), name)
}

/// The text of a new version 7 UUID, by `uuid::Uuid::now_v7` and its `Display`.
///
/// Claimed: the text has the form of such a UUID. Which one it is rests on the clock and on
/// chance, and nothing is claimed of that. A clock that stands before the Unix epoch, or a source
/// of chance that fails, makes the call panic.
#[verifier::external_body]
fn new_uuid_text() -> (r: String)
    ensures
        uuid_v7_text(r@),
{
    uuid::Uuid::now_v7().to_string()
}

/// The staging directory of the given name under a home directory.
pub fn named_staging_root(home: &str, name: &str) -> (r: String)
    ensures
        r@ == staging_root(home@, name@),
{
    join_path(join_path(home, "squash-staging").as_str(), name)
}

/// A staging directory under a home directory, under a new name.
pub fn new_staging_root(home: &str) -> (r: String)
    ensures
        exists|name: Seq<char>| uuid_v7_text(name) && r@ == #[trigger] staging_root(home@, name),
{
    let name: String = new_uuid_text();
    named_staging_root(home, name.as_str())
}

/// A staging directory with a new name stands under the home directory, and different names give
/// different directories.
pub proof fn law_staging_roots_are_apart(home: Seq<char>, a: Seq<char>, b: Seq<char>)
    requires
        uuid_v7_text(a),
        uuid_v7_text(b),
    ensures
        home.is_prefix_of(staging_root(home, a)),
        staging_root(home, a) == staging_root(home, b) ==> a == b,
{
    reveal_strlit("squash-staging");
    let base = joined_path(home, "squash-staging"@);
    assert(lower_hex(a[0]) && lower_hex(b[0]));
    crate::path::law_join_stays_under_base(home, "squash-staging"@);
    crate::path::law_join_stays_under_base(base, a);
    assert(staging_root(home, a).take(home.len() as int) =~= home) by {
        assert(staging_root(home, a).take(base.len() as int) =~= base);
        assert(base.take(home.len() as int) =~= home);
    }
    assert(base.last() == 'g') by {
        assert(base.last() == "squash-staging"@.last());
    }
    let ra = staging_root(home, a);
    let rb = staging_root(home, b);
    if ra == rb {
        let n = ra.len() - 36;
        assert(ra.skip(n) =~= a);
        assert(rb.skip(n) =~= b);
    }
}

/// A staging directory stands by its name in the directory for staging under the home directory.
pub proof fn law_staging_root_is_under_the_home(home: Seq<char>, name: Seq<char>)
    ensures
        staging_root(home, name) == joined_path(joined_path(home, "squash-staging"@), name),
{
}

} // verus!
