//! File system paths as text, with `/` between their components.

use vstd::prelude::*;
use vstd::string::*;

verus! {

broadcast use group_string_axioms;

/// Whether the path starts at the root.
pub open spec fn absolute(path: Seq<char>) -> bool {
    path.len() > 0 && path[0] == '/'
}

/// The path `relative` as seen from `base`: an absolute path stands for itself, and another is
/// appended to `base`, after a `/` unless `base` is empty or ends in one.
pub open spec fn joined_path(base: Seq<char>, relative: Seq<char>) -> Seq<char> {
    if absolute(relative) {
        relative
    } else if base.len() == 0 || base.last() == '/' {
        base + relative
    } else {
        base + "/"@ + relative
    }
}

/// The path `relative` as seen from `base`.
pub fn join_path(base: &str, relative: &str) -> (r: String)
    ensures
        r@ == joined_path(base@, relative@),
{
    if relative.unicode_len() > 0 && relative.get_char(0) == '/' {
        return relative.to_owned();
    }
    let length: usize = base.unicode_len();
    if length == 0 || base.get_char(length - 1) == '/' {
        base.to_owned().concat(relative)
    } else {
        base.to_owned().concat("/").concat(relative)
    }
}

/// A relative path joined to a base stands under it: the base is a prefix of the result.
pub proof fn law_join_stays_under_base(base: Seq<char>, relative: Seq<char>)
    requires
        !absolute(relative),
    ensures
        base.is_prefix_of(joined_path(base, relative)),
{
    let joined = joined_path(base, relative);
    assert(joined.take(base.len() as int) =~= base);
}

/// Joined paths are the base and the relative path with one `/` between them, unless the base is
/// empty or brings its own; an absolute path stands for itself.
pub proof fn law_joined_path_is_base_and_relative(base: Seq<char>, relative: Seq<char>)
    ensures
        relative.len() > 0 && relative[0] == '/' ==> joined_path(base, relative) == relative,
        !(relative.len() > 0 && relative[0] == '/') ==> joined_path(base, relative) == if base.len()
            > 0 && base[base.len() - 1] != '/' {
            base + seq!['/'] + relative
        } else {
            base + relative
        },
        absolute(relative) <==> relative.len() > 0 && relative[0] == '/',
{
    reveal_strlit("/");
    assert("/"@ =~= seq!['/']);
}

} // verus!
