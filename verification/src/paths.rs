//! File paths as texts with `/` between their segments.
use vstd::prelude::*;

use crate::text;

verus! {

/// A path that starts at the root.
pub open spec fn is_absolute(path: Seq<char>) -> bool {
    path.len() > 0 && path[0] == '/'
}

/// `name` looked up from `base`: an absolute name stands for itself.
pub open spec fn joined(base: Seq<char>, name: Seq<char>) -> Seq<char> {
    if is_absolute(name) {
        name
    } else if base.len() == 0 || base.last() == '/' {
        base + name
    } else {
        base + "/"@ + name
    }
}

/// A `..` segment starts at `i`.
pub open spec fn parent_segment_at(path: Seq<char>, i: int) -> bool {
    &&& 0 <= i
    &&& i + 2 <= path.len()
    &&& path[i] == '.'
    &&& path[i + 1] == '.'
    &&& i == 0 || path[i - 1] == '/'
    &&& i + 2 == path.len() || path[i + 2] == '/'
}

/// A path that names something below the directory it is looked up from: not
/// empty, not absolute, and without a `..` segment.
pub open spec fn stays_below(path: Seq<char>) -> bool {
    &&& path.len() > 0
    &&& !is_absolute(path)
    &&& forall|i: int| !#[trigger] parent_segment_at(path, i)
}

pub fn absolute(path: &str) -> (r: bool)
    ensures
        r == is_absolute(path@),
{
    let chars = text::chars_of(path);
    chars.len() > 0 && chars[0] == '/'
}

pub fn join(base: &str, name: &str) -> (r: String)
    ensures
        r@ == joined(base@, name@),
{
    if absolute(name) {
        return name.to_owned();
    }
    let chars = text::chars_of(base);
    let mut path = base.to_owned();
    if chars.len() > 0 && chars[chars.len() - 1] != '/' {
        path.append("/");
    }
    path.append(name);
    path
}

pub fn below(path: &str) -> (r: bool)
    ensures
        r == stays_below(path@),
{
    let chars = text::chars_of(path);
    if chars.len() == 0 || chars[0] == '/' {
        return false;
    }
    let mut i: usize = 0;
    while i < chars.len() - 1
        invariant
            i < chars.len(),
            chars@ == path@,
            forall|k: int| k < i ==> !#[trigger] parent_segment_at(path@, k),
        decreases chars.len() - i,
    {
        if chars[i] == '.' && chars[i + 1] == '.' && (i == 0 || chars[i - 1] == '/') && (i + 2
            == chars.len() || chars[i + 2] == '/') {
            assert(parent_segment_at(path@, i as int));
            return false;
        }
        i += 1;
    }
    true
}

/// The name of a manifest file: something followed by `.toml`.
pub open spec fn is_toml_name(name: Seq<char>) -> bool {
    name.len() > 5 && name.skip(name.len() - 5) == ".toml"@
}

/// Whether a directory entry's file name has the extension `toml`.
pub fn is_toml_file(file_name: &str) -> (r: bool)
    ensures
        r == is_toml_name(file_name@),
{
    let chars = text::chars_of(file_name);
    let n = chars.len();
    proof {
        reveal_strlit(".toml");
    }
    if n > 5 && chars[n - 5] == '.' && chars[n - 4] == 't' && chars[n - 3] == 'o' && chars[n - 2]
        == 'm' && chars[n - 1] == 'l' {
        assert(file_name@.skip(n - 5) =~= ".toml"@);
        true
    } else {
        proof {
            if is_toml_name(file_name@) {
                let tail = file_name@.skip(n - 5);
                assert(tail[0] == chars@[n - 5] && tail[1] == chars@[n - 4] && tail[2] == chars@[n
                    - 3] && tail[3] == chars@[n - 2] && tail[4] == chars@[n - 1]);
            }
        }
        false
    }
}

/// What is looked up by a path that stays below lies under the directory.
pub proof fn joined_stays_under(base: Seq<char>, name: Seq<char>)
    requires
        base.len() > 0,
        stays_below(name),
    ensures
        base.is_prefix_of(joined(base, name)),
        name.len() < joined(base, name).len(),
        joined(base, name).skip(joined(base, name).len() - name.len()) == name,
{
    reveal_strlit("/");
    let whole = joined(base, name);
    assert(whole.subrange(0, base.len() as int) =~= base);
    assert(whole.skip(whole.len() - name.len()) =~= name);
}

} // verus!
