//! Keys and paths of persisted artifacts.
//!
//! An artifact is keyed by the name of the transform that produced it, a
//! hyphen, and the name of the uploaded image; it lives directly under the
//! edited-artifacts root.

use vstd::prelude::*;
use vstd::string::*;
use crate::registry::{law_names_are_distinct, law_names_hold_no_hyphen, Transform};

verus! {

/// Root under which the service persists edited artifacts.
pub const EDITED_ROOT: &'static str = "./images/edited/";

/// Root under which a client stores what it downloaded.
pub const OUTPUT_ROOT: &'static str = "./data/test-output/";

/// Separates the transform name from the image name in a key.
pub const KEY_SEPARATOR: char = '-';

/// Separates the segments of a path-like image name.
pub const PATH_SEPARATOR: char = '/';

/// The key of the artifact that `transform` produces from the image `name`.
pub open spec fn key_view(transform: Transform, name: Seq<char>) -> Seq<char> {
    transform.name_view() + seq![KEY_SEPARATOR] + name
}

/// Where the artifact with the given key is persisted.
pub open spec fn edited_path_view(key: Seq<char>) -> Seq<char> {
    EDITED_ROOT@ + key
}

/// Where a client stores the artifact it downloaded under the given key.
pub open spec fn output_path_view(key: Seq<char>) -> Seq<char> {
    OUTPUT_ROOT@ + key
}

/// Index at which the last segment of a path-like name starts: just behind
/// its last separator, or 0 where it has none.
pub open spec fn short_name_start(path: Seq<char>) -> int
    decreases path.len(),
{
    if path.len() == 0 {
        0
    } else if path.last() == PATH_SEPARATOR {
        path.len() as int
    } else {
        short_name_start(path.drop_last())
    }
}

/// The short name of a path-like name: its last segment.
pub open spec fn short_name_view(path: Seq<char>) -> Seq<char> {
    path.subrange(short_name_start(path), path.len() as int)
}

/// Derives the key `{transform}-{name}`.
pub fn artifact_key(transform: Transform, name: &str) -> (key: String)
    ensures
        key@ == key_view(transform, name@),
{
    proof {
        reveal_strlit("-");
    }
    let key = String::from_str(transform.name()).concat("-").concat(name);
    assert(key@ =~= key_view(transform, name@));
    key
}

/// Derives the path of an artifact from its key: the root and the key,
/// verbatim.
pub fn edited_path(key: &str) -> (path: String)
    ensures
        path@ == edited_path_view(key@),
{
    String::from_str(EDITED_ROOT).concat(key)
}

/// Derives the path under which a client stores a downloaded artifact.
pub fn output_path(key: &str) -> (path: String)
    ensures
        path@ == output_path_view(key@),
{
    String::from_str(OUTPUT_ROOT).concat(key)
}

/// The last segment of a path-like name.
pub fn short_name(path: &str) -> (name: String)
    ensures
        name@ == short_name_view(path@),
{
    let n: usize = path.unicode_len();
    let mut i: usize = n;
    assert(path@.subrange(0, n as int) =~= path@);
    while i > 0 && path.get_char(i - 1) != PATH_SEPARATOR
        invariant
            i <= n,
            n == path@.len(),
            short_name_start(path@) == short_name_start(path@.subrange(0, i as int)),
        decreases i,
    {
        assert(path@.subrange(0, i as int).drop_last() =~= path@.subrange(0, i - 1));
        i = i - 1;
    }
    assert(short_name_start(path@) == i);
    String::from_str(path.substring_char(i, n))
}

/// A key tells which upload produced it: two keys are equal only where the
/// transform and the image name are both the same.
pub proof fn law_key_identifies_upload(t1: Transform, n1: Seq<char>, t2: Transform, n2: Seq<char>)
    requires
        key_view(t1, n1) == key_view(t2, n2),
    ensures
        t1 == t2,
        n1 == n2,
{
    let a = t1.name_view();
    let b = t2.name_view();
    let k1 = key_view(t1, n1);
    let k2 = key_view(t2, n2);
    law_names_hold_no_hyphen(t1);
    law_names_hold_no_hyphen(t2);
    assert(k1[a.len() as int] == KEY_SEPARATOR);
    assert(k2[b.len() as int] == KEY_SEPARATOR);
    if a.len() < b.len() {
        assert(k2[a.len() as int] == b[a.len() as int]);
    } else if b.len() < a.len() {
        assert(k1[b.len() as int] == a[b.len() as int]);
    }
    assert(a.len() == b.len());
    assert(a =~= b) by {
        assert forall|i: int| 0 <= i < a.len() implies a[i] == b[i] by {
            assert(k1[i] == a[i]);
            assert(k2[i] == b[i]);
        }
    }
    law_names_are_distinct(t1, t2);
    assert(n1 =~= n2) by {
        assert(n1.len() == n2.len()) by {
            assert(k1.len() == a.len() + 1 + n1.len());
            assert(k2.len() == b.len() + 1 + n2.len());
        }
        assert forall|i: int| 0 <= i < n1.len() implies n1[i] == n2[i] by {
            assert(k1[a.len() + 1 + i] == n1[i]);
            assert(k2[b.len() + 1 + i] == n2[i]);
        }
    }
}

/// An image name alone, without the transform's prefix, is not the key of
/// any artifact made from an image of that name.
pub proof fn law_name_alone_is_no_key(transform: Transform, name: Seq<char>)
    ensures
        key_view(transform, name) != name,
{
    assert(key_view(transform, name).len() == transform.name_view().len() + 1 + name.len());
}

/// Distinct keys are persisted at distinct paths.
pub proof fn law_path_identifies_key(k1: Seq<char>, k2: Seq<char>)
    requires
        edited_path_view(k1) == edited_path_view(k2),
    ensures
        k1 == k2,
{
    let root = EDITED_ROOT@;
    let p1 = edited_path_view(k1);
    let p2 = edited_path_view(k2);
    assert(p1.len() == root.len() + k1.len());
    assert(p2.len() == root.len() + k2.len());
    assert(k1 =~= k2) by {
        assert forall|i: int| 0 <= i < k1.len() implies k1[i] == k2[i] by {
            assert(p1[root.len() + i] == k1[i]);
            assert(p2[root.len() + i] == k2[i]);
        }
    }
}

/// The short name is the part of a name behind its last separator: it
/// starts at the beginning or just behind a separator, and holds none.
pub proof fn law_short_name_is_last_segment(path: Seq<char>)
    ensures
        0 <= short_name_start(path) <= path.len(),
        short_name_start(path) == 0 || path[short_name_start(path) - 1] == PATH_SEPARATOR,
        forall|j: int| short_name_start(path) <= j < path.len() ==> path[j] != PATH_SEPARATOR,
        !short_name_view(path).contains(PATH_SEPARATOR),
    decreases path.len(),
{
    let k = short_name_start(path);
    if path.len() > 0 && path.last() != PATH_SEPARATOR {
        let front = path.drop_last();
        law_short_name_is_last_segment(front);
        assert(k == short_name_start(front));
        assert forall|j: int| k <= j < path.len() implies path[j] != PATH_SEPARATOR by {
            if j < front.len() {
                assert(front[j] == path[j]);
            }
        }
        assert(k == 0 || path[k - 1] == front[k - 1]);
    }
    let short = short_name_view(path);
    assert forall|i: int| 0 <= i < short.len() implies short[i] != PATH_SEPARATOR by {
        assert(short[i] == path[k + i]);
    }
}

/// A name without a separator is its own short name.
pub proof fn law_plain_name_is_its_short_name(name: Seq<char>)
    requires
        !name.contains(PATH_SEPARATOR),
    ensures
        short_name_view(name) == name,
    decreases name.len(),
{
    if name.len() > 0 {
        assert(name.contains(name.last()));
        assert forall|j: int| 0 <= j < name.drop_last().len() implies name.drop_last()[j] != PATH_SEPARATOR by {
            assert(name.contains(name[j]));
        }
        law_plain_name_is_its_short_name(name.drop_last());
        law_short_name_is_last_segment(name.drop_last());
        assert(short_name_view(name.drop_last()).len() == name.drop_last().len());
    }
    assert(short_name_start(name) == 0);
    assert(short_name_view(name) =~= name);
}

} // verus!
