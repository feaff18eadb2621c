//! Normalization of caller-supplied file paths: a `file://` scheme
//! marker, as mobile callers pass it, is removed before the path reaches
//! the file system.  Only the first occurrence is removed, matching the
//! wire convention.

use vstd::prelude::*;
use vstd::string::StrSliceExecFns;
use vstd::string::StringExecFns;

verus! {

/// Whether the scheme marker `file://` occupies positions `i..i + 7` of
/// `s`.
pub open spec fn has_scheme_at(s: Seq<char>, i: int) -> bool {
    0 <= i && i + 7 <= s.len() && s.subrange(i, i + 7) == "file://"@
}

/// Whether position `i` holds the first occurrence of the scheme marker.
pub open spec fn first_scheme_at(s: Seq<char>, i: int) -> bool {
    has_scheme_at(s, i) && forall|j: int| 0 <= j < i ==> !has_scheme_at(s, j)
}

/// Removes the first occurrence of the `file://` scheme marker from a
/// path, if there is one; a path without the marker is returned
/// unchanged.
pub fn strip_file_scheme(path: &String) -> (r: String)
    ensures
        (forall|i: int| !has_scheme_at(path@, i)) ==> r@ == path@,
        forall|i: int| first_scheme_at(path@, i) ==> r@ == path@.subrange(0, i) + path@.skip(i + 7),
{
    let t: &str = path.as_str();
    let len = t.unicode_len();
    if len < 7 {
        proof {
            assert(forall|i: int| !has_scheme_at(path@, i));
        }
        return path.clone();
    }
    let end = len - 7;
    let mut i: usize = 0;
    while i <= end
        invariant
            len == path@.len(),
            t@ == path@,
            len >= 7,
            end == len - 7,
            i <= end + 1,
            forall|j: int| 0 <= j < i ==> !has_scheme_at(path@, j),
        decreases end + 1 - i,
    {
        proof {
            reveal_strlit("file://");
        }
        let c0 = t.get_char(i) == 'f';
        let c1 = t.get_char(i + 1) == 'i';
        let c2 = t.get_char(i + 2) == 'l';
        let c3 = t.get_char(i + 3) == 'e';
        let c4 = t.get_char(i + 4) == ':';
        let c5 = t.get_char(i + 5) == '/';
        let c6 = t.get_char(i + 6) == '/';
        if c0 && c1 && c2 && c3 && c4 && c5 && c6 {
            proof {
                assert(path@.subrange(i as int, i as int + 7) =~= "file://"@);
                assert(first_scheme_at(path@, i as int));
            }
            let head = t.substring_char(0, i);
            let tail = t.substring_char(i + 7, len);
            let r = head.to_owned().concat(tail);
            proof {
                assert(r@ =~= path@.subrange(0, i as int) + path@.skip(i as int + 7));
                assert(forall|k: int| first_scheme_at(path@, k) ==> k == i as int);
            }
            return r;
        }
        proof {
            assert(!has_scheme_at(path@, i as int)) by {
                if path@.subrange(i as int, i as int + 7) == "file://"@ {
                    assert(forall|k: int|
                        0 <= k < 7 ==> path@[i as int + k] == #[trigger] "file://"@[k]) by {
                        assert(forall|k: int|
                            0 <= k < 7 ==> path@.subrange(i as int, i as int + 7)[k]
                                == #[trigger] "file://"@[k]);
                    }
                    assert(path@[i as int + 0] == "file://"@[0] && "file://"@[0] == 'f');
                    assert(path@[i as int + 1] == "file://"@[1] && "file://"@[1] == 'i');
                    assert(path@[i as int + 2] == "file://"@[2] && "file://"@[2] == 'l');
                    assert(path@[i as int + 3] == "file://"@[3] && "file://"@[3] == 'e');
                    assert(path@[i as int + 4] == "file://"@[4] && "file://"@[4] == ':');
                    assert(path@[i as int + 5] == "file://"@[5] && "file://"@[5] == '/');
                    assert(path@[i as int + 6] == "file://"@[6] && "file://"@[6] == '/');
                }
            }
        }
        i = i + 1;
    }
    proof {
        assert(forall|j: int| !has_scheme_at(path@, j));
    }
    path.clone()
}

} // verus!
