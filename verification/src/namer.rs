//! Artifact naming: derives the output filename of a pipeline stage from an
//! input filename by stripping any final `.<ext>` suffix of the last path
//! component and appending the stage's own extension, so the artifact keeps
//! the input's directory and stem. Pure string manipulation, no filesystem
//! access.

use vstd::prelude::*;
use vstd::string::StrSliceExecFns;
use vstd::string::StringExecFns;

verus! {

/// `i` marks a strippable extension of `s`: the character at `i` is a dot,
/// at least one character follows it, and none of the following characters
/// is a dot or a `/` path separator — the dot at `i` starts the final
/// extension of the last path component. A dot that stands only in a
/// directory component marks nothing.
pub open spec fn is_ext_split(s: Seq<char>, i: int) -> bool {
    &&& 0 <= i
    &&& i + 1 < s.len()
    &&& s[i] == '.'
    &&& forall|j: int| i < j < s.len() ==> s[j] != '.' && s[j] != '/'
}

/// The last path component of `s` ends in a strippable extension: a final
/// dot followed by one or more characters that are neither dots nor path
/// separators.
pub open spec fn has_extension(s: Seq<char>) -> bool {
    exists|i: int| is_ext_split(s, i)
}

/// The index of the dot that starts the final extension of `s`.
pub open spec fn ext_split(s: Seq<char>) -> int {
    choose|i: int| is_ext_split(s, i)
}

/// What remains of `s` once the final extension of its last path component,
/// if any, is stripped: everything before that extension's dot, or `s`
/// unchanged when the last component has no extension. Directory components
/// are always preserved, dots in them included.
pub open spec fn strip_ext_spec(s: Seq<char>) -> Seq<char> {
    if has_extension(s) {
        s.subrange(0, ext_split(s))
    } else {
        s
    }
}

/// `base` with `.ext` appended.
pub open spec fn with_ext_spec(base: Seq<char>, ext: Seq<char>) -> Seq<char> {
    base + seq!['.'] + ext
}

/// The name a stage's output gets for input `s`: the input with its final
/// extension replaced by `ext`.
pub open spec fn replace_ext_spec(s: Seq<char>, ext: Seq<char>) -> Seq<char> {
    with_ext_spec(strip_ext_spec(s), ext)
}

/// At most one index can start the final extension.
pub proof fn lemma_ext_split_unique(s: Seq<char>, i1: int, i2: int)
    requires
        is_ext_split(s, i1),
        is_ext_split(s, i2),
    ensures
        i1 == i2,
{
    if i1 < i2 {
        assert(s[i2] == '.');
        assert(false);
    } else if i2 < i1 {
        assert(s[i1] == '.');
        assert(false);
    }
}

/// Appending `.ext` to any base name, where `ext` is non-empty and holds
/// neither a dot nor a path separator, makes a name that strips back to
/// exactly that base name.
pub proof fn lemma_strip_with_ext(base: Seq<char>, ext: Seq<char>)
    requires
        ext.len() > 0,
        forall|j: int| 0 <= j < ext.len() ==> ext[j] != '.' && ext[j] != '/',
    ensures
        strip_ext_spec(with_ext_spec(base, ext)) == base,
{
    let s = with_ext_spec(base, ext);
    let b = base.len() as int;
    assert forall|j: int| b < j < s.len() implies s[j] != '.' && s[j] != '/' by {
        assert(s[j] == ext[j - b - 1]);
    }
    assert(is_ext_split(s, b));
    lemma_ext_split_unique(s, ext_split(s), b);
    assert(s.subrange(0, b) =~= base);
}

/// A name whose last path component has no extension — whatever dots its
/// directory components hold — is unchanged by stripping, so naming is
/// stable under repeated stripping once the extension is gone.
pub proof fn lemma_strip_no_extension(s: Seq<char>)
    requires
        !has_extension(s),
    ensures
        strip_ext_spec(s) == s,
{
}

/// Replacing the extension of a name that ends in `.ext` (for non-empty
/// `ext` free of dots and path separators) changes only that final
/// extension: the directory and stem in `base` are preserved as they are.
pub proof fn lemma_replace_ext_preserves_stem(base: Seq<char>, ext: Seq<char>, new_ext: Seq<char>)
    requires
        ext.len() > 0,
        forall|j: int| 0 <= j < ext.len() ==> ext[j] != '.' && ext[j] != '/',
    ensures
        replace_ext_spec(with_ext_spec(base, ext), new_ext) == with_ext_spec(base, new_ext),
{
    lemma_strip_with_ext(base, ext);
}

/// Strips the final `.<ext>` suffix of `file_name`'s last path component,
/// if one exists; a dot in a directory component alone leaves the name
/// unchanged.
pub fn strip_extension(file_name: &str) -> (r: String)
    ensures
        r@ == strip_ext_spec(file_name@),
{
    let s = file_name;
    let n = s.unicode_len();
    let mut i: usize = n;
    loop
        invariant
            i <= n,
            n == s@.len(),
            forall|j: int| i <= j < n ==> s@[j] != '.' && s@[j] != '/',
        ensures
            i <= n,
            n == s@.len(),
            forall|j: int| i <= j < n ==> s@[j] != '.' && s@[j] != '/',
            i > 0 ==> s@[i - 1] == '.' || s@[i - 1] == '/',
        decreases i,
    {
        if i == 0 {
            break;
        }
        let c = s.get_char(i - 1);
        if c == '.' || c == '/' {
            break;
        }
        i = i - 1;
    }
    if i == 0 {
        proof {
            assert forall|k: int| !is_ext_split(s@, k) by {
                if is_ext_split(s@, k) {
                    assert(s@[k] == '.');
                }
            }
        }
        s.to_owned()
    } else if s.get_char(i - 1) == '/' {
        proof {
            assert forall|k: int| !is_ext_split(s@, k) by {
                if is_ext_split(s@, k) {
                    if k < i - 1 {
                        assert(s@[i - 1] != '/');
                    } else if k == i - 1 {
                        assert(s@[k] == '.');
                    } else {
                        assert(s@[k] != '.');
                    }
                }
            }
        }
        s.to_owned()
    } else if i == n {
        proof {
            assert forall|k: int| !is_ext_split(s@, k) by {
                if is_ext_split(s@, k) {
                    if k < n - 1 {
                        assert(s@[n - 1] != '.');
                    }
                }
            }
        }
        s.to_owned()
    } else {
        let r = s.substring_char(0, i - 1);
        proof {
            assert(is_ext_split(s@, i - 1));
            lemma_ext_split_unique(s@, ext_split(s@), i - 1);
        }
        r.to_owned()
    }
}

/// Derives a stage's output name: `file_name` with its final extension, if
/// any, replaced by `.<ext>`.
pub fn replace_extension(file_name: &str, ext: &str) -> (r: String)
    ensures
        r@ == replace_ext_spec(file_name@, ext@),
{
    let mut r = strip_extension(file_name);
    r.append(".");
    r.append(ext);
    proof {
        reveal_strlit(".");
        assert(r@ =~= replace_ext_spec(file_name@, ext@));
    }
    r
}

} // verus!
