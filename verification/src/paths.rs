//! Path-name arithmetic for the pool: file-name predicates, stems,
//! base names and directory joins, all specified over `Seq<char>`.

use vstd::prelude::*;

verus! {

/// `s` ends with the suffix `suf`.
pub open spec fn ends_with(s: Seq<char>, suf: Seq<char>) -> bool {
    s.len() >= suf.len() && s.subrange(s.len() - suf.len(), s.len() as int) == suf
}

/// A file name the pool accepts as content: a case-sensitive match on
/// one of the accepted image extensions.
pub open spec fn is_image_name(s: Seq<char>) -> bool {
    ||| ends_with(s, ".png"@)
    ||| ends_with(s, ".jpg"@)
    ||| ends_with(s, ".jpeg"@)
}

/// Decides `ends_with(s@, suf@)`.
pub fn str_ends_with(s: &str, suf: &str) -> (b: bool)
    ensures
        b == ends_with(s@, suf@),
{
    let n = s.unicode_len();
    let m = suf.unicode_len();
    if m > n {
        return false;
    }
    let mut i: usize = 0;
    while i < m
        invariant
            m <= n,
            n == s@.len(),
            m == suf@.len(),
            i <= m,
            forall|j: int| 0 <= j < i ==> s@[n - m + j] == suf@[j],
        decreases m - i,
    {
        if s.get_char(n - m + i) != suf.get_char(i) {
            assert(s@.subrange(n - m, n as int)[i as int] != suf@[i as int]);
            return false;
        }
        i = i + 1;
    }
    assert(s@.subrange(n - m, n as int) =~= suf@);
    true
}

/// Decides `is_image_name(s@)`.
pub fn is_image_file(s: &str) -> (b: bool)
    ensures
        b == is_image_name(s@),
{
    str_ends_with(s, ".png") || str_ends_with(s, ".jpg") || str_ends_with(s, ".jpeg")
}

/// The path of entry `name` inside directory `dir`.
pub open spec fn joined(dir: Seq<char>, name: Seq<char>) -> Seq<char> {
    dir + "/"@ + name
}

/// Builds `dir + "/" + name`.
pub fn join(dir: &str, name: &str) -> (r: String)
    ensures
        r@ == joined(dir@, name@),
{
    let mut r = String::from_str(dir);
    r.append("/");
    r.append(name);
    r
}

/// The position of the last `.` in `s`, ignoring a dot in the very first
/// position (a leading dot marks a hidden file, not an extension).
pub open spec fn dot_pos(s: Seq<char>) -> Option<int>
    decreases s.len(),
{
    if s.len() <= 1 {
        None
    } else if s[s.len() - 1] == '.' {
        Some(s.len() - 1)
    } else {
        dot_pos(s.drop_last())
    }
}

/// The file stem of `s`: everything before the last `.`, or all of `s`
/// when there is no dot past the first position.
pub open spec fn stem_of(s: Seq<char>) -> Seq<char> {
    match dot_pos(s) {
        Some(i) => s.take(i),
        None => s,
    }
}

/// The part of `s` after its last `/`; all of `s` when it has none.
pub open spec fn base_of(s: Seq<char>) -> Seq<char>
    decreases s.len(),
{
    if s.len() == 0 {
        s
    } else if s[s.len() - 1] == '/' {
        Seq::<char>::empty()
    } else {
        base_of(s.drop_last()).push(s[s.len() - 1])
    }
}

/// Computes the stem of a file name: `r@ == stem_of(name@)`.
pub fn file_stem(name: &str) -> (r: String)
    ensures
        r@ == stem_of(name@),
{
    let n = name.unicode_len();
    proof {
        assert(name@.take(n as int) =~= name@);
    }
    let mut i: usize = n;
    while i > 1
        invariant
            i <= n,
            n == name@.len(),
            dot_pos(name@) == dot_pos(name@.take(i as int)),
        decreases i,
    {
        if name.get_char(i - 1) == '.' {
            proof {
                assert(name@.take(i as int).len() == i);
                assert(name@.take(i as int)[i - 1] == '.');
                assert(dot_pos(name@.take(i as int)) == Some(i - 1));
            }
            let stem = name.substring_char(0, i - 1);
            return stem.to_owned();
        }
        proof {
            assert(name@.take(i as int).drop_last() =~= name@.take(i - 1));
            assert(name@.take(i as int)[i - 1] != '.');
        }
        i = i - 1;
    }
    proof {
        assert(name@.take(i as int).len() <= 1);
        assert(dot_pos(name@) is None);
    }
    name.to_owned()
}

/// Computes the base name of a path: `r@ == base_of(path@)`.
pub fn file_name(path: &str) -> (r: String)
    ensures
        r@ == base_of(path@),
{
    let n = path.unicode_len();
    proof {
        assert(path@.take(n as int) =~= path@);
        assert(path@.subrange(n as int, n as int) =~= Seq::<char>::empty());
    }
    let mut i: usize = n;
    while i > 0
        invariant
            i <= n,
            n == path@.len(),
            base_of(path@) =~= base_of(path@.take(i as int)) + path@.subrange(
                i as int,
                n as int,
            ),
        decreases i,
    {
        if path.get_char(i - 1) == '/' {
            proof {
                assert(path@.take(i as int)[i - 1] == '/');
                assert(base_of(path@.take(i as int)) =~= Seq::<char>::empty());
                assert(base_of(path@) =~= path@.subrange(i as int, n as int));
            }
            let base = path.substring_char(i, n);
            return base.to_owned();
        }
        proof {
            let t = path@.take(i as int);
            assert(t[i - 1] != '/');
            assert(t.drop_last() =~= path@.take(i - 1));
            assert(base_of(t) == base_of(path@.take(i - 1)).push(path@[i - 1]));
            assert(base_of(path@.take(i - 1)).push(path@[i - 1]) + path@.subrange(
                i as int,
                n as int,
            ) =~= base_of(path@.take(i - 1)) + path@.subrange(i - 1, n as int));
        }
        i = i - 1;
    }
    proof {
        assert(base_of(path@.take(0)) =~= Seq::<char>::empty());
        assert(base_of(path@) =~= path@);
    }
    path.to_owned()
}

/// The name of the sidecar record for a content file named `name`:
/// the same stem with the record extension.
pub open spec fn sidecar_name(name: Seq<char>) -> Seq<char> {
    stem_of(name) + ".toml"@
}

/// Builds the sidecar record name for `name`: `r@ == sidecar_name(name@)`.
pub fn sidecar_for(name: &str) -> (r: String)
    ensures
        r@ == sidecar_name(name@),
{
    let stem = file_stem(name);
    stem.concat(".toml")
}

} // verus!
