//! Path-identifier logic: joining a directory with a file name, and
//! deciding from a path's extension whether it names an image file.
//!
//! Paths are plain strings.  A path's file name is the part after the last
//! `/`; its extension is the part of the file name after the last dot,
//! except that a file name starting with its only dot has none.

use vstd::prelude::*;

verus! {

/// The suffix of `s` strictly after the last occurrence of `c`, or all of
/// `s` when `c` does not occur.
pub open spec fn after_last(s: Seq<char>, c: char) -> Seq<char>
    decreases s.len(),
{
    if s.len() == 0 {
        s
    } else if s.last() == c {
        Seq::<char>::empty()
    } else {
        after_last(s.drop_last(), c).push(s.last())
    }
}

/// `after_last` of a sequence whose suffix from `k` on is free of `c`, and
/// where either `k` is the start or `c` stands just before `k`, is exactly
/// that suffix.
pub proof fn lemma_after_last(s: Seq<char>, c: char, k: int)
    requires
        0 <= k <= s.len(),
        forall|j: int| k <= j < s.len() ==> s[j] != c,
        k == 0 || s[k - 1] == c,
    ensures
        after_last(s, c) == s.subrange(k, s.len() as int),
    decreases s.len(),
{
    if s.len() == 0 {
        assert(after_last(s, c) =~= s.subrange(k, s.len() as int));
    } else if k == s.len() {
        assert(s.last() == c);
        assert(after_last(s, c) =~= s.subrange(k, s.len() as int));
    } else {
        assert(s.last() != c);
        let t = s.drop_last();
        lemma_after_last(t, c, k);
        assert(after_last(s, c) =~= s.subrange(k, s.len() as int));
    }
}

/// The path naming `file` inside `dir`: the two joined with a `/`.
pub open spec fn spec_join(dir: Seq<char>, file: Seq<char>) -> Seq<char> {
    dir.push('/') + file
}

/// Joins a directory and a file name with a `/` separator.
pub fn join_path(dir: &str, file: &str) -> (r: String)
    ensures
        r@ == spec_join(dir@, file@),
{
    let mut r = String::from_str(dir);
    r.append("/");
    r.append(file);
    proof {
        reveal_strlit("/");
        assert(r@ =~= spec_join(dir@, file@));
    }
    r
}

/// Whether `a` equals `b` after lowering an ASCII upper-case `a`; `b` is
/// expected to already be lower case.
pub open spec fn spec_char_eq_ci(a: char, b: char) -> bool {
    a == b || (65 <= a as int && a as int <= 90 && a as int + 32 == b as int)
}

/// Whether `s` matches `t` character by character under `spec_char_eq_ci`.
pub open spec fn spec_seq_eq_ci(s: Seq<char>, t: Seq<char>) -> bool {
    s.len() == t.len() && (forall|i: int| 0 <= i < s.len() ==> spec_char_eq_ci(s[i], t[i]))
}

/// Compares `a` against a lower-case reference `b`, ASCII
/// case-insensitively on `a`'s side.
pub fn chars_eq_ci(a: &str, b: &str) -> (r: bool)
    ensures
        r == spec_seq_eq_ci(a@, b@),
{
    let la = a.unicode_len();
    let lb = b.unicode_len();
    if la != lb {
        return false;
    }
    let mut i: usize = 0;
    while i < la
        invariant
            a@.len() == la,
            b@.len() == lb,
            la == lb,
            i <= la,
            forall|j: int| 0 <= j < i ==> spec_char_eq_ci(a@[j], b@[j]),
        decreases la - i,
    {
        let ca = a.get_char(i);
        let cb = b.get_char(i);
        let ca32 = ca as u32;
        let cb32 = cb as u32;
        if !(ca == cb || (65 <= ca32 && ca32 <= 90 && ca32 + 32 == cb32)) {
            assert(!spec_char_eq_ci(a@[i as int], b@[i as int]));
            return false;
        }
        i = i + 1;
    }
    true
}

/// The extension of `path`: the part of the file name after its last dot.
/// A file name without a dot past its first character has none.
pub open spec fn spec_extension_of(path: Seq<char>) -> Option<Seq<char>> {
    let name = after_last(path, '/');
    if exists|i: int| 1 <= i < name.len() && name[i] == '.' {
        Some(after_last(name, '.'))
    } else {
        None
    }
}

/// Whether `ext` is one of the recognised image extensions, ASCII
/// case-insensitively.
pub open spec fn spec_is_image_ext(ext: Seq<char>) -> bool {
    ||| spec_seq_eq_ci(ext, "jpg"@)
    ||| spec_seq_eq_ci(ext, "jpeg"@)
    ||| spec_seq_eq_ci(ext, "png"@)
    ||| spec_seq_eq_ci(ext, "gif"@)
    ||| spec_seq_eq_ci(ext, "bmp"@)
    ||| spec_seq_eq_ci(ext, "tiff"@)
    ||| spec_seq_eq_ci(ext, "tif"@)
    ||| spec_seq_eq_ci(ext, "webp"@)
}

/// Whether `path` names an image file: it has an extension and that
/// extension is a recognised image extension.
pub open spec fn spec_is_image_path(path: Seq<char>) -> bool {
    match spec_extension_of(path) {
        Some(ext) => spec_is_image_ext(ext),
        None => false,
    }
}

/// Whether `ext` is a recognised image extension.
pub fn is_image_ext(ext: &str) -> (r: bool)
    ensures
        r == spec_is_image_ext(ext@),
{
    ||| chars_eq_ci(ext, "jpg")
    ||| chars_eq_ci(ext, "jpeg")
    ||| chars_eq_ci(ext, "png")
    ||| chars_eq_ci(ext, "gif")
    ||| chars_eq_ci(ext, "bmp")
    ||| chars_eq_ci(ext, "tiff")
    ||| chars_eq_ci(ext, "tif")
    ||| chars_eq_ci(ext, "webp")
}

/// Decides whether `path` names an image file, by its extension.
pub fn is_image_path(path: &str) -> (r: bool)
    ensures
        r == spec_is_image_path(path@),
{
    let len = path.unicode_len();
    // Find the start of the file name: the index after the last '/'.
    let mut i: usize = 0;
    let mut k: usize = 0;
    while i < len
        invariant
            path@.len() == len,
            k <= i <= len,
            k == 0 || path@[k - 1] == '/',
            forall|j: int| k <= j < i ==> path@[j] != '/',
        decreases len - i,
    {
        if path.get_char(i) == '/' {
            k = i + 1;
        }
        i = i + 1;
    }
    proof {
        lemma_after_last(path@, '/', k as int);
    }
    let ghost name = after_last(path@, '/');
    assert(name =~= path@.subrange(k as int, len as int));
    if k == len {
        // Empty file name: no extension.
        assert(spec_extension_of(path@) is None);
        return false;
    }
    // Find the last dot strictly after the file name's first character.
    let mut i2: usize = k + 1;
    let mut d: usize = 0;
    let mut d_found = false;
    while i2 < len
        invariant
            path@.len() == len,
            k < len,
            k + 1 <= i2 <= len,
            d_found ==> k + 1 <= d && d < i2 && path@[d as int] == '.',
            d_found ==> forall|j: int| d < j < i2 ==> path@[j] != '.',
            !d_found ==> forall|j: int| k + 1 <= j < i2 ==> path@[j] != '.',
        decreases len - i2,
    {
        if path.get_char(i2) == '.' {
            d = i2;
            d_found = true;
        }
        i2 = i2 + 1;
    }
    if !d_found {
        proof {
            assert forall|i: int| 1 <= i < name.len() implies name[i] != '.' by {
                assert(name[i] == path@[k + i]);
            }
            assert(spec_extension_of(path@) is None);
        }
        return false;
    }
    // The extension runs from just after the last dot to the end.
    let ext = path.substring_char(d + 1, len);
    proof {
        let m = d - k;
        assert(name[m] == path@[d as int]);
        assert(1 <= m < name.len() && name[m] == '.');
        assert forall|j: int| m + 1 <= j < name.len() implies name[j] != '.' by {
            assert(name[j] == path@[k + j]);
        }
        lemma_after_last(name, '.', m + 1);
        assert(after_last(name, '.') =~= name.subrange(m + 1, name.len() as int));
        assert(ext@ =~= after_last(name, '.'));
        assert(spec_extension_of(path@) == Some(after_last(name, '.')));
    }
    is_image_ext(ext)
}

} // verus!
