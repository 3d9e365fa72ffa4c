//! File names and extensions of paths held as strings.
//!
//! A path is split at its last separator (`/` or `\`); what follows is the
//! file name. A file name has an extension when it holds a `.` after its
//! first character; the extension is what follows the last `.`.
use vstd::prelude::*;
use vstd::string::*;

verus! {

pub open spec fn is_separator(c: char) -> bool {
    c == '/' || c == '\\'
}

/// The characters after the last separator of `p`.
pub open spec fn file_name(p: Seq<char>) -> Seq<char>
    decreases p.len(),
{
    if p.len() == 0 {
        p
    } else if is_separator(p.last()) {
        Seq::empty()
    } else {
        file_name(p.drop_last()).push(p.last())
    }
}

/// A file name has an extension when a `.` follows its first character.
pub open spec fn has_extension(name: Seq<char>) -> bool {
    exists|i: int| 0 < i < name.len() && name[i] == '.'
}

pub open spec fn ends_with_lz4(name: Seq<char>) -> bool {
    name.len() >= 3 && name[name.len() - 3] == 'l' && name[name.len() - 2] == 'z'
        && name[name.len() - 1] == '4'
}

/// Whether a path names a compressed session file: its extension ends in
/// `lz4` (such as `jsonlz4` or `baklz4`).
pub open spec fn is_compressed_path(p: Seq<char>) -> bool {
    has_extension(file_name(p)) && ends_with_lz4(file_name(p))
}

proof fn lemma_file_name_step(p: Seq<char>, i: int)
    requires
        0 < i <= p.len(),
        !is_separator(p[i - 1]),
    ensures
        file_name(p.take(i)) == file_name(p.take(i - 1)).push(p[i - 1]),
{
    assert(p.take(i).drop_last() =~= p.take(i - 1));
}

/// Index of the first character of the file name of `p`.
pub fn file_name_start(p: &str) -> (k: usize)
    ensures
        k <= p@.len(),
        file_name(p@) == p@.subrange(k as int, p@.len() as int),
{
    let n = p.unicode_len();
    let mut i: usize = n;
    assert(p@.take(n as int) =~= p@);
    assert(file_name(p@) =~= file_name(p@.take(n as int)) + p@.subrange(n as int, n as int));
    while i > 0
        invariant
            i <= n,
            n == p@.len(),
            file_name(p@) == file_name(p@.take(i as int)) + p@.subrange(i as int, n as int),
        decreases i,
    {
        let c = p.get_char(i - 1);
        if c == '/' || c == '\\' {
            assert(p@.take(i as int).drop_last() =~= p@.take(i - 1));
            assert(file_name(p@.take(i as int)) =~= Seq::<char>::empty());
            assert(file_name(p@) =~= p@.subrange(i as int, n as int));
            return i;
        }
        proof {
            lemma_file_name_step(p@, i as int);
            assert(file_name(p@.take(i - 1)) + p@.subrange(i - 1, n as int) =~= file_name(
                p@.take(i - 1),
            ).push(p@[i - 1]) + p@.subrange(i as int, n as int));
        }
        i = i - 1;
    }
    assert(p@.take(0) =~= Seq::<char>::empty());
    assert(file_name(p@) =~= p@.subrange(0, n as int));
    0
}

/// Whether the file name of `p` has an extension.
pub fn path_has_extension(p: &str) -> (r: bool)
    ensures
        r == has_extension(file_name(p@)),
{
    let k = file_name_start(p);
    let n = p.unicode_len();
    let ghost name = file_name(p@);
    if k >= n {
        return false;
    }
    let mut j: usize = k + 1;
    while j < n
        invariant
            k < j,
            n == p@.len(),
            k <= n,
            name == p@.subrange(k as int, n as int),
            name == file_name(p@),
            forall|i: int| 0 < i < name.len() && i < j - k ==> name[i] != '.',
        decreases n - j,
    {
        if p.get_char(j) == '.' {
            let ghost w: int = j - k;
            assert(name[w] == p@[j as int]);
            assert(0 < w < name.len() && name[w] == '.');
            return true;
        }
        j = j + 1;
    }
    false
}

/// Whether `p` names a compressed session file (see [`is_compressed_path`]).
pub fn is_compressed_path_str(p: &str) -> (r: bool)
    ensures
        r == is_compressed_path(p@),
{
    let k = file_name_start(p);
    let n = p.unicode_len();
    let ghost name = file_name(p@);
    if n - k < 3 {
        return false;
    }
    if !(p.get_char(n - 3) == 'l' && p.get_char(n - 2) == 'z' && p.get_char(n - 1) == '4') {
        return false;
    }
    path_has_extension(p)
}

} // verus!
