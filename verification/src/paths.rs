//! Byte-string path utilities.
//!
//! Paths are handled as byte strings throughout the library. A path's file
//! name is everything after the last `/`, and its extension is everything
//! after the last `.` of the file name, unless that dot starts the file name.
//! Extension matching is ASCII-case-insensitive.

use vstd::prelude::*;

verus! {

/// ASCII-lowercase of one byte; bytes outside `A..=Z` are unchanged.
pub open spec fn lower_byte_spec(b: u8) -> u8 {
    if 'A' as u8 <= b && b <= 'Z' as u8 {
        (b + 32) as u8
    } else {
        b
    }
}

/// ASCII-lowercase of a byte string.
pub open spec fn lower_spec(s: Seq<u8>) -> Seq<u8> {
    s.map_values(|b: u8| lower_byte_spec(b))
}

/// Index of the last occurrence of `b` in `s`, if any.
pub open spec fn find_last(s: Seq<u8>, b: u8) -> Option<int>
    decreases s.len(),
{
    if s.len() == 0 {
        None
    } else if s[s.len() - 1] == b {
        Some(s.len() - 1)
    } else {
        find_last(s.take(s.len() - 1), b)
    }
}

/// The file-name part of a path: everything after the last `/`.
pub open spec fn file_name_spec(p: Seq<u8>) -> Seq<u8> {
    match find_last(p, '/' as u8) {
        Some(i) => p.skip(i + 1),
        None => p,
    }
}

/// The extension of a path: everything after the last `.` of its file name;
/// none when the file name has no `.`, or only a leading one.
pub open spec fn ext_of_spec(p: Seq<u8>) -> Option<Seq<u8>> {
    let name = file_name_spec(p);
    match find_last(name, '.' as u8) {
        Some(i) => if i == 0 {
            None
        } else {
            Some(name.skip(i + 1))
        },
        None => None,
    }
}

pub open spec fn png_ext() -> Seq<u8> {
    seq!['p' as u8, 'n' as u8, 'g' as u8]
}

pub open spec fn jpg_ext() -> Seq<u8> {
    seq!['j' as u8, 'p' as u8, 'g' as u8]
}

pub open spec fn qoi_ext() -> Seq<u8> {
    seq!['q' as u8, 'o' as u8, 'i' as u8]
}

pub open spec fn ico_ext() -> Seq<u8> {
    seq!['i' as u8, 'c' as u8, 'o' as u8]
}

pub open spec fn jfif_ext() -> Seq<u8> {
    seq!['j' as u8, 'f' as u8, 'i' as u8, 'f' as u8]
}

/// Whether a path carries one of the navigable extensions
/// (`png, jpg, qoi, ico, jfif`, case-insensitive).
pub open spec fn supported_ext_spec(p: Seq<u8>) -> bool {
    match ext_of_spec(p) {
        Some(e) => {
            let l = lower_spec(e);
            l == png_ext() || l == jpg_ext() || l == qoi_ext() || l == ico_ext() || l == jfif_ext()
        },
        None => false,
    }
}

/// ASCII-lowercase of a byte string.
pub(crate) fn to_lower(v: &Vec<u8>) -> (r: Vec<u8>)
    ensures
        r@ == lower_spec(v@),
{
    let mut out: Vec<u8> = Vec::new();
    let mut i: usize = 0;
    while i < v.len()
        invariant
            i <= v@.len(),
            out@.len() == i,
            forall|j: int| 0 <= j < i ==> out@[j] == lower_byte_spec(v@[j]),
        decreases v@.len() - i,
    {
        let b = v[i];
        if 'A' as u8 <= b && b <= 'Z' as u8 {
            out.push(b + 32);
        } else {
            out.push(b);
        }
        i = i + 1;
    }
    proof {
        assert(out@ =~= lower_spec(v@));
    }
    out
}

/// Index of the last occurrence of `b` in `v`, if any.
fn find_last_byte(v: &Vec<u8>, b: u8) -> (r: Option<usize>)
    ensures
        match r {
            Some(i) => i < v@.len() && find_last(v@, b) == Some(i as int),
            None => find_last(v@, b) is None,
        },
{
    let mut i: usize = v.len();
    proof {
        assert(v@.take(v@.len() as int) =~= v@);
    }
    while i > 0
        invariant
            i <= v@.len(),
            find_last(v@, b) == find_last(v@.take(i as int), b),
        decreases i,
    {
        if v[i - 1] == b {
            return Some(i - 1);
        }
        proof {
            assert(v@.take(i as int).take(i - 1) =~= v@.take(i - 1));
        }
        i = i - 1;
    }
    proof {
        assert(v@.take(0) =~= Seq::<u8>::empty());
    }
    None
}

/// A copy of `v` from index `start` (inclusive) to the end.
pub(crate) fn tail_from(v: &Vec<u8>, start: usize) -> (r: Vec<u8>)
    requires
        start <= v@.len(),
    ensures
        r@ == v@.skip(start as int),
{
    let mut out: Vec<u8> = Vec::new();
    let mut i: usize = start;
    while i < v.len()
        invariant
            start <= i <= v@.len(),
            out@ == v@.subrange(start as int, i as int),
        decreases v@.len() - i,
    {
        out.push(v[i]);
        i = i + 1;
    }
    proof {
        assert(out@ =~= v@.skip(start as int));
    }
    out
}

/// The extension of a path, as `ext_of_spec` defines it.
pub fn extension_of(p: &Vec<u8>) -> (r: Option<Vec<u8>>)
    ensures
        match r {
            Some(e) => ext_of_spec(p@) == Some(e@),
            None => ext_of_spec(p@) is None,
        },
{
    let n = p.len();
    let name_start: usize = match find_last_byte(p, '/' as u8) {
        Some(i) => {
            proof {
                assert(i < n);
            }
            i + 1
        },
        None => 0,
    };
    let name = tail_from(p, name_start);
    proof {
        if find_last(p@, '/' as u8) is None {
            assert(p@.skip(0) =~= p@);
        }
        assert(name@ == file_name_spec(p@));
    }
    match find_last_byte(&name, '.' as u8) {
        Some(i) => {
            if i == 0 {
                None
            } else {
                Some(tail_from(&name, i + 1))
            }
        },
        None => None,
    }
}

/// Whether a path carries one of the navigable extensions.
pub fn is_supported(p: &Vec<u8>) -> (r: bool)
    ensures
        r == supported_ext_spec(p@),
{
    match extension_of(p) {
        Some(e) => {
            let l = to_lower(&e);
            eq3(&l, 'p' as u8, 'n' as u8, 'g' as u8) || eq3(&l, 'j' as u8, 'p' as u8, 'g' as u8)
                || eq3(&l, 'q' as u8, 'o' as u8, 'i' as u8)
                || eq3(&l, 'i' as u8, 'c' as u8, 'o' as u8)
                || eq4(&l, 'j' as u8, 'f' as u8, 'i' as u8, 'f' as u8)
        },
        None => false,
    }
}

/// Whether two byte strings hold the same bytes.
pub(crate) fn eq_bytes(a: &Vec<u8>, b: &Vec<u8>) -> (r: bool)
    ensures
        r == (a@ == b@),
{
    if a.len() != b.len() {
        return false;
    }
    let mut i: usize = 0;
    while i < a.len()
        invariant
            i <= a@.len(),
            a@.len() == b@.len(),
            forall|j: int| 0 <= j < i ==> a@[j] == b@[j],
        decreases a@.len() - i,
    {
        if a[i] != b[i] {
            return false;
        }
        i = i + 1;
    }
    proof {
        assert(a@ =~= b@);
    }
    true
}

/// Whether `v` is exactly the three bytes `a b c`.
pub(crate) fn eq3(v: &Vec<u8>, a: u8, b: u8, c: u8) -> (r: bool)
    ensures
        r == (v@ == seq![a, b, c]),
{
    let r = v.len() == 3 && v[0] == a && v[1] == b && v[2] == c;
    proof {
        if r {
            assert(v@ =~= seq![a, b, c]);
        }
    }
    r
}

/// Whether `v` is exactly the four bytes `a b c d`.
pub(crate) fn eq4(v: &Vec<u8>, a: u8, b: u8, c: u8, d: u8) -> (r: bool)
    ensures
        r == (v@ == seq![a, b, c, d]),
{
    let r = v.len() == 4 && v[0] == a && v[1] == b && v[2] == c && v[3] == d;
    proof {
        if r {
            assert(v@ =~= seq![a, b, c, d]);
        }
    }
    r
}

} // verus!
