//! Viewer state, EXIF-orientation resolution, and directory-based
//! sequential navigation.
//!
//! Navigation is a pure decision over a directory snapshot handed in by the
//! caller: the entries are filtered to the supported extensions, sorted
//! ascending by full path (lexicographic byte order), the current path is
//! located, and the next entry in the requested direction becomes the new
//! current path — with no wraparound at either directory boundary.

use vstd::prelude::*;

use crate::codecs::{exif_orientation_code, exif_orientation_of};
use crate::paths::{eq_bytes, is_supported, supported_ext_spec};
use crate::rotation::Rotation;

verus! {

/// Mapping from the embedded numeric orientation code to the canonical
/// rotation state: `1 -> Up, 6 -> Right, 3 -> Down, 8 -> Left`; every other
/// code, and a missing one, maps to `Up` (mirrored orientations are not
/// modeled).
pub open spec fn orientation_from_code_spec(code: Option<u32>) -> Rotation {
    match code {
        Some(1u32) => Rotation::Up,
        Some(6u32) => Rotation::Right,
        Some(3u32) => Rotation::Down,
        Some(8u32) => Rotation::Left,
        _ => Rotation::Up,
    }
}

/// Total mapping from an optional orientation code to a rotation state.
pub fn orientation_from_code(code: Option<u32>) -> (r: Rotation)
    ensures
        r == orientation_from_code_spec(code),
{
    match code {
        Some(1u32) => Rotation::Up,
        Some(6u32) => Rotation::Right,
        Some(3u32) => Rotation::Down,
        Some(8u32) => Rotation::Left,
        _ => Rotation::Up,
    }
}

/// Resolves the rotation state from an image container's bytes. Never fails
/// the caller: a container that does not parse, or one without an
/// orientation tag, yields `Up`.
pub fn resolve_orientation(bytes: &Vec<u8>) -> (r: Rotation)
    ensures
        r == orientation_from_code_spec(exif_orientation_of(bytes@)),
{
    orientation_from_code(exif_orientation_code(bytes))
}

/// Viewer state, owned by the navigation layer. `reload_pending` is set
/// exactly when a newly selected image awaits the renderer, and cleared by
/// the renderer's acknowledgment after it consumed the image.
#[derive(Debug)]
pub struct State {
    pub current_path: Vec<u8>,
    pub directory: Vec<u8>,
    pub orientation: Rotation,
    pub reload_pending: bool,
    pub active: bool,
}

/// `a <= b` in lexicographic byte order.
pub open spec fn lex_le(a: Seq<u8>, b: Seq<u8>) -> bool
    decreases a.len(),
{
    if a.len() == 0 {
        true
    } else if b.len() == 0 {
        false
    } else if a[0] < b[0] {
        true
    } else if a[0] > b[0] {
        false
    } else {
        lex_le(a.skip(1), b.skip(1))
    }
}

/// The element views of a sequence of byte vectors.
pub open spec fn paths_view(s: Seq<Vec<u8>>) -> Seq<Seq<u8>> {
    s.map_values(|v: Vec<u8>| v@)
}

/// `x` inserted in front of the first element of `s` it compares
/// less-or-equal to.
pub open spec fn insert_lex(x: Seq<u8>, s: Seq<Seq<u8>>) -> Seq<Seq<u8>>
    decreases s.len(),
{
    if s.len() == 0 {
        seq![x]
    } else if lex_le(x, s[0]) {
        seq![x] + s
    } else {
        seq![s[0]] + insert_lex(x, s.skip(1))
    }
}

/// `s` sorted ascending by lexicographic byte order (insertion sort).
pub open spec fn sort_lex(s: Seq<Seq<u8>>) -> Seq<Seq<u8>>
    decreases s.len(),
{
    if s.len() == 0 {
        Seq::empty()
    } else {
        insert_lex(s[0], sort_lex(s.skip(1)))
    }
}

/// The entries of `s` that carry a supported extension, in order.
pub open spec fn filtered_spec(s: Seq<Seq<u8>>) -> Seq<Seq<u8>>
    decreases s.len(),
{
    if s.len() == 0 {
        Seq::empty()
    } else {
        let init = filtered_spec(s.take(s.len() - 1));
        if supported_ext_spec(s[s.len() - 1]) {
            init + seq![s[s.len() - 1]]
        } else {
            init
        }
    }
}

/// Index of the first occurrence of `x` in `s` at or after `from`.
pub open spec fn first_index_from(s: Seq<Seq<u8>>, x: Seq<u8>, from: int) -> Option<int>
    decreases s.len() - from,
{
    if from < 0 || from >= s.len() {
        None
    } else if s[from] == x {
        Some(from)
    } else {
        first_index_from(s, x, from + 1)
    }
}

/// Index of the last occurrence of `x` in `s` at or before `from`.
pub open spec fn last_index_from(s: Seq<Seq<u8>>, x: Seq<u8>, from: int) -> Option<int>
    decreases from + 1,
{
    if from < 0 || from >= s.len() {
        None
    } else if s[from] == x {
        Some(from)
    } else {
        last_index_from(s, x, from - 1)
    }
}

/// The navigation candidate: the entries with supported extensions, sorted
/// ascending by full path; the current path is located in that sequence
/// (scanning backwards from the end when `backwards` — the reversed
/// traversal) and its neighbour one step in the requested direction is the
/// candidate. No candidate exists when the current path is absent or sits at
/// the boundary: navigation does not wrap.
pub open spec fn nav_candidate_spec(listing: Seq<Seq<u8>>, current: Seq<u8>, backwards: bool) -> Option<
    Seq<u8>,
> {
    let sorted = sort_lex(filtered_spec(listing));
    if backwards {
        match last_index_from(sorted, current, sorted.len() - 1) {
            Some(i) => if i > 0 {
                Some(sorted[i - 1])
            } else {
                None
            },
            None => None,
        }
    } else {
        match first_index_from(sorted, current, 0) {
            Some(i) => if i + 1 < sorted.len() {
                Some(sorted[i + 1])
            } else {
                None
            },
            None => None,
        }
    }
}

/// Pairwise ascending lexicographic order.
pub open spec fn sorted_lex(s: Seq<Seq<u8>>) -> bool {
    forall|i: int, j: int| 0 <= i < j < s.len() ==> lex_le(s[i], s[j])
}

/// Law: lexicographic order is total — any two byte strings compare in at
/// least one direction.
pub proof fn lemma_lex_le_total(a: Seq<u8>, b: Seq<u8>)
    ensures
        lex_le(a, b) || lex_le(b, a),
    decreases a.len(),
{
    if a.len() != 0 && b.len() != 0 && a[0] == b[0] {
        lemma_lex_le_total(a.skip(1), b.skip(1));
    }
}

/// Law: lexicographic order is transitive.
pub proof fn lemma_lex_le_trans(a: Seq<u8>, b: Seq<u8>, c: Seq<u8>)
    requires
        lex_le(a, b),
        lex_le(b, c),
    ensures
        lex_le(a, c),
    decreases a.len(),
{
    if a.len() != 0 && b.len() != 0 && c.len() != 0 && a[0] == b[0] && b[0] == c[0] {
        lemma_lex_le_trans(a.skip(1), b.skip(1), c.skip(1));
    }
}

/// Inserting into a sorted sequence keeps it sorted and adds exactly the
/// inserted element.
pub proof fn lemma_insert_lex_sorted(x: Seq<u8>, s: Seq<Seq<u8>>)
    requires
        sorted_lex(s),
    ensures
        sorted_lex(insert_lex(x, s)),
        insert_lex(x, s).to_multiset() == s.to_multiset().insert(x),
    decreases s.len(),
{
    broadcast use vstd::seq_lib::group_to_multiset_ensures;

    if s.len() == 0 {
        assert(seq![x] =~= s.insert(0, x));
        assert(insert_lex(x, s).to_multiset() =~= s.to_multiset().insert(x));
    } else if lex_le(x, s[0]) {
        let t = seq![x] + s;
        assert(t =~= s.insert(0, x));
        assert(t.to_multiset() =~= s.to_multiset().insert(x));
        assert forall|i: int, j: int| 0 <= i < j < t.len() implies lex_le(t[i], t[j]) by {
            if i == 0 {
                if j > 1 {
                    lemma_lex_le_trans(x, s[0], s[j - 1]);
                }
            }
        }
    } else {
        let rest = s.skip(1);
        assert forall|i: int, j: int| 0 <= i < j < rest.len() implies lex_le(rest[i], rest[j]) by {
            assert(lex_le(s[i + 1], s[j + 1]));
        }
        lemma_insert_lex_sorted(x, rest);
        let t0 = insert_lex(x, rest);
        let t = seq![s[0]] + t0;
        assert(insert_lex(x, s) == t);
        assert(t =~= t0.insert(0, s[0]));
        assert(s =~= rest.insert(0, s[0]));
        assert(t.to_multiset() =~= t0.to_multiset().insert(s[0]));
        assert(s.to_multiset() =~= rest.to_multiset().insert(s[0]));
        assert(t.to_multiset() =~= s.to_multiset().insert(x));
        lemma_lex_le_total(x, s[0]);
        assert forall|k: int| 0 <= k < t0.len() implies lex_le(s[0], t0[k]) by {
            assert(t0.contains(t0[k]));
            assert(t0.to_multiset().count(t0[k]) > 0);
            if t0[k] != x {
                assert(rest.to_multiset().count(t0[k]) > 0);
                assert(rest.contains(t0[k]));
                let j = choose|j: int| 0 <= j < rest.len() && rest[j] == t0[k];
                assert(lex_le(s[0], s[j + 1]));
            }
        }
        assert forall|i: int, j: int| 0 <= i < j < t.len() implies lex_le(t[i], t[j]) by {
            if i > 0 {
                assert(lex_le(t0[i - 1], t0[j - 1]));
            }
        }
    }
}

/// Law: `sort_lex` is the ascending lexicographic sort — its result is
/// pairwise ordered and a permutation of its input.
pub proof fn lemma_sort_lex_sorted(s: Seq<Seq<u8>>)
    ensures
        sorted_lex(sort_lex(s)),
        sort_lex(s).to_multiset() == s.to_multiset(),
    decreases s.len(),
{
    broadcast use vstd::seq_lib::group_to_multiset_ensures;

    if s.len() == 0 {
    } else {
        let rest = s.skip(1);
        lemma_sort_lex_sorted(rest);
        lemma_insert_lex_sorted(s[0], sort_lex(rest));
        assert(s =~= rest.insert(0, s[0]));
        assert(s.to_multiset() =~= rest.to_multiset().insert(s[0]));
        assert(sort_lex(s).to_multiset() =~= s.to_multiset());
    }
}

/// Spec view of an optional borrowed directory snapshot.
pub open spec fn opt_listing_view(o: Option<&Vec<Vec<u8>>>) -> Option<Seq<Seq<u8>>> {
    match o {
        Some(l) => Some(paths_view(l@)),
        None => None,
    }
}

/// What one navigation call does to the state: a no-op while a reload is
/// pending, the viewer is inactive, the snapshot could not be read, or no
/// candidate exists; otherwise the candidate becomes current and a reload is
/// marked pending. Orientation is resolved separately, by `load_img`, once
/// the caller has read the new file.
pub open spec fn nav_post(
    pre: State,
    post: State,
    listing: Option<Seq<Seq<u8>>>,
    changed: bool,
    backwards: bool,
) -> bool {
    if pre.reload_pending || !pre.active {
        post == pre && !changed
    } else {
        match listing {
            None => post == pre && !changed,
            Some(entries) => match nav_candidate_spec(entries, pre.current_path@, backwards) {
                Some(p) => changed && post.current_path@ == p && post.reload_pending
                    && post.directory == pre.directory && post.orientation == pre.orientation
                    && post.active == pre.active,
                None => post == pre && !changed,
            },
        }
    }
}

/// `a <= b` in lexicographic byte order.
fn lex_le_bytes(a: &Vec<u8>, b: &Vec<u8>) -> (r: bool)
    ensures
        r == lex_le(a@, b@),
{
    let mut i: usize = 0;
    proof {
        assert(a@.skip(0) =~= a@);
        assert(b@.skip(0) =~= b@);
    }
    loop
        invariant
            i <= a@.len(),
            i <= b@.len(),
            lex_le(a@, b@) == lex_le(a@.skip(i as int), b@.skip(i as int)),
        decreases a@.len() - i,
    {
        if i >= a.len() {
            proof {
                assert(a@.skip(i as int).len() == 0);
            }
            return true;
        }
        if i >= b.len() {
            proof {
                assert(b@.skip(i as int).len() == 0);
                assert(a@.skip(i as int).len() > 0);
            }
            return false;
        }
        let x = a[i];
        let y = b[i];
        proof {
            assert(a@.skip(i as int)[0] == a@[i as int]);
            assert(b@.skip(i as int)[0] == b@[i as int]);
        }
        if x < y {
            return true;
        }
        if x > y {
            return false;
        }
        proof {
            assert(a@.skip(i as int).skip(1) =~= a@.skip(i as int + 1));
            assert(b@.skip(i as int).skip(1) =~= b@.skip(i as int + 1));
        }
        i = i + 1;
    }
}

/// `x` inserted into the sorted vector `s` as `insert_lex` places it.
fn insert_sorted(x: Vec<u8>, s: Vec<Vec<u8>>) -> (r: Vec<Vec<u8>>)
    ensures
        paths_view(r@) == insert_lex(x@, paths_view(s@)),
    decreases s@.len(),
{
    let ghost xv = x@;
    let ghost sv = paths_view(s@);
    let mut s = s;
    if s.len() == 0 {
        let mut r: Vec<Vec<u8>> = Vec::new();
        r.push(x);
        proof {
            assert(paths_view(r@) =~= insert_lex(xv, sv));
        }
        r
    } else if lex_le_bytes(&x, &s[0]) {
        s.insert(0, x);
        proof {
            assert(paths_view(s@) =~= seq![xv] + sv);
        }
        s
    } else {
        let head = s.remove(0);
        let ghost hv = head@;
        proof {
            assert(paths_view(s@) =~= sv.skip(1));
        }
        let mut r = insert_sorted(x, s);
        r.insert(0, head);
        proof {
            assert(paths_view(r@) =~= seq![hv] + insert_lex(xv, sv.skip(1)));
            assert(insert_lex(xv, sv) == seq![sv[0]] + insert_lex(xv, sv.skip(1)));
            assert(paths_view(r@) =~= insert_lex(xv, sv));
        }
        r
    }
}

/// `s` sorted ascending by lexicographic byte order.
fn sort_paths(s: Vec<Vec<u8>>) -> (r: Vec<Vec<u8>>)
    ensures
        paths_view(r@) == sort_lex(paths_view(s@)),
    decreases s@.len(),
{
    let ghost sv = paths_view(s@);
    let mut s = s;
    if s.len() == 0 {
        s
    } else {
        let head = s.remove(0);
        proof {
            assert(paths_view(s@) =~= sv.skip(1));
        }
        let sorted_rest = sort_paths(s);
        insert_sorted(head, sorted_rest)
    }
}

/// The entries of `listing` that carry a supported extension, in order.
fn filter_supported(listing: &Vec<Vec<u8>>) -> (r: Vec<Vec<u8>>)
    ensures
        paths_view(r@) == filtered_spec(paths_view(listing@)),
{
    let mut out: Vec<Vec<u8>> = Vec::new();
    let mut i: usize = 0;
    proof {
        assert(paths_view(listing@).take(0) =~= Seq::<Seq<u8>>::empty());
    }
    while i < listing.len()
        invariant
            i <= listing@.len(),
            paths_view(out@) == filtered_spec(paths_view(listing@).take(i as int)),
        decreases listing@.len() - i,
    {
        let ghost pv = paths_view(listing@);
        let ghost outv = paths_view(out@);
        if is_supported(&listing[i]) {
            let entry = crate::paths::tail_from(&listing[i], 0);
            proof {
                assert(entry@ =~= pv[i as int]);
            }
            out.push(entry);
            proof {
                assert(paths_view(out@) =~= outv + seq![pv[i as int]]);
            }
        }
        proof {
            let j = i as int;
            assert(pv.take(j + 1).take(j) =~= pv.take(j));
            assert(pv.take(j + 1)[j] == pv[j]);
        }
        i = i + 1;
    }
    proof {
        assert(paths_view(listing@).take(listing@.len() as int) =~= paths_view(listing@));
    }
    out
}

/// Index of the first entry equal to `x`, scanning forward.
fn find_first(s: &Vec<Vec<u8>>, x: &Vec<u8>) -> (r: Option<usize>)
    ensures
        match r {
            Some(i) => i < s@.len() && first_index_from(paths_view(s@), x@, 0) == Some(i as int),
            None => first_index_from(paths_view(s@), x@, 0) is None,
        },
{
    let mut i: usize = 0;
    while i < s.len()
        invariant
            i <= s@.len(),
            first_index_from(paths_view(s@), x@, 0) == first_index_from(
                paths_view(s@),
                x@,
                i as int,
            ),
        decreases s@.len() - i,
    {
        if eq_bytes(&s[i], x) {
            return Some(i);
        }
        i = i + 1;
    }
    None
}

/// Index of the last entry equal to `x`, scanning backward.
fn find_last_path(s: &Vec<Vec<u8>>, x: &Vec<u8>) -> (r: Option<usize>)
    ensures
        match r {
            Some(i) => i < s@.len() && last_index_from(paths_view(s@), x@, s@.len() - 1) == Some(
                i as int,
            ),
            None => last_index_from(paths_view(s@), x@, s@.len() - 1) is None,
        },
{
    let mut i: usize = s.len();
    while i > 0
        invariant
            i <= s@.len(),
            last_index_from(paths_view(s@), x@, s@.len() - 1) == last_index_from(
                paths_view(s@),
                x@,
                i - 1,
            ),
        decreases i,
    {
        if eq_bytes(&s[i - 1], x) {
            return Some(i - 1);
        }
        i = i - 1;
    }
    None
}

impl State {
    /// The initial state: inactive image (`./img/no_image.png` in `./img/`),
    /// upright, no reload pending, viewer running.
    pub fn default() -> (s: State)
        ensures
            s.current_path@ == default_image_spec(),
            s.directory@ == default_dir_spec(),
            s.orientation == Rotation::Up,
            !s.reload_pending,
            s.active,
    {
        State {
            current_path: default_image_path(),
            directory: default_dir_path(),
            orientation: Rotation::Up,
            reload_pending: false,
            active: true,
        }
    }

    /// Resolves the orientation of the freshly selected image from its
    /// container bytes (`None` when the file could not be read — resolution
    /// never fails, it defaults to `Up`) and marks a reload pending.
    pub fn load_img(&mut self, bytes: Option<&Vec<u8>>)
        ensures
            final(self).orientation == orientation_from_code_spec(
                match bytes {
                    Some(b) => exif_orientation_of(b@),
                    None => None,
                },
            ),
            final(self).reload_pending,
            final(self).current_path == old(self).current_path,
            final(self).directory == old(self).directory,
            final(self).active == old(self).active,
    {
        match bytes {
            Some(b) => {
                self.orientation = resolve_orientation(b);
            },
            None => {
                self.orientation = Rotation::Up;
            },
        }
        self.reload_pending = true;
    }

    /// Advances to the next supported sibling, per `nav_post`; `listing` is
    /// the directory snapshot (`None` when it could not be read). Returns
    /// whether the current path changed; the caller then reads the new file
    /// and hands its bytes to `load_img`.
    pub fn next_img(&mut self, listing: Option<&Vec<Vec<u8>>>) -> (changed: bool)
        ensures
            nav_post(*old(self), *final(self), opt_listing_view(listing), changed, false),
    {
        self.navigate(listing, false)
    }

    /// Advances to the previous supported sibling, per `nav_post`, as
    /// `next_img` with the traversal order reversed.
    pub fn prev_img(&mut self, listing: Option<&Vec<Vec<u8>>>) -> (changed: bool)
        ensures
            nav_post(*old(self), *final(self), opt_listing_view(listing), changed, true),
    {
        self.navigate(listing, true)
    }

    /// Shared navigation algorithm, traversal order selected by `backwards`.
    fn navigate(&mut self, listing: Option<&Vec<Vec<u8>>>, backwards: bool) -> (changed: bool)
        ensures
            nav_post(*old(self), *final(self), opt_listing_view(listing), changed, backwards),
    {
        if self.reload_pending || !self.active {
            return false;
        }
        let entries = match listing {
            Some(l) => l,
            None => {
                return false;
            },
        };
        let filtered = filter_supported(entries);
        let mut sorted = sort_paths(filtered);
        if backwards {
            let idx = match find_last_path(&sorted, &self.current_path) {
                Some(i) => i,
                None => {
                    return false;
                },
            };
            if idx > 0 {
                let candidate = sorted.swap_remove(idx - 1);
                self.current_path = candidate;
                self.reload_pending = true;
                true
            } else {
                false
            }
        } else {
            let idx = match find_first(&sorted, &self.current_path) {
                Some(i) => i,
                None => {
                    return false;
                },
            };
            let n = sorted.len();
            if idx + 1 < n {
                let candidate = sorted.swap_remove(idx + 1);
                self.current_path = candidate;
                self.reload_pending = true;
                true
            } else {
                false
            }
        }
    }
}

/// The default directory, `./img/`, as bytes.
pub open spec fn default_dir_spec() -> Seq<u8> {
    seq!['.' as u8, '/' as u8, 'i' as u8, 'm' as u8, 'g' as u8, '/' as u8]
}

/// The default image path, `./img/no_image.png`, as bytes.
pub open spec fn default_image_spec() -> Seq<u8> {
    default_dir_spec() + seq![
        'n' as u8,
        'o' as u8,
        '_' as u8,
        'i' as u8,
        'm' as u8,
        'a' as u8,
        'g' as u8,
        'e' as u8,
        '.' as u8,
        'p' as u8,
        'n' as u8,
        'g' as u8,
    ]
}

/// Builds the default directory path.
fn default_dir_path() -> (r: Vec<u8>)
    ensures
        r@ == default_dir_spec(),
{
    let mut v: Vec<u8> = Vec::new();
    v.push('.' as u8);
    v.push('/' as u8);
    v.push('i' as u8);
    v.push('m' as u8);
    v.push('g' as u8);
    v.push('/' as u8);
    proof {
        assert(v@ =~= default_dir_spec());
    }
    v
}

/// Builds the default image path.
fn default_image_path() -> (r: Vec<u8>)
    ensures
        r@ == default_image_spec(),
{
    let mut v = default_dir_path();
    v.push('n' as u8);
    v.push('o' as u8);
    v.push('_' as u8);
    v.push('i' as u8);
    v.push('m' as u8);
    v.push('a' as u8);
    v.push('g' as u8);
    v.push('e' as u8);
    v.push('.' as u8);
    v.push('p' as u8);
    v.push('n' as u8);
    v.push('g' as u8);
    proof {
        assert(v@ =~= default_image_spec());
    }
    v
}

} // verus!
