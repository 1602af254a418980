//! Terrain diffs and their normal form: every list free of duplicates and
//! sorted ascending by `x`, then `y`, so that what crosses the boundary is
//! the same from run to run.

use crate::coord::{coord_lt, TerrainChunkCoord};
use vstd::prelude::*;

verus! {

/// Whether every element sorts strictly before all that follow it. A list
/// in this order holds nothing twice.
pub open spec fn strictly_ascending(s: Seq<TerrainChunkCoord>) -> bool {
    forall|i: int, j: int| 0 <= i < j < s.len() ==> coord_lt(#[trigger] s[i], #[trigger] s[j])
}

/// Whether two lists hold the same coordinates, whatever their order and
/// however often each occurs.
pub open spec fn same_coords(a: Seq<TerrainChunkCoord>, b: Seq<TerrainChunkCoord>) -> bool {
    forall|c: TerrainChunkCoord| a.contains(c) <==> b.contains(c)
}

/// Whether `out` is the normal form of `input`: the coordinates of `input`,
/// each once, in ascending order.
pub open spec fn is_normal_form_of(
    out: Seq<TerrainChunkCoord>,
    input: Seq<TerrainChunkCoord>,
) -> bool {
    strictly_ascending(out) && same_coords(out, input)
}

/// A list has one normal form only: two ascending lists that hold the same
/// coordinates are the same list.
pub proof fn lemma_normal_form_unique(a: Seq<TerrainChunkCoord>, b: Seq<TerrainChunkCoord>)
    requires
        strictly_ascending(a),
        strictly_ascending(b),
        same_coords(a, b),
    ensures
        a == b,
    decreases a.len(),
{
    if a.len() == 0 {
        if b.len() > 0 {
            assert(b.contains(b[0]));
            assert(a.contains(b[0]));
        }
        assert(a =~= b);
    } else if b.len() == 0 {
        assert(a.contains(a[0]));
        assert(b.contains(a[0]));
    } else {
        assert(a.contains(a[0]));
        assert(b.contains(a[0]));
        let k = choose|k: int| 0 <= k < b.len() && #[trigger] b[k] == a[0];
        assert(b.contains(b[0]));
        assert(a.contains(b[0]));
        let m = choose|m: int| 0 <= m < a.len() && #[trigger] a[m] == b[0];
        assert(a[0] == b[0]) by {
            if k > 0 {
                assert(coord_lt(b[0], b[k]));
                if m > 0 {
                    assert(coord_lt(a[0], a[m]));
                }
            }
        }
        let ta = a.drop_first();
        let tb = b.drop_first();
        assert(strictly_ascending(ta)) by {
            assert forall|i: int, j: int| 0 <= i < j < ta.len() implies coord_lt(
                #[trigger] ta[i],
                #[trigger] ta[j],
            ) by {
                assert(ta[i] == a[i + 1] && ta[j] == a[j + 1]);
            }
        }
        assert(strictly_ascending(tb)) by {
            assert forall|i: int, j: int| 0 <= i < j < tb.len() implies coord_lt(
                #[trigger] tb[i],
                #[trigger] tb[j],
            ) by {
                assert(tb[i] == b[i + 1] && tb[j] == b[j + 1]);
            }
        }
        assert(same_coords(ta, tb)) by {
            assert forall|c: TerrainChunkCoord| ta.contains(c) <==> tb.contains(c) by {
                if ta.contains(c) {
                    let p = choose|p: int| 0 <= p < ta.len() && #[trigger] ta[p] == c;
                    assert(a[p + 1] == c);
                    assert(coord_lt(a[0], a[p + 1]));
                    assert(a.contains(c));
                    assert(b.contains(c));
                    let q = choose|q: int| 0 <= q < b.len() && #[trigger] b[q] == c;
                    assert(q != 0);
                    assert(tb[q - 1] == c);
                }
                if tb.contains(c) {
                    let p = choose|p: int| 0 <= p < tb.len() && #[trigger] tb[p] == c;
                    assert(b[p + 1] == c);
                    assert(coord_lt(b[0], b[p + 1]));
                    assert(b.contains(c));
                    assert(a.contains(c));
                    let q = choose|q: int| 0 <= q < a.len() && #[trigger] a[q] == c;
                    assert(q != 0);
                    assert(ta[q - 1] == c);
                }
            }
        }
        lemma_normal_form_unique(ta, tb);
        assert(a =~= seq![a[0]] + ta);
        assert(b =~= seq![b[0]] + tb);
    }
}

/// Taking one more element of a list adds exactly that element.
proof fn lemma_take_step(s: Seq<TerrainChunkCoord>, i: int, c: TerrainChunkCoord)
    requires
        0 <= i < s.len(),
    ensures
        s.take(i + 1).contains(c) <==> s.take(i).contains(c) || c == s[i],
{
    if s.take(i + 1).contains(c) {
        let p = choose|p: int| 0 <= p < s.take(i + 1).len() && #[trigger] s.take(i + 1)[p] == c;
        if p < i {
            assert(s.take(i)[p] == c);
        }
    }
    if s.take(i).contains(c) {
        let p = choose|p: int| 0 <= p < s.take(i).len() && #[trigger] s.take(i)[p] == c;
        assert(s.take(i + 1)[p] == c);
    }
    if c == s[i] {
        assert(s.take(i + 1)[i] == c);
    }
}

/// Appending an element to a list adds exactly that element.
proof fn lemma_push_contains(s: Seq<TerrainChunkCoord>, x: TerrainChunkCoord, c: TerrainChunkCoord)
    ensures
        s.push(x).contains(c) <==> s.contains(c) || c == x,
{
    if s.push(x).contains(c) {
        let p = choose|p: int| 0 <= p < s.push(x).len() && #[trigger] s.push(x)[p] == c;
        if p < s.len() {
            assert(s[p] == c);
        }
    }
    if s.contains(c) {
        let p = choose|p: int| 0 <= p < s.len() && #[trigger] s[p] == c;
        assert(s.push(x)[p] == c);
    }
    if c == x {
        assert(s.push(x)[s.len() as int] == c);
    }
}

/// Merge two ascending lists into one, keeping a coordinate that both hold
/// once.
fn merge_unique(a: &Vec<TerrainChunkCoord>, b: &Vec<TerrainChunkCoord>) -> (out: Vec<
    TerrainChunkCoord,
>)
    requires
        strictly_ascending(a@),
        strictly_ascending(b@),
    ensures
        strictly_ascending(out@),
        forall|c: TerrainChunkCoord| out@.contains(c) <==> a@.contains(c) || b@.contains(c),
{
    let mut out: Vec<TerrainChunkCoord> = Vec::new();
    let mut i: usize = 0;
    let mut j: usize = 0;
    while i < a.len() || j < b.len()
        invariant
            i <= a.len(),
            j <= b.len(),
            strictly_ascending(a@),
            strictly_ascending(b@),
            strictly_ascending(out@),
            forall|k: int|
                0 <= k < out.len() ==> (i < a.len() ==> coord_lt(#[trigger] out@[k], a@[i as int]))
                    && (j < b.len() ==> coord_lt(out@[k], b@[j as int])),
            forall|c: TerrainChunkCoord|
                out@.contains(c) <==> a@.take(i as int).contains(c) || b@.take(j as int).contains(
                    c,
                ),
        decreases (a.len() - i) + (b.len() - j),
    {
        let ghost prev = out@;
        let ghost pi = i as int;
        let ghost pj = j as int;
        let take_a: bool = j >= b.len() || (i < a.len() && a[i].precedes(&b[j]));
        let take_b: bool = !take_a && (i >= a.len() || b[j].precedes(&a[i]));
        let x: TerrainChunkCoord = if take_b {
            b[j]
        } else {
            a[i]
        };
        out.push(x);
        if take_a {
            i = i + 1;
        } else if take_b {
            j = j + 1;
        } else {
            assert(a@[pi] == b@[pj]);
            i = i + 1;
            j = j + 1;
        }
        proof {
            assert forall|c: TerrainChunkCoord|
                out@.contains(c) <==> a@.take(i as int).contains(c) || b@.take(j as int).contains(
                    c,
                ) by {
                lemma_push_contains(prev, x, c);
                if i > pi {
                    lemma_take_step(a@, pi, c);
                }
                if j > pj {
                    lemma_take_step(b@, pj, c);
                }
            }
            assert forall|p: int, q: int| 0 <= p < q < out@.len() implies coord_lt(
                #[trigger] out@[p],
                #[trigger] out@[q],
            ) by {
                if q < prev.len() {
                    assert(out@[p] == prev[p] && out@[q] == prev[q]);
                } else {
                    assert(out@[p] == prev[p]);
                }
            }
            assert forall|k: int| 0 <= k < out.len() implies (i < a.len() ==> coord_lt(
                #[trigger] out@[k],
                a@[i as int],
            )) && (j < b.len() ==> coord_lt(out@[k], b@[j as int])) by {
                if k < prev.len() {
                    assert(out@[k] == prev[k]);
                }
                if i < a.len() && i > pi {
                    assert(coord_lt(a@[pi], a@[i as int]));
                }
                if j < b.len() && j > pj {
                    assert(coord_lt(b@[pj], b@[j as int]));
                }
            }
        }
    }
    proof {
        assert(a@.take(a.len() as int) =~= a@);
        assert(b@.take(b.len() as int) =~= b@);
    }
    out
}

/// The normal form of `v[lo..hi]`, by merging those of its two halves.
fn normalize_range(v: &Vec<TerrainChunkCoord>, lo: usize, hi: usize) -> (out: Vec<
    TerrainChunkCoord,
>)
    requires
        lo <= hi <= v.len(),
    ensures
        is_normal_form_of(out@, v@.subrange(lo as int, hi as int)),
    decreases hi - lo,
{
    let ghost part = v@.subrange(lo as int, hi as int);
    if hi - lo == 0 {
        Vec::new()
    } else if hi - lo == 1 {
        let mut out: Vec<TerrainChunkCoord> = Vec::new();
        out.push(v[lo]);
        proof {
            assert forall|c: TerrainChunkCoord| out@.contains(c) <==> part.contains(c) by {
                if part.contains(c) {
                    let p = choose|p: int| 0 <= p < part.len() && #[trigger] part[p] == c;
                    assert(out@[0] == c);
                }
                if out@.contains(c) {
                    assert(part[0] == c);
                }
            }
        }
        out
    } else {
        let mid: usize = lo + (hi - lo) / 2;
        let left = normalize_range(v, lo, mid);
        let right = normalize_range(v, mid, hi);
        let out = merge_unique(&left, &right);
        proof {
            let lpart = v@.subrange(lo as int, mid as int);
            let rpart = v@.subrange(mid as int, hi as int);
            assert forall|c: TerrainChunkCoord| out@.contains(c) <==> part.contains(c) by {
                if part.contains(c) {
                    let p = choose|p: int| 0 <= p < part.len() && #[trigger] part[p] == c;
                    if p < mid - lo {
                        assert(lpart[p] == c);
                    } else {
                        assert(rpart[p - (mid - lo)] == c);
                    }
                }
                if lpart.contains(c) {
                    let p = choose|p: int| 0 <= p < lpart.len() && #[trigger] lpart[p] == c;
                    assert(part[p] == c);
                }
                if rpart.contains(c) {
                    let p = choose|p: int| 0 <= p < rpart.len() && #[trigger] rpart[p] == c;
                    assert(part[p + (mid - lo)] == c);
                }
            }
        }
        out
    }
}

/// The normal form of a list of coordinates.
pub fn normalize_chunks(chunks: &Vec<TerrainChunkCoord>) -> (out: Vec<TerrainChunkCoord>)
    ensures
        is_normal_form_of(out@, chunks@),
{
    let out = normalize_range(chunks, 0, chunks.len());
    proof {
        assert(chunks@.subrange(0, chunks.len() as int) =~= chunks@);
    }
    out
}

/// The raw change-set of one simulation step: three unordered lists of
/// coordinates, each of which may name a chunk more than once.
#[derive(Clone, Debug)]
pub struct TerrainChanges {
    /// Chunks inserted during the step.
    pub new_chunks: Vec<TerrainChunkCoord>,
    /// Chunks modified during the step.
    pub modified_chunks: Vec<TerrainChunkCoord>,
    /// Chunks removed during the step.
    pub removed_chunks: Vec<TerrainChunkCoord>,
}

impl Default for TerrainChanges {
    fn default() -> (changes: Self)
        ensures
            changes.new_chunks@.len() == 0,
            changes.modified_chunks@.len() == 0,
            changes.removed_chunks@.len() == 0,
    {
        TerrainChanges {
            new_chunks: Vec::new(),
            modified_chunks: Vec::new(),
            removed_chunks: Vec::new(),
        }
    }
}

/// Snapshot of terrain diffs produced during a simulation tick.
#[derive(Clone, Debug, PartialEq, Eq)]
pub struct TerrainDiff {
    /// Coordinates of chunks inserted during the tick.
    pub new_chunks: Vec<TerrainChunkCoord>,
    /// Coordinates of chunks modified during the tick.
    pub modified_chunks: Vec<TerrainChunkCoord>,
    /// Coordinates of chunks removed during the tick.
    pub removed_chunks: Vec<TerrainChunkCoord>,
}

impl TerrainDiff {
    /// Whether the diff holds no coordinate in any of its lists.
    pub open spec fn spec_is_empty(&self) -> bool {
        &&& self.new_chunks@.len() == 0
        &&& self.modified_chunks@.len() == 0
        &&& self.removed_chunks@.len() == 0
    }

    /// Whether each list of the diff is the normal form of the matching list
    /// of `changes`.
    pub open spec fn is_normal_form_of(&self, changes: &TerrainChanges) -> bool {
        &&& is_normal_form_of(self.new_chunks@, changes.new_chunks@)
        &&& is_normal_form_of(self.modified_chunks@, changes.modified_chunks@)
        &&& is_normal_form_of(self.removed_chunks@, changes.removed_chunks@)
    }

    /// Build a diff from the provided terrain change sets, deduplicating chunk
    /// coordinates and returning them in a deterministic sorted order.
    pub fn from_terrain_changes(changes: &TerrainChanges) -> (diff: Self)
        ensures
            diff.is_normal_form_of(changes),
    {
        TerrainDiff {
            new_chunks: normalize_chunks(&changes.new_chunks),
            modified_chunks: normalize_chunks(&changes.modified_chunks),
            removed_chunks: normalize_chunks(&changes.removed_chunks),
        }
    }

    /// Whether the diff contains no changes.
    pub fn is_empty(&self) -> (empty: bool)
        ensures
            empty == self.spec_is_empty(),
    {
        self.new_chunks.len() == 0 && self.modified_chunks.len() == 0 && self.removed_chunks.len()
            == 0
    }
}

impl Default for TerrainDiff {
    fn default() -> (diff: Self)
        ensures
            diff.spec_is_empty(),
    {
        TerrainDiff {
            new_chunks: Vec::new(),
            modified_chunks: Vec::new(),
            removed_chunks: Vec::new(),
        }
    }
}

} // verus!
