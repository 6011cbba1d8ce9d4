//! Packing extracted instances into the shared instance buffer and
//! emitting contiguous same-shader draw batches.
//!
//! The frame's drawable items arrive already ordered by the caller's sort
//! key (primarily depth). The builder walks them once, writes each item's
//! packed vertex into the next slot of the shared buffer, and merges
//! adjacent items with equal shader keys into one batch. Adjacency, not
//! global key equality, decides merging: the ordered batch ranges exactly
//! partition the buffer with no gaps, overlaps or reordering, every batch's
//! items share one key, and neighbouring batches carry different keys.

use vstd::prelude::*;

use crate::composer::key_matches;
use crate::composer::lemma_key_matches_equiv;
use crate::composer::lemma_key_matches_reflexive;
use crate::composer::lemma_key_matches_symmetric;
use crate::composer::ShaderKey;
use crate::extract::ExtractedShape;
use crate::extract::ExtractedShapes;

verus! {

/// One drawable item of the frame, in draw order: which extracted shape it
/// is and the compiled pipeline identity it is drawn with.
#[derive(Debug, Clone, Copy, PartialEq, Eq, Structural)]
pub struct PhaseItem {
    /// Position of the shape in the frame's extracted snapshot.
    pub shape_index: usize,
    /// The compiled pipeline the shape is drawn with.
    pub pipeline: u64,
}

/// A contiguous run of instances sharing one shader and one pipeline,
/// submitted as a single instanced draw call.
#[derive(Debug)]
pub struct ShapeBatch {
    /// The shader combination every instance of the batch uses.
    pub shader_key: ShaderKey,
    /// The compiled pipeline the batch is drawn with.
    pub pipeline: u64,
    /// First instance slot of the batch (inclusive).
    pub range_start: u32,
    /// One past the last instance slot of the batch.
    pub range_end: u32,
}

/// The shared instance buffer: one contiguous vector of packed 32-bit
/// words, fully overwritten each frame.
#[derive(Debug)]
pub struct ShapeMeta {
    /// The packed instance words of the current frame.
    pub vertices: Vec<u32>,
}

impl ShapeMeta {
    /// An empty instance buffer.
    pub fn new() -> (r: Self)
        ensures
            r.vertices@ == Seq::<u32>::empty(),
    {
        ShapeMeta { vertices: Vec::new() }
    }
}

impl Default for ShapeMeta {
    /// An empty instance buffer.
    fn default() -> (r: Self)
        ensures
            r.vertices@ == Seq::<u32>::empty(),
    {
        ShapeMeta { vertices: Vec::new() }
    }
}

/// The word at slot `i` of a parameter list, zero when the list is shorter.
pub open spec fn param_word(params: Seq<crate::components::SmudParam>, i: int) -> u32 {
    if 0 <= i < params.len() {
        params[i]@
    } else {
        0u32
    }
}

/// The packed instance words of one snapshot under capacity `(f, u)`:
/// `[color:4][frame:1][float params:f][uint params:u][position:3]
/// [rotation:2][scale:1]`, `11 + f + u` words in all, parameters padded
/// with zero words up to the capacity.
pub open spec fn packed_words(e: ExtractedShape, f: nat, u: nat) -> Seq<u32> {
    seq![e.color.red, e.color.green, e.color.blue, e.color.alpha, e.frame] + Seq::new(
        f,
        |i: int| param_word(e.float_params@, i),
    ) + Seq::new(u, |j: int| param_word(e.uint_params@, j)) + seq![
        e.transform.position_x,
        e.transform.position_y,
        e.transform.position_z,
        e.transform.rotation_cos,
        e.transform.rotation_sin,
        e.transform.scale,
    ]
}

/// The whole packed buffer: the items' packed words, in order.
pub open spec fn packed_buffer(
    shapes: Seq<ExtractedShape>,
    items: Seq<PhaseItem>,
    f: nat,
    u: nat,
) -> Seq<u32>
    decreases items.len(),
{
    if items.len() == 0 {
        Seq::<u32>::empty()
    } else {
        packed_buffer(shapes, items.drop_last(), f, u) + packed_words(
            shapes[items.last().shape_index as int],
            f,
            u,
        )
    }
}

/// The shader key item `t` resolves to.
pub open spec fn item_key(shapes: Seq<ExtractedShape>, items: Seq<PhaseItem>, t: int) -> ShaderKey {
    shapes[items[t].shape_index as int].shader_key
}

/// The shader keys the items resolve to, in item order.
pub open spec fn item_keys(shapes: Seq<ExtractedShape>, items: Seq<PhaseItem>) -> Seq<ShaderKey> {
    Seq::new(items.len(), |t: int| item_key(shapes, items, t))
}

/// Whether each position extends a run: true exactly when the key equals
/// the previous position's key.
pub open spec fn adjacent_extends(ks: Seq<ShaderKey>) -> Seq<bool> {
    Seq::new(ks.len(), |t: int| t > 0 && key_matches(ks[t], ks[t - 1]))
}

/// The maximal runs described by an extension flag sequence, walking it
/// once: a flagged position extends the current run by one, any other
/// position opens a new run. Each range is a `(start, end)` pair, `end`
/// exclusive.
pub open spec fn runs_of(flags: Seq<bool>) -> Seq<(int, int)>
    decreases flags.len(),
{
    if flags.len() == 0 {
        Seq::<(int, int)>::empty()
    } else {
        let prev = runs_of(flags.drop_last());
        let t = flags.len() - 1;
        if prev.len() > 0 && flags.last() {
            prev.update(prev.len() - 1, (prev.last().0, t + 1))
        } else {
            prev.push((t, t + 1))
        }
    }
}

/// The maximal runs of adjacent equal keys in `ks`.
pub open spec fn key_runs(ks: Seq<ShaderKey>) -> Seq<(int, int)> {
    runs_of(adjacent_extends(ks))
}

/// The batch ranges owed for an item list: the runs of its key sequence.
pub open spec fn batch_ranges(shapes: Seq<ExtractedShape>, items: Seq<PhaseItem>) -> Seq<
    (int, int),
> {
    key_runs(item_keys(shapes, items))
}

/// The built batch list is exactly the owed ranges: one batch per range,
/// carrying the range's bounds, the shader key its leading item resolves
/// to, and that item's pipeline.
pub open spec fn batches_match_ranges(
    bs: Seq<ShapeBatch>,
    shapes: Seq<ExtractedShape>,
    items: Seq<PhaseItem>,
) -> bool {
    let rs = batch_ranges(shapes, items);
    &&& bs.len() == rs.len()
    &&& forall|k: int|
        0 <= k < bs.len() ==> (#[trigger] bs[k]).range_start == rs[k].0 && bs[k].range_end
            == rs[k].1 && key_matches(bs[k].shader_key, item_key(shapes, items, rs[k].0)) && bs[
            k
        ].pipeline == items[rs[k].0].pipeline
}

/// The runs exactly partition `[0, flags.len())`, in order and without
/// gaps or overlaps: batching drops and reorders nothing.
pub proof fn lemma_runs_partition(flags: Seq<bool>)
    ensures
        runs_of(flags).len() == 0 <==> flags.len() == 0,
        runs_of(flags).len() > 0 ==> runs_of(flags)[0].0 == 0 && runs_of(flags).last().1
            == flags.len(),
        forall|k: int|
            0 <= k < runs_of(flags).len() ==> 0 <= (#[trigger] runs_of(flags)[k]).0 && runs_of(
                flags,
            )[k].0 < runs_of(flags)[k].1 && runs_of(flags)[k].1 <= flags.len(),
        forall|k: int|
            0 < k < runs_of(flags).len() ==> (#[trigger] runs_of(flags)[k]).0 == runs_of(flags)[k
                - 1].1,
    decreases flags.len(),
{
    if flags.len() > 0 {
        lemma_runs_partition(flags.drop_last());
    }
}

/// Within a run every position past the first is flagged, and no run past
/// the first opens on a flagged position.
#[verifier::rlimit(100)]
#[verifier::spinoff_prover]
pub proof fn lemma_runs_flags(flags: Seq<bool>)
    ensures
        forall|k: int, t: int|
            #![trigger runs_of(flags)[k], flags[t]]
            0 <= k < runs_of(flags).len() && runs_of(flags)[k].0 < t < runs_of(flags)[k].1
                ==> flags[t],
        forall|k: int|
            0 < k < runs_of(flags).len() ==> !flags[(#[trigger] runs_of(flags)[k]).0],
    decreases flags.len(),
{
    if flags.len() > 0 {
        let flags0 = flags.drop_last();
        lemma_runs_flags(flags0);
        lemma_runs_partition(flags0);
        let rs = runs_of(flags);
        let prev = runs_of(flags0);
        let tl = flags.len() - 1;
        assert(forall|q: int| 0 <= q < tl ==> flags[q] == (#[trigger] flags0[q]));
        if prev.len() > 0 && flags.last() {
            let li = prev.len() - 1;
            assert(rs == prev.update(li, (prev[li].0, tl + 1)));
            assert forall|k: int, t: int|
                #![trigger rs[k], flags[t]]
                0 <= k < rs.len() && rs[k].0 < t < rs[k].1 implies flags[t] by {
                assert(rs[k].0 == prev[k].0);
                if t < tl {
                    if k < li {
                        assert(prev[k].0 < t < prev[k].1);
                    } else {
                        assert(prev[li].1 == tl);
                        assert(prev[li].0 < t < prev[li].1);
                    }
                    assert(flags0[t]);
                }
            }
            assert forall|k: int| 0 < k < rs.len() implies !flags[(#[trigger] rs[k]).0] by {
                assert(rs[k].0 == prev[k].0);
                assert(prev[k].0 < prev[k].1 <= tl);
                assert(!flags0[prev[k].0]);
            }
        } else {
            assert(rs == prev.push((tl, tl + 1)));
            assert forall|k: int, t: int|
                #![trigger rs[k], flags[t]]
                0 <= k < rs.len() && rs[k].0 < t < rs[k].1 implies flags[t] by {
                if k < prev.len() {
                    assert(rs[k] == prev[k]);
                    assert(prev[k].0 < t < prev[k].1 && prev[k].1 <= tl);
                    assert(flags0[t]);
                } else {
                    assert(rs[k] == (tl, tl + 1));
                }
            }
            assert forall|k: int| 0 < k < rs.len() implies !flags[(#[trigger] rs[k]).0] by {
                if k < prev.len() {
                    assert(rs[k] == prev[k]);
                    assert(prev[k].0 < prev[k].1 <= tl);
                    assert(!flags0[prev[k].0]);
                } else {
                    assert(rs[k] == (tl, tl + 1));
                    assert(prev.len() > 0);
                    assert(!flags.last());
                }
            }
        }
    }
}

/// A stretch of positions that each extend from their predecessor all
/// resolve to the leading key.
pub proof fn lemma_key_chain(ks: Seq<ShaderKey>, s: int, t: int)
    requires
        0 <= s <= t < ks.len(),
        forall|q: int| s < q <= t ==> key_matches(#[trigger] ks[q], ks[q - 1]),
    ensures
        key_matches(ks[t], ks[s]),
    decreases t - s,
{
    if t == s {
        lemma_key_matches_reflexive(ks[s]);
    } else {
        lemma_key_chain(ks, s, t - 1);
        // ks[t] ~ ks[t-1] and ks[t-1] ~ ks[s] chain.
        lemma_key_matches_equiv(ks[t - 1], ks[s], ks[t]);
        lemma_key_matches_symmetric(ks[t], ks[t - 1]);
        lemma_key_matches_symmetric(ks[s], ks[t]);
    }
}

/// Every key of a run equals the run's leading key: a batch is drawn with
/// one shader for all its instances.
#[verifier::rlimit(100)]
#[verifier::spinoff_prover]
pub proof fn lemma_key_runs_same_key(ks: Seq<ShaderKey>)
    ensures
        forall|k: int, t: int|
            #![trigger key_runs(ks)[k], ks[t]]
            0 <= k < key_runs(ks).len() && key_runs(ks)[k].0 <= t < key_runs(ks)[k].1
                ==> key_matches(ks[t], ks[key_runs(ks)[k].0]),
{
    let flags = adjacent_extends(ks);
    lemma_runs_partition(flags);
    lemma_runs_flags(flags);
    let rs = key_runs(ks);
    assert forall|k: int, t: int|
        #![trigger rs[k], ks[t]]
        0 <= k < rs.len() && rs[k].0 <= t < rs[k].1 implies key_matches(ks[t], ks[rs[k].0]) by {
        assert(rs.last().1 == ks.len());
        assert forall|q: int| rs[k].0 < q <= t implies key_matches(#[trigger] ks[q], ks[q - 1]) by {
            assert(flags[q]);
        }
        lemma_key_chain(ks, rs[k].0, t);
    }
}

/// Neighbouring runs lead with different keys: runs are maximal, so
/// adjacency alone decides merging.
#[verifier::rlimit(100)]
#[verifier::spinoff_prover]
pub proof fn lemma_key_runs_maximal(ks: Seq<ShaderKey>)
    ensures
        forall|k: int|
            0 < k < key_runs(ks).len() ==> !key_matches(
                ks[(#[trigger] key_runs(ks)[k]).0],
                ks[key_runs(ks)[k - 1].0],
            ),
{
    let flags = adjacent_extends(ks);
    lemma_runs_partition(flags);
    lemma_runs_flags(flags);
    lemma_key_runs_same_key(ks);
    let rs = key_runs(ks);
    assert forall|k: int| 0 < k < rs.len() implies !key_matches(
        ks[(#[trigger] rs[k]).0],
        ks[rs[k - 1].0],
    ) by {
        let sk = rs[k].0;
        let sp = rs[k - 1].0;
        assert(rs.last().1 == ks.len());
        assert(sk == rs[k - 1].1);
        // The position before this run's start closes the previous run.
        assert(key_matches(ks[sk - 1], ks[sp]));
        // Equal keys compare alike, so a match with the previous leader
        // would make this position an extension, which it is not.
        lemma_key_matches_equiv(ks[sk - 1], ks[sp], ks[sk]);
        lemma_key_matches_symmetric(ks[sk], ks[sk - 1]);
        lemma_key_matches_symmetric(ks[sk], ks[sp]);
        assert(!flags[sk]);
    }
}

/// Appends one snapshot's packed instance words to the buffer.
fn push_packed_vertex(vertices: &mut Vec<u32>, e: &ExtractedShape, f: u32, u: u32)
    requires
        f <= 32,
        u <= 32,
    ensures
        final(vertices)@ == old(vertices)@ + packed_words(*e, f as nat, u as nat),
{
    let ghost base = vertices@;
    vertices.push(e.color.red);
    vertices.push(e.color.green);
    vertices.push(e.color.blue);
    vertices.push(e.color.alpha);
    vertices.push(e.frame);
    let ghost head = seq![e.color.red, e.color.green, e.color.blue, e.color.alpha, e.frame];
    proof {
        assert(vertices@ =~= base + head);
    }
    let nf = e.float_params.len();
    let mut i: u32 = 0;
    while i < f
        invariant
            i <= f,
            nf == e.float_params@.len(),
            vertices@ == base + head + Seq::new(i as nat, |k: int| param_word(e.float_params@, k)),
        decreases f - i,
    {
        let w: u32 = if (i as usize) < nf {
            e.float_params[i as usize].bits()
        } else {
            0
        };
        vertices.push(w);
        proof {
            assert(vertices@ =~= base + head + Seq::new(
                (i + 1) as nat,
                |k: int| param_word(e.float_params@, k),
            ));
        }
        i = i + 1;
    }
    let ghost floats = Seq::new(f as nat, |k: int| param_word(e.float_params@, k));
    let nu = e.uint_params.len();
    let mut j: u32 = 0;
    while j < u
        invariant
            j <= u,
            i == f,
            nu == e.uint_params@.len(),
            vertices@ == base + head + floats + Seq::new(
                j as nat,
                |k: int| param_word(e.uint_params@, k),
            ),
        decreases u - j,
    {
        let w: u32 = if (j as usize) < nu {
            e.uint_params[j as usize].bits()
        } else {
            0
        };
        vertices.push(w);
        proof {
            assert(vertices@ =~= base + head + floats + Seq::new(
                (j + 1) as nat,
                |k: int| param_word(e.uint_params@, k),
            ));
        }
        j = j + 1;
    }
    vertices.push(e.transform.position_x);
    vertices.push(e.transform.position_y);
    vertices.push(e.transform.position_z);
    vertices.push(e.transform.rotation_cos);
    vertices.push(e.transform.rotation_sin);
    vertices.push(e.transform.scale);
    proof {
        assert(vertices@ =~= old(vertices)@ + packed_words(*e, f as nat, u as nat));
    }
}

/// Writes every item's packed vertex into the buffer, in order.
fn write_buffer(
    shape_meta: &mut ShapeMeta,
    extracted_shapes: &ExtractedShapes,
    items: &Vec<PhaseItem>,
    f: u32,
    u: u32,
)
    requires
        f <= 32,
        u <= 32,
        forall|t: int|
            0 <= t < items@.len() ==> (#[trigger] items@[t]).shape_index
                < extracted_shapes.shapes@.len(),
    ensures
        final(shape_meta).vertices@ == packed_buffer(
            extracted_shapes.shapes@,
            items@,
            f as nat,
            u as nat,
        ),
{
    shape_meta.vertices.clear();
    let n = items.len();
    let mut t: usize = 0;
    while t < n
        invariant
            n == items@.len(),
            t <= n,
            f <= 32,
            u <= 32,
            forall|q: int|
                0 <= q < items@.len() ==> (#[trigger] items@[q]).shape_index
                    < extracted_shapes.shapes@.len(),
            shape_meta.vertices@ == packed_buffer(
                extracted_shapes.shapes@,
                items@.take(t as int),
                f as nat,
                u as nat,
            ),
        decreases n - t,
    {
        let ghost prefix = items@.take(t as int);
        let ghost prefix1 = items@.take(t + 1 as int);
        proof {
            assert(prefix1.drop_last() =~= prefix);
            assert(prefix1.last() == items@[t as int]);
        }
        let item = items[t];
        let e = &extracted_shapes.shapes[item.shape_index];
        push_packed_vertex(&mut shape_meta.vertices, e, f, u);
        proof {
            assert(shape_meta.vertices@ =~= packed_buffer(
                extracted_shapes.shapes@,
                prefix1,
                f as nat,
                u as nat,
            ));
        }
        t = t + 1;
    }
    proof {
        assert(items@.take(n as int) =~= items@);
    }
}

/// Builds the frame's instance buffer and batches.
///
/// The previous buffer contents are discarded; each item's packed vertex is
/// written in order, and adjacent items with equal shader keys merge into
/// one batch, exactly as [`batch_ranges`] owes. An empty item list yields
/// an empty buffer and no batches, so the frame issues no draw calls.
#[verifier::rlimit(100)]
#[verifier::spinoff_prover]
pub fn prepare_shapes(
    shape_meta: &mut ShapeMeta,
    extracted_shapes: &ExtractedShapes,
    items: &Vec<PhaseItem>,
    f: u32,
    u: u32,
) -> (batches: Vec<ShapeBatch>)
    requires
        f <= 32,
        u <= 32,
        items@.len() <= 0xffff_ffff,
        forall|t: int|
            0 <= t < items@.len() ==> (#[trigger] items@[t]).shape_index
                < extracted_shapes.shapes@.len(),
    ensures
        final(shape_meta).vertices@ == packed_buffer(
            extracted_shapes.shapes@,
            items@,
            f as nat,
            u as nat,
        ),
        batches_match_ranges(batches@, extracted_shapes.shapes@, items@),
        items@.len() == 0 ==> batches@.len() == 0 && final(shape_meta).vertices@ == Seq::<
            u32,
        >::empty(),
{
    write_buffer(shape_meta, extracted_shapes, items, f, u);
    let ghost shapes = extracted_shapes.shapes@;
    let mut batches: Vec<ShapeBatch> = Vec::new();
    let n = items.len();
    let mut t: usize = 0;
    while t < n
        invariant
            n == items@.len(),
            n <= 0xffff_ffff,
            t <= n,
            shapes == extracted_shapes.shapes@,
            forall|q: int|
                0 <= q < items@.len() ==> (#[trigger] items@[q]).shape_index
                    < extracted_shapes.shapes@.len(),
            batches_match_ranges(batches@, shapes, items@.take(t as int)),
        decreases n - t,
    {
        let ghost prefix = items@.take(t as int);
        let ghost prefix1 = items@.take(t + 1 as int);
        let ghost ks = item_keys(shapes, prefix);
        let ghost ks1 = item_keys(shapes, prefix1);
        let ghost prev = key_runs(ks);
        let ghost tt = t as int;
        let item = items[t];
        let e = &extracted_shapes.shapes[item.shape_index];
        let ghost flags = adjacent_extends(ks);
        let ghost flags1 = adjacent_extends(ks1);
        proof {
            assert(prefix1.drop_last() =~= prefix);
            assert(forall|q: int| 0 <= q < t ==> prefix1[q] == (#[trigger] prefix[q]));
            assert(ks1.drop_last() =~= ks);
            assert(ks1[tt] == e.shader_key);
            assert(forall|q: int| 0 <= q < t ==> ks1[q] == (#[trigger] ks[q]));
            assert(flags1.drop_last() =~= flags);
            lemma_runs_partition(flags);
            lemma_key_runs_same_key(ks);
        }
        let extend = if batches.len() == 0 {
            false
        } else {
            let last = batches.len() - 1;
            batches[last].shader_key.eq(&e.shader_key)
        };
        proof {
            if batches@.len() > 0 {
                let li = batches@.len() - 1;
                let s = prev[li].0;
                assert(batches@[li].range_start == s && key_matches(
                    batches@[li].shader_key,
                    item_key(shapes, prefix, s),
                ));
                assert(ks1[s] == item_key(shapes, prefix, s));
                assert(tt > 0 && prev.last().1 == tt && s <= tt - 1 < tt);
                // The exec comparison against the stored batch key decides
                // exactly whether the new item extends the current run.
                assert(key_matches(ks[tt - 1], ks[s]));
                lemma_key_matches_equiv(batches@[li].shader_key, ks1[s], ks1[tt]);
                lemma_key_matches_symmetric(ks1[s], ks1[tt]);
                lemma_key_matches_equiv(ks1[tt - 1], ks1[s], ks1[tt]);
                assert(extend == key_matches(ks1[tt], ks1[tt - 1]));
                assert(extend == flags1.last());
            } else {
                assert(prev.len() == 0);
            }
            assert(key_runs(ks1) == if prev.len() > 0 && flags1.last() {
                prev.update(prev.len() - 1, (prev.last().0, tt + 1))
            } else {
                prev.push((tt, tt + 1))
            });
        }
        if extend {
            let last = batches.len() - 1;
            let ghost bs0 = batches@;
            let end0 = batches[last].range_end;
            batches[last].range_end = end0 + 1;
            proof {
                let li = bs0.len() - 1;
                let rs1 = key_runs(ks1);
                assert(rs1 == prev.update(li, (prev[li].0, tt + 1)));
                assert forall|k: int|
                    0 <= k < batches@.len() implies (#[trigger] batches@[k]).range_start
                        == rs1[k].0 && batches@[k].range_end == rs1[k].1 && key_matches(
                    batches@[k].shader_key,
                    item_key(shapes, prefix1, rs1[k].0),
                ) && batches@[k].pipeline == prefix1[rs1[k].0].pipeline by {
                    assert(rs1[k].0 == prev[k].0);
                    assert(prev[k].0 < prefix.len());
                    assert(key_matches(bs0[k].shader_key, item_key(shapes, prefix, prev[k].0)));
                    assert(item_key(shapes, prefix, prev[k].0) == item_key(
                        shapes,
                        prefix1,
                        prev[k].0,
                    ));
                }
            }
        } else {
            let new_batch = ShapeBatch {
                shader_key: e.shader_key.duplicate(),
                pipeline: item.pipeline,
                range_start: t as u32,
                range_end: (t + 1) as u32,
            };
            let ghost bs0 = batches@;
            batches.push(new_batch);
            proof {
                let rs1 = key_runs(ks1);
                assert(rs1 == prev.push((tt, tt + 1)));
                assert forall|k: int|
                    0 <= k < batches@.len() implies (#[trigger] batches@[k]).range_start
                        == rs1[k].0 && batches@[k].range_end == rs1[k].1 && key_matches(
                    batches@[k].shader_key,
                    item_key(shapes, prefix1, rs1[k].0),
                ) && batches@[k].pipeline == prefix1[rs1[k].0].pipeline by {
                    if k < bs0.len() {
                        assert(batches@[k] == bs0[k]);
                        assert(rs1[k] == prev[k]);
                        assert(prev[k].0 < prefix.len());
                        assert(key_matches(bs0[k].shader_key, item_key(shapes, prefix, prev[k].0)));
                        assert(item_key(shapes, prefix, prev[k].0) == item_key(
                            shapes,
                            prefix1,
                            prev[k].0,
                        ));
                    } else {
                        assert(rs1[k] == (tt, tt + 1));
                        assert(item_key(shapes, prefix1, tt) == e.shader_key);
                    }
                }
            }
        }
        t = t + 1;
    }
    proof {
        assert(items@.take(n as int) =~= items@);
    }
    batches
}

} // verus!
