//! Per-frame orchestration: the phases of one frame, in order.
//!
//! Each frame runs extraction, composition polling, specialization polling
//! and batch building strictly in sequence. Queueing resolves every
//! extracted shape to a pipeline, skipping — for this frame only — each
//! shape whose shader is still pending or permanently failed; batch
//! building then packs the remaining items into the instance buffer and the
//! frame's draw batches.

use vstd::prelude::*;

use crate::batch::batches_match_ranges;
use crate::batch::packed_buffer;
use crate::batch::prepare_shapes;
use crate::batch::PhaseItem;
use crate::batch::ShapeBatch;
use crate::batch::ShapeMeta;
use crate::composer::cache_has_key;
use crate::composer::lemma_cache_has_key_congruent;
use crate::composer::ShaderComposer;
use crate::extract::extract_shapes;
use crate::extract::lemma_visible_items_len;
use crate::extract::extracted_matches;
use crate::extract::visible_items;
use crate::extract::ExtractedShape;
use crate::extract::ExtractedShapes;
use crate::extract::ShapeItem;
use crate::pipeline::lemma_pipeline_id_congruent;
use crate::pipeline::lemma_pipeline_id_stable;
use crate::pipeline::lemma_pipeline_key_equiv;
use crate::pipeline::lemma_pipeline_key_symmetric;
use crate::pipeline::lemma_specializer_has_key_congruent;
use crate::pipeline::pipeline_key_matches;
use crate::pipeline::spec_pipeline_id;
use crate::pipeline::specializer_has_key;
use crate::pipeline::specializer_wf;
use crate::pipeline::PipelineKey;
use crate::pipeline::PipelineSpecializer;
use crate::pipeline::SmudPipelineKey;
use crate::pipeline::INVALID_PIPELINE_ID;
use crate::registry::ShaderFragmentRegistry;

verus! {

/// The specialization key a snapshot resolves to under the frame's view
/// facts.
pub open spec fn shape_pipeline_key(e: ExtractedShape, mesh: PipelineKey, hdr: bool) -> SmudPipelineKey {
    SmudPipelineKey { mesh, shader: e.shader_key, hdr }
}

/// Whether some queued item draws shape `s`.
pub open spec fn queued(items: Seq<PhaseItem>, s: int) -> bool {
    exists|j: int| 0 <= j < items.len() && (#[trigger] items[j]).shape_index == s
}

/// Resolves every extracted shape, in order, to a compiled pipeline and
/// collects the drawable items of the frame.
///
/// A shape whose specialization yields the sentinel — its shader still
/// pending, or permanently failed — is skipped entirely this frame: it is
/// neither drawn nor does it start or extend a batch, and it is retried
/// automatically next frame. Afterwards a shape is queued exactly when the
/// specializer holds a usable pipeline for it.
#[verifier::rlimit(100)]
#[verifier::spinoff_prover]
pub fn queue_shapes(
    specializer: &mut PipelineSpecializer,
    composer: &ShaderComposer,
    extracted_shapes: &ExtractedShapes,
    mesh: PipelineKey,
    hdr: bool,
) -> (items: Vec<PhaseItem>)
    requires
        specializer_wf(old(specializer)@),
    ensures
        specializer_wf(final(specializer)@),
        final(specializer)@.len() >= old(specializer)@.len(),
        forall|i: int|
            0 <= i < old(specializer)@.len() ==> final(specializer)@[i] == old(specializer)@[i],
        items@.len() <= extracted_shapes.shapes@.len(),
        forall|j: int|
            0 <= j < items@.len() ==> (#[trigger] items@[j]).shape_index
                < extracted_shapes.shapes@.len(),
        forall|j1: int, j2: int|
            0 <= j1 < j2 < items@.len() ==> (#[trigger] items@[j1]).shape_index < (
            #[trigger] items@[j2]).shape_index,
        forall|j: int|
            0 <= j < items@.len() ==> (#[trigger] items@[j]).pipeline != INVALID_PIPELINE_ID && items@[j].pipeline
                == spec_pipeline_id(
                final(specializer)@,
                shape_pipeline_key(
                    extracted_shapes.shapes@[items@[j].shape_index as int],
                    mesh,
                    hdr,
                ),
            ),
        forall|s: int|
            0 <= s < extracted_shapes.shapes@.len() && !queued(items@, s) ==> spec_pipeline_id(
                final(specializer)@,
                shape_pipeline_key(extracted_shapes.shapes@[s], mesh, hdr),
            ) == INVALID_PIPELINE_ID,
{
    let mut items: Vec<PhaseItem> = Vec::new();
    let n = extracted_shapes.shapes.len();
    let mut s: usize = 0;
    while s < n
        invariant
            n == extracted_shapes.shapes@.len(),
            s <= n,
            specializer_wf(specializer@),
            items@.len() <= s,
            specializer@.len() >= old(specializer)@.len(),
            forall|i: int|
                0 <= i < old(specializer)@.len() ==> specializer@[i] == old(specializer)@[i],
            forall|j: int| 0 <= j < items@.len() ==> (#[trigger] items@[j]).shape_index < s,
            forall|j1: int, j2: int|
                0 <= j1 < j2 < items@.len() ==> (#[trigger] items@[j1]).shape_index < (
                #[trigger] items@[j2]).shape_index,
            forall|j: int|
                0 <= j < items@.len() ==> (#[trigger] items@[j]).pipeline != INVALID_PIPELINE_ID
                    && items@[j].pipeline == spec_pipeline_id(
                    specializer@,
                    shape_pipeline_key(
                        extracted_shapes.shapes@[items@[j].shape_index as int],
                        mesh,
                        hdr,
                    ),
                ),
            forall|q: int|
                0 <= q < s && !queued(items@, q) ==> spec_pipeline_id(
                    specializer@,
                    shape_pipeline_key(extracted_shapes.shapes@[q], mesh, hdr),
                ) == INVALID_PIPELINE_ID && (!specializer_has_key(
                    specializer@,
                    shape_pipeline_key(extracted_shapes.shapes@[q], mesh, hdr),
                ) ==> !cache_has_key(composer@, extracted_shapes.shapes@[q].shader_key)
                    || specializer@.len() >= INVALID_PIPELINE_ID),
        decreases n - s,
    {
        let e = &extracted_shapes.shapes[s];
        let key = SmudPipelineKey { mesh, shader: e.shader_key.duplicate(), hdr };
        let ghost skey = shape_pipeline_key(extracted_shapes.shapes@[s as int], mesh, hdr);
        proof {
            assert(pipeline_key_matches(key, skey));
        }
        let ghost before = specializer@;
        let ghost items_before = items@;
        let pipeline = specializer.specialize(composer, &key);
        if pipeline != INVALID_PIPELINE_ID {
            items.push(PhaseItem { shape_index: s, pipeline });
        }
        proof {
            lemma_pipeline_id_congruent(specializer@, key, skey);
            // Items queued earlier keep their identity: the cache only grew.
            assert forall|j: int|
                0 <= j < items@.len() implies (#[trigger] items@[j]).pipeline
                    != INVALID_PIPELINE_ID && items@[j].pipeline == spec_pipeline_id(
                specializer@,
                shape_pipeline_key(
                    extracted_shapes.shapes@[items@[j].shape_index as int],
                    mesh,
                    hdr,
                ),
            ) by {
                if j < items_before.len() {
                    let jkey = shape_pipeline_key(
                        extracted_shapes.shapes@[items@[j].shape_index as int],
                        mesh,
                        hdr,
                    );
                    assert(items@[j] == items_before[j]);
                    assert(spec_pipeline_id(before, jkey) != INVALID_PIPELINE_ID);
                    lemma_pipeline_id_stable(before, specializer@, jkey);
                }
            }
            // Shapes skipped earlier stay without a usable pipeline: the new
            // entry, if any, is for a composed shader that cannot match a
            // pending one, and a failed entry is never revived.
            assert forall|q: int|
                0 <= q < s + 1 && !queued(items@, q) implies spec_pipeline_id(
                specializer@,
                shape_pipeline_key(extracted_shapes.shapes@[q], mesh, hdr),
            ) == INVALID_PIPELINE_ID && (!specializer_has_key(
                specializer@,
                shape_pipeline_key(extracted_shapes.shapes@[q], mesh, hdr),
            ) ==> !cache_has_key(composer@, extracted_shapes.shapes@[q].shader_key)
                || specializer@.len() >= INVALID_PIPELINE_ID) by {
                let qkey = shape_pipeline_key(extracted_shapes.shapes@[q], mesh, hdr);
                assert(forall|j: int|
                    0 <= j < items_before.len() ==> items@[j] == (#[trigger] items_before[j]));
                if q < s {
                    assert(!queued(items_before, q));
                    if specializer_has_key(before, qkey) {
                        lemma_pipeline_id_stable(before, specializer@, qkey);
                    } else {
                        if specializer@.len() > before.len() {
                            // One entry was appended, for `key`, whose
                            // shader is composed.
                            assert(cache_has_key(composer@, key.shader));
                            if specializer_has_key(specializer@, qkey) {
                                let w = choose|w: int|
                                    0 <= w < specializer@.len() && pipeline_key_matches(
                                        (#[trigger] specializer@[w]).key,
                                        qkey,
                                    );
                                assert(w == before.len() as int);
                                assert(pipeline_key_matches(specializer@[w].key, key));
                                lemma_pipeline_key_symmetric(specializer@[w].key, key);
                                lemma_pipeline_key_equiv(key, specializer@[w].key, qkey);
                                assert(pipeline_key_matches(key, qkey));
                                lemma_cache_has_key_congruent(
                                    composer@,
                                    key.shader,
                                    qkey.shader,
                                );
                                assert(false);
                            }
                        }
                    }
                } else {
                    assert(q == s);
                    if pipeline != INVALID_PIPELINE_ID {
                        assert(items@[items_before.len() as int].shape_index == s);
                        assert(queued(items@, q));
                    }
                    assert(pipeline == spec_pipeline_id(specializer@, qkey));
                    if !specializer_has_key(specializer@, qkey) {
                        lemma_specializer_has_key_congruent(specializer@, key, qkey);
                        assert(!specializer_has_key(specializer@, key));
                        if specializer_has_key(before, key) {
                            lemma_pipeline_id_stable(before, specializer@, key);
                        }
                        assert(!specializer_has_key(before, key));
                        if specializer@.len() < INVALID_PIPELINE_ID {
                            // Had the shader been composed, a pipeline
                            // would have been allocated and cached.
                            assert(before.len() < INVALID_PIPELINE_ID);
                            assert(!cache_has_key(composer@, key.shader));
                            lemma_cache_has_key_congruent(composer@, key.shader, qkey.shader);
                        }
                    }
                }
            }
        }
        s = s + 1;
    }
    items
}

/// What one frame hands back to the caller: the drawable items in order
/// and the batches to submit, one instanced draw call each.
#[derive(Debug)]
pub struct FrameOutput {
    /// The queued items, in draw order.
    pub phase_items: Vec<PhaseItem>,
    /// The frame's draw batches.
    pub batches: Vec<ShapeBatch>,
}

/// Runs one frame over the authored shapes, in the fixed phase order:
/// extraction, composition polling, specialization polling, batch build.
///
/// Extraction snapshots the visible shapes; composition generates and
/// caches a program for every snapshot whose fragments are available;
/// specialization allocates a pipeline for every snapshot whose program
/// exists; batch building packs the drawable snapshots into the instance
/// buffer and merges adjacent same-shader runs into batches. Shapes whose
/// shader is not ready are skipped for this frame only.
#[verifier::rlimit(100)]
#[verifier::spinoff_prover]
pub fn render_frame(
    registry: &ShaderFragmentRegistry,
    composer: &mut ShaderComposer,
    specializer: &mut PipelineSpecializer,
    shape_meta: &mut ShapeMeta,
    extracted_shapes: &mut ExtractedShapes,
    shapes: &Vec<ShapeItem>,
    mesh: PipelineKey,
    hdr: bool,
) -> (out: FrameOutput)
    requires
        old(composer).wf(),
        specializer_wf(old(specializer)@),
        shapes@.len() <= 0xffff_ffff,
    ensures
        final(composer).wf(),
        final(composer).spec_f() == old(composer).spec_f(),
        final(composer).spec_u() == old(composer).spec_u(),
        final(composer)@.len() >= old(composer)@.len(),
        forall|i: int| 0 <= i < old(composer)@.len() ==> final(composer)@[i] == old(composer)@[i],
        specializer_wf(final(specializer)@),
        forall|i: int|
            0 <= i < old(specializer)@.len() ==> final(specializer)@[i] == old(specializer)@[i],
        final(extracted_shapes).shapes@.len() == visible_items(shapes@).len(),
        forall|j: int|
            0 <= j < final(extracted_shapes).shapes@.len() ==> extracted_matches(
                final(extracted_shapes).shapes@[j],
                visible_items(shapes@)[j],
            ),
        forall|j: int|
            0 <= j < out.phase_items@.len() ==> (#[trigger] out.phase_items@[j]).shape_index
                < final(extracted_shapes).shapes@.len() && out.phase_items@[j].pipeline
                != INVALID_PIPELINE_ID,
        forall|s: int|
            0 <= s < final(extracted_shapes).shapes@.len() && !queued(out.phase_items@, s)
                ==> spec_pipeline_id(
                final(specializer)@,
                shape_pipeline_key(final(extracted_shapes).shapes@[s], mesh, hdr),
            ) == INVALID_PIPELINE_ID,
        final(shape_meta).vertices@ == packed_buffer(
            final(extracted_shapes).shapes@,
            out.phase_items@,
            final(composer).spec_f(),
            final(composer).spec_u(),
        ),
        batches_match_ranges(out.batches@, final(extracted_shapes).shapes@, out.phase_items@),
        visible_items(shapes@).len() == 0 ==> out.batches@.len() == 0
            && final(shape_meta).vertices@ == Seq::<u32>::empty(),
{
    // Phase 1: snapshot the visible shapes.
    extract_shapes(extracted_shapes, shapes);
    // Phase 2: poll composition for every snapshot's key.
    let mut keys: Vec<crate::composer::ShaderKey> = Vec::new();
    let n = extracted_shapes.shapes.len();
    let mut i: usize = 0;
    while i < n
        invariant
            n == extracted_shapes.shapes@.len(),
            i <= n,
            keys@.len() == i,
        decreases n - i,
    {
        keys.push(extracted_shapes.shapes[i].shader_key.duplicate());
        i = i + 1;
    }
    composer.compose_pass(registry, &keys);
    // Phase 3: poll specialization for every snapshot, collecting the
    // frame's drawable items.
    let items = queue_shapes(specializer, composer, extracted_shapes, mesh, hdr);
    // Phase 4: pack the instance buffer and emit the batches.
    let f = composer.config_f();
    let u = composer.config_u();
    proof {
        crate::extract::lemma_visible_items_len(shapes@);
        assert(extracted_shapes.shapes@.len() <= 0xffff_ffff);
    }
    let batches = prepare_shapes(shape_meta, extracted_shapes, &items, f, u);
    FrameOutput { phase_items: items, batches }
}

} // verus!
