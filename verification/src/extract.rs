//! Per-frame snapshot of visible shapes.
//!
//! Each frame the extractor walks every authored shape in draw order, skips
//! those not visible, and snapshots each visible one into an immutable
//! [`ExtractedShape`] carrying its packed appearance data and the
//! [`ShaderKey`] it resolves to. The whole collection is cleared and rebuilt
//! every frame — never patched incrementally — so simply not producing an
//! item this frame removes it from consideration.

use vstd::prelude::*;

use crate::components::frame_bits;
use crate::components::ShapeColor;
use crate::components::ShapeTransform;
use crate::components::SmudParam;
use crate::components::SmudShaders;
use crate::components::SmudShape;
use crate::composer::ShaderKey;

verus! {

/// One authored shape as handed to extraction: its visibility this frame,
/// its appearance, its shaders, and its decomposed transform.
#[derive(Debug)]
pub struct ShapeItem {
    /// Whether the shape is visible in the current frame.
    pub visible: bool,
    /// The shape's appearance data.
    pub shape: SmudShape,
    /// The shape's fragments and schemas.
    pub shaders: SmudShaders,
    /// The shape's placement.
    pub transform: ShapeTransform,
}

/// A per-frame snapshot of one visible shape.
#[derive(Debug)]
pub struct ExtractedShape {
    /// The color handed to the fill function.
    pub color: ShapeColor,
    /// The frame half-extent word.
    pub frame: u32,
    /// Float parameter words in slot order.
    pub float_params: Vec<SmudParam>,
    /// Uint parameter words in slot order.
    pub uint_params: Vec<SmudParam>,
    /// The shape's placement.
    pub transform: ShapeTransform,
    /// The shader combination the shape resolves to.
    pub shader_key: ShaderKey,
}

/// The snapshot is a faithful copy of the item: same appearance words, same
/// placement, and a key made of the item's handles and schemas.
pub open spec fn extracted_matches(e: ExtractedShape, item: ShapeItem) -> bool {
    &&& e.color == item.shape.color
    &&& e.frame == frame_bits(item.shape.frame)
    &&& e.float_params@ == item.shape.float_params@
    &&& e.uint_params@ == item.shape.uint_params@
    &&& e.transform == item.transform
    &&& e.shader_key.sdf_shader == item.shaders.sdf
    &&& e.shader_key.fill_shader == item.shaders.fill
    &&& e.shader_key.sdf_schema@ == item.shaders.sdf_schema@
    &&& e.shader_key.fill_schema@ == item.shaders.fill_schema@
}

/// The visible items of `items`, in order.
pub open spec fn visible_items(items: Seq<ShapeItem>) -> Seq<ShapeItem>
    decreases items.len(),
{
    if items.len() == 0 {
        Seq::<ShapeItem>::empty()
    } else if items.last().visible {
        visible_items(items.drop_last()) + seq![items.last()]
    } else {
        visible_items(items.drop_last())
    }
}

/// There are never more visible items than items.
pub proof fn lemma_visible_items_len(items: Seq<ShapeItem>)
    ensures
        visible_items(items).len() <= items.len(),
    decreases items.len(),
{
    if items.len() > 0 {
        lemma_visible_items_len(items.drop_last());
    }
}

/// The frame's extracted snapshot collection: cleared and rebuilt each
/// frame by [`extract_shapes`].
#[derive(Debug)]
pub struct ExtractedShapes {
    /// The snapshots of this frame's visible shapes, in input order.
    pub shapes: Vec<ExtractedShape>,
}

impl ExtractedShapes {
    /// An empty snapshot collection.
    pub fn new() -> (r: Self)
        ensures
            r.shapes@ == Seq::<ExtractedShape>::empty(),
    {
        ExtractedShapes { shapes: Vec::new() }
    }
}

/// Copies a parameter list.
fn dup_params(params: &Vec<SmudParam>) -> (r: Vec<SmudParam>)
    ensures
        r@ == params@,
{
    let mut out: Vec<SmudParam> = Vec::new();
    let n = params.len();
    let mut i: usize = 0;
    while i < n
        invariant
            n == params@.len(),
            i <= n,
            out@ == params@.take(i as int),
        decreases n - i,
    {
        out.push(params[i]);
        proof {
            assert(out@ =~= params@.take(i + 1 as int));
        }
        i = i + 1;
    }
    proof {
        assert(out@ =~= params@);
    }
    out
}

/// Rebuilds the frame's snapshot: clears the previous collection and
/// snapshots every visible item of `items`, in order.
pub fn extract_shapes(extracted_shapes: &mut ExtractedShapes, items: &Vec<ShapeItem>)
    ensures
        final(extracted_shapes).shapes@.len() == visible_items(items@).len(),
        forall|j: int|
            0 <= j < final(extracted_shapes).shapes@.len() ==> extracted_matches(
                final(extracted_shapes).shapes@[j],
                visible_items(items@)[j],
            ),
{
    extracted_shapes.shapes.clear();
    let n = items.len();
    let mut i: usize = 0;
    while i < n
        invariant
            n == items@.len(),
            i <= n,
            extracted_shapes.shapes@.len() == visible_items(items@.take(i as int)).len(),
            forall|j: int|
                0 <= j < extracted_shapes.shapes@.len() ==> extracted_matches(
                    (#[trigger] extracted_shapes.shapes@[j]),
                    visible_items(items@.take(i as int))[j],
                ),
        decreases n - i,
    {
        let ghost prev = visible_items(items@.take(i as int));
        proof {
            assert(items@.take(i + 1 as int).drop_last() =~= items@.take(i as int));
            assert(items@.take(i + 1 as int).last() == items@[i as int]);
        }
        let item = &items[i];
        if item.visible {
            let snapshot = ExtractedShape {
                color: item.shape.color,
                frame: item.shape.frame.bits(),
                float_params: dup_params(&item.shape.float_params),
                uint_params: dup_params(&item.shape.uint_params),
                transform: item.transform,
                shader_key: item.shaders.shader_key(),
            };
            extracted_shapes.shapes.push(snapshot);
            proof {
                assert(visible_items(items@.take(i + 1 as int)) =~= prev + seq![items@[i as int]]);
            }
        } else {
            proof {
                assert(visible_items(items@.take(i + 1 as int)) =~= prev);
            }
        }
        i = i + 1;
    }
    proof {
        assert(items@.take(n as int) =~= items@);
    }
}

} // verus!
