use smud::batch::prepare_shapes;
use smud::batch::PhaseItem;
use smud::batch::ShapeMeta;
use smud::components::ShapeColor;
use smud::components::ShapeTransform;
use smud::components::SmudParam;
use smud::composer::ShaderKey;
use smud::extract::ExtractedShape;
use smud::extract::ExtractedShapes;
use smud::registry::FragmentHandle;
use smud::schema::ParameterSchema;

fn key(sdf: u64, fill: u64) -> ShaderKey {
    ShaderKey {
        sdf_shader: FragmentHandle { id: sdf },
        fill_shader: FragmentHandle { id: fill },
        sdf_schema: ParameterSchema::empty(),
        fill_schema: ParameterSchema::empty(),
    }
}

fn shape_with_key(k: ShaderKey) -> ExtractedShape {
    ExtractedShape {
        color: ShapeColor { red: 1, green: 2, blue: 3, alpha: 4 },
        frame: 5,
        float_params: Vec::new(),
        uint_params: Vec::new(),
        transform: ShapeTransform {
            position_x: 6,
            position_y: 7,
            position_z: 8,
            rotation_cos: 9,
            rotation_sin: 10,
            scale: 11,
        },
        shader_key: k,
    }
}

#[test]
fn adjacency_decides_batch_merging() {
    // Keys [A, A, B, B, B, A] must give three batches: (A, [0, 2)),
    // (B, [2, 5)), (A, [5, 6)). Adjacency, not global key equality,
    // decides merging.
    let a = || key(0, 1);
    let b = || key(2, 3);
    let shapes = vec![
        shape_with_key(a()),
        shape_with_key(a()),
        shape_with_key(b()),
        shape_with_key(b()),
        shape_with_key(b()),
        shape_with_key(a()),
    ];
    let extracted = ExtractedShapes { shapes };
    let items: Vec<PhaseItem> =
        (0..6).map(|s| PhaseItem { shape_index: s, pipeline: 7 }).collect();
    let mut meta = ShapeMeta::new();
    let batches = prepare_shapes(&mut meta, &extracted, &items, 0, 0);
    assert_eq!(batches.len(), 3);
    assert_eq!((batches[0].range_start, batches[0].range_end), (0, 2));
    assert!(batches[0].shader_key == a());
    assert_eq!((batches[1].range_start, batches[1].range_end), (2, 5));
    assert!(batches[1].shader_key == b());
    assert_eq!((batches[2].range_start, batches[2].range_end), (5, 6));
    assert!(batches[2].shader_key == a());
    // Six instances of eleven words each were packed.
    assert_eq!(meta.vertices.len(), 6 * 11);
}

#[test]
fn empty_frame_yields_no_batches_and_no_draws() {
    let extracted = ExtractedShapes { shapes: Vec::new() };
    let items: Vec<PhaseItem> = Vec::new();
    let mut meta = ShapeMeta::new();
    meta.vertices.push(99);
    let batches = prepare_shapes(&mut meta, &extracted, &items, 2, 1);
    assert_eq!(batches.len(), 0);
    assert_eq!(meta.vertices.len(), 0);
}

#[test]
fn packed_vertex_layout_is_word_exact() {
    let mut e = shape_with_key(key(0, 1));
    e.float_params = vec![SmudParam::from_bits(100), SmudParam::from_bits(101)];
    e.uint_params = vec![SmudParam::integer(200)];
    let extracted = ExtractedShapes { shapes: vec![e] };
    let items = vec![PhaseItem { shape_index: 0, pipeline: 0 }];
    let mut meta = ShapeMeta::new();
    let batches = prepare_shapes(&mut meta, &extracted, &items, 2, 1);
    assert_eq!(batches.len(), 1);
    assert_eq!(
        meta.vertices,
        vec![1, 2, 3, 4, 5, 100, 101, 200, 6, 7, 8, 9, 10, 11]
    );
}

#[test]
fn short_parameter_lists_pad_with_zero_words() {
    let mut e = shape_with_key(key(0, 1));
    e.float_params = vec![SmudParam::from_bits(100)];
    let extracted = ExtractedShapes { shapes: vec![e] };
    let items = vec![PhaseItem { shape_index: 0, pipeline: 0 }];
    let mut meta = ShapeMeta::new();
    prepare_shapes(&mut meta, &extracted, &items, 3, 1);
    assert_eq!(
        meta.vertices,
        vec![1, 2, 3, 4, 5, 100, 0, 0, 0, 6, 7, 8, 9, 10, 11]
    );
}

#[test]
fn batches_carry_the_leading_item_pipeline() {
    let shapes = vec![shape_with_key(key(0, 1)), shape_with_key(key(2, 3))];
    let extracted = ExtractedShapes { shapes };
    let items = vec![
        PhaseItem { shape_index: 0, pipeline: 40 },
        PhaseItem { shape_index: 1, pipeline: 41 },
    ];
    let mut meta = ShapeMeta::new();
    let batches = prepare_shapes(&mut meta, &extracted, &items, 0, 0);
    assert_eq!(batches.len(), 2);
    assert_eq!(batches[0].pipeline, 40);
    assert_eq!(batches[1].pipeline, 41);
}
