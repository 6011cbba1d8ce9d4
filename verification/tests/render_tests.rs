use smud::batch::ShapeMeta;
use smud::components::Frame;
use smud::components::ShapeColor;
use smud::components::ShapeTransform;
use smud::components::SmudShaders;
use smud::components::SmudShape;
use smud::composer::ShaderComposer;
use smud::extract::extract_shapes;
use smud::extract::ExtractedShapes;
use smud::extract::ShapeItem;
use smud::pipeline::PipelineKey;
use smud::pipeline::PipelineSpecializer;
use smud::pipeline::PrimitiveTopology;
use smud::pipeline::SmudPipelineKey;
use smud::registry::FragmentHandle;
use smud::registry::ShaderFragmentRegistry;
use smud::render::render_frame;
use smud::schema::ParameterSchema;

fn transform() -> ShapeTransform {
    ShapeTransform {
        position_x: 0,
        position_y: 0,
        position_z: 0,
        rotation_cos: f32::to_bits(1.0),
        rotation_sin: 0,
        scale: f32::to_bits(1.0),
    }
}

fn shape_item(visible: bool, sdf: FragmentHandle, fill: FragmentHandle) -> ShapeItem {
    ShapeItem {
        visible,
        shape: SmudShape::default(),
        shaders: SmudShaders {
            sdf,
            fill,
            sdf_schema: ParameterSchema::empty(),
            fill_schema: ParameterSchema::empty(),
        },
        transform: transform(),
    }
}

fn mesh_key() -> PipelineKey {
    PipelineKey::from_msaa_samples(4)
        .union(PipelineKey::from_primitive_topology(PrimitiveTopology::TriangleStrip))
}

#[test]
fn extraction_skips_invisible_shapes() {
    let mut registry = ShaderFragmentRegistry::new();
    let schema = ParameterSchema::empty();
    let sdf = registry.add_sdf_body("return -1.;", &schema);
    let fill = registry.add_fill_body("return color;", &schema);
    let shapes = vec![
        shape_item(true, sdf, fill),
        shape_item(false, sdf, fill),
        shape_item(true, sdf, fill),
    ];
    let mut extracted = ExtractedShapes::new();
    extract_shapes(&mut extracted, &shapes);
    assert_eq!(extracted.shapes.len(), 2);
    // The collection is fully rebuilt, never patched.
    extract_shapes(&mut extracted, &Vec::new());
    assert_eq!(extracted.shapes.len(), 0);
}

#[test]
fn a_frame_without_visible_shapes_draws_nothing() {
    let registry = ShaderFragmentRegistry::new();
    let mut composer = ShaderComposer::new(0, 0);
    let mut specializer = PipelineSpecializer::new();
    let mut meta = ShapeMeta::new();
    let mut extracted = ExtractedShapes::new();
    let out = render_frame(
        &registry,
        &mut composer,
        &mut specializer,
        &mut meta,
        &mut extracted,
        &Vec::new(),
        mesh_key(),
        false,
    );
    assert_eq!(out.batches.len(), 0);
    assert_eq!(out.phase_items.len(), 0);
    assert_eq!(meta.vertices.len(), 0);
}

#[test]
fn a_pending_fragment_is_drawn_on_the_first_frame_it_is_ready() {
    // Frame 1: the sdf source is still loading, so the shape produces no
    // batch; frame 2: both fragments are available, the program is
    // generated once and the shape is drawn in exactly one batch; frame 3
    // re-uses the cached program and pipeline.
    let mut registry = ShaderFragmentRegistry::new();
    let schema = ParameterSchema::empty();
    let sdf = registry.add_sdf_pending(&schema);
    let fill = registry.add_fill_body("return color;", &schema);
    let shapes = vec![shape_item(true, sdf, fill)];
    let mut composer = ShaderComposer::new(0, 0);
    let mut specializer = PipelineSpecializer::new();
    let mut meta = ShapeMeta::new();
    let mut extracted = ExtractedShapes::new();

    let out1 = render_frame(
        &registry,
        &mut composer,
        &mut specializer,
        &mut meta,
        &mut extracted,
        &shapes,
        mesh_key(),
        false,
    );
    assert_eq!(out1.batches.len(), 0);
    assert_eq!(composer.len(), 0);
    assert_eq!(meta.vertices.len(), 0);

    registry.provide_body(sdf, "return -1.;");
    let out2 = render_frame(
        &registry,
        &mut composer,
        &mut specializer,
        &mut meta,
        &mut extracted,
        &shapes,
        mesh_key(),
        false,
    );
    assert_eq!(out2.batches.len(), 1);
    assert_eq!((out2.batches[0].range_start, out2.batches[0].range_end), (0, 1));
    assert_eq!(composer.len(), 1);
    assert_eq!(meta.vertices.len(), 11);

    let out3 = render_frame(
        &registry,
        &mut composer,
        &mut specializer,
        &mut meta,
        &mut extracted,
        &shapes,
        mesh_key(),
        false,
    );
    assert_eq!(out3.batches.len(), 1);
    assert_eq!(composer.len(), 1);
    assert_eq!(specializer.len(), 1);
    assert_eq!(out3.batches[0].pipeline, out2.batches[0].pipeline);
}

#[test]
fn ready_shapes_are_drawn_while_pending_ones_are_skipped() {
    let mut registry = ShaderFragmentRegistry::new();
    let schema = ParameterSchema::empty();
    let ready_sdf = registry.add_sdf_body("return -1.;", &schema);
    let pending_sdf = registry.add_sdf_pending(&schema);
    let fill = registry.add_fill_body("return color;", &schema);
    let shapes = vec![
        shape_item(true, ready_sdf, fill),
        shape_item(true, pending_sdf, fill),
        shape_item(true, ready_sdf, fill),
    ];
    let mut composer = ShaderComposer::new(0, 0);
    let mut specializer = PipelineSpecializer::new();
    let mut meta = ShapeMeta::new();
    let mut extracted = ExtractedShapes::new();
    let out = render_frame(
        &registry,
        &mut composer,
        &mut specializer,
        &mut meta,
        &mut extracted,
        &shapes,
        mesh_key(),
        false,
    );
    // The pending shape neither draws nor interrupts: the two ready shapes
    // become adjacent and merge into one batch of two instances.
    assert_eq!(out.phase_items.len(), 2);
    assert_eq!(out.phase_items[0].shape_index, 0);
    assert_eq!(out.phase_items[1].shape_index, 2);
    assert_eq!(out.batches.len(), 1);
    assert_eq!((out.batches[0].range_start, out.batches[0].range_end), (0, 2));
    assert_eq!(meta.vertices.len(), 22);
}

#[test]
fn a_permanently_failed_shader_is_excluded_from_later_frames() {
    let mut registry = ShaderFragmentRegistry::new();
    let schema = ParameterSchema::empty();
    let sdf = registry.add_sdf_body("return -1.;", &schema);
    let fill = registry.add_fill_body("return color;", &schema);
    let shapes = vec![shape_item(true, sdf, fill)];
    let mut composer = ShaderComposer::new(0, 0);
    let mut specializer = PipelineSpecializer::new();
    let mut meta = ShapeMeta::new();
    let mut extracted = ExtractedShapes::new();
    let out1 = render_frame(
        &registry,
        &mut composer,
        &mut specializer,
        &mut meta,
        &mut extracted,
        &shapes,
        mesh_key(),
        false,
    );
    assert_eq!(out1.batches.len(), 1);
    // The GPU backend rejects the generated program; the application
    // reports the failure and the key is excluded permanently.
    let failed_key = SmudPipelineKey {
        mesh: mesh_key(),
        shader: extracted.shapes[0].shader_key.duplicate(),
        hdr: false,
    };
    specializer.mark_failed(&failed_key);
    let out2 = render_frame(
        &registry,
        &mut composer,
        &mut specializer,
        &mut meta,
        &mut extracted,
        &shapes,
        mesh_key(),
        false,
    );
    assert_eq!(out2.batches.len(), 0);
    assert_eq!(specializer.len(), 1);
}

#[test]
fn packed_instance_carries_the_shape_words() {
    let mut registry = ShaderFragmentRegistry::new();
    let schema = ParameterSchema::empty();
    let sdf = registry.add_sdf_body("return -1.;", &schema);
    let fill = registry.add_fill_body("return color;", &schema);
    let mut item = shape_item(true, sdf, fill);
    item.shape.color = ShapeColor {
        red: f32::to_bits(0.5),
        green: f32::to_bits(0.25),
        blue: 0,
        alpha: f32::to_bits(1.0),
    };
    item.shape.frame = Frame::Quad(f32::to_bits(16.0));
    item.transform = ShapeTransform {
        position_x: f32::to_bits(3.0),
        position_y: f32::to_bits(4.0),
        position_z: f32::to_bits(5.0),
        rotation_cos: f32::to_bits(1.0),
        rotation_sin: f32::to_bits(0.0),
        scale: f32::to_bits(2.0),
    };
    let shapes = vec![item];
    let mut composer = ShaderComposer::new(0, 0);
    let mut specializer = PipelineSpecializer::new();
    let mut meta = ShapeMeta::new();
    let mut extracted = ExtractedShapes::new();
    render_frame(
        &registry,
        &mut composer,
        &mut specializer,
        &mut meta,
        &mut extracted,
        &shapes,
        mesh_key(),
        false,
    );
    assert_eq!(
        meta.vertices,
        vec![
            f32::to_bits(0.5),
            f32::to_bits(0.25),
            0,
            f32::to_bits(1.0),
            f32::to_bits(16.0),
            f32::to_bits(3.0),
            f32::to_bits(4.0),
            f32::to_bits(5.0),
            f32::to_bits(1.0),
            f32::to_bits(0.0),
            f32::to_bits(2.0),
        ]
    );
}
