use smud::composer::ShaderComposer;
use smud::composer::ShaderKey;
use smud::pipeline::PipelineKey;
use smud::pipeline::PipelineSpecializer;
use smud::pipeline::PrimitiveTopology;
use smud::pipeline::SmudPipelineKey;
use smud::pipeline::INVALID_PIPELINE_ID;
use smud::registry::ShaderFragmentRegistry;
use smud::schema::ParameterSchema;

fn composed_key(
    registry: &mut ShaderFragmentRegistry,
    composer: &mut ShaderComposer,
) -> ShaderKey {
    let schema = ParameterSchema::empty();
    let sdf = registry.add_sdf_body("return -1.;", &schema);
    let fill = registry.add_fill_body("return color;", &schema);
    let key = ShaderKey {
        sdf_shader: sdf,
        fill_shader: fill,
        sdf_schema: ParameterSchema::empty(),
        fill_schema: ParameterSchema::empty(),
    };
    composer.ensure_composed(registry, &key);
    key
}

fn view_key(shader: ShaderKey) -> SmudPipelineKey {
    let mesh = PipelineKey::from_msaa_samples(4)
        .union(PipelineKey::from_primitive_topology(PrimitiveTopology::TriangleStrip));
    SmudPipelineKey { mesh, shader, hdr: false }
}

#[test]
fn msaa_samples_round_trip_through_the_key() {
    for samples in [1u32, 2, 4, 8, 16, 32, 64, 128] {
        let key = PipelineKey::from_msaa_samples(samples);
        assert_eq!(key.msaa_samples(), samples);
    }
}

#[test]
fn topology_round_trips_through_the_key() {
    for topology in [
        PrimitiveTopology::PointList,
        PrimitiveTopology::LineList,
        PrimitiveTopology::LineStrip,
        PrimitiveTopology::TriangleList,
        PrimitiveTopology::TriangleStrip,
    ] {
        let key = PipelineKey::from_primitive_topology(topology);
        assert_eq!(key.primitive_topology(), topology);
    }
}

#[test]
fn msaa_and_topology_bits_do_not_collide() {
    let key = PipelineKey::from_msaa_samples(8)
        .union(PipelineKey::from_primitive_topology(PrimitiveTopology::TriangleStrip));
    assert_eq!(key.msaa_samples(), 8);
    assert_eq!(key.primitive_topology(), PrimitiveTopology::TriangleStrip);
}

#[test]
fn specializing_a_pending_shader_yields_the_sentinel() {
    let registry = ShaderFragmentRegistry::new();
    let composer = ShaderComposer::new(0, 0);
    let mut specializer = PipelineSpecializer::new();
    let key = view_key(ShaderKey {
        sdf_shader: smud::registry::FragmentHandle { id: 0 },
        fill_shader: smud::registry::FragmentHandle { id: 1 },
        sdf_schema: ParameterSchema::empty(),
        fill_schema: ParameterSchema::empty(),
    });
    let _ = registry;
    assert_eq!(specializer.specialize(&composer, &key), INVALID_PIPELINE_ID);
    assert_eq!(specializer.len(), 0);
}

#[test]
fn specializing_a_composed_shader_allocates_once() {
    let mut registry = ShaderFragmentRegistry::new();
    let mut composer = ShaderComposer::new(0, 0);
    let shader = composed_key(&mut registry, &mut composer);
    let mut specializer = PipelineSpecializer::new();
    let key = view_key(shader.duplicate());
    let id = specializer.specialize(&composer, &key);
    assert_ne!(id, INVALID_PIPELINE_ID);
    assert_eq!(specializer.specialize(&composer, &key), id);
    assert_eq!(specializer.len(), 1);
    assert_eq!(specializer.pipeline_id(&key), id);
    // A different view specialization of the same shader is a new pipeline.
    let hdr_key = SmudPipelineKey { mesh: key.mesh, shader: shader.duplicate(), hdr: true };
    let hdr_id = specializer.specialize(&composer, &hdr_key);
    assert_ne!(hdr_id, INVALID_PIPELINE_ID);
    assert_ne!(hdr_id, id);
    assert_eq!(specializer.len(), 2);
}

#[test]
fn a_failed_pipeline_is_never_retried() {
    let mut registry = ShaderFragmentRegistry::new();
    let mut composer = ShaderComposer::new(0, 0);
    let shader = composed_key(&mut registry, &mut composer);
    let mut specializer = PipelineSpecializer::new();
    let key = view_key(shader);
    let id = specializer.specialize(&composer, &key);
    assert_ne!(id, INVALID_PIPELINE_ID);
    specializer.mark_failed(&key);
    assert_eq!(specializer.pipeline_id(&key), INVALID_PIPELINE_ID);
    assert_eq!(specializer.specialize(&composer, &key), INVALID_PIPELINE_ID);
    assert_eq!(specializer.specialize(&composer, &key), INVALID_PIPELINE_ID);
    assert_eq!(specializer.len(), 1);
}
