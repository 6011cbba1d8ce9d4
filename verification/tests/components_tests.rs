use smud::components::Frame;
use smud::components::ShapeColor;
use smud::components::SmudParam;
use smud::components::SmudShaders;
use smud::components::SmudShape;
use smud::registry::FragmentHandle;
use smud::schema::ParameterSchema;
use smud::schema::ParameterSlot;

#[test]
fn params_carry_raw_words() {
    assert_eq!(SmudParam::integer(7).bits(), 7);
    assert_eq!(SmudParam::from_bits(f32::to_bits(2.5)).bits(), f32::to_bits(2.5));
    assert_eq!(SmudParam::default().bits(), 0);
}

#[test]
fn default_frame_is_a_unit_quad() {
    let Frame::Quad(half_extent) = Frame::default();
    assert_eq!(half_extent, f32::to_bits(1.0));
    assert_eq!(Frame::Quad(f32::to_bits(3.0)).bits(), f32::to_bits(3.0));
}

#[test]
fn default_shape_is_a_pink_unit_quad_without_parameters() {
    let shape = SmudShape::default();
    assert_eq!(
        shape.color,
        ShapeColor {
            red: f32::to_bits(1.0),
            green: f32::to_bits(0.08),
            blue: f32::to_bits(0.58),
            alpha: f32::to_bits(1.0),
        }
    );
    assert_eq!(shape.frame.bits(), f32::to_bits(1.0));
    assert!(shape.float_params.is_empty());
    assert!(shape.uint_params.is_empty());
}

#[test]
fn shader_key_copies_handles_and_schemas() {
    let shaders = SmudShaders {
        sdf: FragmentHandle { id: 4 },
        fill: FragmentHandle { id: 9 },
        sdf_schema: ParameterSchema::try_new(vec![ParameterSlot::float(0)]).unwrap(),
        fill_schema: ParameterSchema::empty(),
    };
    let key = shaders.shader_key();
    assert_eq!(key.sdf_shader.id, 4);
    assert_eq!(key.fill_shader.id, 9);
    assert!(key.sdf_schema == shaders.sdf_schema);
    assert!(key.fill_schema == shaders.fill_schema);
}
