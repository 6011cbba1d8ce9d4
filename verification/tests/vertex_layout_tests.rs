use smud::vertex_layout::create_vertex_shader;
use smud::vertex_layout::format_params_locations;
use smud::vertex_layout::get_vertex_handle;
use smud::vertex_layout::vertex_array_stride;
use smud::vertex_layout::vertex_attributes;
use smud::vertex_layout::VertexFormat;

#[test]
fn layout_for_two_floats_and_one_uint() {
    // The byte offsets follow the fixed field order (which is also the
    // alphabetical order of the field names); the shader locations follow
    // the generated vertex struct. One word is 4 bytes, rotation two words.
    let attrs = vertex_attributes(2, 1);
    assert_eq!(attrs.len(), 8);
    // color
    assert_eq!(attrs[0].offset, 0);
    assert_eq!(attrs[0].shader_location, 1);
    assert_eq!(attrs[0].format, VertexFormat::Float32x4);
    // frame
    assert_eq!(attrs[1].offset, 16);
    assert_eq!(attrs[1].shader_location, 7);
    // float params
    assert_eq!(attrs[2].offset, 20);
    assert_eq!(attrs[2].shader_location, 2);
    assert_eq!(attrs[3].offset, 24);
    assert_eq!(attrs[3].shader_location, 3);
    // uint param
    assert_eq!(attrs[4].offset, 28);
    assert_eq!(attrs[4].shader_location, 4);
    assert_eq!(attrs[4].format, VertexFormat::Uint32);
    // position
    assert_eq!(attrs[5].offset, 32);
    assert_eq!(attrs[5].shader_location, 0);
    assert_eq!(attrs[5].format, VertexFormat::Float32x3);
    // rotation
    assert_eq!(attrs[6].offset, 44);
    assert_eq!(attrs[6].shader_location, 5);
    assert_eq!(attrs[6].format, VertexFormat::Float32x2);
    // scale
    assert_eq!(attrs[7].offset, 52);
    assert_eq!(attrs[7].shader_location, 6);
    assert_eq!(vertex_array_stride(2, 1), 56);
}

#[test]
fn stride_counts_eleven_fixed_words_plus_parameters() {
    assert_eq!(vertex_array_stride(0, 0), 44);
    assert_eq!(vertex_array_stride(1, 0), 48);
    assert_eq!(vertex_array_stride(32, 32), 44 + 4 * 64);
}

#[test]
fn params_locations_list_floats_before_uints() {
    assert_eq!(
        format_params_locations(2, 1).as_str(),
        "@location(2) param_f_0: f32,\n@location(3) param_f_1: f32,\n@location(4) param_u_0: u32,\n"
    );
    assert_eq!(format_params_locations(0, 0).as_str(), "");
}

#[test]
fn vertex_shader_declares_the_layout_it_consumes() {
    let source = create_vertex_shader(2, 1);
    let source = source.as_str();
    assert!(source.starts_with("\n#define_import_path smud::vertex_params_2_1\n"));
    assert!(source.contains("@location(0) position: vec3<f32>,\n@location(1) color: vec4<f32>,\n"));
    assert!(source.contains(
        "@location(2) param_f_0: f32,\n@location(3) param_f_1: f32,\n@location(4) param_u_0: u32,\n@location(5) rotation: vec2<f32>,\n@location(6) scale: f32,\n@location(7) frame: f32,\n"
    ));
    assert!(source.contains(
        "    out.param_f_0 = vertex.param_f_0;\n    out.param_f_1 = vertex.param_f_1;\n    out.param_u_0 = vertex.param_u_0;\n"
    ));
    assert!(source.contains("out.pos = vec2<f32>(x, y) * vertex.frame;\nreturn out;\n}\n"));
}

#[test]
fn vertex_shader_for_no_parameters_has_no_param_lines() {
    let source = create_vertex_shader(0, 0);
    let source = source.as_str();
    assert!(source.starts_with("\n#define_import_path smud::vertex_params_0_0\n"));
    assert!(!source.contains("param_"));
    assert!(source.contains("@location(2) rotation: vec2<f32>,\n@location(3) scale: f32,\n@location(4) frame: f32,\n"));
}

#[test]
fn vertex_handles_differ_per_configuration() {
    assert_eq!(get_vertex_handle(0, 0), 16846632126033267571u128);
    assert_eq!(get_vertex_handle(1, 0), 16846632126033267571u128 + 2875688479);
    assert_eq!(get_vertex_handle(0, 1), 16846632126033267571u128 + 8693298443);
    assert_ne!(get_vertex_handle(2, 1), get_vertex_handle(1, 2));
}
