use smud::registry::FragmentRole;
use smud::registry::ShaderFragmentRegistry;
use smud::schema::ParameterSchema;
use smud::schema::ParameterSlot;

#[test]
fn add_sdf_body_wraps_the_text_into_a_module() {
    let mut registry = ShaderFragmentRegistry::new();
    let schema = ParameterSchema::empty();
    let h = registry.add_sdf_body("return -1.;", &schema);
    assert_eq!(h.id, 0);
    let frag = registry.fragment(h);
    assert_eq!(frag.identity, 0);
    assert_eq!(frag.role, FragmentRole::Sdf);
    assert_eq!(
        frag.source.as_ref().unwrap().as_str(),
        "\n#define_import_path smud::sdf0\n\n#import smud\n\nfn sdf(p: vec2<f32>) -> f32 {\n    return -1.;\n}\n"
    );
}

#[test]
fn add_fill_body_wraps_the_text_into_a_module() {
    let mut registry = ShaderFragmentRegistry::new();
    let schema = ParameterSchema::empty();
    let h = registry.add_fill_body("return color;", &schema);
    assert_eq!(h.id, 0);
    assert_eq!(
        registry.fragment(h).source.as_ref().unwrap().as_str(),
        "\n#define_import_path smud::fill0\n\n#import smud\n\nfn fill(d: f32, color: vec4<f32>, p: vec2<f32>) -> vec4<f32> {\n    return color;\n}\n"
    );
}

#[test]
fn add_sdf_expr_wraps_the_expression_into_a_return() {
    let mut registry = ShaderFragmentRegistry::new();
    let schema = ParameterSchema::empty();
    let h = registry.add_sdf_expr("smud::sd_circle(p, 70.)", &schema);
    assert_eq!(
        registry.fragment(h).source.as_ref().unwrap().as_str(),
        "\n#define_import_path smud::sdf0\n\n#import smud\n\nfn sdf(p: vec2<f32>) -> f32 {\n    return smud::sd_circle(p, 70.);\n}\n"
    );
}

#[test]
fn schema_arguments_appear_in_the_wrapped_signature() {
    let mut registry = ShaderFragmentRegistry::new();
    let schema =
        ParameterSchema::try_new(vec![ParameterSlot::float(0), ParameterSlot::uint(1)]).unwrap();
    let h = registry.add_fill_expr("color", &schema);
    assert_eq!(
        registry.fragment(h).source.as_ref().unwrap().as_str(),
        "\n#define_import_path smud::fill0\n\n#import smud\n\nfn fill(d: f32, color: vec4<f32>, p: vec2<f32>, param_f_0: f32, param_u_1: u32) -> vec4<f32> {\n    return color;\n}\n"
    );
}

#[test]
fn identical_text_registers_as_distinct_identities() {
    // Identity is per registration, never per content: the same body text
    // registered twice yields two distinct handles and two distinct module
    // paths.
    let mut registry = ShaderFragmentRegistry::new();
    let schema = ParameterSchema::empty();
    let h1 = registry.add_sdf_body("return -1.;", &schema);
    let h2 = registry.add_sdf_body("return -1.;", &schema);
    assert_ne!(h1.id, h2.id);
    let s1 = registry.fragment(h1).source.as_ref().unwrap().as_str().to_owned();
    let s2 = registry.fragment(h2).source.as_ref().unwrap().as_str().to_owned();
    assert_ne!(s1, s2);
    assert!(s1.contains("smud::sdf0"));
    assert!(s2.contains("smud::sdf1"));
}

#[test]
fn pending_fragment_becomes_available_when_its_body_arrives() {
    let mut registry = ShaderFragmentRegistry::new();
    let schema = ParameterSchema::empty();
    let h = registry.add_sdf_pending(&schema);
    assert!(!registry.available(h));
    registry.provide_body(h, "return 1.;");
    assert!(registry.available(h));
    assert_eq!(
        registry.fragment(h).source.as_ref().unwrap().as_str(),
        "\n#define_import_path smud::sdf0\n\n#import smud\n\nfn sdf(p: vec2<f32>) -> f32 {\n    return 1.;\n}\n"
    );
}

#[test]
fn available_is_false_for_unknown_handles() {
    let registry = ShaderFragmentRegistry::new();
    assert!(!registry.available(smud::registry::FragmentHandle { id: 3 }));
}
