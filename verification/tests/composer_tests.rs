use smud::composer::ComposeState;
use smud::composer::ShaderComposer;
use smud::composer::ShaderKey;
use smud::registry::ShaderFragmentRegistry;
use smud::schema::ParameterSchema;
use smud::schema::ParameterSlot;

fn simple_key(registry: &mut ShaderFragmentRegistry) -> ShaderKey {
    let schema = ParameterSchema::empty();
    let sdf = registry.add_sdf_body("return -1.;", &schema);
    let fill = registry.add_fill_body("return color;", &schema);
    ShaderKey {
        sdf_shader: sdf,
        fill_shader: fill,
        sdf_schema: ParameterSchema::empty(),
        fill_schema: ParameterSchema::empty(),
    }
}

#[test]
fn composing_generates_the_full_fragment_program() {
    let mut registry = ShaderFragmentRegistry::new();
    let key = simple_key(&mut registry);
    let mut composer = ShaderComposer::new(0, 0);
    assert_eq!(composer.ensure_composed(&registry, &key), ComposeState::Composed);
    let program = composer.find(&key).unwrap();
    assert_eq!(
        program.source.as_str(),
        "\n#import bevy_render::globals::Globals\n@group(0) @binding(1)\nvar<uniform> globals: Globals;\n#import smud::sdf0 as sdf\n#import smud::fill1 as fill\n\nstruct FragmentInput {\n@location(0) color: vec4<f32>,\n@location(1) pos: vec2<f32>,\n};\n\n@fragment\nfn fragment(in: FragmentInput) -> @location(0) vec4<f32> {\nlet d = sdf::sdf(in.pos);\nreturn fill::fill(d, in.color, in.pos);\n}\n"
    );
}

#[test]
fn schema_parameters_flow_into_the_generated_calls() {
    let mut registry = ShaderFragmentRegistry::new();
    let sdf_schema = ParameterSchema::try_new(vec![ParameterSlot::float(0)]).unwrap();
    let fill_schema = ParameterSchema::try_new(vec![ParameterSlot::uint(0)]).unwrap();
    let sdf = registry.add_sdf_body("return p.x - param_f_0;", &sdf_schema);
    let fill = registry.add_fill_body("return color;", &fill_schema);
    let key = ShaderKey {
        sdf_shader: sdf,
        fill_shader: fill,
        sdf_schema: sdf_schema.duplicate(),
        fill_schema: fill_schema.duplicate(),
    };
    let mut composer = ShaderComposer::new(1, 1);
    composer.ensure_composed(&registry, &key);
    let source = composer.find(&key).unwrap().source.as_str();
    assert!(source.contains(
        "struct FragmentInput {\n@location(0) color: vec4<f32>,\n@location(1) pos: vec2<f32>,\n@location(2) param_f_0: f32,\n@location(3) param_u_0: u32,\n};"
    ));
    assert!(source.contains("let d = sdf::sdf(in.pos, in.param_f_0);"));
    assert!(source.contains("return fill::fill(d, in.color, in.pos, in.param_u_0);"));
}

#[test]
fn equal_keys_compose_once_and_identically() {
    // However many times composition runs, and through however many equal
    // keys, one combination owns a single cache entry with one text.
    let mut registry = ShaderFragmentRegistry::new();
    let key = simple_key(&mut registry);
    let copy = key.duplicate();
    let mut composer = ShaderComposer::new(0, 0);
    assert_eq!(composer.ensure_composed(&registry, &key), ComposeState::Composed);
    assert_eq!(composer.len(), 1);
    let first = composer.find(&key).unwrap().source.as_str().to_owned();
    assert_eq!(composer.ensure_composed(&registry, &key), ComposeState::Composed);
    assert_eq!(composer.ensure_composed(&registry, &copy), ComposeState::Composed);
    assert_eq!(composer.len(), 1);
    let second = composer.find(&copy).unwrap().source.as_str().to_owned();
    assert_eq!(first, second);
}

#[test]
fn distinct_registrations_compose_to_distinct_entries() {
    let mut registry = ShaderFragmentRegistry::new();
    let schema = ParameterSchema::empty();
    let sdf1 = registry.add_sdf_body("return -1.;", &schema);
    let sdf2 = registry.add_sdf_body("return -1.;", &schema);
    let fill = registry.add_fill_body("return color;", &schema);
    let key1 = ShaderKey {
        sdf_shader: sdf1,
        fill_shader: fill,
        sdf_schema: ParameterSchema::empty(),
        fill_schema: ParameterSchema::empty(),
    };
    let key2 = ShaderKey {
        sdf_shader: sdf2,
        fill_shader: fill,
        sdf_schema: ParameterSchema::empty(),
        fill_schema: ParameterSchema::empty(),
    };
    assert!(key1 != key2);
    let mut composer = ShaderComposer::new(0, 0);
    composer.ensure_composed(&registry, &key1);
    composer.ensure_composed(&registry, &key2);
    assert_eq!(composer.len(), 2);
    let s1 = composer.find(&key1).unwrap().source.as_str().to_owned();
    let s2 = composer.find(&key2).unwrap().source.as_str().to_owned();
    assert_ne!(s1, s2);
}

#[test]
fn missing_fragment_stays_pending_without_an_entry() {
    let mut registry = ShaderFragmentRegistry::new();
    let schema = ParameterSchema::empty();
    let sdf = registry.add_sdf_pending(&schema);
    let fill = registry.add_fill_body("return color;", &schema);
    let key = ShaderKey {
        sdf_shader: sdf,
        fill_shader: fill,
        sdf_schema: ParameterSchema::empty(),
        fill_schema: ParameterSchema::empty(),
    };
    let mut composer = ShaderComposer::new(0, 0);
    assert_eq!(composer.ensure_composed(&registry, &key), ComposeState::PendingImport);
    assert_eq!(composer.len(), 0);
    assert!(!composer.is_composed(&key));
    // The source arrives later; the retry composes exactly once.
    registry.provide_body(sdf, "return 0.;");
    assert_eq!(composer.ensure_composed(&registry, &key), ComposeState::Composed);
    assert_eq!(composer.ensure_composed(&registry, &key), ComposeState::Composed);
    assert_eq!(composer.len(), 1);
}

#[test]
fn compose_pass_polls_every_key() {
    let mut registry = ShaderFragmentRegistry::new();
    let key1 = simple_key(&mut registry);
    let key2 = simple_key(&mut registry);
    let mut composer = ShaderComposer::new(0, 0);
    let keys = vec![key1.duplicate(), key2.duplicate(), key1.duplicate()];
    composer.compose_pass(&registry, &keys);
    assert_eq!(composer.len(), 2);
    assert!(composer.is_composed(&key1));
    assert!(composer.is_composed(&key2));
}
