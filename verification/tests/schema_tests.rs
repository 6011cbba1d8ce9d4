use smud::schema::ParameterKind;
use smud::schema::ParameterSchema;
use smud::schema::ParameterSlot;
use smud::schema::SchemaError;
use smud::MAX_PARAM_SLOTS;

#[test]
fn schema_accepts_valid_slots() {
    let schema = ParameterSchema::try_new(vec![
        ParameterSlot::float(0),
        ParameterSlot::float(3),
        ParameterSlot::uint(1),
    ])
    .unwrap();
    assert_eq!(schema.len(), 3);
    assert_eq!(schema.slot(0), ParameterSlot { index: 0, kind: ParameterKind::Float });
    assert_eq!(schema.slot(1), ParameterSlot { index: 3, kind: ParameterKind::Float });
    assert_eq!(schema.slot(2), ParameterSlot { index: 1, kind: ParameterKind::UInt });
}

#[test]
fn schema_rejects_index_at_maximum() {
    // The highest allowed slot index is MAX_PARAM_SLOTS - 1; registering a
    // schema that addresses the maximum must fail at construction, never at
    // render time.
    let r = ParameterSchema::try_new(vec![ParameterSlot::float(MAX_PARAM_SLOTS)]);
    assert_eq!(r.unwrap_err(), SchemaError::IndexTooLarge { index: MAX_PARAM_SLOTS });
    let ok = ParameterSchema::try_new(vec![ParameterSlot::float(MAX_PARAM_SLOTS - 1)]);
    assert!(ok.is_ok());
}

#[test]
fn schema_rejects_duplicate_index_of_same_kind() {
    let r = ParameterSchema::try_new(vec![
        ParameterSlot::float(1),
        ParameterSlot::uint(2),
        ParameterSlot::float(1),
    ]);
    assert_eq!(r.unwrap_err(), SchemaError::DuplicateIndex { index: 1 });
}

#[test]
fn schema_allows_same_index_across_kinds() {
    let r = ParameterSchema::try_new(vec![ParameterSlot::float(0), ParameterSlot::uint(0)]);
    assert!(r.is_ok());
}

#[test]
fn schema_reports_range_before_duplicates() {
    let r = ParameterSchema::try_new(vec![
        ParameterSlot::float(1),
        ParameterSlot::float(1),
        ParameterSlot::uint(40),
    ]);
    assert_eq!(r.unwrap_err(), SchemaError::IndexTooLarge { index: 40 });
}

#[test]
fn schema_renders_definition_arguments() {
    let schema =
        ParameterSchema::try_new(vec![ParameterSlot::float(0), ParameterSlot::uint(2)]).unwrap();
    assert_eq!(schema.func_def_arguments().as_str(), ", param_f_0: f32, param_u_2: u32");
}

#[test]
fn schema_renders_call_arguments() {
    let schema =
        ParameterSchema::try_new(vec![ParameterSlot::float(0), ParameterSlot::uint(2)]).unwrap();
    assert_eq!(schema.call_arguments().as_str(), ", in.param_f_0, in.param_u_2");
}

#[test]
fn empty_schema_renders_empty_arguments() {
    let schema = ParameterSchema::empty();
    assert_eq!(schema.func_def_arguments().as_str(), "");
    assert_eq!(schema.call_arguments().as_str(), "");
}

#[test]
fn schema_equality_is_structural_and_ordered() {
    let a = ParameterSchema::try_new(vec![ParameterSlot::float(0), ParameterSlot::uint(1)]).unwrap();
    let b = ParameterSchema::try_new(vec![ParameterSlot::float(0), ParameterSlot::uint(1)]).unwrap();
    let c = ParameterSchema::try_new(vec![ParameterSlot::uint(1), ParameterSlot::float(0)]).unwrap();
    assert!(a == b);
    assert!(a != c);
    assert!(a == a.duplicate());
}

#[test]
fn two_digit_indices_render_in_decimal() {
    let schema =
        ParameterSchema::try_new(vec![ParameterSlot::float(31), ParameterSlot::uint(10)]).unwrap();
    assert_eq!(schema.func_def_arguments().as_str(), ", param_f_31: f32, param_u_10: u32");
    assert_eq!(schema.call_arguments().as_str(), ", in.param_f_31, in.param_u_10");
}
