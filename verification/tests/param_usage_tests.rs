use smud::param_usage::ParamsIter;
use smud::param_usage::ShaderParamUsage;

#[test]
fn with_param_sets_bits_in_any_order() {
    let usage = ShaderParamUsage::no_params().with_param(3).with_param(0);
    assert_eq!(
        usage.in_params_str().as_str(),
        ", bitcast<f32>(in.param_0), bitcast<f32>(in.param_3)"
    );
}

#[test]
fn from_params_matches_with_param() {
    let a = ShaderParamUsage::from_params(&[5, 2, 9]);
    let b = ShaderParamUsage::no_params().with_param(2).with_param(9).with_param(5);
    assert_eq!(a, b);
}

#[test]
fn all_params_covers_a_prefix_of_slots() {
    let usage = ShaderParamUsage::all_params(3);
    assert_eq!(
        usage.in_params_str().as_str(),
        ", bitcast<f32>(in.param_0), bitcast<f32>(in.param_1), bitcast<f32>(in.param_2)"
    );
    assert_eq!(ShaderParamUsage::all_params(0), ShaderParamUsage::no_params());
}

#[test]
fn func_def_arguments_renders_each_used_slot() {
    let usage = ShaderParamUsage::from_params(&[0, 3]);
    assert_eq!(usage.func_def_arguments().as_str(), ",param_0: f32,param_3: f32");
}

#[test]
fn no_params_renders_empty_text() {
    let usage = ShaderParamUsage::no_params();
    assert_eq!(usage.in_params_str().as_str(), "");
    assert_eq!(usage.func_def_arguments().as_str(), "");
}

#[test]
fn params_iter_yields_indices_ascending() {
    let usage = ShaderParamUsage::from_params(&[7, 0, 31]);
    let mut iter = ParamsIter::new(usage);
    assert_eq!(iter.next(), Some(0));
    assert_eq!(iter.next(), Some(7));
    assert_eq!(iter.next(), Some(31));
    assert_eq!(iter.next(), None);
    assert_eq!(iter.next(), None);
}

#[test]
fn params_iter_over_empty_usage_is_empty() {
    let mut iter = ParamsIter::new(ShaderParamUsage::no_params());
    assert_eq!(iter.next(), None);
}
