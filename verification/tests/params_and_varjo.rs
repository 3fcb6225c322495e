use vss::value_map::{Value, ValueMap};
use vss::varjo::try_fail;
use vss::vis_param::{
    VisualizationParameters, VisualizationType, DEFAULT_DEPTH_MAX, DEFAULT_DEPTH_MIN, FIXED_ONE,
};

#[test]
fn visualization_defaults() {
    assert_eq!(VisualizationType::default(), VisualizationType::Output);
    let p = VisualizationParameters::default();
    assert_eq!(p.vis_type, VisualizationType::Output);
    assert_eq!(p.heat_scale, FIXED_ONE);
    assert_eq!(p.dir_calc_scale, FIXED_ONE);
    assert_eq!(p.test_depth_min, DEFAULT_DEPTH_MIN);
    assert_eq!(p.test_depth_max, DEFAULT_DEPTH_MAX);
    assert_eq!(p.test_depth_min, 200 * 65536);
    assert_eq!(p.test_depth_max, 5000 * 65536);
}

#[test]
fn value_map_answers_what_was_set() {
    let mut values = ValueMap::new();
    assert!(values.get("split_screen_switch").is_none());
    values.set("split_screen_switch", Value::Bool(true));
    match values.get("split_screen_switch") {
        Some(Value::Bool(b)) => assert!(*b),
        _ => panic!("expected the switch that was set"),
    }
    // A later set of the same key shadows the earlier one.
    values.set("split_screen_switch", Value::Bool(false));
    match values.get("split_screen_switch") {
        Some(Value::Bool(b)) => assert!(!*b),
        _ => panic!("expected the shadowing value"),
    }
    // Other keys keep their answers.
    values.set("heat_scale", Value::Number(2 * FIXED_ONE));
    match values.get("heat_scale") {
        Some(Value::Number(n)) => assert_eq!(*n, 2 * FIXED_ONE),
        _ => panic!("expected the number that was set"),
    }
    assert!(values.get("unset_key").is_none());
}

#[test]
fn value_as_bool_only_for_switches() {
    assert_eq!(Value::Bool(true).as_bool(), Some(true));
    assert_eq!(Value::Bool(false).as_bool(), Some(false));
    assert_eq!(Value::Number(1).as_bool(), None);
    assert_eq!(Value::Text(String::from("on")).as_bool(), None);
}

#[test]
fn vendor_success_is_ok() {
    assert!(try_fail(None).is_ok());
}

#[test]
fn vendor_error_surfaces_as_typed_failure_for_each_boundary_call() {
    // One message per vendor boundary call: session setup, render-target
    // acquisition, frame sync and frame submission.
    let messages = [
        "session could not be created",
        "render targets unavailable",
        "frame sync lost",
        "frame submission rejected",
    ];
    for message in messages {
        match try_fail(Some(String::from(message))) {
            Err(e) => assert_eq!(e.0, message),
            Ok(()) => panic!("a present message must become a typed failure"),
        }
    }
}
