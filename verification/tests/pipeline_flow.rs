use vss::display::Head;
use vss::gaze::{Gaze, Size};
use vss::node::NodeDesc;
use vss::pipeline::{Pipeline, PipelineError};
use vss::value_map::{Value, ValueMap};
use vss::vis_param::{VisualizationParameters, VisualizationType, FIXED_ONE};

fn two_node_descs() -> Vec<NodeDesc> {
    vec![
        NodeDesc::Source { native: Size { width: 640, height: 480 } },
        NodeDesc::Display,
    ]
}

fn hd_window() -> Size {
    Size { width: 1280, height: 720 }
}

#[test]
fn end_to_end_two_node_pipeline() {
    // Build source@640x480 -> display@1280x720; after negotiation the
    // final boundary carries the window resolution. Toggling stereo
    // mid-session needs no renegotiation, but the display's draw switches
    // from 6 to 12 vertices.
    let mut p = Pipeline::build(&two_node_descs()).unwrap();
    let slots = p.negotiate(&hd_window()).unwrap();
    assert_eq!(slots.output_size, Size { width: 1280, height: 720 });

    let mono = ValueMap::new();
    p.update_values(&mono);
    let draws = p.render();
    assert_eq!(draws.len(), 2);
    assert_eq!(draws[0].vertex_count, 6);
    assert_eq!(draws[1].vertex_count, 6);

    let mut stereo = ValueMap::new();
    stereo.set("split_screen_switch", Value::Bool(true));
    p.update_values(&stereo);

    // A renegotiation is not required: repeating it reproduces the very
    // same boundary.
    let again = p.negotiate(&hd_window()).unwrap();
    assert_eq!(again, slots);

    let draws = p.render();
    assert_eq!(draws[0].vertex_count, 6);
    assert_eq!(draws[1].vertex_count, 12);
}

#[test]
fn input_pass_folds_gaze_through_the_chain() {
    let mut p = Pipeline::build(&two_node_descs()).unwrap();
    p.negotiate(&hd_window()).unwrap();
    let head = Head { yaw: 0, pitch: 0 };
    // The source maps identically (equal sizes); the display remaps
    // 640x480 -> 1280x720, where 0.75 is a fixed point of the x axis.
    let g = p
        .input(&head, &Gaze { x: 49152, y: 12345 }, &VisualizationParameters::default())
        .unwrap();
    assert_eq!(g, Gaze { x: 49152, y: 12345 });
}

#[test]
fn vis_params_reach_every_draw_of_the_same_frame() {
    let mut p = Pipeline::build(&two_node_descs()).unwrap();
    p.negotiate(&hd_window()).unwrap();
    let vis = VisualizationParameters {
        vis_type: VisualizationType::Deflection,
        heat_scale: 2 * FIXED_ONE,
        ..VisualizationParameters::default()
    };
    let head = Head { yaw: 0, pitch: 0 };
    let values = ValueMap::new();
    let (_, draws) = p.frame(&values, &head, &Gaze { x: 0, y: 0 }, &vis).unwrap();
    assert_eq!(draws.len(), 2);
    for cmd in draws {
        assert_eq!(cmd.vis_type, VisualizationType::Deflection);
        assert_eq!(cmd.heat_scale, 2 * FIXED_ONE);
    }
}

#[test]
fn build_refuses_impossible_native_resolution() {
    let descs = vec![NodeDesc::Source { native: Size { width: 0, height: 480 } }];
    match Pipeline::build(&descs) {
        Err(PipelineError::InvalidResolution) => (),
        Ok(_) => panic!("a zero-width source must not build"),
    }
}

#[test]
fn negotiation_refuses_impossible_window_and_keeps_state() {
    let mut p = Pipeline::build(&two_node_descs()).unwrap();
    let good = p.negotiate(&hd_window()).unwrap();
    match p.negotiate(&Size { width: 0, height: 720 }) {
        Err(PipelineError::InvalidResolution) => (),
        Ok(_) => panic!("a zero-width window must not negotiate"),
    }
    // The last successfully negotiated state is still in force.
    let again = p.negotiate(&hd_window()).unwrap();
    assert_eq!(again, good);
}

#[test]
fn empty_value_map_leaves_every_node_mono() {
    let mut p = Pipeline::build(&two_node_descs()).unwrap();
    p.negotiate(&hd_window()).unwrap();
    p.update_values(&ValueMap::new());
    for cmd in p.render() {
        assert_eq!(cmd.vertex_count, 6);
    }
}

#[test]
fn display_only_pipeline_seeds_with_the_window() {
    let descs = vec![NodeDesc::Display];
    let mut p = Pipeline::build(&descs).unwrap();
    let window = Size { width: 800, height: 600 };
    let slots = p.negotiate(&window).unwrap();
    assert_eq!(slots.input_size, window);
    assert_eq!(slots.output_size, window);
}

#[test]
fn out_of_range_gaze_drops_the_frame_but_keeps_state() {
    let mut p = Pipeline::build(&two_node_descs()).unwrap();
    p.negotiate(&hd_window()).unwrap();
    let head = Head { yaw: 0, pitch: 0 };
    let too_far = Gaze { x: i64::MAX, y: 0 };
    let r = p.input(&head, &too_far, &VisualizationParameters::default());
    assert!(r.is_none());
    // The negotiated state is not corrupted: the next frame proceeds.
    let ok = p.input(&head, &Gaze { x: 0, y: 0 }, &VisualizationParameters::default());
    assert!(ok.is_some());
    assert_eq!(p.render().len(), 2);
}
