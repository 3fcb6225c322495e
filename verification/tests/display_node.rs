use vss::display::{Display, Head};
use vss::gaze::{Gaze, Size};
use vss::slots::Slots;
use vss::value_map::{Value, ValueMap};
use vss::vis_param::{VisualizationParameters, VisualizationType, FIXED_ONE};

fn hd_window() -> Size {
    Size { width: 1280, height: 720 }
}

fn vga_boundary() -> Slots {
    Slots {
        input_size: Size { width: 640, height: 480 },
        output_size: Size { width: 640, height: 480 },
        has_color: true,
        has_deflection: false,
    }
}

#[test]
fn new_display_starts_mono_with_placeholder_resolutions() {
    let d = Display::new();
    assert!(!d.stereo);
    assert_eq!(d.resolution_in, Size { width: 1, height: 1 });
    assert_eq!(d.resolution_out, Size { width: 1, height: 1 });
    assert_eq!(d.vis_type, VisualizationType::Output);
    assert_eq!(d.heat_scale, FIXED_ONE);
}

#[test]
fn negotiation_consumes_upstream_output_and_targets_window() {
    let mut d = Display::new();
    let out = d.negociate_slots(&hd_window(), vga_boundary());
    assert_eq!(d.resolution_in, Size { width: 640, height: 480 });
    assert_eq!(d.resolution_out, hd_window());
    assert_eq!(out.input_size, Size { width: 640, height: 480 });
    assert_eq!(out.output_size, hd_window());
    assert!(out.has_color);
}

#[test]
fn negotiation_twice_with_same_boundary_changes_nothing() {
    let mut d = Display::new();
    let first = d.negociate_slots(&hd_window(), vga_boundary());
    let after_first = d;
    let second = d.negociate_slots(&hd_window(), vga_boundary());
    assert_eq!(first, second);
    assert_eq!(d, after_first);
}

#[test]
fn stereo_switch_comes_from_value_map() {
    let mut d = Display::new();
    let mut values = ValueMap::new();
    values.set("split_screen_switch", Value::Bool(true));
    d.update_values(&values);
    assert!(d.stereo);
    assert_eq!(d.render().vertex_count, 12);
}

#[test]
fn missing_or_non_switch_value_means_mono() {
    let mut d = Display::new();
    let empty = ValueMap::new();
    d.update_values(&empty);
    assert!(!d.stereo);

    let mut wrong = ValueMap::new();
    wrong.set("split_screen_switch", Value::Number(FIXED_ONE));
    d.update_values(&wrong);
    assert!(!d.stereo);
    assert_eq!(d.render().vertex_count, 6);
}

#[test]
fn stereo_toggle_does_not_touch_negotiated_resolutions() {
    let mut d = Display::new();
    d.negociate_slots(&hd_window(), vga_boundary());
    let mut values = ValueMap::new();
    values.set("split_screen_switch", Value::Bool(true));
    d.update_values(&values);
    assert_eq!(d.resolution_in, Size { width: 640, height: 480 });
    assert_eq!(d.resolution_out, hd_window());
}

#[test]
fn input_records_vis_params_for_same_frame_render() {
    let mut d = Display::new();
    d.negociate_slots(&hd_window(), vga_boundary());
    let vis = VisualizationParameters {
        vis_type: VisualizationType::Deflection,
        heat_scale: 2 * FIXED_ONE,
        ..VisualizationParameters::default()
    };
    let head = Head { yaw: 0, pitch: 0 };
    d.input(&head, &Gaze { x: 32768, y: 32768 }, &vis);
    let cmd = d.render();
    assert_eq!(cmd.vis_type, VisualizationType::Deflection);
    assert_eq!(cmd.heat_scale, 2 * FIXED_ONE);
    assert_eq!(cmd.vertex_count, 6);
}

#[test]
fn input_remaps_gaze_with_negotiated_resolutions() {
    let mut d = Display::new();
    let boundary = Slots {
        input_size: Size { width: 1, height: 1 },
        output_size: Size { width: 1, height: 1 },
        has_color: true,
        has_deflection: false,
    };
    // input 1x1, output 2x1: x scales by 2 and shifts by half.
    d.negociate_slots(&Size { width: 2, height: 1 }, boundary);
    let head = Head { yaw: 0, pitch: 0 };
    let out = d.input(
        &head,
        &Gaze { x: 16384, y: 32768 },
        &VisualizationParameters::default(),
    );
    assert_eq!(out, Gaze { x: 0, y: 32768 });
}
