//! The display node: the final stage of the pipeline. It consumes the
//! upstream color and deflection buffers, renders to the window at the
//! window's resolution, optionally splits the screen for stereo, and can
//! draw the deflection visualization instead of the plain output.

use vstd::prelude::*;
use crate::gaze::Gaze;
use crate::gaze::GAZE_RESULT_BOUND;
use crate::gaze::Size;
use crate::gaze::gaze_in_bounds;
use crate::gaze::remap_gaze;
use crate::gaze::remap_x;
use crate::gaze::remap_y;
use crate::gaze::valid_size;
use crate::slots::Slots;
use crate::value_map::Value;
use crate::value_map::ValueMap;
use crate::vis_param::FIXED_ONE;
use crate::vis_param::VisualizationParameters;
use crate::vis_param::VisualizationType;

verus! {

/// Head pose supplied by the HMD boundary each frame. The display stage
/// does not read it; it is threaded through for nodes that do.
#[derive(Clone, Copy, Debug, PartialEq, Eq, Structural)]
pub struct Head {
    /// Yaw angle, 1/65536 units.
    pub yaw: i64,
    /// Pitch angle, 1/65536 units.
    pub pitch: i64,
}

/// One draw the device layer must submit for a node this frame: how many
/// vertices of the node's quad geometry to draw and with which
/// visualization uniforms.
#[derive(Clone, Copy, Debug, PartialEq, Eq, Structural)]
pub struct DrawCommand {
    /// 6 vertices for a mono quad, 12 for the doubled stereo geometry.
    pub vertex_count: u32,
    /// Visualization shader variant to bind.
    pub vis_type: VisualizationType,
    /// Heat-map scale uniform, 1/65536 units.
    pub heat_scale: i64,
}

/// The display node's negotiated and per-frame state: the uniforms its
/// shader interface carries, with resolutions and scalars as plain
/// values. The GPU views themselves stay with the device layer.
#[derive(Clone, Copy, Debug, PartialEq, Eq, Structural)]
pub struct Display {
    /// Doubled-geometry stereo draw, from the value map each frame.
    pub stereo: bool,
    /// Negotiated input (upstream) resolution.
    pub resolution_in: Size,
    /// Negotiated output (window) resolution.
    pub resolution_out: Size,
    /// Whether a deflection buffer was bound during negotiation.
    pub deflection_bound: bool,
    /// Visualization variant recorded by `input` for this frame.
    pub vis_type: VisualizationType,
    /// Heat-map scale recorded by `input` for this frame, 1/65536 units.
    pub heat_scale: i64,
}

/// The state `Display::new` establishes: placeholder one-pixel
/// resolutions, mono drawing, plain output at heat scale one.
pub open spec fn initial_display() -> Display {
    Display {
        stereo: false,
        resolution_in: Size { width: 1, height: 1 },
        resolution_out: Size { width: 1, height: 1 },
        deflection_bound: false,
        vis_type: VisualizationType::Output,
        heat_scale: FIXED_ONE,
    }
}

/// The boundary a display republishes for its downstream neighbour: it
/// consumes the upstream output as its input and renders at the window
/// resolution, binding a color buffer and passing the deflection binding
/// through.
pub open spec fn display_output_slots(window: Size, slots: Slots) -> Slots {
    Slots {
        input_size: slots.output_size,
        output_size: window,
        has_color: true,
        has_deflection: slots.has_deflection,
    }
}

/// The display state after negotiating `slots` against `window`: the
/// resolutions and bindings are replaced, everything else is kept.
pub open spec fn display_negotiated(d: Display, window: Size, slots: Slots) -> Display {
    Display {
        resolution_in: slots.output_size,
        resolution_out: window,
        deflection_bound: slots.has_deflection,
        ..d
    }
}

/// The stereo switch a value map selects: the `split_screen_switch` key
/// if it is present and a switch, otherwise mono.
pub open spec fn stereo_of_values(values: ValueMap) -> bool {
    match values.spec_get("split_screen_switch"@) {
        Some(v) => match v {
            Value::Bool(b) => b,
            _ => false,
        },
        None => false,
    }
}

/// The draw a display state asks of the device layer: the doubled stereo
/// geometry when the stereo switch is on, with the visualization uniforms
/// recorded this frame.
pub open spec fn display_draw(d: Display) -> DrawCommand {
    DrawCommand {
        vertex_count: if d.stereo { 12 } else { 6 },
        vis_type: d.vis_type,
        heat_scale: d.heat_scale,
    }
}

impl Display {
    /// Builds the node before any negotiation. The device layer allocates
    /// its placeholder GPU resources; here the node starts from the
    /// one-pixel placeholder state that negotiation will resize.
    pub fn new() -> (r: Display)
        ensures
            r == initial_display(),
    {
        Display {
            stereo: false,
            resolution_in: Size { width: 1, height: 1 },
            resolution_out: Size { width: 1, height: 1 },
            deflection_bound: false,
            vis_type: VisualizationType::Output,
            heat_scale: FIXED_ONE,
        }
    }

    /// Consumes the upstream boundary, caches both resolutions for the
    /// gaze remap and the shader uniforms, and republishes its own output
    /// boundary. Renegotiation overwrites the negotiated state completely,
    /// so repeating a negotiation changes nothing.
    pub fn negociate_slots(&mut self, window: &Size, slots: Slots) -> (r: Slots)
        ensures
            *final(self) == display_negotiated(*old(self), *window, slots),
            r == display_output_slots(*window, slots),
    {
        self.resolution_in = slots.output_size;
        self.resolution_out = *window;
        self.deflection_bound = slots.has_deflection;
        Slots {
            input_size: slots.output_size,
            output_size: *window,
            has_color: true,
            has_deflection: slots.has_deflection,
        }
    }

    /// Reads the stereo switch for this frame; a missing or non-switch
    /// value falls back to the mono default. Nothing else changes, in
    /// particular no negotiated resolution.
    pub fn update_values(&mut self, values: &ValueMap)
        ensures
            *final(self) == (Display { stereo: stereo_of_values(*values), ..*old(self) }),
    {
        self.stereo = match values.get("split_screen_switch") {
            Some(v) => match v.as_bool() {
                Some(b) => b,
                None => false,
            },
            None => false,
        };
    }

    /// The per-frame gaze transform: remaps the gaze from output to input
    /// coordinates (letterboxing accounted for) and records the
    /// visualization parameters that `render` must honor this same frame.
    /// No GPU work happens here.
    pub fn input(&mut self, head: &Head, gaze: &Gaze, vis_param: &VisualizationParameters) -> (r:
        Gaze)
        requires
            valid_size(old(self).resolution_in),
            valid_size(old(self).resolution_out),
            gaze_in_bounds(*gaze),
        ensures
            *final(self) == (Display {
                vis_type: vis_param.vis_type,
                heat_scale: vis_param.heat_scale,
                ..*old(self)
            }),
            r.x == remap_x(
                gaze.x as int,
                old(self).resolution_in.width as int,
                old(self).resolution_in.height as int,
                old(self).resolution_out.width as int,
                old(self).resolution_out.height as int,
            ),
            r.y == remap_y(
                gaze.y as int,
                old(self).resolution_in.width as int,
                old(self).resolution_in.height as int,
                old(self).resolution_out.width as int,
                old(self).resolution_out.height as int,
            ),
            -GAZE_RESULT_BOUND <= r.x <= GAZE_RESULT_BOUND,
            -GAZE_RESULT_BOUND <= r.y <= GAZE_RESULT_BOUND,
    {
        let remapped = remap_gaze(gaze, &self.resolution_in, &self.resolution_out);
        self.vis_type = vis_param.vis_type;
        self.heat_scale = vis_param.heat_scale;
        remapped
    }

    /// Describes the draw work for this frame: the stereo switch selects
    /// the doubled geometry, and the visualization uniforms are exactly
    /// the ones `input` recorded. Negotiated state is untouched.
    pub fn render(&self) -> (r: DrawCommand)
        ensures
            r == display_draw(*self),
    {
        DrawCommand {
            vertex_count: if self.stereo { 12 } else { 6 },
            vis_type: self.vis_type,
            heat_scale: self.heat_scale,
        }
    }
}

/// Negotiating the same input boundary twice changes nothing: the second
/// pass leaves the node state where the first put it, and the republished
/// `Slots` is a function of the window and the input boundary alone, so
/// both calls return the same value.
pub proof fn lemma_negotiation_idempotent(d: Display, window: Size, slots: Slots)
    ensures
        display_negotiated(display_negotiated(d, window, slots), window, slots)
            == display_negotiated(d, window, slots),
{
}

/// The stereo switch read from the value map changes only the drawn
/// vertex count category (6 against 12): the negotiated resolutions and
/// the visualization uniforms of the frame stay exactly as they were.
pub proof fn lemma_stereo_changes_only_vertex_count(d: Display, values: ValueMap)
    ensures
        ({
            let toggled = Display { stereo: stereo_of_values(values), ..d };
            &&& toggled.resolution_in == d.resolution_in
            &&& toggled.resolution_out == d.resolution_out
            &&& toggled.deflection_bound == d.deflection_bound
            &&& display_draw(toggled).vis_type == display_draw(d).vis_type
            &&& display_draw(toggled).heat_scale == display_draw(d).heat_scale
            &&& display_draw(toggled).vertex_count == (if stereo_of_values(values) {
                12int
            } else {
                6int
            })
        }),
{
}

/// The visualization parameters recorded by `input` are the ones `render`
/// emits in the same frame: mode and heat scale pass through unchanged.
pub proof fn lemma_vis_params_same_frame(d: Display, vis_param: VisualizationParameters)
    ensures
        ({
            let recorded = Display {
                vis_type: vis_param.vis_type,
                heat_scale: vis_param.heat_scale,
                ..d
            };
            &&& display_draw(recorded).vis_type == vis_param.vis_type
            &&& display_draw(recorded).heat_scale == vis_param.heat_scale
        }),
{
}

} // verus!

