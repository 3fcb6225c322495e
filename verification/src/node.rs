//! The node abstraction. Every pipeline stage honors the same contract:
//! `negociate_slots` consumes the upstream boundary and republishes its
//! own, `update_values` reads per-frame toggles, `input` remaps the gaze
//! and records the visualization parameters, and `render` describes the
//! draw work for the device layer. The pipeline holds a sequence of
//! `PipelineNode`, a tagged variant per node kind, built from a
//! `NodeDesc` topology description.

use vstd::prelude::*;
use crate::display::Display;
use crate::display::DrawCommand;
use crate::display::Head;
use crate::display::display_draw;
use crate::display::display_negotiated;
use crate::display::display_output_slots;
use crate::display::initial_display;
use crate::display::stereo_of_values;
use crate::gaze::Gaze;
use crate::gaze::GAZE_RESULT_BOUND;
use crate::gaze::Size;
use crate::gaze::gaze_in_bounds;
use crate::gaze::remap_gaze;
use crate::gaze::remap_x;
use crate::gaze::remap_y;
use crate::gaze::valid_size;
use crate::slots::Slots;
use crate::value_map::ValueMap;
use crate::vis_param::FIXED_ONE;
use crate::vis_param::VisualizationParameters;
use crate::vis_param::VisualizationType;

verus! {

/// The source node: renders the scene at its own native resolution,
/// whatever the seed boundary says, and ignores the value map.
#[derive(Clone, Copy, Debug, PartialEq, Eq, Structural)]
pub struct SourceNode {
    /// The resolution the source scene is rendered at.
    pub native: Size,
    /// Negotiated input (seed) resolution.
    pub resolution_in: Size,
    /// Negotiated output resolution; always the native one.
    pub resolution_out: Size,
    /// Visualization variant recorded by `input` for this frame.
    pub vis_type: VisualizationType,
    /// Heat-map scale recorded by `input` for this frame, 1/65536 units.
    pub heat_scale: i64,
}

/// The boundary a source republishes: its native resolution, a color
/// buffer, and the deflection binding passed through.
pub open spec fn source_output_slots(src: SourceNode, slots: Slots) -> Slots {
    Slots {
        input_size: slots.output_size,
        output_size: src.native,
        has_color: true,
        has_deflection: slots.has_deflection,
    }
}

/// The source state after negotiating `slots`: resolutions replaced,
/// native size and frame state kept.
pub open spec fn source_negotiated(src: SourceNode, slots: Slots) -> SourceNode {
    SourceNode { resolution_in: slots.output_size, resolution_out: src.native, ..src }
}

/// The draw a source asks of the device layer: its mono quad with the
/// recorded visualization uniforms.
pub open spec fn source_draw(src: SourceNode) -> DrawCommand {
    DrawCommand { vertex_count: 6, vis_type: src.vis_type, heat_scale: src.heat_scale }
}

impl SourceNode {
    /// Builds a source for a scene of the given native resolution; both
    /// negotiated resolutions start there.
    pub fn new(native: Size) -> (r: SourceNode)
        ensures
            r == (SourceNode {
                native,
                resolution_in: native,
                resolution_out: native,
                vis_type: VisualizationType::Output,
                heat_scale: FIXED_ONE,
            }),
    {
        SourceNode {
            native,
            resolution_in: native,
            resolution_out: native,
            vis_type: VisualizationType::Output,
            heat_scale: FIXED_ONE,
        }
    }
}

/// One entry of the static topology description a pipeline is built from.
#[derive(Clone, Copy, Debug, PartialEq, Eq, Structural)]
pub enum NodeDesc {
    /// A scene source with its native resolution.
    Source { native: Size },
    /// The final display stage.
    Display,
}

/// A description names resolutions the pipeline can negotiate.
pub open spec fn desc_valid(desc: NodeDesc) -> bool {
    match desc {
        NodeDesc::Source { native } => valid_size(native),
        NodeDesc::Display => true,
    }
}

/// One stage of the pipeline: the tagged variant over the node kinds,
/// all honoring the shared node contract.
#[derive(Clone, Copy, Debug, PartialEq, Eq, Structural)]
pub enum PipelineNode {
    Source(SourceNode),
    Display(Display),
}

/// The node a topology entry constructs.
pub open spec fn built_node(desc: NodeDesc) -> PipelineNode {
    match desc {
        NodeDesc::Source { native } => PipelineNode::Source(
            SourceNode {
                native,
                resolution_in: native,
                resolution_out: native,
                vis_type: VisualizationType::Output,
                heat_scale: FIXED_ONE,
            },
        ),
        NodeDesc::Display => PipelineNode::Display(initial_display()),
    }
}

/// The node's negotiated input resolution.
pub open spec fn node_resolution_in(n: PipelineNode) -> Size {
    match n {
        PipelineNode::Source(s) => s.resolution_in,
        PipelineNode::Display(d) => d.resolution_in,
    }
}

/// The node's negotiated output resolution.
pub open spec fn node_resolution_out(n: PipelineNode) -> Size {
    match n {
        PipelineNode::Source(s) => s.resolution_out,
        PipelineNode::Display(d) => d.resolution_out,
    }
}

/// Every resolution the node carries is negotiable.
pub open spec fn node_valid(n: PipelineNode) -> bool {
    &&& valid_size(node_resolution_in(n))
    &&& valid_size(node_resolution_out(n))
    &&& (n matches PipelineNode::Source(s) ==> valid_size(s.native))
}

/// The node state after a negotiation step.
pub open spec fn node_negotiated(n: PipelineNode, window: Size, slots: Slots) -> PipelineNode {
    match n {
        PipelineNode::Source(s) => PipelineNode::Source(source_negotiated(s, slots)),
        PipelineNode::Display(d) => PipelineNode::Display(display_negotiated(d, window, slots)),
    }
}

/// The boundary the node republishes for its downstream neighbour.
pub open spec fn node_output_slots(n: PipelineNode, window: Size, slots: Slots) -> Slots {
    match n {
        PipelineNode::Source(s) => source_output_slots(s, slots),
        PipelineNode::Display(d) => display_output_slots(window, slots),
    }
}

/// The node state after reading the value map: only the display's stereo
/// switch listens; the source keeps its defaults.
pub open spec fn node_updated(n: PipelineNode, values: ValueMap) -> PipelineNode {
    match n {
        PipelineNode::Source(s) => PipelineNode::Source(s),
        PipelineNode::Display(d) => PipelineNode::Display(
            Display { stereo: stereo_of_values(values), ..d },
        ),
    }
}

/// The node state after `input` recorded this frame's visualization
/// parameters.
pub open spec fn node_recorded(n: PipelineNode, vis_param: VisualizationParameters) -> PipelineNode {
    match n {
        PipelineNode::Source(s) => PipelineNode::Source(
            SourceNode { vis_type: vis_param.vis_type, heat_scale: vis_param.heat_scale, ..s },
        ),
        PipelineNode::Display(d) => PipelineNode::Display(
            Display { vis_type: vis_param.vis_type, heat_scale: vis_param.heat_scale, ..d },
        ),
    }
}

/// The draw work the node describes for this frame.
pub open spec fn node_draw(n: PipelineNode) -> DrawCommand {
    match n {
        PipelineNode::Source(s) => source_draw(s),
        PipelineNode::Display(d) => display_draw(d),
    }
}

/// The horizontal gaze coordinate one step upstream of this node.
pub open spec fn node_gaze_x(n: PipelineNode, x: int) -> int {
    remap_x(
        x,
        node_resolution_in(n).width as int,
        node_resolution_in(n).height as int,
        node_resolution_out(n).width as int,
        node_resolution_out(n).height as int,
    )
}

/// The vertical gaze coordinate one step upstream of this node.
pub open spec fn node_gaze_y(n: PipelineNode, y: int) -> int {
    remap_y(
        y,
        node_resolution_in(n).width as int,
        node_resolution_in(n).height as int,
        node_resolution_out(n).width as int,
        node_resolution_out(n).height as int,
    )
}

impl PipelineNode {
    /// Builds the node a topology entry describes.
    pub fn build(desc: &NodeDesc) -> (r: PipelineNode)
        ensures
            r == built_node(*desc),
    {
        match desc {
            NodeDesc::Source { native } => PipelineNode::Source(SourceNode::new(*native)),
            NodeDesc::Display => PipelineNode::Display(Display::new()),
        }
    }

    /// Negotiation step of the shared node contract: consume the upstream
    /// boundary, cache the resolutions, republish the own boundary.
    pub fn negociate_slots(&mut self, window: &Size, slots: Slots) -> (r: Slots)
        ensures
            *final(self) == node_negotiated(*old(self), *window, slots),
            r == node_output_slots(*old(self), *window, slots),
    {
        match self {
            PipelineNode::Source(s) => {
                s.resolution_in = slots.output_size;
                s.resolution_out = s.native;
                Slots {
                    input_size: slots.output_size,
                    output_size: s.native,
                    has_color: true,
                    has_deflection: slots.has_deflection,
                }
            },
            PipelineNode::Display(d) => d.negociate_slots(window, slots),
        }
    }

    /// Per-frame toggle step of the shared node contract.
    pub fn update_values(&mut self, values: &ValueMap)
        ensures
            *final(self) == node_updated(*old(self), *values),
    {
        match self {
            PipelineNode::Source(_) => (),
            PipelineNode::Display(d) => d.update_values(values),
        }
    }

    /// Gaze-transform step of the shared node contract: pure on the gaze,
    /// records the visualization parameters for `render`.
    pub fn input(&mut self, head: &Head, gaze: &Gaze, vis_param: &VisualizationParameters) -> (r:
        Gaze)
        requires
            node_valid(*old(self)),
            gaze_in_bounds(*gaze),
        ensures
            *final(self) == node_recorded(*old(self), *vis_param),
            r.x == node_gaze_x(*old(self), gaze.x as int),
            r.y == node_gaze_y(*old(self), gaze.y as int),
            -GAZE_RESULT_BOUND <= r.x <= GAZE_RESULT_BOUND,
            -GAZE_RESULT_BOUND <= r.y <= GAZE_RESULT_BOUND,
    {
        match self {
            PipelineNode::Source(s) => {
                let remapped = remap_gaze(gaze, &s.resolution_in, &s.resolution_out);
                s.vis_type = vis_param.vis_type;
                s.heat_scale = vis_param.heat_scale;
                remapped
            },
            PipelineNode::Display(d) => d.input(head, gaze, vis_param),
        }
    }

    /// Render step of the shared node contract: describes the draw work;
    /// negotiated state is untouched.
    pub fn render(&self) -> (r: DrawCommand)
        ensures
            r == node_draw(*self),
    {
        match self {
            PipelineNode::Source(s) => DrawCommand {
                vertex_count: 6,
                vis_type: s.vis_type,
                heat_scale: s.heat_scale,
            },
            PipelineNode::Display(d) => d.render(),
        }
    }
}

} // verus!
