//! The pipeline: an ordered sequence of nodes built from a topology
//! description. At build or resize time it threads a `Slots` boundary
//! through every node's negotiation in order; each frame it runs the
//! update/input passes over all nodes before any render work is
//! described, folding the gaze upstream through the chain.

use vstd::prelude::*;
use crate::display::DrawCommand;
use crate::display::Head;
use crate::gaze::GAZE_BOUND;
use crate::gaze::Gaze;
use crate::gaze::Size;
use crate::gaze::valid_size;
use crate::node::NodeDesc;
use crate::node::PipelineNode;
use crate::node::built_node;
use crate::node::desc_valid;
use crate::node::node_draw;
use crate::node::node_gaze_x;
use crate::node::node_gaze_y;
use crate::node::node_negotiated;
use crate::node::node_output_slots;
use crate::node::node_recorded;
use crate::node::node_resolution_in;
use crate::node::node_resolution_out;
use crate::node::node_updated;
use crate::node::node_valid;
use crate::slots::Slots;
use crate::slots::valid_slots;
use crate::value_map::ValueMap;
use crate::vis_param::VisualizationParameters;

verus! {

/// Why a pipeline build or renegotiation was refused. Such a failure is
/// fatal to the pass that raised it: the pipeline keeps its last
/// successfully negotiated state.
#[derive(Clone, Copy, Debug, PartialEq, Eq, Structural)]
pub enum PipelineError {
    /// A requested resolution is zero or beyond `MAX_DIMENSION`.
    InvalidResolution,
}

/// Every node of the sequence carries negotiable resolutions.
pub open spec fn nodes_valid(nodes: Seq<PipelineNode>) -> bool {
    forall|i: int| 0 <= i < nodes.len() ==> node_valid(#[trigger] nodes[i])
}

/// The resolution a negotiation pass is seeded with: the source's native
/// resolution when the chain starts with a source, else the window's.
pub open spec fn seed_size(nodes: Seq<PipelineNode>, window: Size) -> Size {
    if nodes.len() > 0 && nodes[0] is Source {
        nodes[0]->Source_0.native
    } else {
        window
    }
}

/// The boundary consumed by node `i` during a negotiation pass: the seed
/// for the first node, then each node's republished boundary in order.
pub open spec fn slots_at(nodes: Seq<PipelineNode>, window: Size, i: int) -> Slots
    decreases i,
{
    if i <= 0 {
        Slots {
            input_size: seed_size(nodes, window),
            output_size: seed_size(nodes, window),
            has_color: true,
            has_deflection: false,
        }
    } else {
        node_output_slots(nodes[i - 1], window, slots_at(nodes, window, i - 1))
    }
}

/// Whether one gaze coordinate pair may enter a node's `input`.
pub open spec fn pair_in_bounds(gx: int, gy: int) -> bool {
    &&& -GAZE_BOUND <= gx <= GAZE_BOUND
    &&& -GAZE_BOUND <= gy <= GAZE_BOUND
}

/// The gaze pair after the first `i` nodes of the chain transformed the
/// incoming pair in order.
pub open spec fn gaze_after(nodes: Seq<PipelineNode>, gx: int, gy: int, i: int) -> (int, int)
    decreases i,
{
    if i <= 0 {
        (gx, gy)
    } else {
        let p = gaze_after(nodes, gx, gy, i - 1);
        (node_gaze_x(nodes[i - 1], p.0), node_gaze_y(nodes[i - 1], p.1))
    }
}

/// Whether the fold of the gaze through the first `i` nodes stays within
/// the bounds every node's `input` accepts.
pub open spec fn gaze_ok(nodes: Seq<PipelineNode>, gx: int, gy: int, i: int) -> bool
    decreases i,
{
    if i <= 0 {
        true
    } else {
        gaze_ok(nodes, gx, gy, i - 1) && pair_in_bounds(
            gaze_after(nodes, gx, gy, i - 1).0,
            gaze_after(nodes, gx, gy, i - 1).1,
        )
    }
}

/// A fold that is in bounds through `j` nodes is in bounds through any
/// earlier prefix.
pub proof fn lemma_gaze_ok_prefix(nodes: Seq<PipelineNode>, gx: int, gy: int, i: int, j: int)
    requires
        0 <= i <= j,
        gaze_ok(nodes, gx, gy, j),
    ensures
        gaze_ok(nodes, gx, gy, i),
    decreases j - i,
{
    if i < j {
        lemma_gaze_ok_prefix(nodes, gx, gy, i, j - 1);
    }
}

/// The render graph: an ordered node sequence driven through negotiation
/// and the per-frame update/input/render cycle.
#[derive(Debug)]
pub struct Pipeline {
    pub nodes: Vec<PipelineNode>,
}

impl Pipeline {
    /// All resolutions the pipeline carries are negotiable; established
    /// at build time and preserved by every pass.
    pub open spec fn wf(&self) -> bool {
        nodes_valid(self.nodes@)
    }

    /// Builds one node per topology entry, in order. Construction fails
    /// as a whole if any entry names an impossible resolution: no partial
    /// pipeline is returned.
    pub fn build(descs: &Vec<NodeDesc>) -> (r: Result<Pipeline, PipelineError>)
        ensures
            (forall|i: int| 0 <= i < descs@.len() ==> desc_valid(#[trigger] descs@[i])) <==> r is Ok,
            r matches Ok(p) ==> {
                &&& p.nodes@.len() == descs@.len()
                &&& forall|i: int|
                    0 <= i < descs@.len() ==> p.nodes@[i] == built_node(#[trigger] descs@[i])
                &&& p.wf()
            },
            r is Err ==> r == Err::<Pipeline, PipelineError>(PipelineError::InvalidResolution),
    {
        let mut nodes: Vec<PipelineNode> = Vec::new();
        let mut i: usize = 0;
        while i < descs.len()
            invariant
                i <= descs@.len(),
                nodes@.len() == i,
                forall|j: int| 0 <= j < i ==> nodes@[j] == built_node(#[trigger] descs@[j]),
                forall|j: int| 0 <= j < i ==> desc_valid(#[trigger] descs@[j]),
                forall|j: int| 0 <= j < i ==> node_valid(#[trigger] nodes@[j]),
            decreases descs@.len() - i,
        {
            let desc = &descs[i];
            match desc {
                NodeDesc::Source { native } => {
                    if native.width < 1 || native.width > 8192 || native.height < 1
                        || native.height > 8192 {
                        return Err(PipelineError::InvalidResolution);
                    }
                },
                NodeDesc::Display => (),
            }
            nodes.push(PipelineNode::build(desc));
            i = i + 1;
        }
        Ok(Pipeline { nodes })
    }

    /// One full negotiation pass: seeds a boundary and threads it through
    /// every node in order, each consuming the upstream boundary and
    /// republishing its own. Runs at build time and again on any resize
    /// or topology trigger; an impossible window resolution refuses the
    /// pass and leaves the last negotiated state untouched.
    pub fn negotiate(&mut self, window: &Size) -> (r: Result<Slots, PipelineError>)
        requires
            old(self).wf(),
        ensures
            r is Ok <==> valid_size(*window),
            r is Err ==> *final(self) == *old(self) && r == Err::<Slots, PipelineError>(
                PipelineError::InvalidResolution,
            ),
            r matches Ok(s) ==> {
                &&& s == slots_at(old(self).nodes@, *window, old(self).nodes@.len() as int)
                &&& final(self).nodes@.len() == old(self).nodes@.len()
                &&& forall|i: int|
                    0 <= i < old(self).nodes@.len() ==> final(self).nodes@[i] == node_negotiated(
                        #[trigger] old(self).nodes@[i],
                        *window,
                        slots_at(old(self).nodes@, *window, i),
                    )
                &&& final(self).wf()
            },
    {
        if window.width < 1 || window.width > 8192 || window.height < 1 || window.height > 8192 {
            return Err(PipelineError::InvalidResolution);
        }
        let ghost orig = self.nodes@;
        let seed = match &self.nodes.first() {
            Some(PipelineNode::Source(s)) => s.native,
            _ => *window,
        };
        let mut cur = Slots::seed(seed);
        proof {
            assert(cur == slots_at(orig, *window, 0));
        }
        let n = self.nodes.len();
        let mut i: usize = 0;
        while i < n
            invariant
                i <= n,
                n == orig.len(),
                self.nodes@.len() == n,
                nodes_valid(orig),
                valid_size(*window),
                forall|j: int| i <= j < n ==> self.nodes@[j] == orig[j],
                forall|j: int|
                    0 <= j < i ==> self.nodes@[j] == node_negotiated(
                        #[trigger] orig[j],
                        *window,
                        slots_at(orig, *window, j),
                    ),
                forall|j: int| 0 <= j < i ==> node_valid(#[trigger] self.nodes@[j]),
                cur == slots_at(orig, *window, i as int),
                valid_slots(cur),
            decreases n - i,
        {
            let out = self.nodes[i].negociate_slots(window, cur);
            proof {
                assert(slots_at(orig, *window, i + 1) == node_output_slots(
                    orig[i as int],
                    *window,
                    slots_at(orig, *window, i as int),
                ));
                assert(node_valid(self.nodes@[i as int]));
                assert(valid_slots(out));
            }
            cur = out;
            i = i + 1;
        }
        Ok(cur)
    }

    /// First per-frame pass: every node reads its toggles from the value
    /// map, in order. No negotiated resolution changes.
    pub fn update_values(&mut self, values: &ValueMap)
        requires
            old(self).wf(),
        ensures
            final(self).nodes@.len() == old(self).nodes@.len(),
            forall|i: int|
                0 <= i < old(self).nodes@.len() ==> final(self).nodes@[i] == node_updated(
                    #[trigger] old(self).nodes@[i],
                    *values,
                ),
            final(self).wf(),
    {
        let ghost orig = self.nodes@;
        let n = self.nodes.len();
        let mut i: usize = 0;
        while i < n
            invariant
                i <= n,
                n == orig.len(),
                self.nodes@.len() == n,
                nodes_valid(orig),
                forall|j: int| i <= j < n ==> self.nodes@[j] == orig[j],
                forall|j: int|
                    0 <= j < i ==> self.nodes@[j] == node_updated(#[trigger] orig[j], *values),
                forall|j: int| 0 <= j < i ==> node_valid(#[trigger] self.nodes@[j]),
            decreases n - i,
        {
            proof {
                assert(node_valid(orig[i as int]));
            }
            self.nodes[i].update_values(values);
            proof {
                assert(node_valid(self.nodes@[i as int]));
            }
            i = i + 1;
        }
    }

    /// Second per-frame pass: folds the gaze upstream through every node
    /// in order while each node records this frame's visualization
    /// parameters. Completes for all nodes before any render work is
    /// described. Returns `None` — the frame is dropped — if the folded
    /// gaze leaves the accepted coordinate range; negotiated state is
    /// never corrupted either way.
    pub fn input(
        &mut self,
        head: &Head,
        gaze: &Gaze,
        vis_param: &VisualizationParameters,
    ) -> (r: Option<Gaze>)
        requires
            old(self).wf(),
        ensures
            final(self).nodes@.len() == old(self).nodes@.len(),
            r is Some <==> gaze_ok(
                old(self).nodes@,
                gaze.x as int,
                gaze.y as int,
                old(self).nodes@.len() as int,
            ),
            r matches Some(g) ==> {
                &&& g.x == gaze_after(
                    old(self).nodes@,
                    gaze.x as int,
                    gaze.y as int,
                    old(self).nodes@.len() as int,
                ).0
                &&& g.y == gaze_after(
                    old(self).nodes@,
                    gaze.x as int,
                    gaze.y as int,
                    old(self).nodes@.len() as int,
                ).1
                &&& forall|i: int|
                    0 <= i < old(self).nodes@.len() ==> final(self).nodes@[i] == node_recorded(
                        #[trigger] old(self).nodes@[i],
                        *vis_param,
                    )
            },
            forall|i: int|
                0 <= i < old(self).nodes@.len() ==> final(self).nodes@[i] == node_recorded(
                    #[trigger] old(self).nodes@[i],
                    *vis_param,
                ) || final(self).nodes@[i] == old(self).nodes@[i],
            final(self).wf(),
    {
        let ghost orig = self.nodes@;
        let ghost gx0 = gaze.x as int;
        let ghost gy0 = gaze.y as int;
        let n = self.nodes.len();
        let mut g = *gaze;
        let mut i: usize = 0;
        while i < n
            invariant
                i <= n,
                n == orig.len(),
                orig == old(self).nodes@,
                gx0 == gaze.x as int,
                gy0 == gaze.y as int,
                self.nodes@.len() == n,
                nodes_valid(orig),
                forall|j: int| i <= j < n ==> self.nodes@[j] == orig[j],
                forall|j: int|
                    0 <= j < i ==> self.nodes@[j] == node_recorded(#[trigger] orig[j], *vis_param),
                forall|j: int| 0 <= j < i ==> node_valid(#[trigger] self.nodes@[j]),
                gaze_ok(orig, gx0, gy0, i as int),
                g.x as int == gaze_after(orig, gx0, gy0, i as int).0,
                g.y as int == gaze_after(orig, gx0, gy0, i as int).1,
            decreases n - i,
        {
            if g.x > GAZE_BOUND || g.x < -GAZE_BOUND || g.y > GAZE_BOUND || g.y < -GAZE_BOUND {
                proof {
                    assert(!pair_in_bounds(
                        gaze_after(orig, gx0, gy0, i as int).0,
                        gaze_after(orig, gx0, gy0, i as int).1,
                    ));
                    assert(!gaze_ok(orig, gx0, gy0, i as int + 1));
                    if gaze_ok(orig, gx0, gy0, n as int) {
                        lemma_gaze_ok_prefix(orig, gx0, gy0, i as int + 1, n as int);
                    }
                    assert forall|j: int| 0 <= j < n implies node_valid(
                        #[trigger] self.nodes@[j],
                    ) by {
                        if i <= j {
                            assert(self.nodes@[j] == orig[j]);
                            assert(node_valid(orig[j]));
                        }
                    }
                }
                return None;
            }
            proof {
                assert(node_valid(orig[i as int]));
            }
            let g2 = self.nodes[i].input(head, &g, vis_param);
            proof {
                assert(node_valid(self.nodes@[i as int]));
            }
            proof {
                assert(gaze_after(orig, gx0, gy0, i + 1) == (
                    node_gaze_x(orig[i as int], gaze_after(orig, gx0, gy0, i as int).0),
                    node_gaze_y(orig[i as int], gaze_after(orig, gx0, gy0, i as int).1),
                ));
            }
            g = g2;
            i = i + 1;
        }
        Some(g)
    }

    /// One whole frame step: the update and input passes run over every
    /// node, in order, before any render work is described; then the
    /// render pass collects one draw command per node. When the folded
    /// gaze leaves the accepted range the frame is dropped (`None`): no
    /// draw work is described and the negotiated state stays good for the
    /// next frame.
    pub fn frame(
        &mut self,
        values: &ValueMap,
        head: &Head,
        gaze: &Gaze,
        vis_param: &VisualizationParameters,
    ) -> (r: Option<(Gaze, Vec<DrawCommand>)>)
        requires
            old(self).wf(),
        ensures
            ({
                let updated = Seq::new(
                    old(self).nodes@.len(),
                    |i: int| node_updated(old(self).nodes@[i], *values),
                );
                &&& final(self).nodes@.len() == old(self).nodes@.len()
                &&& final(self).wf()
                &&& (r is Some <==> gaze_ok(
                    updated,
                    gaze.x as int,
                    gaze.y as int,
                    updated.len() as int,
                ))
                &&& (r matches Some(p) ==> {
                    &&& p.0.x == gaze_after(
                        updated,
                        gaze.x as int,
                        gaze.y as int,
                        updated.len() as int,
                    ).0
                    &&& p.0.y == gaze_after(
                        updated,
                        gaze.x as int,
                        gaze.y as int,
                        updated.len() as int,
                    ).1
                    &&& forall|i: int|
                        0 <= i < updated.len() ==> final(self).nodes@[i] == node_recorded(
                            #[trigger] updated[i],
                            *vis_param,
                        )
                    &&& p.1@.len() == updated.len()
                    &&& forall|i: int|
                        0 <= i < updated.len() ==> p.1@[i] == node_draw(
                            node_recorded(#[trigger] updated[i], *vis_param),
                        )
                })
            }),
    {
        let ghost updated = Seq::new(
            old(self).nodes@.len(),
            |i: int| node_updated(old(self).nodes@[i], *values),
        );
        self.update_values(values);
        proof {
            assert(self.nodes@ =~= updated);
        }
        match self.input(head, gaze, vis_param) {
            None => None,
            Some(g) => {
                let commands = self.render();
                Some((g, commands))
            },
        }
    }

    /// Third per-frame pass: collects, in pipeline order, the draw work
    /// every node asks of the device layer this frame. Reads only; the
    /// stereo switch and the recorded visualization parameters of each
    /// node select its command.
    pub fn render(&self) -> (r: Vec<DrawCommand>)
        ensures
            r@.len() == self.nodes@.len(),
            forall|i: int|
                0 <= i < self.nodes@.len() ==> r@[i] == node_draw(#[trigger] self.nodes@[i]),
    {
        let mut commands: Vec<DrawCommand> = Vec::new();
        let n = self.nodes.len();
        let mut i: usize = 0;
        while i < n
            invariant
                i <= n,
                n == self.nodes@.len(),
                commands@.len() == i,
                forall|j: int| 0 <= j < i ==> commands@[j] == node_draw(#[trigger] self.nodes@[j]),
            decreases n - i,
        {
            let cmd = self.nodes[i].render();
            commands.push(cmd);
            i = i + 1;
        }
        commands
    }
}

/// Adjacent nodes never disagree on a resolution: after one negotiation
/// pass, the output resolution a node negotiated equals the input
/// resolution its downstream neighbour negotiated.
pub proof fn lemma_adjacent_resolutions(nodes: Seq<PipelineNode>, window: Size, i: int)
    requires
        0 <= i,
        i + 1 < nodes.len(),
    ensures
        node_resolution_out(node_negotiated(nodes[i], window, slots_at(nodes, window, i)))
            == node_resolution_in(
            node_negotiated(nodes[i + 1], window, slots_at(nodes, window, i + 1)),
        ),
{
    assert(slots_at(nodes, window, i + 1) == node_output_slots(
        nodes[i],
        window,
        slots_at(nodes, window, i),
    ));
}

/// Reading the value map never alters negotiation: whatever the stereo
/// switch says, the node republishes the same boundary and keeps its
/// negotiated resolutions and recorded visualization uniforms; on a
/// display node only the drawn vertex count category follows the switch.
pub proof fn lemma_stereo_toggle_needs_no_renegotiation(
    n: PipelineNode,
    values: ValueMap,
    window: Size,
    slots: Slots,
)
    ensures
        node_output_slots(node_updated(n, values), window, slots)
            == node_output_slots(n, window, slots),
        node_resolution_in(node_updated(n, values)) == node_resolution_in(n),
        node_resolution_out(node_updated(n, values)) == node_resolution_out(n),
        node_draw(node_updated(n, values)).vis_type == node_draw(n).vis_type,
        node_draw(node_updated(n, values)).heat_scale == node_draw(n).heat_scale,
        n matches PipelineNode::Display(d) ==> node_draw(node_updated(n, values)).vertex_count
            == (if crate::display::stereo_of_values(values) {
            12int
        } else {
            6int
        }),
{
}

/// A negotiation pass does not change what any node of the chain
/// republishes: after one pass, every boundary of a second pass against
/// the same window equals the boundary of the first.
pub proof fn lemma_chain_boundaries_stable(
    nodes: Seq<PipelineNode>,
    window: Size,
    renegotiated: Seq<PipelineNode>,
    i: int,
)
    requires
        renegotiated.len() == nodes.len(),
        forall|j: int|
            0 <= j < nodes.len() ==> renegotiated[j] == node_negotiated(
                #[trigger] nodes[j],
                window,
                slots_at(nodes, window, j),
            ),
        0 <= i <= nodes.len(),
    ensures
        slots_at(renegotiated, window, i) == slots_at(nodes, window, i),
    decreases i,
{
    if i > 0 {
        lemma_chain_boundaries_stable(nodes, window, renegotiated, i - 1);
        lemma_node_negotiation_idempotent(nodes[i - 1], window, slots_at(nodes, window, i - 1));
    }
}

/// A whole renegotiation pass with the same window is idempotent: every
/// node consumes the same boundary as in the first pass and keeps exactly
/// the state the first pass gave it.
pub proof fn lemma_pipeline_negotiation_idempotent(nodes: Seq<PipelineNode>, window: Size)
    ensures
        ({
            let renegotiated = Seq::new(
                nodes.len(),
                |j: int| node_negotiated(nodes[j], window, slots_at(nodes, window, j)),
            );
            forall|i: int|
                0 <= i < nodes.len() ==> node_negotiated(
                    #[trigger] renegotiated[i],
                    window,
                    slots_at(renegotiated, window, i),
                ) == renegotiated[i]
        }),
{
    let renegotiated = Seq::new(
        nodes.len(),
        |j: int| node_negotiated(nodes[j], window, slots_at(nodes, window, j)),
    );
    assert forall|i: int| 0 <= i < nodes.len() implies node_negotiated(
        #[trigger] renegotiated[i],
        window,
        slots_at(renegotiated, window, i),
    ) == renegotiated[i] by {
        lemma_chain_boundaries_stable(nodes, window, renegotiated, i);
        lemma_node_negotiation_idempotent(nodes[i], window, slots_at(nodes, window, i));
    }
}

/// A node's negotiation is idempotent: negotiating the same boundary
/// against the same window a second time leaves the node state exactly
/// where the first pass put it, and the republished boundary — a function
/// of the node's fixed native choice, the window and the input boundary —
/// is the same both times.
pub proof fn lemma_node_negotiation_idempotent(n: PipelineNode, window: Size, slots: Slots)
    ensures
        node_negotiated(node_negotiated(n, window, slots), window, slots)
            == node_negotiated(n, window, slots),
        node_output_slots(node_negotiated(n, window, slots), window, slots)
            == node_output_slots(n, window, slots),
{
}

} // verus!
