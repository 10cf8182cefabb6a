//! Labels of the GUI render sub-graph and the node that starts it.

use vstd::prelude::*;

verus! {

/// Label of the render sub-graph that draws the GUI of one view.
#[derive(Debug, Hash, PartialEq, Eq, Clone, Copy, Structural)]
pub struct SubGraphEgui;

/// Labels of the nodes inside [`SubGraphEgui`].
#[derive(Debug, Hash, PartialEq, Eq, Clone, Copy, Structural)]
pub enum NodeEgui {
    /// The pass that issues the GUI draw calls.
    EguiPass,
}

/// Render-side link from a camera view to the GUI view drawn on top of it.
#[derive(Debug, Clone, Copy, PartialEq, Eq, Hash, Structural)]
pub struct EguiCameraView(pub u64);

/// Render-side link from a GUI view back to the camera view it is drawn on.
#[derive(Debug, Clone, Copy, PartialEq, Eq, Hash, Structural)]
pub struct EguiViewTarget(pub u64);

/// A request to run a sub-graph on a view.
#[derive(Debug, Clone, Copy, PartialEq, Eq, Hash, Structural)]
pub struct SubGraphRun {
    /// The sub-graph to run.
    pub sub_graph: SubGraphEgui,
    /// The view to run it on.
    pub view_entity: u64,
}

/// Node of a camera's render graph that runs the GUI sub-graph on the
/// camera's GUI view.
#[derive(Debug, Clone, Copy)]
pub struct RunEguiSubgraphOnEguiViewNode;

impl RunEguiSubgraphOnEguiViewNode {
    /// What the node does for a camera view: where the view is linked to a
    /// GUI view, the GUI sub-graph is run on that; where it is not, nothing
    /// is run.
    pub fn run(&self, camera_view: Option<EguiCameraView>) -> (r: Option<SubGraphRun>)
        ensures
            r == match camera_view {
                Some(link) => Some(SubGraphRun { sub_graph: SubGraphEgui, view_entity: link.0 }),
                None => None,
            },
    {
        match camera_view {
            Some(link) => Some(SubGraphRun { sub_graph: SubGraphEgui, view_entity: link.0 }),
            None => None,
        }
    }
}

/// The nodes of the GUI sub-graph, in the order in which they run.
pub fn get_egui_graph() -> (nodes: Vec<NodeEgui>)
    ensures
        nodes@ == seq![NodeEgui::EguiPass],
{
    let mut nodes: Vec<NodeEgui> = Vec::new();
    nodes.push(NodeEgui::EguiPass);
    nodes
}

} // verus!
