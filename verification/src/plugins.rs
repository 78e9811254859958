//! The plugin and render-graph entry points the host engine instantiates.
//! Each is a unit type: the wiring they do against the engine's plugin
//! registry lives outside the library, which holds the decisions they rely
//! on.

use vstd::prelude::*;

verus! {

/// The OpenXR backend plugin.
#[derive(Clone, Copy, PartialEq, Eq, Structural, Default, Debug)]
pub struct OpenXrPlugin;

/// The WebXR backend plugin.
#[derive(Clone, Copy, PartialEq, Eq, Structural, Default, Debug)]
pub struct WebXrPlugin;

/// The plugin that registers the per-eye cameras and their view updates.
#[derive(Clone, Copy, PartialEq, Eq, Structural, Default, Debug)]
pub struct XrCameraPlugin;

/// The render-graph node that drives the per-eye camera subgraphs.
#[derive(Clone, Copy, PartialEq, Eq, Structural, Debug)]
pub struct XrCameraDriverNode;

/// The render-graph node that drives the main 2D/3D passes and the per-eye
/// passes.
#[derive(Clone, Copy, PartialEq, Eq, Structural, Debug)]
pub struct MainPassDriverNode;

/// The user-interface plugin.
#[derive(Clone, Copy, PartialEq, Eq, Structural, Default, Debug)]
pub struct UiPlugin;

/// Which draw subgraph a pass runs.
#[derive(Clone, Copy, PartialEq, Eq, Structural, Debug)]
pub enum DrawGraph {
    Draw2d,
    Draw3d,
}

/// One subgraph run of the main pass: which graph, driven by which camera
/// entity.
#[derive(Clone, Copy, PartialEq, Eq, Structural, Debug)]
pub struct SubGraphRun {
    pub graph: DrawGraph,
    pub camera: u64,
}

/// The subgraph runs of one frame of the main pass: the 3D camera's pass,
/// then the 2D camera's, then one 3D pass per active eye camera, left before
/// right; a camera that is absent contributes no pass.
pub open spec fn spec_main_pass_runs(
    camera_3d: Option<u64>,
    camera_2d: Option<u64>,
    left_eye: Option<u64>,
    right_eye: Option<u64>,
) -> Seq<SubGraphRun> {
    let base = Seq::<SubGraphRun>::empty();
    let with_3d = match camera_3d {
        Some(c) => base.push(SubGraphRun { graph: DrawGraph::Draw3d, camera: c }),
        None => base,
    };
    let with_2d = match camera_2d {
        Some(c) => with_3d.push(SubGraphRun { graph: DrawGraph::Draw2d, camera: c }),
        None => with_3d,
    };
    let with_left = match left_eye {
        Some(c) => with_2d.push(SubGraphRun { graph: DrawGraph::Draw3d, camera: c }),
        None => with_2d,
    };
    match right_eye {
        Some(c) => with_left.push(SubGraphRun { graph: DrawGraph::Draw3d, camera: c }),
        None => with_left,
    }
}

impl MainPassDriverNode {
    /// Decides the frame's subgraph runs from the cameras that are active.
    pub fn main_pass_runs(
        &self,
        camera_3d: Option<u64>,
        camera_2d: Option<u64>,
        left_eye: Option<u64>,
        right_eye: Option<u64>,
    ) -> (r: Vec<SubGraphRun>)
        ensures
            r@ == spec_main_pass_runs(camera_3d, camera_2d, left_eye, right_eye),
    {
        let mut runs: Vec<SubGraphRun> = Vec::new();
        if let Some(c) = camera_3d {
            runs.push(SubGraphRun { graph: DrawGraph::Draw3d, camera: c });
        }
        if let Some(c) = camera_2d {
            runs.push(SubGraphRun { graph: DrawGraph::Draw2d, camera: c });
        }
        if let Some(c) = left_eye {
            runs.push(SubGraphRun { graph: DrawGraph::Draw3d, camera: c });
        }
        if let Some(c) = right_eye {
            runs.push(SubGraphRun { graph: DrawGraph::Draw3d, camera: c });
        }
        proof {
            assert(runs@ =~= spec_main_pass_runs(camera_3d, camera_2d, left_eye, right_eye));
        }
        runs
    }
}

} // verus!
