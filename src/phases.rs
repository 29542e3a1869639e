//! The start-up phases: waiting for assets, building what depends on them,
//! and running.
use vstd::prelude::*;

verus! {

/// Whether every flag is set: every asset of a group has arrived.
pub fn all_ready(ready: &Vec<bool>) -> (r: bool)
    ensures
        r == (forall|i: int| 0 <= i < ready@.len() ==> #[trigger] ready@[i]),
{
    let mut k: usize = 0;
    while k < ready.len()
        invariant
            k <= ready@.len(),
            forall|i: int| 0 <= i < k ==> #[trigger] ready@[i],
        decreases ready@.len() - k,
    {
        if !ready[k] {
            return false;
        }
        k = k + 1;
    }
    true
}

/// Phases of the physics sandbox: load meshes and scenes, generate
/// colliders from the meshes, spawn the scene, run.
#[derive(PartialEq, Eq, Structural, Clone, Copy, Debug)]
pub enum ChainPhase {
    Loading,
    Generating,
    Spawning,
    Running,
}

impl ChainPhase {
    /// The phase after one frame. Loading ends once `assets_ready`; the two
    /// middle phases last one frame each; running lasts.
    pub fn next(self, assets_ready: bool) -> (r: ChainPhase)
        ensures
            r == (match self {
                ChainPhase::Loading => if assets_ready {
                    ChainPhase::Generating
                } else {
                    ChainPhase::Loading
                },
                ChainPhase::Generating => ChainPhase::Spawning,
                ChainPhase::Spawning => ChainPhase::Running,
                ChainPhase::Running => ChainPhase::Running,
            }),
    {
        match self {
            ChainPhase::Loading => {
                if assets_ready {
                    ChainPhase::Generating
                } else {
                    ChainPhase::Loading
                }
            },
            ChainPhase::Generating => ChainPhase::Spawning,
            ChainPhase::Spawning => ChainPhase::Running,
            ChainPhase::Running => ChainPhase::Running,
        }
    }
}

/// Whether the sandbox may leave loading: all its scenes and all its meshes
/// have arrived.
pub fn sandbox_assets_ready(scenes: &Vec<bool>, meshes: &Vec<bool>) -> (r: bool)
    ensures
        r == ((forall|i: int| 0 <= i < scenes@.len() ==> #[trigger] scenes@[i]) && (forall|i: int|
            0 <= i < meshes@.len() ==> #[trigger] meshes@[i])),
{
    let scenes_loaded = all_ready(scenes);
    let meshes_loaded = all_ready(meshes);
    scenes_loaded && meshes_loaded
}

/// Phases of the navigation scene: load assets, set the scene up, run.
#[derive(PartialEq, Eq, Structural, Clone, Copy, Debug)]
pub enum ScenePhase {
    Loading,
    PreRunning,
    Running,
}

impl ScenePhase {
    /// The phase after one frame: loading ends once `assets_ready`, set-up
    /// once `setup_done`; running lasts.
    pub fn next(self, assets_ready: bool, setup_done: bool) -> (r: ScenePhase)
        ensures
            r == (match self {
                ScenePhase::Loading => if assets_ready {
                    ScenePhase::PreRunning
                } else {
                    ScenePhase::Loading
                },
                ScenePhase::PreRunning => if setup_done {
                    ScenePhase::Running
                } else {
                    ScenePhase::PreRunning
                },
                ScenePhase::Running => ScenePhase::Running,
            }),
    {
        match self {
            ScenePhase::Loading => {
                if assets_ready {
                    ScenePhase::PreRunning
                } else {
                    ScenePhase::Loading
                }
            },
            ScenePhase::PreRunning => {
                if setup_done {
                    ScenePhase::Running
                } else {
                    ScenePhase::PreRunning
                }
            },
            ScenePhase::Running => ScenePhase::Running,
        }
    }
}

/// The number of square layers in a sky box image whose faces are stacked
/// vertically: its height over its width.
pub fn stacked_layer_count(height: u32, width: u32) -> (r: u32)
    requires
        width > 0,
    ensures
        r == height / width,
{
    height / width
}

} // verus!
