//! What the scenes decide in a tick. How a scene looks is not decided here.

use vstd::prelude::*;

pub mod dvd;
pub mod flappy;
pub mod menu;
pub mod selftest;

verus! {

/// The scenes that the engine can show.
#[derive(Clone, Copy, Debug, PartialEq, Eq, Structural)]
pub enum SceneWrapper {
    MenuScene,
    FlappyScene,
    SelfTestScene,
}

/// What a scene asks of the engine at the end of a tick.
#[derive(Clone, Copy, Debug, PartialEq, Eq, Structural)]
pub enum UpdateResult {
    /// Stay in the scene.
    Stay,
    /// Show another scene, from its start.
    ChangeScene(SceneWrapper),
}

} // verus!
