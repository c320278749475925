//! The menu: waits for the A button.

use vstd::prelude::*;
use crate::input::{Button, ButtonState, Input};
use crate::scenes::{SceneWrapper, UpdateResult};

verus! {

pub struct MenuScene;

impl MenuScene {
    pub fn new() -> (scene: Self) {
        Self {  }
    }

    /// Starts the game in the tick in which the A button goes down.
    pub fn update(&mut self, input: &Input) -> (result: UpdateResult)
        ensures
            result == if input.buttons()[Button::A.spec_index()] == ButtonState::JustPressed {
                UpdateResult::ChangeScene(SceneWrapper::FlappyScene)
            } else {
                UpdateResult::Stay
            },
    {
        if input.is_just_pressed(Button::A) {
            return UpdateResult::ChangeScene(SceneWrapper::FlappyScene);
        }
        UpdateResult::Stay
    }
}

} // verus!
