//! Entity, component and input bookkeeping for a small real-time renderer.

pub mod camera_control;
pub mod component;
pub mod game_object;
pub mod graphic_component;
pub mod input;
