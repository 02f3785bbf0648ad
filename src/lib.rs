//! The runtime of a small exploration game: world units and the screen
//! transform, sprite tables, a frame context with an ordered render queue and
//! audio commands, the proximity resolver, the story state, the rooms and the
//! per-frame game step. Window, input and audio devices live with the caller,
//! which feeds each frame in and carries each frame's commands out.
use vstd::prelude::*;

pub mod actor;
pub mod audio;
pub mod ctx;
pub mod game;
pub mod helper;
pub mod logic;
pub mod resolver;
pub mod scenes;
pub mod sprite;
pub mod state;
pub mod transform;

verus! {

} // verus!
