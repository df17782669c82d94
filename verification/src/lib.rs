//! Sprite-sheet frame animation: clips that advance a playhead over integer
//! time, a player that owns named clips, and a blend tree that picks a clip
//! from a two-dimensional control input.
//!
//! Time is measured in whole ticks. The host chooses the length of a tick
//! (a microsecond is a good choice) and converts its clock readings before it
//! calls in. Control vectors are integer pairs on a scale of the host's choice.

pub mod animate;
pub mod animate_player;
pub mod animate_tree;
pub mod player;
pub mod registry;
pub mod state;

pub use animate::{advance_frame, follow_tree};
pub use animate_tree::{
    Control, NodeView, SpriteAnimateNode, SpriteAnimateTree, SpriteAnimateVec2, TreeView,
};
pub use animate_player::{ClipNotFound, ClipView, FrameAnimate, PlayerView, SpriteAnimatePlayer};
