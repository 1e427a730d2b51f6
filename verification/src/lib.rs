//! A falling-block puzzle prototype: a catalog of four-by-four pieces, the
//! placement of a piece's blocks on screen, and the per-frame rules that move
//! the active piece. Window, keyboard and clock stay with the caller.

pub mod stage;
pub mod shapes;
pub mod render;
pub mod chance;
pub mod play;
