//! Generation engine for an animated fractal tree.
//!
//! A tree is grown one generation per tick: every segment of the current
//! frontier spawns two shorter, rotated children, and the frontier is
//! replaced wholesale by the admitted children. The segments live on an
//! integer pixel grid; the trigonometric derivation of each child's far
//! endpoint is floating-point work done by the rendering shell, which hands
//! the engine plain integer coordinates. Everything the engine decides —
//! connectivity, depth, spread propagation, pair admission, the frontier
//! swap — is verified here.

pub mod engine;
pub mod segment;
