//! Mesh thumbnail rendering: the decisions and data handling around a GPU render,
//! stated and proved with Verus. GPU calls, floating-point geometry and the
//! foreign call boundary live in the application crate around this library.

pub mod pixels;
pub mod context;
pub mod window;
pub mod mesh;
pub mod bridge;
