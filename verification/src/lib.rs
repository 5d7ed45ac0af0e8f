//! Model of an immediate-mode GUI windowing integration.
//!
//! The crate describes, as verified state machines over plain values, the
//! logic that glues a native window and an OpenGL surface to an
//! immediate-mode GUI engine:
//!
//! - translating window events (resize, input, focus, DPI change) into the
//!   input primitives the GUI engine expects,
//! - the adaptive redraw schedule that polls while the user interacts and
//!   blocks when idle,
//! - reconciling the engine's requested mouse cursor with the OS cursor,
//! - physical/logical pixel conversions under a DPI scale,
//! - the engine's global style block.
//!
//! The actual calls into the window system, the GL loader and the GUI engine
//! are side effects; the functions here decide *what* to do and hand the
//! decisions out as command values for an unverified shell to perform.

pub mod conv;
pub mod event;
pub mod geom;
pub mod style;
pub mod window;
