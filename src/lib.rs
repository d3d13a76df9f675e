//! Safe bindings to the raylib multimedia library: the verified part.
//!
//! The native library is reached only from the surrounding application code. This crate
//! holds the decisions made around those calls, each proved against its contract: the
//! one-context-per-process guard, the stack of drawing brackets that must close last
//! opened first, the per-frame input queues that hand each event out once, the mapping of
//! native codes to keys, buttons and gestures, the option bit sets, log routing, and the
//! checks made before text or a loaded handle is trusted.

pub mod audio;
pub mod color;
pub mod cursor;
pub mod drawing;
pub mod encoding;
pub mod gamepad;
pub mod keyboard;
pub mod monitor;
pub mod mouse;
pub mod scope;
pub mod structs;
pub mod system;
pub mod text;
pub mod texture;
pub mod touch;
pub mod trace_log;
pub mod window;

pub use color::Color;
pub use keyboard::Key;
pub use mouse::MouseButton;
pub use structs::{Position, Rectangle, Size};
pub use system::{System, SystemBuilder};
pub use touch::Gesture;
pub use texture::RenderTexture;
pub use window::Window;
