//! Core state of a real-time terminal ray tracer.
//!
//! The renderer itself works on `f32` vectors and therefore lives in the
//! unverified front end; this crate holds the parts of the engine whose
//! behaviour is discrete and provable: the frame clock, the input-action
//! state machine, the folds of movement keys and mouse-look deltas, the
//! scene's structural state with the light-to-proxy-sphere coupling, the
//! screen-buffer geometry, and the render-mode toggle.

pub mod camera;
pub mod clock;
pub mod image;
pub mod input;
pub mod render;
pub mod scene;
