//! Methods for directly working with rendering.
//!
//! End-to-end rendering looks something like this: build an `Hmd`, ask it
//! for its resolution and create a window with an OpenGL context of that
//! size, configure rendering to the window with `Hmd::render_to`, ask the
//! `RenderContext` for the texture size of each eye and create framebuffers
//! with backing textures of these sizes, and bind their OpenGL names with
//! `RenderContext::create_binding`. Then, for each frame, start a `Frame`,
//! draw each eye of `Frame::eye_poses` to its framebuffer, and close the
//! frame with `RenderContext::end_frame`.

pub use crate::shim::Frame;
pub use crate::shim::FrameEyePose;
pub use crate::shim::Matrix4;
pub use crate::shim::Quaternion;
pub use crate::shim::RenderContext;
pub use crate::shim::TextureBinding;
pub use crate::shim::Vector3;
