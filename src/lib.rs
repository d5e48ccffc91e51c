//! Frame-rendering and swapchain-lifecycle logic of a small planet renderer.
//!
//! The library is generic over the concrete vector, colour and GPU resource
//! types: it decides which target the camera looks at, which framebuffer and
//! pipeline a frame binds, what is drawn for each entity, when the swapchain is
//! rebuilt and when a frame is retried. The host program performs the GPU and
//! window work that these decisions call for.

pub mod state;
pub mod swapchain;
pub mod frame;
pub mod attempt;
pub mod draw_loop;
