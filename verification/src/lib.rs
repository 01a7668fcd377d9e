//! Core of a graphics-backend plugin: the device-lifecycle state machine,
//! the resource pool for a fixed draw path, the begin/end protocols for
//! updating textures and vertex buffers, and the entry-point interception
//! table for loader-hooked APIs. The native call layer around this core
//! lives outside the library.

pub mod bytes;
pub mod device;
pub mod dispatch;
pub mod pool;
pub mod render_api;
pub mod render_api_d3d11;
pub mod shaders;
pub mod vulkan_api;
pub mod win_util;
