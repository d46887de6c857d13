//! The logic of a virtual camera, which plays a video file forever and publishes
//! its frames as planar 4:2:0 images.
//!
//! The library decides and computes; whoever uses it reads and writes files,
//! speaks to servers, decodes video and keeps time.

pub mod cache;
pub mod entity;
pub mod extension;
pub mod frame;
pub mod http;
pub mod message;
pub mod playback;
pub mod source;
pub mod text;
pub mod timeline;
