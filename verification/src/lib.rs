//! Device and resource management core of a renderer that sits on an explicit
//! graphics API: device and queue selection, swapchain negotiation, a sampler
//! cache, texture construction and the order in which all of it is torn down.
//!
//! Nothing here touches the GPU. Every function decides from plain values and
//! hands back plain values; the caller performs the calls that the decisions
//! ask for and reports how they ended.

pub mod handle;
pub mod vk;
pub mod device;
pub mod swapchain;
pub mod driver;
pub mod backend;
pub mod error;
pub mod sampler_cache;
pub mod texture;
pub mod engine;
