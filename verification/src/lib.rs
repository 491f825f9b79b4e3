//! Presentation core of a Wayland layer-shell wallpaper client.
//!
//! The client keeps one background surface per output, receives wallpaper
//! frames from a daemon and draws them through a Vulkan swapchain. This crate
//! holds everything the client decides: which state each output, session and
//! presenter is in, what has to be done next, and what follows from the reply.
//! Handles of the graphics stack are plain integers here; the program around
//! the crate talks to the compositor, the driver and the daemon.

pub mod arguments;
pub mod blank;
pub mod construction;
pub mod content;
pub mod device;
pub mod direct;
pub mod dmabuf;
pub mod drawing;
pub mod effects;
pub mod event_loop;
pub mod geometry;
pub mod globals;
pub mod guarantees;
pub mod naming;
pub mod output;
pub mod pointer;
pub mod poll;
pub mod presenter;
pub mod rebuild;
pub mod render;
pub mod resources;
pub mod schedule;
pub mod session;
pub mod setup;
pub mod single;
pub mod swapchain;
pub mod window_states;
