//! Control core of a terminal file navigator: a stack of interchangeable
//! UI states driven by commands, cooperative cancellation of background
//! work, and the key relay handshake.
pub mod app;
pub mod commands;
pub mod external;
pub mod input;
pub mod pump;
pub mod relay;
pub mod screens;
pub mod task_sync;
mod text;
pub mod tree_options;
pub mod tree_views;
