//! Display-profile daemon core: output identities, profile matching and the
//! state machine that turns output changes and control requests into
//! activations of an external display-configuration tool.

pub mod assembler;
pub mod config;
pub mod event_loop;
pub mod ipc;
pub mod json;
pub mod name_map;
pub mod output;
pub mod pattern;
pub mod wayland;
