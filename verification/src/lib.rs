//! Core of a Wayland compositor whose user interface is drawn by a separate
//! UI engine: the surface registry, the buffer-to-texture bookkeeping, the
//! role machines and the keyboard and pointer routing decisions, all on plain
//! values so that every rule is stated as a contract and proved.

pub mod codec;
pub mod commit;
pub mod environment;
pub mod geometry;
pub mod input;
pub mod key_repeater;
pub mod laws;
pub mod messages;
pub mod roles;
pub mod server_state;
pub mod texture_swap_chain;
