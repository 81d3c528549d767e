//! A convenience layer that turns raw shader bytecode and vertex data into a
//! validated, device-backed graphics pipeline object.
//!
//! The device itself is an external collaborator: backends implement the
//! [`factory::Factory`] trait, and every such backend automatically gains the
//! higher-level operations of [`factory::FactoryExt`] — shader assembly,
//! typed descriptor linking, pipeline-state creation, and buffer and sampler
//! shortcuts.

pub mod factory;
pub mod init;
pub mod pso;
pub mod resources;
pub mod shade;
pub mod slice;
pub mod state;
