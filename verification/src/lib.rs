//! A minimal sandbox-execution primitive: given a specification record
//! describing a root filesystem, a target identity, extra bind mounts and a
//! command line, this library computes the exact ordered sequence of
//! namespace, mount and identity operations that assemble the sandbox, and
//! the decisions of the init-style process supervisor that runs the command
//! and reaps its descendants. The surrounding binary performs the operations;
//! every plan and every decision is computed and proved here.

pub mod bootstrap;
pub mod config;
pub mod digits;
pub mod mounts;
pub mod pathenv;
pub mod paths;
pub mod supervisor;
