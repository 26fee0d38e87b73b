//! Builds the container-engine invocations that provision a disposable
//! scaffolding environment for `rails new`, and decides how the two-phase
//! build-then-run workflow proceeds.

pub mod invocation;
pub mod docker_client;
pub mod workdir;
pub mod rails_new;
pub mod unix;
pub mod windows;
pub mod workflow;
