//! Decision logic of an operator that runs H2O clusters on Kubernetes, and of its command line.
//!
//! Everything that talks to the platform or to pods over HTTP lives outside this library; the
//! library decides what to send, how to read what comes back and what to do next.

pub mod bootstrap;
pub mod cli;
pub mod clustering;
pub mod controller;
pub mod crd;
pub mod error;
pub mod finalizer;
pub mod fleet;
pub mod template;
pub mod text;
