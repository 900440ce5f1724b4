//! The start of a language server for Unison under an editor that hosts
//! plugins: from the editor's configuration to the one request that starts
//! the server, or to the failure that is reported instead.
//!
//! The library decides and never acts. `activation` is the machine that the
//! plugin drives; `options`, `platform` and `launch` hold its rules; `course`
//! states what holds of every activation.

pub mod activation;
pub mod course;
pub mod error;
pub mod json;
pub mod launch;
pub mod options;
pub mod platform;
pub mod text;
pub mod uri;
