//! The scripting-to-GPU execution bridge of an image-processing pipeline: a
//! typed buffer registry shared with a scripting environment, the resolver
//! that turns dynamically-typed script values into concretely-typed kernel
//! arguments, and the transfer of host image data into and out of the
//! reserved device buffers around each processed frame.
//!
//! The registry and every operation on it are specified and verified here;
//! the device itself, the script engine, and all file handling live with the
//! surrounding program, which mirrors registry state onto the device and
//! performs the kernel invocations this library resolves.

pub mod errors;
pub mod formats;
pub mod kernel;
pub mod laws;
pub mod refs;
pub mod registry;
pub mod transfer;
pub mod util;
