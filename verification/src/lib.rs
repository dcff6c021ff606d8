//! Bootstrapping a triangle on the GPU: locating shader resources beside the
//! executable, compiling and linking them into a program, and drawing with
//! it. The library decides and the host acts: every file and driver
//! operation is a request that the host carries out, and every answer is a
//! reply that the library takes.

pub mod accounts;
pub mod driver;
pub mod frame;
pub mod laws;
pub mod render_gl;
pub mod report;
pub mod resources;

pub use report::failure_to_string;
