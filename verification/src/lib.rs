//! Directory profiles of a university's staff and students: the request that
//! asks for one, the record that answers it, and the text shown for it.
//!
//! The crate does no input or output of its own. A caller sends the request
//! that a [`driver::Session`] names, hands back what came of it, and prints the
//! block of text it is given.

pub mod decode;
pub mod driver;
pub mod fetch;
pub mod lines;
pub mod profile;
pub mod render;
pub mod report;
