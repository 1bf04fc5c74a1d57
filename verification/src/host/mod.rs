//! What the host application sees of the library: plain records and the
//! conversions into them.

pub mod autotype;
pub mod importer;
pub mod ipc;
pub mod keys;
pub mod logging;
