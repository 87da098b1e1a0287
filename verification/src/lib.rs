//! A verified plugin-host core: the metadata codec for strings that cross a
//! binary boundary, the plugin lifecycle state machine, and the ordered
//! registry that drives loaded plugins. The dynamic-library loading itself is
//! left to an unverified front end; this crate decides, records and checks.

pub mod codec;
pub mod example_plugin;
pub mod lifecycle;
pub mod loader;
pub mod server;
pub mod utf8;
