//! Live-reload watching of shader sources: the decisions of a watch session,
//! stated and proved, for a driver that performs the file-system work.

pub mod error;
pub mod event;
pub mod loader;
pub mod message;
pub mod session;
pub mod target;
pub mod worker;
