//! Decision logic of an update service that answers RustDesk clients with the
//! newest release of a GitHub repository: which release a client should move to,
//! which asset fits its platform and architecture, and what it is told.

pub mod asset;
pub mod text;
pub mod update;
pub mod version;
