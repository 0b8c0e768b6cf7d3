//! The decisions of a backup stream endpoint.
pub mod backup;
pub mod backup_laws;
pub mod endpoint;
pub mod endpoint_laws;
pub mod fatal;
pub mod flush;
pub mod flush_laws;
pub mod observe;
pub mod observe_laws;
pub mod procedure;
pub mod register;
pub mod register_laws;
pub mod report;
pub mod scan;
pub mod start;
pub mod task;
pub mod text;
pub mod types;
pub mod watch;
pub mod watch_laws;
