//! The feature units hosted by the coordinator.

pub mod event_interceptor;
pub mod project_manager;
pub mod window_manager;
pub mod file_manager;
pub mod logger;
