pub mod fallback_error_handler;
pub mod observer;
pub mod response_processor;
pub mod session_cleanup_helper;
