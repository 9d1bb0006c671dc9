//! The summary the sentry prints on request.

pub mod summary;
