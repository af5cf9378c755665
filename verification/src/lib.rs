//! Subscription sign-up service core: form validation, record assembly and
//! the mapping from outcomes to HTTP responses.

pub mod content_type;
pub mod form;
pub mod routes;
pub mod subscription;
