//! A small static-file HTTP server: request-line parsing, path resolution,
//! content-type selection and response serialization, all verified.

pub mod status;
pub mod response;
pub mod request;
pub mod mime;
pub mod handler;
