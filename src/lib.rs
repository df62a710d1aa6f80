//! Posts and contact submissions: the records, their validation, the
//! multipart upload pipeline, in-memory stores, and the decisions that the
//! HTTP handlers make around each store call.

pub mod handlers;
pub mod models;
pub mod store;
pub mod upload;
pub mod validation;
