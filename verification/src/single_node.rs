//! The single-process payment service: one server that forwards payments to
//! the default processor or, failing that, to the fallback one, and keeps the
//! ledger itself.
pub mod database;
pub mod service;
