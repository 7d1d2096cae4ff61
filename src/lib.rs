//! A RESTful CRUD service over a persisted two-field resource.
//!
//! The library holds the logic of the service: routing a request to one of
//! the five operations (`route`), the resource and its model (`model`), the
//! persistence contract that every storage gateway meets and a verified
//! in-memory gateway (`table`), what holds of every store that follows the
//! contract (`laws`), the decisions that a handler makes on what a SQL or an
//! entity-mapped store reports (`gateway`), the handlers themselves
//! (`service`), and the one mapping from a result to an HTTP status and body
//! (`response`). `todo` is a small in-memory to-do list.
pub mod gateway;
pub mod laws;
pub mod model;
pub mod response;
pub mod route;
pub mod service;
pub mod table;
pub mod todo;
