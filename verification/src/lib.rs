//! Two small HTTP services described as data: each is a listening address
//! and a table of routes, and every route maps a method and a path to a
//! fixed reply. Dispatch over such a table is proved to answer with the
//! first matching route and with "not found" otherwise.

pub mod method;
pub mod reply;
pub mod route;
pub mod service;
pub mod actix_api;
pub mod react_api;
