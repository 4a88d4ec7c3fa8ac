//! The dispatch core of a small publishing service.
//!
//! A request is validated, its sender is authenticated, one typed command is
//! handed to an executor, and what the executor answers is written as an
//! HTTP status and a JSON body. Every decision on that way is a function of
//! this library with a contract: the rules that payloads are held to
//! ([`validation`]), reading the credential ([`auth`]), the steps of each
//! route and the table of routes ([`app`]), the choice of a worker
//! ([`dispatcher`]), the commands, their replies and the executor of canned
//! outcomes that stands in for storage ([`db`]), and the failures with the
//! replies they become ([`error`]).
pub mod app;
pub mod auth;
pub mod db;
pub mod dispatcher;
pub mod error;
pub mod json;
pub mod models;
pub mod time;
pub mod validation;
