//! Image content-delivery library: the decisions of an HTTP service that
//! ingests signed image uploads into a content-addressed store and serves
//! resized variants through a key-value cache.
//!
//! Everything here is a function from plain values to plain values. The
//! surrounding program performs the socket, filesystem and cache traffic and
//! hands the outcomes back.

pub mod auth;
pub mod cache;
pub mod cdn;
pub mod config;
pub mod digest;
pub mod imaging;
pub mod info;
pub mod resource;
pub mod rest;
pub mod signature;
pub mod storage;
pub mod text;
