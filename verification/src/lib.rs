//! A typed client binding for the Bangumi media-catalog REST service.
//!
//! The library builds each request as plain data — method, URL, query,
//! headers and an optional JSON body — classifies each response by its
//! status code, and decodes JSON bodies into typed records, all with
//! verified code. Sending the built request over the network is the one
//! thing left to the caller's transport.

pub mod character;
pub mod client;
pub mod collection;
pub mod episode;
pub mod error;
pub mod indice;
pub mod json;
pub mod model;
pub mod person;
pub mod revision;
pub mod subject;
pub mod text;
pub mod user;
