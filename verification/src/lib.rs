//! A client library for a news-aggregation web service.
//!
//! The library assembles the address of a request, names the header that
//! authenticates it, and judges the envelope that the service answers with.
//! Sending the request and reading the answer are left to the caller.

pub mod address;
pub mod article;
pub mod client;
pub mod endpoint;
pub mod errors;
pub mod response;
pub mod web;

pub use article::Article;
pub use article::Source;
pub use client::NewsAPI;
pub use client::Request;
pub use endpoint::Endpoint;
pub use errors::map_response_error;
pub use errors::NewsAPIError;
pub use errors::UrlError;
pub use response::NewAPIResponse;
