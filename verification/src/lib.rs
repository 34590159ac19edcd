//! A client library for the 神人高校 review community and its degree query
//! service: the data the services answer with, the classification of their
//! errors, the checks made on every answer, and the processing of review pages.

pub mod api_data;
pub mod json;
pub mod legacy_api;
pub mod request;
pub mod text_order;
