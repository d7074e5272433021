//! Typed values, SQL templates with `${name}` placeholders, request argument
//! binding and webhook payload rendering for a query-backed REST service.

pub mod access_diff;
pub mod api_model;
pub mod binding;
pub mod editor;
pub mod model;
pub mod pipeline;
pub mod routing;
pub mod sniff;
pub mod storage;
pub mod template;
pub mod text;
pub mod token;
pub mod value;
pub mod values;
pub mod webhook;
