//! Imaging classification for clinical documentation: model artifact caching,
//! image-to-tensor preparation, label selection and batch orchestration, with
//! the account data types that the desktop front end exchanges.

pub mod auth;
pub mod classify;
pub mod error;
pub mod labels;
pub mod model_store;
pub mod preprocess;
pub mod registry;
pub mod text;
