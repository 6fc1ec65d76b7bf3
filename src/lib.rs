//! Client library for a conflict-event data service: query validation,
//! request construction, response normalization and error classification.

pub mod text;
pub mod errors;
pub mod json;
pub mod acled;
pub mod user;
pub mod app_state;
pub mod acled_service;
pub mod popup;
pub mod storage_service;
