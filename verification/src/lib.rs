//! Core logic of a small shipment-tracking viewer: it builds the upstream
//! lookup URL for a tracking number and carrier, classifies the HTTP outcome,
//! decodes the checkpoint list out of the response body, keeps the two
//! editable fields and the latest fetch outcome in a view model with
//! last-requested-wins semantics, and maps status codes to display labels.

pub mod client;
pub mod vm;
pub mod json;
pub mod model;
pub mod render;
pub mod text;
pub mod url;
