//! IP geolocation lookups: normalisation of the provider's answers, a
//! time-bounded cache of successful lookups, and the error body that the
//! HTTP layer hands back to its clients.

pub mod api;
pub mod cache;
pub mod geo;
