//! City weather lookup: the decisions of a cache-aside coordinate resolver and
//! of the request pipeline around it, and the composition of an hourly
//! forecast for display.
//!
//! The library performs no I/O. Each collaborator (the coordinate store, the
//! geocoding service, the forecast service) is driven by the caller: the
//! library says what to ask next, the caller asks, and hands the reply back.

pub mod coordinates;
pub mod forecast;
pub mod error;
pub mod resolver;
pub mod pipeline;
pub mod endpoint;
pub mod world;
