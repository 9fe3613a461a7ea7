//! Authentication: the use cases, the service that runs them, and what
//! holds of them.

pub mod functions;
pub mod laws;
pub mod routes;
pub mod services;
