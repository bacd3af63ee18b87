//! Coordinator of a small networked sensor display: a request counter and
//! last-parameter store shared between an HTTP handler and a polling loop,
//! the query-parameter policy of the handler, the display layouts, the
//! sensor retry policy and the mode scheduler of the loop.

pub mod store;
pub mod request;
pub mod layout;
pub mod sensor;
pub mod scheduler;
