//! Request and response logic for running server functions in an edge
//! worker: the header list a function can edit, redirects, where a call's
//! arguments come from, and the response that a call's result becomes.

pub mod headers;
pub mod parts;
pub mod dispatch;
