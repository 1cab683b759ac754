//! A loopback asset server library: request-target resolution, MIME inference,
//! HTML payload injection, response assembly with a per-request hook, and the
//! naming rules of the save-record store.

pub mod text;
pub mod mime;
pub mod resolve;
pub mod polyfill;
pub mod inject;
pub mod response;
pub mod serve;
pub mod saves;
pub mod builder;
