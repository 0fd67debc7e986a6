//! A client for the maimai DX international player site: the decisions of its
//! login, logout and navigation handshakes, and selector queries on the pages
//! it returns.

pub mod content_process;
pub mod models;
pub mod session;
