//! A small library behind a command-line HTTP client: it resolves the
//! request method, URL and body from parsed command-line input, plans the
//! outbound request, and lays out the styled response output.

pub mod body;
pub mod cli;
pub mod http;
pub mod json;
pub mod out;
pub mod response;
pub mod strutil;
