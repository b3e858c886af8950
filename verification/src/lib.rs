//! The request pipeline and the QR-code login protocol of a desktop client
//! that stands between a user interface, an account backend and a
//! third-party platform.
//!
//! The library builds every request and reads every response; sending is
//! left to the caller. Each function states what it returns over the
//! mathematical models of its arguments, and each statement is proved.
//!
//! - [`json`], [`number`], [`text`]: JSON documents, whole numbers in base
//!   ten, and strings.
//! - [`decode`], [`identifier`], [`envelope`], [`model`]: reading members,
//!   the identifier that comes as string, number or null, the backend's
//!   envelope, and the backend's data.
//! - [`http`], [`config`], [`executor`], [`failure`], [`logging`]: requests
//!   and responses, the fixed configuration, how a response is classified,
//!   why an operation failed, and what is written to the log.
//! - [`commands`]: one request builder and one reader for each call of the
//!   backend.
//! - [`upstream`], [`upstream_model`], [`qr`]: the upstream's envelope and
//!   data, and the three phases of the login: challenge, poll, exchange.
//! - [`encode`], [`machine`]: percent-encoding and the machine identifier.

pub mod commands;
pub mod config;
pub mod decode;
pub mod encode;
pub mod envelope;
pub mod executor;
pub mod failure;
pub mod http;
pub mod identifier;
pub mod json;
pub mod logging;
pub mod machine;
pub mod model;
pub mod number;
pub mod qr;
pub mod text;
pub mod upstream;
pub mod upstream_model;
