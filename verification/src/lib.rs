//! Request dispatch and validation for a service that turns text payloads
//! into QR codes, rendered as a glyph grid, a vector graphic or a raster image.
//!
//! The crate holds the decisions of the service: how a request is routed, when
//! a payload is refused for its size, how the body is decoded, which renderer
//! runs, and which status and body every outcome is answered with. Sockets and
//! HTTP framing live with the caller, which hands plain values in and takes a
//! [`response::Response`] back.

pub mod dispatch;
pub mod guard;
pub mod laws;
pub mod render;
pub mod response;
pub mod route;
pub mod symbol;
