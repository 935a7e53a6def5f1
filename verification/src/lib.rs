//! Typed client-side data model of the Cartesi machine JSON-RPC interface.
//!
//! The crate has two layers. `interfaces` mirrors the shapes that travel on the
//! wire, where almost every field is optional and absence means "use the
//! default". `client` holds the values a caller works with, together with the
//! conversions between the two layers, the base64 framing of binary payloads
//! and the requests that each operation sends.
//!
//! Nothing here performs I/O: a request is a value to be handed to a transport,
//! and a response is a value to be handed back.

pub mod client;
pub mod interfaces;
