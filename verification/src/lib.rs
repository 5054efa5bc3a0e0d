//! Authoring/reading support for an append-only, pub/sub-style messaging
//! channel hosted on a distributed-ledger transport.
//!
//! The crate covers the session-state persistence and packet-codec layer:
//! encrypted serialization of opaque session credentials into a portable
//! state blob, and the dual-channel (public + masked, optionally symmetrically
//! encrypted) packet encoding/decoding protocol, including the fetch/attach
//! sequencing logic that classifies and queues the transport's message stream.
//! The ledger transport itself is an external collaborator: the decision
//! logic around it lives here, the I/O loop lives with the embedding
//! application.

pub mod b64;
pub mod channels;
pub mod errors;
pub mod framing;
pub mod hexcode;
pub mod jsoncodec;
pub mod payload;
pub mod strbytes;
pub mod utility;
