// One-shot secure exchange: a remote key bundle is read from its transport text,
// checked against its binary layout, planned into the handshake's Diffie-Hellman
// terms, and one call's progress is tracked from start to the encoded envelope.

pub mod error;
pub mod bundle;
pub mod wire;
pub mod session;
pub mod exchange;
