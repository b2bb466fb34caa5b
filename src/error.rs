use vstd::prelude::*;

verus! {

/// Why a one-shot exchange stopped. Every kind is terminal for the call.
#[derive(Clone, Copy, Debug, PartialEq, Eq, Structural)]
pub enum AgentError {
    /// The bundle's text or byte layout is invalid, a field is missing, or a key is not a curve point.
    MalformedBundle,
    /// The signed prekey's signature does not verify against the bundle's identity key.
    UntrustedBundle,
    /// Key agreement met invalid or degenerate key material.
    AgreementFailure,
    /// The authenticated cipher reported an error.
    EncryptionFailure,
}

} // verus!
