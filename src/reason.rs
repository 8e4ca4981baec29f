use vstd::prelude::*;

verus! {

/// Why an operation on chain values was refused.
#[derive(Clone, Copy, Debug, PartialEq, Eq, Structural)]
pub enum Reason {
    /// A textual or binary address is malformed.
    BadAddress,
    /// A chain tag is not one of the recognised ones.
    BadChainId,
    /// A `"<chain>:<address>"` string has no colon.
    BadAsset,
    /// No signing key is configured for the chain.
    KeyNotFound,
    /// The signature is malformed, or recovery found no valid point.
    SignatureRecoveryError,
    /// The recovered address differs from the claimed account.
    SignatureAccountMismatch,
    /// The key-management collaborator failed to produce a signature.
    SigningFailed,
    /// The value belongs to a chain that the operation does not handle.
    UnsupportedChain,
    /// The chain has no implementation of the requested capability.
    UnsupportedOperation,
}

} // verus!
