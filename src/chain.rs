use vstd::prelude::*;

use crate::ethereum::{Address, Digest, PublicKey, RecoveryError, Signature};
use crate::reason::Reason;

verus! {

/// The capabilities that every supported chain offers, each stated by a
/// spec function of the chain.
pub trait Chain {
    /// The sentinel digest for "no prior event", or why there is none.
    spec fn zero_hash_spec() -> Result<Seq<u8>, Reason>;

    /// The digest of `data`, or why there is none.
    spec fn hash_spec(data: Seq<u8>) -> Result<Seq<u8>, Reason>;

    /// The signer's address for an outcome of the recovery primitive.
    spec fn recover_spec(recovered: Result<Address, RecoveryError>) -> Result<Address, Reason>;

    /// The signature for an outcome of the key manager's signer.
    spec fn sign_spec(signed: Option<Signature>) -> Result<Signature, Reason>;

    /// The address that the bytes of a text stand for, or why there is none.
    spec fn address_spec(text: Seq<u8>) -> Result<Seq<u8>, Reason>;

    /// The node's own address for the public key that the key manager holds, if any.
    spec fn signer_spec(public_key: Option<PublicKey>) -> Result<Seq<u8>, Reason>;

    fn zero_hash() -> (r: Result<Digest, Reason>)
        ensures
            match Self::zero_hash_spec() {
                Ok(h) => r matches Ok(x) && x@ == h,
                Err(e) => r == Err::<Digest, Reason>(e),
            },
    ;

    fn hash_bytes(data: &[u8]) -> (r: Result<Digest, Reason>)
        ensures
            match Self::hash_spec(data@) {
                Ok(h) => r matches Ok(x) && x@ == h,
                Err(e) => r == Err::<Digest, Reason>(e),
            },
    ;

    fn recover_address(recovered: Result<Address, RecoveryError>) -> (r: Result<Address, Reason>)
        ensures
            r == Self::recover_spec(recovered),
    ;

    fn sign_message(signed: Option<Signature>) -> (r: Result<Signature, Reason>)
        ensures
            r == Self::sign_spec(signed),
    ;

    fn to_address(text: &[u8]) -> (r: Result<Address, Reason>)
        ensures
            match Self::address_spec(text@) {
                Ok(a) => r matches Ok(x) && x@ == a,
                Err(e) => r == Err::<Address, Reason>(e),
            },
    ;

    fn signer_address(public_key: Option<PublicKey>) -> (r: Result<Address, Reason>)
        ensures
            match Self::signer_spec(public_key) {
                Ok(a) => r matches Ok(x) && x@ == a,
                Err(e) => r == Err::<Address, Reason>(e),
            },
    ;
}

} // verus!
