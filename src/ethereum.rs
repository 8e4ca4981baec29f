use vstd::prelude::*;

use crate::chain::Chain;
use crate::hexcodec::{decode_hex, hex_decoded, is_hex_text};
use crate::keccak::{keccak256, keccak256_of};
use crate::reason::Reason;

verus! {

/// Raw address bytes of a chain.
pub type Address = [u8; 20];

/// A 32-byte digest.
pub type Digest = [u8; 32];

/// An uncompressed public key without its prefix byte.
pub type PublicKey = [u8; 64];

/// A recoverable signature: r, s and the recovery byte.
pub type Signature = [u8; 65];

/// The failure of the external public-key recovery primitive.
#[derive(Clone, Copy, Debug, PartialEq, Eq, Structural)]
pub enum RecoveryError {
    SignatureRecoveryError,
}

/// A block height of the reference chain.
pub type BlockNumber = u32;

/// The position of a log entry within its block.
pub type LogIndex = u32;

/// Identifies an event of the reference chain: its block, then its log entry.
pub type EventId = (BlockNumber, LogIndex);

/// An event observed on the reference chain.
#[derive(Clone, Copy, Debug, PartialEq, Eq)]
pub struct Event {
    pub id: EventId,
    pub data: EventData,
}

/// What a reference-chain event reports.
#[derive(Clone, Copy, Debug, PartialEq, Eq)]
pub enum EventData {
    /// An asset was locked for a holder.
    Lock { asset: Address, holder: Address, amount: u128 },
    /// Cash was locked for a holder at a cash index.
    LockCash { holder: Address, amount: u128, index: u128 },
    /// A governance action.
    Gov {},
}

/// The reference chain, the only one with a complete implementation.
#[derive(Clone, Copy, Debug, PartialEq, Eq, Structural)]
pub struct Ethereum {}

/// The address that text stands for: exactly 42 bytes, the prefix `0x`, then
/// 40 hexadecimal digits of either case.
pub open spec fn eth_address_of(text: Seq<u8>) -> Option<Seq<u8>> {
    if text.len() == 42 && text[0] == 0x30u8 && text[1] == 0x78u8 && is_hex_text(
        text.subrange(2, 42),
    ) {
        Some(hex_decoded(text.subrange(2, 42)))
    } else {
        None
    }
}

/// The address of a public key: the low-order 20 bytes of its Keccak-256 digest.
pub open spec fn eth_address_of_key(public_key: Seq<u8>) -> Seq<u8> {
    keccak256_of(public_key).subrange(12, 32)
}

/// The 32 zero bytes.
pub open spec fn zero_bytes() -> Seq<u8> {
    Seq::new(32, |i: int| 0u8)
}

/// Copies 20 bytes into an address.
fn address_from_slice(b: &[u8]) -> (r: Address)
    requires
        b@.len() == 20,
    ensures
        r@ == b@,
{
    let mut out: Address = [0u8; 20];
    let mut i: usize = 0;
    while i < 20
        invariant
            0 <= i <= 20,
            b@.len() == 20,
            forall|j: int| 0 <= j < i ==> out@[j] == b@[j],
        decreases 20 - i,
    {
        out[i] = b[i];
        i = i + 1;
    }
    assert(out@ =~= b@);
    out
}

impl Chain for Ethereum {
    /// 32 zero bytes.
    open spec fn zero_hash_spec() -> Result<Seq<u8>, Reason> {
        Ok(zero_bytes())
    }

    /// The Keccak-256 digest.
    open spec fn hash_spec(data: Seq<u8>) -> Result<Seq<u8>, Reason> {
        Ok(keccak256_of(data))
    }

    /// The recovered address; a failed recovery is a recovery error.
    open spec fn recover_spec(recovered: Result<Address, RecoveryError>) -> Result<Address, Reason> {
        match recovered {
            Ok(a) => Ok(a),
            Err(_) => Err(Reason::SignatureRecoveryError),
        }
    }

    /// The produced signature; a failed signer is a signing failure.
    open spec fn sign_spec(signed: Option<Signature>) -> Result<Signature, Reason> {
        match signed {
            Some(s) => Ok(s),
            None => Err(Reason::SigningFailed),
        }
    }

    /// `0x` and 40 hexadecimal digits; anything else is a bad address.
    open spec fn address_spec(text: Seq<u8>) -> Result<Seq<u8>, Reason> {
        match eth_address_of(text) {
            Some(a) => Ok(a),
            None => Err(Reason::BadAddress),
        }
    }

    /// The low-order 20 bytes of the key's digest; no key is a missing key.
    open spec fn signer_spec(public_key: Option<PublicKey>) -> Result<Seq<u8>, Reason> {
        match public_key {
            Some(k) => Ok(eth_address_of_key(k@)),
            None => Err(Reason::KeyNotFound),
        }
    }

    fn zero_hash() -> (r: Result<Digest, Reason>) {
        let h: Digest = [0u8; 32];
        assert(h@ =~= zero_bytes());
        Ok(h)
    }

    fn hash_bytes(data: &[u8]) -> (r: Result<Digest, Reason>) {
        Ok(keccak256(data))
    }

    fn recover_address(recovered: Result<Address, RecoveryError>) -> (r: Result<Address, Reason>) {
        match recovered {
            Ok(a) => Ok(a),
            Err(_) => Err(Reason::SignatureRecoveryError),
        }
    }

    fn sign_message(signed: Option<Signature>) -> (r: Result<Signature, Reason>) {
        match signed {
            Some(s) => Ok(s),
            None => Err(Reason::SigningFailed),
        }
    }

    fn to_address(text: &[u8]) -> (r: Result<Address, Reason>) {
        if text.len() == 42 && text[0] == 0x30u8 && text[1] == 0x78u8 {
            let body = &text[2..42];
            match decode_hex(body) {
                Some(bytes) => {
                    assert(bytes@.len() == 20);
                    Ok(address_from_slice(bytes.as_slice()))
                },
                None => Err(Reason::BadAddress),
            }
        } else {
            Err(Reason::BadAddress)
        }
    }

    fn signer_address(public_key: Option<PublicKey>) -> (r: Result<Address, Reason>) {
        match public_key {
            Some(k) => {
                let digest = keccak256(&k);
                Ok(address_from_slice(&digest[12..32]))
            },
            None => Err(Reason::KeyNotFound),
        }
    }
}

/// Where the recovery primitive, given a signature that the node's key made,
/// yields the address of that key, the account recovered from the signature
/// is the node's own signer account.
pub proof fn lemma_recovered_signer_is_own(public_key: PublicKey, recovered: Address)
    requires
        recovered@ == eth_address_of_key(public_key@),
    ensures
        Ethereum::recover_spec(Ok(recovered)) matches Ok(a) && Ethereum::signer_spec(
            Some(public_key),
        ) == Ok::<Seq<u8>, Reason>(a@),
{
}

} // verus!
