use vstd::prelude::*;

use crate::chain::Chain;
use crate::ethereum::{
    eth_address_of, eth_address_of_key, zero_bytes, Address, Ethereum, Digest, PublicKey,
    RecoveryError, Signature,
};
use crate::keccak::keccak256_of;
use crate::reason::Reason;
use crate::tagged::{ChainAccount, ChainAsset, ChainHash, ChainSignature};
use vstd::string::StringSliceAdditionalSpecFns;

verus! {

/// The selection of a supported chain.
#[derive(Clone, Copy, Debug, PartialEq, Eq, Structural)]
pub enum ChainId {
    Comp,
    Eth,
    Dot,
    Sol,
    Tez,
}

impl Default for ChainId {
    /// The reference chain.
    fn default() -> (r: ChainId)
        ensures
            r == ChainId::Eth,
    {
        ChainId::Eth
    }
}

/// The address that text stands for on chain `c`, or why there is none.
pub open spec fn address_of(c: ChainId, text: Seq<u8>) -> Result<Seq<u8>, Reason> {
    match c {
        ChainId::Eth => match eth_address_of(text) {
            Some(a) => Ok(a),
            None => Err(Reason::BadAddress),
        },
        _ => Err(Reason::UnsupportedOperation),
    }
}

/// A chain-tagged address built from the address that text stands for, or the reason.
pub open spec fn tagged_address_of(c: ChainId, text: Seq<u8>) -> Result<(ChainId, Seq<u8>), Reason> {
    match address_of(c, text) {
        Ok(a) => Ok((c, a)),
        Err(e) => Err(e),
    }
}

impl ChainId {
    /// Parses `addr` as an account of this chain.
    pub fn to_account(self, addr: &str) -> (r: Result<ChainAccount, Reason>)
        ensures
            match tagged_address_of(self, addr.spec_bytes()) {
                Ok(v) => r matches Ok(acc) && acc@ == v,
                Err(e) => r == Err::<ChainAccount, Reason>(e),
            },
    {
        self.account_from_text(addr.as_bytes())
    }

    /// Parses the bytes of a textual address as an account of this chain.
    pub(crate) fn account_from_text(self, addr: &[u8]) -> (r: Result<ChainAccount, Reason>)
        ensures
            match tagged_address_of(self, addr@) {
                Ok(v) => r matches Ok(acc) && acc@ == v,
                Err(e) => r == Err::<ChainAccount, Reason>(e),
            },
    {
        match self {
            ChainId::Comp => Ok(ChainAccount::Comp(Compound::to_address(addr)?)),
            ChainId::Eth => Ok(ChainAccount::Eth(Ethereum::to_address(addr)?)),
            ChainId::Dot => Ok(ChainAccount::Dot(Polkadot::to_address(addr)?)),
            ChainId::Sol => Ok(ChainAccount::Sol(Solana::to_address(addr)?)),
            ChainId::Tez => Ok(ChainAccount::Tez(Tezos::to_address(addr)?)),
        }
    }

    /// Parses `addr` as an asset of this chain.
    pub fn to_asset(self, addr: &str) -> (r: Result<ChainAsset, Reason>)
        ensures
            match tagged_address_of(self, addr.spec_bytes()) {
                Ok(v) => r matches Ok(asset) && asset@ == v,
                Err(e) => r == Err::<ChainAsset, Reason>(e),
            },
    {
        self.asset_from_text(addr.as_bytes())
    }

    /// Parses the bytes of a textual address as an asset of this chain.
    pub(crate) fn asset_from_text(self, addr: &[u8]) -> (r: Result<ChainAsset, Reason>)
        ensures
            match tagged_address_of(self, addr@) {
                Ok(v) => r matches Ok(asset) && asset@ == v,
                Err(e) => r == Err::<ChainAsset, Reason>(e),
            },
    {
        match self {
            ChainId::Comp => Ok(ChainAsset::Comp(Compound::to_address(addr)?)),
            ChainId::Eth => Ok(ChainAsset::Eth(Ethereum::to_address(addr)?)),
            ChainId::Dot => Ok(ChainAsset::Dot(Polkadot::to_address(addr)?)),
            ChainId::Sol => Ok(ChainAsset::Sol(Solana::to_address(addr)?)),
            ChainId::Tez => Ok(ChainAsset::Tez(Tezos::to_address(addr)?)),
        }
    }

    /// The key to sign with on this chain, given the key identifier that the
    /// node's configuration holds for it, if any.
    pub fn signing_key<K>(self, configured: Option<K>) -> (r: Result<K, Reason>)
        ensures
            self == ChainId::Eth ==> match configured {
                Some(k) => r == Ok::<K, Reason>(k),
                None => r == Err::<K, Reason>(Reason::KeyNotFound),
            },
            self != ChainId::Eth ==> r == Err::<K, Reason>(Reason::UnsupportedOperation),
    {
        match self {
            ChainId::Eth => match configured {
                Some(k) => Ok(k),
                None => Err(Reason::KeyNotFound),
            },
            _ => Err(Reason::UnsupportedOperation),
        }
    }

    /// This node's own account on this chain, given the public key that the
    /// key manager holds for the signing key, or `None` where it has none.
    pub fn signer_address(self, public_key: Option<PublicKey>) -> (r: Result<ChainAccount, Reason>)
        ensures
            self == ChainId::Eth ==> match public_key {
                Some(k) => r matches Ok(acc) && acc@ == (ChainId::Eth, eth_address_of_key(k@)),
                None => r == Err::<ChainAccount, Reason>(Reason::KeyNotFound),
            },
            self != ChainId::Eth ==> r == Err::<ChainAccount, Reason>(
                Reason::UnsupportedOperation,
            ),
    {
        match self {
            ChainId::Comp => Ok(ChainAccount::Comp(Compound::signer_address(public_key)?)),
            ChainId::Eth => Ok(ChainAccount::Eth(Ethereum::signer_address(public_key)?)),
            ChainId::Dot => Ok(ChainAccount::Dot(Polkadot::signer_address(public_key)?)),
            ChainId::Sol => Ok(ChainAccount::Sol(Solana::signer_address(public_key)?)),
            ChainId::Tez => Ok(ChainAccount::Tez(Tezos::signer_address(public_key)?)),
        }
    }

    /// The digest of `data` under this chain's hash function.
    pub fn hash_bytes(self, data: &[u8]) -> (r: Result<ChainHash, Reason>)
        ensures
            self == ChainId::Eth ==> (r matches Ok(h) && h@ == (ChainId::Eth, keccak256_of(data@))),
            self != ChainId::Eth ==> r == Err::<ChainHash, Reason>(Reason::UnsupportedOperation),
    {
        match self {
            ChainId::Comp => Ok(ChainHash::Comp(Compound::hash_bytes(data)?)),
            ChainId::Eth => Ok(ChainHash::Eth(Ethereum::hash_bytes(data)?)),
            ChainId::Dot => Ok(ChainHash::Dot(Polkadot::hash_bytes(data)?)),
            ChainId::Sol => Ok(ChainHash::Sol(Solana::hash_bytes(data)?)),
            ChainId::Tez => Ok(ChainHash::Tez(Tezos::hash_bytes(data)?)),
        }
    }

    /// The signature over a message, given what the key manager's signer
    /// returned for this chain's signing key, or `None` where it failed.
    pub fn sign(self, signed: Option<Signature>) -> (r: Result<ChainSignature, Reason>)
        ensures
            self == ChainId::Eth ==> match signed {
                Some(s) => r matches Ok(sig) && sig@ == (ChainId::Eth, s@),
                None => r == Err::<ChainSignature, Reason>(Reason::SigningFailed),
            },
            self != ChainId::Eth ==> r == Err::<ChainSignature, Reason>(
                Reason::UnsupportedOperation,
            ),
    {
        match self {
            ChainId::Comp => Ok(ChainSignature::Comp(Compound::sign_message(signed)?)),
            ChainId::Eth => Ok(ChainSignature::Eth(Ethereum::sign_message(signed)?)),
            ChainId::Dot => Ok(ChainSignature::Dot(Polkadot::sign_message(signed)?)),
            ChainId::Sol => Ok(ChainSignature::Sol(Solana::sign_message(signed)?)),
            ChainId::Tez => Ok(ChainSignature::Tez(Tezos::sign_message(signed)?)),
        }
    }

    /// The sentinel digest for "no prior event" on this chain.
    pub fn zero_hash(self) -> (r: Result<ChainHash, Reason>)
        ensures
            self == ChainId::Eth ==> (r matches Ok(h) && h@ == (ChainId::Eth, zero_bytes())),
            self != ChainId::Eth ==> r == Err::<ChainHash, Reason>(Reason::UnsupportedOperation),
    {
        match self {
            ChainId::Comp => Ok(ChainHash::Comp(Compound::zero_hash()?)),
            ChainId::Eth => Ok(ChainHash::Eth(Ethereum::zero_hash()?)),
            ChainId::Dot => Ok(ChainHash::Dot(Polkadot::zero_hash()?)),
            ChainId::Sol => Ok(ChainHash::Sol(Solana::zero_hash()?)),
            ChainId::Tez => Ok(ChainHash::Tez(Tezos::zero_hash()?)),
        }
    }
}

/// The Compound chain: no capability is implemented yet.
#[derive(Clone, Copy, Debug, PartialEq, Eq, Structural)]
pub struct Compound {}

/// The Polkadot chain: no capability is implemented yet.
#[derive(Clone, Copy, Debug, PartialEq, Eq, Structural)]
pub struct Polkadot {}

/// The Solana chain: no capability is implemented yet.
#[derive(Clone, Copy, Debug, PartialEq, Eq, Structural)]
pub struct Solana {}

/// The Tezos chain: no capability is implemented yet.
#[derive(Clone, Copy, Debug, PartialEq, Eq, Structural)]
pub struct Tezos {}

impl Chain for Compound {
    open spec fn zero_hash_spec() -> Result<Seq<u8>, Reason> {
        Err(Reason::UnsupportedOperation)
    }

    open spec fn hash_spec(data: Seq<u8>) -> Result<Seq<u8>, Reason> {
        Err(Reason::UnsupportedOperation)
    }

    open spec fn recover_spec(recovered: Result<Address, RecoveryError>) -> Result<Address, Reason> {
        Err(Reason::UnsupportedOperation)
    }

    open spec fn sign_spec(signed: Option<Signature>) -> Result<Signature, Reason> {
        Err(Reason::UnsupportedOperation)
    }

    open spec fn address_spec(text: Seq<u8>) -> Result<Seq<u8>, Reason> {
        Err(Reason::UnsupportedOperation)
    }

    open spec fn signer_spec(public_key: Option<PublicKey>) -> Result<Seq<u8>, Reason> {
        Err(Reason::UnsupportedOperation)
    }

    fn zero_hash() -> (r: Result<Digest, Reason>) {
        Err(Reason::UnsupportedOperation)
    }

    fn hash_bytes(_data: &[u8]) -> (r: Result<Digest, Reason>) {
        Err(Reason::UnsupportedOperation)
    }

    fn recover_address(_recovered: Result<Address, RecoveryError>) -> (r: Result<Address, Reason>) {
        Err(Reason::UnsupportedOperation)
    }

    fn sign_message(_signed: Option<Signature>) -> (r: Result<Signature, Reason>) {
        Err(Reason::UnsupportedOperation)
    }

    fn to_address(_text: &[u8]) -> (r: Result<Address, Reason>) {
        Err(Reason::UnsupportedOperation)
    }

    fn signer_address(_public_key: Option<PublicKey>) -> (r: Result<Address, Reason>) {
        Err(Reason::UnsupportedOperation)
    }
}

impl Chain for Polkadot {
    open spec fn zero_hash_spec() -> Result<Seq<u8>, Reason> {
        Err(Reason::UnsupportedOperation)
    }

    open spec fn hash_spec(data: Seq<u8>) -> Result<Seq<u8>, Reason> {
        Err(Reason::UnsupportedOperation)
    }

    open spec fn recover_spec(recovered: Result<Address, RecoveryError>) -> Result<Address, Reason> {
        Err(Reason::UnsupportedOperation)
    }

    open spec fn sign_spec(signed: Option<Signature>) -> Result<Signature, Reason> {
        Err(Reason::UnsupportedOperation)
    }

    open spec fn address_spec(text: Seq<u8>) -> Result<Seq<u8>, Reason> {
        Err(Reason::UnsupportedOperation)
    }

    open spec fn signer_spec(public_key: Option<PublicKey>) -> Result<Seq<u8>, Reason> {
        Err(Reason::UnsupportedOperation)
    }

    fn zero_hash() -> (r: Result<Digest, Reason>) {
        Err(Reason::UnsupportedOperation)
    }

    fn hash_bytes(_data: &[u8]) -> (r: Result<Digest, Reason>) {
        Err(Reason::UnsupportedOperation)
    }

    fn recover_address(_recovered: Result<Address, RecoveryError>) -> (r: Result<Address, Reason>) {
        Err(Reason::UnsupportedOperation)
    }

    fn sign_message(_signed: Option<Signature>) -> (r: Result<Signature, Reason>) {
        Err(Reason::UnsupportedOperation)
    }

    fn to_address(_text: &[u8]) -> (r: Result<Address, Reason>) {
        Err(Reason::UnsupportedOperation)
    }

    fn signer_address(_public_key: Option<PublicKey>) -> (r: Result<Address, Reason>) {
        Err(Reason::UnsupportedOperation)
    }
}

impl Chain for Solana {
    open spec fn zero_hash_spec() -> Result<Seq<u8>, Reason> {
        Err(Reason::UnsupportedOperation)
    }

    open spec fn hash_spec(data: Seq<u8>) -> Result<Seq<u8>, Reason> {
        Err(Reason::UnsupportedOperation)
    }

    open spec fn recover_spec(recovered: Result<Address, RecoveryError>) -> Result<Address, Reason> {
        Err(Reason::UnsupportedOperation)
    }

    open spec fn sign_spec(signed: Option<Signature>) -> Result<Signature, Reason> {
        Err(Reason::UnsupportedOperation)
    }

    open spec fn address_spec(text: Seq<u8>) -> Result<Seq<u8>, Reason> {
        Err(Reason::UnsupportedOperation)
    }

    open spec fn signer_spec(public_key: Option<PublicKey>) -> Result<Seq<u8>, Reason> {
        Err(Reason::UnsupportedOperation)
    }

    fn zero_hash() -> (r: Result<Digest, Reason>) {
        Err(Reason::UnsupportedOperation)
    }

    fn hash_bytes(_data: &[u8]) -> (r: Result<Digest, Reason>) {
        Err(Reason::UnsupportedOperation)
    }

    fn recover_address(_recovered: Result<Address, RecoveryError>) -> (r: Result<Address, Reason>) {
        Err(Reason::UnsupportedOperation)
    }

    fn sign_message(_signed: Option<Signature>) -> (r: Result<Signature, Reason>) {
        Err(Reason::UnsupportedOperation)
    }

    fn to_address(_text: &[u8]) -> (r: Result<Address, Reason>) {
        Err(Reason::UnsupportedOperation)
    }

    fn signer_address(_public_key: Option<PublicKey>) -> (r: Result<Address, Reason>) {
        Err(Reason::UnsupportedOperation)
    }
}

impl Chain for Tezos {
    open spec fn zero_hash_spec() -> Result<Seq<u8>, Reason> {
        Err(Reason::UnsupportedOperation)
    }

    open spec fn hash_spec(data: Seq<u8>) -> Result<Seq<u8>, Reason> {
        Err(Reason::UnsupportedOperation)
    }

    open spec fn recover_spec(recovered: Result<Address, RecoveryError>) -> Result<Address, Reason> {
        Err(Reason::UnsupportedOperation)
    }

    open spec fn sign_spec(signed: Option<Signature>) -> Result<Signature, Reason> {
        Err(Reason::UnsupportedOperation)
    }

    open spec fn address_spec(text: Seq<u8>) -> Result<Seq<u8>, Reason> {
        Err(Reason::UnsupportedOperation)
    }

    open spec fn signer_spec(public_key: Option<PublicKey>) -> Result<Seq<u8>, Reason> {
        Err(Reason::UnsupportedOperation)
    }

    fn zero_hash() -> (r: Result<Digest, Reason>) {
        Err(Reason::UnsupportedOperation)
    }

    fn hash_bytes(_data: &[u8]) -> (r: Result<Digest, Reason>) {
        Err(Reason::UnsupportedOperation)
    }

    fn recover_address(_recovered: Result<Address, RecoveryError>) -> (r: Result<Address, Reason>) {
        Err(Reason::UnsupportedOperation)
    }

    fn sign_message(_signed: Option<Signature>) -> (r: Result<Signature, Reason>) {
        Err(Reason::UnsupportedOperation)
    }

    fn to_address(_text: &[u8]) -> (r: Result<Address, Reason>) {
        Err(Reason::UnsupportedOperation)
    }

    fn signer_address(_public_key: Option<PublicKey>) -> (r: Result<Address, Reason>) {
        Err(Reason::UnsupportedOperation)
    }
}

} // verus!
