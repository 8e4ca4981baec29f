use vstd::prelude::*;

use crate::chain::Chain;
use crate::chains::{ChainId, Compound, Polkadot, Solana, Tezos};
use crate::ethereum::{Address, Ethereum, Digest, RecoveryError, Signature};
use crate::reason::Reason;

verus! {

/// An external holder of value on a chain.
#[derive(Clone, Copy, Debug, PartialEq, Eq)]
pub enum ChainAccount {
    Comp(Address),
    Eth(Address),
    Dot(Address),
    Sol(Address),
    Tez(Address),
}

/// A token or contract address on a chain.
#[derive(Clone, Copy, Debug, PartialEq, Eq)]
pub enum ChainAsset {
    Comp(Address),
    Eth(Address),
    Dot(Address),
    Sol(Address),
    Tez(Address),
}

/// A digest tied to a chain.
#[derive(Clone, Copy, Debug, PartialEq, Eq)]
pub enum ChainHash {
    Comp(Digest),
    Eth(Digest),
    Dot(Digest),
    Sol(Digest),
    Tez(Digest),
}

/// Either the ledger's own unit of account or an asset of some chain.
#[derive(Clone, Copy, Debug, PartialEq, Eq)]
pub enum CashAsset {
    Cash,
    Asset(ChainAsset),
}

/// An asset of a chain paired with an account of the same chain.
#[derive(Clone, Copy, Debug, PartialEq, Eq)]
pub enum ChainAssetAccount {
    Comp(Address, Address),
    Eth(Address, Address),
    Dot(Address, Address),
    Sol(Address, Address),
    Tez(Address, Address),
}

/// A claimed signer and a signature, both of the same chain.
#[derive(Clone, Copy, Debug, PartialEq, Eq)]
pub enum ChainAccountSignature {
    Comp(Address, Signature),
    Eth(Address, Signature),
    Dot(Address, Signature),
    Sol(Address, Signature),
    Tez(Address, Signature),
}

/// A signature tied to a chain.
#[derive(Clone, Copy, Debug, PartialEq, Eq)]
pub enum ChainSignature {
    Comp(Signature),
    Eth(Signature),
    Dot(Signature),
    Sol(Signature),
    Tez(Signature),
}

/// The signers of one message on a chain, in order, each with its signature.
#[derive(Clone, Debug, PartialEq, Eq)]
pub enum ChainSignatureList {
    Comp(Vec<(Address, Signature)>),
    Eth(Vec<(Address, Signature)>),
    Dot(Vec<(Address, Signature)>),
    Sol(Vec<(Address, Signature)>),
    Tez(Vec<(Address, Signature)>),
}

impl View for ChainAccount {
    /// The chain tag and the address bytes.
    type V = (ChainId, Seq<u8>);

    open spec fn view(&self) -> (ChainId, Seq<u8>) {
        match self {
            ChainAccount::Comp(a) => (ChainId::Comp, a@),
            ChainAccount::Eth(a) => (ChainId::Eth, a@),
            ChainAccount::Dot(a) => (ChainId::Dot, a@),
            ChainAccount::Sol(a) => (ChainId::Sol, a@),
            ChainAccount::Tez(a) => (ChainId::Tez, a@),
        }
    }
}

impl View for ChainAsset {
    /// The chain tag and the address bytes.
    type V = (ChainId, Seq<u8>);

    open spec fn view(&self) -> (ChainId, Seq<u8>) {
        match self {
            ChainAsset::Comp(a) => (ChainId::Comp, a@),
            ChainAsset::Eth(a) => (ChainId::Eth, a@),
            ChainAsset::Dot(a) => (ChainId::Dot, a@),
            ChainAsset::Sol(a) => (ChainId::Sol, a@),
            ChainAsset::Tez(a) => (ChainId::Tez, a@),
        }
    }
}

impl View for ChainHash {
    /// The chain tag and the digest bytes.
    type V = (ChainId, Seq<u8>);

    open spec fn view(&self) -> (ChainId, Seq<u8>) {
        match self {
            ChainHash::Comp(h) => (ChainId::Comp, h@),
            ChainHash::Eth(h) => (ChainId::Eth, h@),
            ChainHash::Dot(h) => (ChainId::Dot, h@),
            ChainHash::Sol(h) => (ChainId::Sol, h@),
            ChainHash::Tez(h) => (ChainId::Tez, h@),
        }
    }
}

impl View for ChainSignature {
    /// The chain tag and the signature bytes.
    type V = (ChainId, Seq<u8>);

    open spec fn view(&self) -> (ChainId, Seq<u8>) {
        match self {
            ChainSignature::Comp(s) => (ChainId::Comp, s@),
            ChainSignature::Eth(s) => (ChainId::Eth, s@),
            ChainSignature::Dot(s) => (ChainId::Dot, s@),
            ChainSignature::Sol(s) => (ChainId::Sol, s@),
            ChainSignature::Tez(s) => (ChainId::Tez, s@),
        }
    }
}

impl View for ChainAccountSignature {
    /// The chain tag, the claimed address bytes and the signature bytes.
    type V = (ChainId, Seq<u8>, Seq<u8>);

    open spec fn view(&self) -> (ChainId, Seq<u8>, Seq<u8>) {
        match self {
            ChainAccountSignature::Comp(a, s) => (ChainId::Comp, a@, s@),
            ChainAccountSignature::Eth(a, s) => (ChainId::Eth, a@, s@),
            ChainAccountSignature::Dot(a, s) => (ChainId::Dot, a@, s@),
            ChainAccountSignature::Sol(a, s) => (ChainId::Sol, a@, s@),
            ChainAccountSignature::Tez(a, s) => (ChainId::Tez, a@, s@),
        }
    }
}

/// Whether two addresses hold the same bytes.
fn same_address(a: &Address, b: &Address) -> (r: bool)
    ensures
        r == (a@ == b@),
{
    let mut i: usize = 0;
    while i < 20
        invariant
            0 <= i <= 20,
            a@.len() == 20,
            b@.len() == 20,
            forall|j: int| 0 <= j < i ==> a@[j] == b@[j],
        decreases 20 - i,
    {
        if a[i] != b[i] {
            return false;
        }
        i = i + 1;
    }
    assert(a@ =~= b@);
    true
}

impl ChainAccount {
    /// The chain this account belongs to.
    pub fn chain_id(&self) -> (r: ChainId)
        ensures
            r == self@.0,
    {
        match *self {
            ChainAccount::Comp(_) => ChainId::Comp,
            ChainAccount::Eth(_) => ChainId::Eth,
            ChainAccount::Dot(_) => ChainId::Dot,
            ChainAccount::Sol(_) => ChainId::Sol,
            ChainAccount::Tez(_) => ChainId::Tez,
        }
    }
}

impl ChainAsset {
    /// The chain this asset belongs to.
    pub fn chain_id(&self) -> (r: ChainId)
        ensures
            r == self@.0,
    {
        match *self {
            ChainAsset::Comp(_) => ChainId::Comp,
            ChainAsset::Eth(_) => ChainId::Eth,
            ChainAsset::Dot(_) => ChainId::Dot,
            ChainAsset::Sol(_) => ChainId::Sol,
            ChainAsset::Tez(_) => ChainId::Tez,
        }
    }
}

impl ChainSignature {
    /// The chain this signature belongs to.
    pub fn chain_id(&self) -> (r: ChainId)
        ensures
            r == self@.0,
    {
        match *self {
            ChainSignature::Comp(_) => ChainId::Comp,
            ChainSignature::Eth(_) => ChainId::Eth,
            ChainSignature::Dot(_) => ChainId::Dot,
            ChainSignature::Sol(_) => ChainId::Sol,
            ChainSignature::Tez(_) => ChainId::Tez,
        }
    }

    /// The account that this signature recovers to, given the outcome of
    /// this chain's recovery primitive on the message and the signature.
    pub fn recover(&self, recovered: Result<Address, RecoveryError>) -> (r: Result<
        ChainAccount,
        Reason,
    >)
        ensures
            self@.0 == ChainId::Eth ==> match recovered {
                Ok(a) => r matches Ok(acc) && acc@ == (ChainId::Eth, a@),
                Err(_) => r == Err::<ChainAccount, Reason>(Reason::SignatureRecoveryError),
            },
            self@.0 != ChainId::Eth ==> r == Err::<ChainAccount, Reason>(
                Reason::UnsupportedOperation,
            ),
    {
        match self {
            ChainSignature::Comp(_) => Ok(ChainAccount::Comp(Compound::recover_address(recovered)?)),
            ChainSignature::Eth(_) => Ok(ChainAccount::Eth(Ethereum::recover_address(recovered)?)),
            ChainSignature::Dot(_) => Ok(ChainAccount::Dot(Polkadot::recover_address(recovered)?)),
            ChainSignature::Sol(_) => Ok(ChainAccount::Sol(Solana::recover_address(recovered)?)),
            ChainSignature::Tez(_) => Ok(ChainAccount::Tez(Tezos::recover_address(recovered)?)),
        }
    }
}

impl ChainAccountSignature {
    /// The signature half, on the same chain.
    pub fn to_chain_signature(self) -> (r: ChainSignature)
        ensures
            r@ == (self@.0, self@.2),
    {
        match self {
            ChainAccountSignature::Comp(_, sig) => ChainSignature::Comp(sig),
            ChainAccountSignature::Eth(_, sig) => ChainSignature::Eth(sig),
            ChainAccountSignature::Dot(_, sig) => ChainSignature::Dot(sig),
            ChainAccountSignature::Sol(_, sig) => ChainSignature::Sol(sig),
            ChainAccountSignature::Tez(_, sig) => ChainSignature::Tez(sig),
        }
    }

    /// The claimed account, once it is shown to be the signer: given the
    /// outcome of this chain's recovery primitive on the message and the
    /// signature, succeeds only where the recovered address is exactly the
    /// claimed one.
    pub fn recover_account(self, recovered: Result<Address, RecoveryError>) -> (r: Result<
        ChainAccount,
        Reason,
    >)
        ensures
            self@.0 == ChainId::Eth ==> match recovered {
                Ok(a) => if a@ == self@.1 {
                    r matches Ok(acc) && acc@ == (ChainId::Eth, a@)
                } else {
                    r == Err::<ChainAccount, Reason>(Reason::SignatureAccountMismatch)
                },
                Err(_) => r == Err::<ChainAccount, Reason>(Reason::SignatureRecoveryError),
            },
            self@.0 != ChainId::Eth ==> r == Err::<ChainAccount, Reason>(
                Reason::UnsupportedOperation,
            ),
    {
        match self {
            ChainAccountSignature::Eth(eth_account, _) => {
                let found = Ethereum::recover_address(recovered)?;
                if same_address(&eth_account, &found) {
                    Ok(ChainAccount::Eth(found))
                } else {
                    Err(Reason::SignatureAccountMismatch)
                }
            },
            ChainAccountSignature::Comp(_, _) => Ok(
                ChainAccount::Comp(Compound::recover_address(recovered)?),
            ),
            ChainAccountSignature::Dot(_, _) => Ok(
                ChainAccount::Dot(Polkadot::recover_address(recovered)?),
            ),
            ChainAccountSignature::Sol(_, _) => Ok(
                ChainAccount::Sol(Solana::recover_address(recovered)?),
            ),
            ChainAccountSignature::Tez(_, _) => Ok(
                ChainAccount::Tez(Tezos::recover_address(recovered)?),
            ),
        }
    }
}

} // verus!
