use cash_chains::chain::Chain;
use cash_chains::chains::{ChainId, Compound, Polkadot, Solana, Tezos};
use cash_chains::ethereum::{Ethereum, RecoveryError};
use cash_chains::reason::Reason;
use cash_chains::tagged::{ChainAccount, ChainAccountSignature, ChainAsset, ChainHash, ChainSignature};

const EMPTY_KECCAK: &str = "c5d2460186f7233c927e7db2dcc703c0e500b653ca82273b7bfad8045d85a470";

#[test]
fn address_with_one_digit_too_many_is_bad() {
    assert_eq!(
        ChainId::Eth.to_account("0x11111111111111111111111111111111111111111"),
        Err(Reason::BadAddress)
    );
    assert_eq!(
        ChainAccount::from_text("eth:0x11111111111111111111111111111111111111111"),
        Err(Reason::BadAddress)
    );
}

#[test]
fn lower_case_tag_parses_to_ethereum_account() {
    let acc = ChainAccount::from_text("eth:0x2222222222222222222222222222222222222222");
    assert_eq!(acc, Ok(ChainAccount::Eth([0x22u8; 20])));
    assert_eq!(acc.unwrap().chain_id(), ChainId::Eth);
}

#[test]
fn unknown_tag_is_bad_chain_id() {
    assert_eq!(ChainAccount::from_text("xyz:0xabc"), Err(Reason::BadChainId));
    assert_eq!(ChainAsset::from_text("xyz:0xabc"), Err(Reason::BadChainId));
    assert_eq!(ChainId::from_tag("dot"), Err(Reason::BadChainId));
    assert_eq!(ChainId::from_tag(""), Err(Reason::BadChainId));
    assert_eq!(ChainId::from_tag("ETHX"), Err(Reason::BadChainId));
}

#[test]
fn placeholder_chain_operations_are_unsupported() {
    assert_eq!(ChainId::Dot.hash_bytes(b"abc"), Err(Reason::UnsupportedOperation));
    assert_eq!(ChainId::Dot.zero_hash(), Err(Reason::UnsupportedOperation));
    assert_eq!(ChainId::Comp.sign(Some([1u8; 65])), Err(Reason::UnsupportedOperation));
    assert_eq!(ChainId::Tez.signer_address(Some([1u8; 64])), Err(Reason::UnsupportedOperation));
    assert_eq!(ChainId::Sol.to_account("0x2222222222222222222222222222222222222222"), Err(Reason::UnsupportedOperation));
    assert_eq!(ChainId::Sol.signing_key(Some(7u32)), Err(Reason::UnsupportedOperation));
    assert_eq!(
        ChainAccount::from_text("SOL:0x2222222222222222222222222222222222222222"),
        Err(Reason::UnsupportedOperation)
    );
}

#[test]
fn tags_ignore_case() {
    assert_eq!(ChainId::from_tag("ETH"), Ok(ChainId::Eth));
    assert_eq!(ChainId::from_tag("eTh"), Ok(ChainId::Eth));
    assert_eq!(ChainId::from_tag("sol"), Ok(ChainId::Sol));
    assert_eq!("Sol".parse::<ChainId>(), Ok(ChainId::Sol));
}

#[test]
fn default_chain_is_ethereum() {
    assert_eq!(ChainId::default(), ChainId::Eth);
}

#[test]
fn text_without_colon_is_bad_asset() {
    assert_eq!(ChainAccount::from_text("eth0x2222"), Err(Reason::BadAsset));
    assert_eq!(ChainAsset::from_text(""), Err(Reason::BadAsset));
}

#[test]
fn malformed_addresses_are_bad() {
    let cases = [
        "",
        "0x",
        "2222222222222222222222222222222222222222",
        "1x2222222222222222222222222222222222222222",
        "0X2222222222222222222222222222222222222222",
        "0x222222222222222222222222222222222222222g",
        "0x222222222222222222222222222222222222222",
        "0x22222222222222222222222222222222222222é",
    ];
    for c in cases.iter() {
        assert_eq!(Ethereum::to_address(c.as_bytes()), Err(Reason::BadAddress), "{}", c);
        assert_eq!(ChainId::Eth.to_asset(c), Err(Reason::BadAddress), "{}", c);
    }
}

#[test]
fn mixed_case_hex_address_decodes() {
    let a = ChainId::Eth.to_asset("0xABcdef0123456789abcdef0123456789ABCDEF01").unwrap();
    let want = [
        0xab, 0xcd, 0xef, 0x01, 0x23, 0x45, 0x67, 0x89, 0xab, 0xcd, 0xef, 0x01, 0x23, 0x45, 0x67,
        0x89, 0xab, 0xcd, 0xef, 0x01,
    ];
    assert_eq!(a, ChainAsset::Eth(want));
}

#[test]
fn account_text_round_trip() {
    let text = "ETH:0x00ff10a09b8c7d6e5f4a3b2c1d0e0f1a2b3c4d5e";
    let acc = ChainAccount::from_text(text).unwrap();
    assert_eq!(acc.to_text(), Ok(text.to_string()));
    let again = ChainAccount::from_text(&acc.to_text().unwrap()).unwrap();
    assert_eq!(again, acc);
    let asset = ChainAsset::Eth([0x0fu8; 20]);
    assert_eq!(asset.to_text(), Ok(format!("ETH:0x{}", "0f".repeat(20))));
    assert_eq!(ChainAsset::from_text(&asset.to_text().unwrap()), Ok(asset));
    assert_eq!("eth:0x2222222222222222222222222222222222222222".parse::<ChainAccount>(), Ok(ChainAccount::Eth([0x22; 20])));
}

#[test]
fn placeholder_text_is_unsupported_chain() {
    assert_eq!(ChainAccount::Dot([1u8; 20]).to_text(), Err(Reason::UnsupportedChain));
    assert_eq!(ChainAsset::Sol([1u8; 20]).to_text(), Err(Reason::UnsupportedChain));
}

#[test]
fn zero_hash_is_stable_and_all_zero() {
    assert_eq!(ChainId::Eth.zero_hash(), Ok(ChainHash::Eth([0u8; 32])));
    assert_eq!(ChainId::Eth.zero_hash(), ChainId::Eth.zero_hash());
    assert_ne!(ChainId::Eth.zero_hash(), ChainId::Eth.hash_bytes(b"x"));
}

#[test]
fn keccak_of_empty_input() {
    let h = ChainId::Eth.hash_bytes(b"").unwrap();
    let mut want = [0u8; 32];
    for i in 0..32 {
        want[i] = u8::from_str_radix(&EMPTY_KECCAK[2 * i..2 * i + 2], 16).unwrap();
    }
    assert_eq!(h, ChainHash::Eth(want));
}

#[test]
fn signer_address_is_low_bytes_of_key_digest() {
    // The key of private key 1: the secp256k1 generator point.
    let gx = "79be667ef9dcbbac55a06295ce870b07029bfcdb2dce28d959f2815b16f81798";
    let gy = "483ada7726a3c4655da4fbfc0e1108a8fd17b448a68554199c47d08ffb10d4b8";
    let mut key = [0u8; 64];
    let full = format!("{}{}", gx, gy);
    for i in 0..64 {
        key[i] = u8::from_str_radix(&full[2 * i..2 * i + 2], 16).unwrap();
    }
    let acc = ChainId::Eth.signer_address(Some(key)).unwrap();
    assert_eq!(acc.to_text(), Ok("ETH:0x7e5f4552091a69125d5dfcb7b8c2659029395bdf".to_string()));
    assert_eq!(ChainId::Eth.signer_address(None), Err(Reason::KeyNotFound));
}

#[test]
fn signing_needs_a_key_and_a_signature() {
    assert_eq!(ChainId::Eth.signing_key(Some(3u32)), Ok(3u32));
    assert_eq!(ChainId::Eth.signing_key::<u32>(None), Err(Reason::KeyNotFound));
    assert_eq!(ChainId::Eth.sign(Some([5u8; 65])), Ok(ChainSignature::Eth([5u8; 65])));
    assert_eq!(ChainId::Eth.sign(None), Err(Reason::SigningFailed));
}

#[test]
fn recovery_to_a_different_account_is_a_mismatch() {
    let claimed = [0x11u8; 20];
    let signer = [0x22u8; 20];
    let sig = [9u8; 65];
    let pair = ChainAccountSignature::Eth(claimed, sig);
    assert_eq!(pair.recover_account(Ok(signer)), Err(Reason::SignatureAccountMismatch));
    assert_eq!(pair.recover_account(Ok(claimed)), Ok(ChainAccount::Eth(claimed)));
    assert_eq!(
        pair.recover_account(Err(RecoveryError::SignatureRecoveryError)),
        Err(Reason::SignatureRecoveryError)
    );
    assert_eq!(ChainAccountSignature::Dot(claimed, sig).recover_account(Ok(claimed)), Err(Reason::UnsupportedOperation));
}

#[test]
fn signature_recovery_and_projection() {
    let pair = ChainAccountSignature::Eth([1u8; 20], [2u8; 65]);
    let sig = pair.to_chain_signature();
    assert_eq!(sig, ChainSignature::Eth([2u8; 65]));
    assert_eq!(sig.chain_id(), ChainId::Eth);
    assert_eq!(sig.recover(Ok([3u8; 20])), Ok(ChainAccount::Eth([3u8; 20])));
    assert_eq!(sig.recover(Err(RecoveryError::SignatureRecoveryError)), Err(Reason::SignatureRecoveryError));
    assert_eq!(ChainSignature::Sol([2u8; 65]).recover(Ok([3u8; 20])), Err(Reason::UnsupportedOperation));
    assert_eq!(ChainAccountSignature::Tez([1u8; 20], [2u8; 65]).to_chain_signature(), ChainSignature::Tez([2u8; 65]));
}

#[test]
fn chain_id_is_total() {
    assert_eq!(ChainAccount::Comp([0u8; 20]).chain_id(), ChainId::Comp);
    assert_eq!(ChainAccount::Tez([0u8; 20]).chain_id(), ChainId::Tez);
    assert_eq!(ChainAsset::Dot([0u8; 20]).chain_id(), ChainId::Dot);
    assert_eq!(ChainAsset::Sol([0u8; 20]).chain_id(), ChainId::Sol);
    assert_eq!(ChainSignature::Comp([0u8; 65]).chain_id(), ChainId::Comp);
}

#[test]
fn per_chain_capabilities() {
    assert_eq!(Ethereum::zero_hash(), Ok([0u8; 32]));
    assert_eq!(
        Ethereum::to_address(b"0x2222222222222222222222222222222222222222"),
        Ok([0x22u8; 20])
    );
    assert_eq!(Ethereum::recover_address(Ok([4u8; 20])), Ok([4u8; 20]));
    assert_eq!(Ethereum::sign_message(None), Err(Reason::SigningFailed));
    assert_eq!(Compound::zero_hash(), Err(Reason::UnsupportedOperation));
    assert_eq!(Polkadot::hash_bytes(b"a"), Err(Reason::UnsupportedOperation));
    assert_eq!(Solana::to_address(b"0x2222222222222222222222222222222222222222"), Err(Reason::UnsupportedOperation));
    assert_eq!(Tezos::recover_address(Ok([4u8; 20])), Err(Reason::UnsupportedOperation));
}
