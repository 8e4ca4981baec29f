//! Chain-tagged accounts, assets, hashes and signatures for several
//! blockchains, with the text codec for `"<chain>:<address>"` strings and
//! the checks that turn a signature and a claimed signer into a verified one.

pub mod chain;
pub mod chains;
pub mod comp;
pub mod dot;
pub mod ethereum;
pub mod hexcodec;
pub mod keccak;
pub mod reason;
pub mod sol;
pub mod tagged;
pub mod text;
pub mod tez;
