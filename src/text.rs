use vstd::prelude::*;

use crate::chains::{tagged_address_of, ChainId};
use crate::ethereum::eth_address_of;
use crate::hexcodec::{
    encode_hex, hex_decoded, hex_digit_value, is_hex_digit, is_hex_text, lower_hex_digit,
    lower_hex_text,
};
use crate::reason::Reason;
use crate::tagged::{ChainAccount, ChainAsset};
use vstd::string::StringSliceAdditionalSpecFns;
use vstd::utf8::{encode_utf8, is_ascii_chars, is_ascii_chars_encode_utf8};

verus! {

/// The byte `:` that separates a chain tag from an address.
pub const COLON: u8 = 0x3a;

/// An ASCII letter in upper case; any other byte as it is.
pub open spec fn upper_byte(b: u8) -> u8 {
    if 0x61 <= b <= 0x7a {
        (b - 32) as u8
    } else {
        b
    }
}

/// Whether `tag` equals the upper-case word `word` when ASCII case is ignored.
pub open spec fn tag_matches(tag: Seq<u8>, word: Seq<u8>) -> bool {
    &&& tag.len() == word.len()
    &&& forall|i: int| 0 <= i < tag.len() ==> upper_byte(#[trigger] tag[i]) == word[i]
}

/// The chain that a tag names, ignoring ASCII case: `ETH` or `SOL`.
pub open spec fn chain_of_tag(tag: Seq<u8>) -> Option<ChainId> {
    if tag_matches(tag, seq![0x45u8, 0x54u8, 0x48u8]) {
        Some(ChainId::Eth)
    } else if tag_matches(tag, seq![0x53u8, 0x4fu8, 0x4cu8]) {
        Some(ChainId::Sol)
    } else {
        None
    }
}

/// Whether `i` is the position of the first colon of `s`.
pub open spec fn is_first_colon(s: Seq<u8>, i: int) -> bool {
    &&& 0 <= i < s.len()
    &&& s[i] == COLON
    &&& forall|j: int| 0 <= j < i ==> s[j] != COLON
}

/// The text before and after the first colon, if there is one.
pub open spec fn split_at_colon(s: Seq<u8>) -> Option<(Seq<u8>, Seq<u8>)> {
    if exists|i: int| is_first_colon(s, i) {
        let i = choose|i: int| is_first_colon(s, i);
        Some((s.take(i), s.skip(i + 1)))
    } else {
        None
    }
}

/// The chain tag and address bytes that `"<chain>:<address>"` text stands
/// for, or why it stands for none.
pub open spec fn tagged_address_of_text(s: Seq<u8>) -> Result<(ChainId, Seq<u8>), Reason> {
    match split_at_colon(s) {
        None => Err(Reason::BadAsset),
        Some((tag, addr)) => match chain_of_tag(tag) {
            None => Err(Reason::BadChainId),
            Some(c) => tagged_address_of(c, addr),
        },
    }
}

/// The text of a reference-chain address: `ETH:0x` and lower-case hexadecimal.
pub open spec fn eth_text(a: Seq<u8>) -> Seq<char> {
    seq!['E', 'T', 'H', ':', '0', 'x'] + lower_hex_text(a)
}

proof fn lemma_lower_hex_digit(v: int)
    requires
        0 <= v < 16,
    ensures
        is_hex_digit(lower_hex_digit(v) as u8),
        hex_digit_value(lower_hex_digit(v) as u8) == v,
        (lower_hex_digit(v) as u8) as char == lower_hex_digit(v),
        '\0' <= lower_hex_digit(v) <= '\u{7f}',
        lower_hex_digit(v) != ':',
{
}

/// Lower-case hexadecimal text of 20 bytes after `0x` parses back to those bytes.
pub proof fn lemma_address_text_round_trip(a: Seq<u8>)
    requires
        a.len() == 20,
    ensures
        eth_address_of(encode_utf8(seq!['0', 'x'] + lower_hex_text(a))) == Some(a),
{
    let text = seq!['0', 'x'] + lower_hex_text(a);
    assert forall|i: int| 0 <= i < text.len() implies '\0' <= #[trigger] text[i] <= '\u{7f}' by {
        if i >= 2 {
            let k = i - 2;
            if k % 2 == 0 {
                lemma_lower_hex_digit(a[k / 2] as int / 16);
            } else {
                lemma_lower_hex_digit(a[k / 2] as int % 16);
            }
        }
    }
    assert(is_ascii_chars(text));
    is_ascii_chars_encode_utf8(text);
    let bytes = encode_utf8(text);
    let body = bytes.subrange(2, 42);
    assert(bytes.len() == 42);
    assert(bytes[0] == text[0] as u8);
    assert(bytes[1] == text[1] as u8);
    assert forall|i: int| 0 <= i < body.len() implies is_hex_digit(#[trigger] body[i]) by {
        assert(body[i] == bytes[i + 2]);
        assert(bytes[i + 2] == text[i + 2] as u8);
        if i % 2 == 0 {
            lemma_lower_hex_digit(a[i / 2] as int / 16);
        } else {
            lemma_lower_hex_digit(a[i / 2] as int % 16);
        }
    }
    assert(is_hex_text(body));
    assert forall|k: int| 0 <= k < 20 implies #[trigger] hex_decoded(body)[k] == a[k] by {
        assert(body[2 * k] == text[2 * k + 2] as u8);
        assert(body[2 * k + 1] == text[2 * k + 3] as u8);
        lemma_lower_hex_digit(a[k] as int / 16);
        lemma_lower_hex_digit(a[k] as int % 16);
        assert((a[k] as int / 16) * 16 + a[k] as int % 16 == a[k] as int);
    }
    assert(hex_decoded(body) =~= a);
}

/// Formatting a reference-chain account's address and parsing the text back
/// gives the same chain and address.
pub proof fn lemma_account_text_round_trip(a: Seq<u8>)
    requires
        a.len() == 20,
    ensures
        tagged_address_of_text(encode_utf8(eth_text(a))) == Ok::<(ChainId, Seq<u8>), Reason>(
            (ChainId::Eth, a),
        ),
{
    let hex = lower_hex_text(a);
    let text = eth_text(a);
    let addr_text = seq!['0', 'x'] + hex;
    assert forall|i: int| 0 <= i < text.len() implies '\0' <= #[trigger] text[i] <= '\u{7f}'
        && (i != 3 ==> text[i] != ':') by {
        if i >= 6 {
            let k = i - 6;
            assert(text[i] == hex[k]);
            if k % 2 == 0 {
                lemma_lower_hex_digit(a[k / 2] as int / 16);
            } else {
                lemma_lower_hex_digit(a[k / 2] as int % 16);
            }
        }
    }
    assert(is_ascii_chars(text));
    is_ascii_chars_encode_utf8(text);
    let bytes = encode_utf8(text);
    assert forall|j: int| 0 <= j < 3 implies bytes[j] != COLON by {
        assert(bytes[j] == text[j] as u8);
    }
    assert(bytes[3] == text[3] as u8);
    assert(is_first_colon(bytes, 3));
    let k = choose|k: int| is_first_colon(bytes, k);
    if k < 3 {
        assert(bytes[k] != COLON);
    } else if k > 3 {
        assert(bytes[3] != COLON);
    }
    assert(split_at_colon(bytes) == Some((bytes.take(3), bytes.skip(4))));
    let tag = bytes.take(3);
    assert(tag[0] == text[0] as u8);
    assert(tag[1] == text[1] as u8);
    assert(tag[2] == text[2] as u8);
    assert(chain_of_tag(tag) == Some(ChainId::Eth));
    assert(text =~= seq!['E', 'T', 'H', ':'] + addr_text);
    assert(is_ascii_chars(addr_text)) by {
        assert forall|i: int| 0 <= i < addr_text.len() implies '\0' <= #[trigger] addr_text[i]
            <= '\u{7f}' by {
            assert(addr_text[i] == text[i + 4]);
        }
    }
    is_ascii_chars_encode_utf8(addr_text);
    assert forall|i: int| 0 <= i < 42 implies #[trigger] bytes.skip(4)[i] == encode_utf8(
        addr_text,
    )[i] by {
        assert(bytes[i + 4] == text[i + 4] as u8);
        assert(addr_text[i] == text[i + 4]);
    }
    assert(bytes.skip(4) =~= encode_utf8(addr_text));
    lemma_address_text_round_trip(a);
}

fn upper(b: u8) -> (r: u8)
    ensures
        r == upper_byte(b),
{
    if 0x61 <= b && b <= 0x7a {
        b - 32
    } else {
        b
    }
}

fn tag_is(tag: &[u8], w0: u8, w1: u8, w2: u8) -> (r: bool)
    ensures
        r == tag_matches(tag@, seq![w0, w1, w2]),
{
    tag.len() == 3 && upper(tag[0]) == w0 && upper(tag[1]) == w1 && upper(tag[2]) == w2
}

/// The chain that the bytes of a tag name.
fn chain_from_tag(tag: &[u8]) -> (r: Result<ChainId, Reason>)
    ensures
        match chain_of_tag(tag@) {
            Some(c) => r == Ok::<ChainId, Reason>(c),
            None => r == Err::<ChainId, Reason>(Reason::BadChainId),
        },
{
    if tag_is(tag, 0x45, 0x54, 0x48) {
        Ok(ChainId::Eth)
    } else if tag_is(tag, 0x53, 0x4f, 0x4c) {
        Ok(ChainId::Sol)
    } else {
        Err(Reason::BadChainId)
    }
}

/// The position of the first colon in `s`, if any.
fn find_colon(s: &[u8]) -> (r: Option<usize>)
    ensures
        match r {
            Some(i) => is_first_colon(s@, i as int),
            None => forall|j: int| 0 <= j < s@.len() ==> s@[j] != COLON,
        },
{
    let mut i: usize = 0;
    while i < s.len()
        invariant
            0 <= i <= s@.len(),
            forall|j: int| 0 <= j < i ==> s@[j] != COLON,
        decreases s@.len() - i,
    {
        if s[i] == COLON {
            return Some(i);
        }
        i = i + 1;
    }
    None
}

/// Splits text at its first colon.
fn split_text(s: &[u8]) -> (r: Option<(&[u8], &[u8])>)
    ensures
        match split_at_colon(s@) {
            Some((tag, addr)) => r matches Some(p) && p.0@ == tag && p.1@ == addr,
            None => r is None,
        },
{
    match find_colon(s) {
        Some(i) => {
            proof {
                assert(is_first_colon(s@, i as int));
                let k = choose|k: int| is_first_colon(s@, k);
                if k < i {
                    assert(s@[k] != COLON);
                } else if k > i {
                    assert(s@[i as int] != COLON);
                }
                assert(k == i);
            }
            assert(i < s.len());
            Some((&s[0..i], &s[i + 1..s.len()]))
        },
        None => {
            assert(!exists|k: int| is_first_colon(s@, k));
            None
        },
    }
}

impl ChainId {
    /// The chain that a tag names, ignoring ASCII case.
    pub fn from_tag(s: &str) -> (r: Result<ChainId, Reason>)
        ensures
            match chain_of_tag(s.spec_bytes()) {
                Some(c) => r == Ok::<ChainId, Reason>(c),
                None => r == Err::<ChainId, Reason>(Reason::BadChainId),
            },
    {
        chain_from_tag(s.as_bytes())
    }
}

impl ChainAccount {
    /// Parses `"<chain>:<address>"` text, such as configuration holds.
    pub fn from_text(s: &str) -> (r: Result<ChainAccount, Reason>)
        ensures
            match tagged_address_of_text(s.spec_bytes()) {
                Ok(v) => r matches Ok(acc) && acc@ == v,
                Err(e) => r == Err::<ChainAccount, Reason>(e),
            },
    {
        match split_text(s.as_bytes()) {
            Some((tag, addr)) => {
                let chain_id = chain_from_tag(tag)?;
                chain_id.account_from_text(addr)
            },
            None => Err(Reason::BadAsset),
        }
    }

    /// The `"ETH:0x<hex>"` text of a reference-chain account.
    pub fn to_text(&self) -> (r: Result<String, Reason>)
        ensures
            self@.0 == ChainId::Eth ==> (r matches Ok(s) && s@ == eth_text(self@.1)),
            self@.0 != ChainId::Eth ==> r == Err::<String, Reason>(Reason::UnsupportedChain),
    {
        match self {
            ChainAccount::Eth(address) => Ok(eth_text_of(address)),
            _ => Err(Reason::UnsupportedChain),
        }
    }
}

impl ChainAsset {
    /// Parses `"<chain>:<address>"` text, such as configuration holds.
    pub fn from_text(s: &str) -> (r: Result<ChainAsset, Reason>)
        ensures
            match tagged_address_of_text(s.spec_bytes()) {
                Ok(v) => r matches Ok(asset) && asset@ == v,
                Err(e) => r == Err::<ChainAsset, Reason>(e),
            },
    {
        match split_text(s.as_bytes()) {
            Some((tag, addr)) => {
                let chain_id = chain_from_tag(tag)?;
                chain_id.asset_from_text(addr)
            },
            None => Err(Reason::BadAsset),
        }
    }

    /// The `"ETH:0x<hex>"` text of a reference-chain asset.
    pub fn to_text(&self) -> (r: Result<String, Reason>)
        ensures
            self@.0 == ChainId::Eth ==> (r matches Ok(s) && s@ == eth_text(self@.1)),
            self@.0 != ChainId::Eth ==> r == Err::<String, Reason>(Reason::UnsupportedChain),
    {
        match self {
            ChainAsset::Eth(address) => Ok(eth_text_of(address)),
            _ => Err(Reason::UnsupportedChain),
        }
    }
}

fn eth_text_of(address: &[u8; 20]) -> (r: String)
    ensures
        r@ == eth_text(address@),
{
    let digits = encode_hex(address);
    let mut text = "ETH:0x".to_string();
    text.append(digits.as_str());
    proof {
        reveal_strlit("ETH:0x");
    }
    assert(text@ =~= eth_text(address@));
    text
}

/// Text whose part before the first colon is not a recognised chain tag is
/// refused as naming no chain, whatever follows.
pub proof fn lemma_unknown_tag_refused(s: Seq<u8>)
    requires
        split_at_colon(s) matches Some((tag, _)) && chain_of_tag(tag) is None,
    ensures
        tagged_address_of_text(s) == Err::<(ChainId, Seq<u8>), Reason>(Reason::BadChainId),
{
}

/// A reference-chain address text that is not `0x` and 40 hexadecimal
/// digits is refused as a bad address.
pub proof fn lemma_malformed_address_refused(text: Seq<u8>)
    requires
        eth_address_of(text) is None,
    ensures
        tagged_address_of(ChainId::Eth, text) == Err::<(ChainId, Seq<u8>), Reason>(
            Reason::BadAddress,
        ),
{
}

impl std::str::FromStr for ChainId {
    type Err = Reason;

    fn from_str(s: &str) -> Result<ChainId, Reason> {
        ChainId::from_tag(s)
    }
}

impl std::str::FromStr for ChainAccount {
    type Err = Reason;

    fn from_str(s: &str) -> Result<ChainAccount, Reason> {
        ChainAccount::from_text(s)
    }
}

impl std::str::FromStr for ChainAsset {
    type Err = Reason;

    fn from_str(s: &str) -> Result<ChainAsset, Reason> {
        ChainAsset::from_text(s)
    }
}

} // verus!
