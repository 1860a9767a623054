use vstd::prelude::*;
use crate::errors::{ForestError, ForestResult};
use crate::text::push_char;

verus! {

#[verifier::external_type_specification]
#[verifier::external_body]
pub struct ExCid<const S: usize>(cid::CidGeneric<S>);

#[verifier::external_type_specification]
#[verifier::external_body]
pub struct ExCidError(cid::Error);

/// The multicodec of DAG-CBOR, the codec of the identifiers made here.
pub const DAG_CBOR: u64 = 0x71;

/// Whether `text` reads as a content identifier.
pub uninterp spec fn cid_text_parses(text: Seq<char>) -> bool;

/// Relies on `TryFrom<&str>` for cid::Cid: reads a content identifier from
/// its text form; the outcome depends on the text alone.
#[verifier::external_body]
fn parse_cid(text: &str) -> (r: Result<cid::Cid, cid::Error>)
    ensures
        r is Ok <==> cid_text_parses(text@),
{
    cid::Cid::try_from(text)
}

/// Relies on cid::Cid::version and `From<Version>` for u64: the version
/// number, 0 or 1.
#[verifier::external_body]
fn cid_version(c: &cid::Cid) -> (r: u64)
    ensures
        r == 0 || r == 1,
{
    u64::from(c.version())
}

/// Relies on cid::Cid::codec: the multicodec of the content.
#[verifier::external_body]
fn cid_codec(c: &cid::Cid) -> (r: u64) {
    c.codec()
}

/// Relies on cid::Cid::hash and multihash::Multihash::to_bytes: the
/// identifier's multihash in its binary form.
#[verifier::external_body]
fn cid_hash_bytes(c: &cid::Cid) -> (r: Vec<u8>) {
    c.hash().to_bytes()
}

/// Relies on cid::Cid::to_string_of_base with multibase::Base::Base58Btc:
/// the identifier written in base58btc, which never fails for that base.
#[verifier::external_body]
fn cid_base58(c: &cid::Cid) -> (r: Result<String, cid::Error>)
    ensures
        r is Ok,
{
    c.to_string_of_base(multibase::Base::Base58Btc)
}

/// The text form of the version-1 content identifier, under `codec`, of the
/// SHA-256 multihash of `data`.
pub uninterp spec fn cid_v1_sha256_text(codec: u64, data: Seq<u8>) -> Seq<char>;

/// Relies on multihash_codetable::Code::Sha2_256 (through
/// multihash_codetable::MultihashDigest::digest), cid::Cid::new_v1 and
/// `Display` for cid::Cid: hashes `data`, makes the version-1 identifier of
/// that hash under `codec`, and writes it in its canonical text form; the
/// text depends on `codec` and `data` alone.
#[verifier::external_body]
fn sha256_cid_v1_text(codec: u64, data: &[u8]) -> (r: String)
    ensures
        r@ == cid_v1_sha256_text(codec, data@),
{
    let hash = multihash_codetable::MultihashDigest::digest(&multihash_codetable::Code::Sha2_256, data);
    cid::Cid::new_v1(codec, hash).to_string()
}

/// What a content identifier is made of.
#[derive(Debug, Clone, PartialEq, Eq)]
pub struct CidComponents {
    pub version: u64,
    pub codec: u64,
    /// The multihash, in lowercase hex.
    pub hash: String,
    /// The whole identifier, in base58btc.
    pub multibase: String,
}

/// The lowercase hex digit for `d`, below sixteen.
pub open spec fn hex_digit(d: nat) -> char {
    if d < 10 {
        crate::utils::digit_char(d)
    } else if d == 10 {
        'a'
    } else if d == 11 {
        'b'
    } else if d == 12 {
        'c'
    } else if d == 13 {
        'd'
    } else if d == 14 {
        'e'
    } else {
        'f'
    }
}

/// Each byte as two lowercase hex digits, high first.
pub open spec fn hex_of(bytes: Seq<u8>) -> Seq<char>
    decreases bytes.len(),
{
    if bytes.len() == 0 {
        Seq::empty()
    } else {
        let b = bytes.last();
        hex_of(bytes.drop_last()).push(hex_digit((b / 16) as nat)).push(hex_digit((b % 16) as nat))
    }
}

fn hex_digit_exec(d: u8) -> (c: char)
    requires
        d < 16,
    ensures
        c == hex_digit(d as nat),
{
    if d == 0 { '0' }
    else if d == 1 { '1' }
    else if d == 2 { '2' }
    else if d == 3 { '3' }
    else if d == 4 { '4' }
    else if d == 5 { '5' }
    else if d == 6 { '6' }
    else if d == 7 { '7' }
    else if d == 8 { '8' }
    else if d == 9 { '9' }
    else if d == 10 { 'a' }
    else if d == 11 { 'b' }
    else if d == 12 { 'c' }
    else if d == 13 { 'd' }
    else if d == 14 { 'e' }
    else { 'f' }
}

/// `bytes` in lowercase hex.
pub fn hex_encode(bytes: &[u8]) -> (r: String)
    ensures
        r@ == hex_of(bytes@),
{
    let mut out = String::new();
    let mut i: usize = 0;
    while i < bytes.len()
        invariant
            i <= bytes@.len(),
            out@ == hex_of(bytes@.subrange(0, i as int)),
        decreases bytes@.len() - i,
    {
        let b = bytes[i];
        push_char(&mut out, hex_digit_exec(b / 16));
        push_char(&mut out, hex_digit_exec(b % 16));
        assert(bytes@.subrange(0, i + 1).drop_last() =~= bytes@.subrange(0, i as int));
        i = i + 1;
    }
    assert(bytes@.subrange(0, bytes@.len() as int) =~= bytes@);
    out
}

/// The version-1, DAG-CBOR content identifier of a JSON document, from its
/// SHA-256 multihash, in text form.
pub fn generate_cid(json: &[u8]) -> (r: ForestResult<String>)
    ensures
        r is Ok,
        r->Ok_0@ == cid_v1_sha256_text(DAG_CBOR, json@),
{
    Ok(sha256_cid_v1_text(DAG_CBOR, json))
}

/// Reads `cid_str` as a content identifier; fails exactly when it is not one.
pub fn validate_cid(cid_str: &str) -> (r: ForestResult<cid::Cid>)
    ensures
        r is Ok <==> cid_text_parses(cid_str@),
        r is Err ==> r->Err_0 is ValidationError,
{
    match parse_cid(cid_str) {
        Ok(c) => Ok(c),
        Err(_) => Err(ForestError::ValidationError("Invalid CID".to_owned())),
    }
}

/// The parts of the content identifier `cid_str`; fails when it is not one.
pub fn decode_cid(cid_str: &str) -> (r: ForestResult<CidComponents>)
    ensures
        r is Ok <==> cid_text_parses(cid_str@),
        r is Ok ==> r->Ok_0.version == 0 || r->Ok_0.version == 1,
        r is Err ==> r->Err_0 is ValidationError,
{
    let c = validate_cid(cid_str)?;
    let multibase = match cid_base58(&c) {
        Ok(text) => text,
        Err(_) => {
            return Err(ForestError::ValidationError("Failed to get base58 string".to_owned()));
        },
    };
    let hash_bytes = cid_hash_bytes(&c);
    Ok(
        CidComponents {
            version: cid_version(&c),
            codec: cid_codec(&c),
            hash: hex_encode(hash_bytes.as_slice()),
            multibase,
        },
    )
}

} // verus!
