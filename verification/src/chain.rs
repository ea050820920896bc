use crate::json::hex_digit;
use crate::rlp::{
    byte_views, rlp_bytes, rlp_encode_bytes, rlp_encode_list, rlp_encode_u64, rlp_list,
    rlp_u64, strip_leading_zeros, without_leading_zeros,
};
use crate::text::{
    chars_of, decimal, decimal_string, parse_hex, parsed_hex, starts_with, str_eq, string_of,
};
use vstd::prelude::*;
use vstd::string::*;
use vstd::utf8::encode_utf8;

verus! {

/// The Keccak-256 digest of a byte string.
pub uninterp spec fn keccak256_digest(data: Seq<u8>) -> Seq<u8>;

/// Whether 32 bytes are a secret key of the curve secp256k1.
pub uninterp spec fn secp256k1_valid_secret(secret: Seq<u8>) -> bool;

/// The recoverable signature of a digest under a secret key: `r`, `s` and
/// the recovery id, 65 bytes, where the key is valid and the digest can be
/// signed.
pub uninterp spec fn secp256k1_signature(secret: Seq<u8>, prehash: Seq<u8>) -> Option<Seq<u8>>;

/// The public key of a secret key as an uncompressed point of 65 bytes.
pub uninterp spec fn secp256k1_public_key(secret: Seq<u8>) -> Option<Seq<u8>>;

/// A vector of bytes, where there is one, as a sequence.
pub open spec fn opt_bytes(bytes: Option<Vec<u8>>) -> Option<Seq<u8>> {
    match bytes {
        Some(b) => Some(b@),
        None => None,
    }
}

/// The bytes written as lower-case hexadecimal digits, two for each byte.
pub open spec fn hex_of(bytes: Seq<u8>) -> Seq<char>
    decreases bytes.len(),
{
    if bytes.len() == 0 {
        Seq::empty()
    } else {
        hex_of(bytes.drop_last()) + seq![
            hex_digit((bytes.last() / 16) as nat),
            hex_digit((bytes.last() % 16) as nat),
        ]
    }
}

/// The value of a hexadecimal digit, in either case.
pub open spec fn hex_value(c: char) -> Option<u8> {
    if '0' <= c && c <= '9' {
        Some((c as u8 - 48) as u8)
    } else if 'a' <= c && c <= 'f' {
        Some((c as u8 - 87) as u8)
    } else if 'A' <= c && c <= 'F' {
        Some((c as u8 - 55) as u8)
    } else {
        None
    }
}

/// The bytes that a text of hexadecimal digits stands for: two digits for
/// each byte, and nothing where the text has an odd length or holds any
/// other character.
pub open spec fn unhex(text: Seq<char>) -> Option<Seq<u8>>
    decreases text.len(),
{
    if text.len() == 0 {
        Some(Seq::empty())
    } else if text.len() % 2 != 0 {
        None
    } else {
        match (
            unhex(text.take(text.len() - 2)),
            hex_value(text[text.len() - 2]),
            hex_value(text[text.len() - 1]),
        ) {
            (Some(front), Some(high), Some(low)) => Some(front.push((high * 16 + low) as u8)),
            _ => None,
        }
    }
}

/// `Keccak256` of the crate `sha3`, fed with `data` once and finalised: the
/// digest of 32 bytes. The result depends on the data alone.
#[verifier::external_body]
pub fn keccak256(data: &[u8]) -> (digest: [u8; 32])
    ensures
        digest@ == keccak256_digest(data@),
{
    let mut hasher = <sha3::Keccak256 as sha3::Digest>::new();
    sha3::Digest::update(&mut hasher, data);
    sha3::Digest::finalize(hasher).into()
}

/// `hex::encode`: two lower-case digits for each byte.
#[verifier::external_body]
pub(crate) fn hex_encode(bytes: &[u8]) -> (text: String)
    ensures
        text@ == hex_of(bytes@),
{
    hex::encode(bytes)
}

/// `hex::decode`: the bytes of a text of hexadecimal digits in either case,
/// or nothing where the crate reports an odd length or a character that is
/// no digit.
#[verifier::external_body]
pub(crate) fn hex_decode(text: &str) -> (bytes: Option<Vec<u8>>)
    ensures
        opt_bytes(bytes) == unhex(text@),
{
    hex::decode(text).ok()
}

/// `SigningKey::from_slice` of `k256::ecdsa`: whether the bytes are accepted
/// as a secret key. The result depends on the bytes alone.
#[verifier::external_body]
pub(crate) fn valid_secret(secret: &[u8]) -> (ok: bool)
    ensures
        ok == secp256k1_valid_secret(secret@),
{
    k256::ecdsa::SigningKey::from_slice(secret).is_ok()
}

/// `SigningKey::sign_prehash_recoverable` of `k256::ecdsa`, on the key of
/// `SigningKey::from_slice`: the 64 bytes of the signature followed by the
/// recovery id, which is at most 3; nothing where the key or the digest is
/// refused. Signing is deterministic, so the result depends on the two
/// byte strings alone.
#[verifier::external_body]
pub(crate) fn sign_prehash(secret: &[u8], prehash: &[u8]) -> (signature: Option<Vec<u8>>)
    ensures
        opt_bytes(signature) == secp256k1_signature(secret@, prehash@),
        signature matches Some(s) ==> s@.len() == 65 && s@[64] <= 3,
{
    let key = k256::ecdsa::SigningKey::from_slice(secret).ok()?;
    let (signature, recovery) = key.sign_prehash_recoverable(prehash).ok()?;
    let mut out = signature.to_bytes().to_vec();
    out.push(recovery.to_byte());
    Some(out)
}

/// `SigningKey::verifying_key` of `k256::ecdsa`, on the key of
/// `SigningKey::from_slice`, written with `to_encoded_point(false)`: the
/// uncompressed point of 65 bytes, for exactly the secrets that are valid
/// keys. The result depends on the secret alone.
#[verifier::external_body]
pub(crate) fn public_key(secret: &[u8]) -> (point: Option<Vec<u8>>)
    ensures
        opt_bytes(point) == secp256k1_public_key(secret@),
        point is Some <==> secp256k1_valid_secret(secret@),
        point matches Some(p) ==> p@.len() == 65,
{
    let key = k256::ecdsa::SigningKey::from_slice(secret).ok()?;
    Some(key.verifying_key().to_encoded_point(false).as_bytes().to_vec())
}


/// What is wrong with a private key.
#[derive(Debug, Clone, Copy, PartialEq, Eq, Structural)]
pub enum KeyError {
    /// No key is configured.
    Missing,
    /// The key is not `0x` and 64 more characters.
    BadFormat,
    /// The key holds a character that is no hexadecimal digit.
    InvalidHex,
    /// The bytes are not a secret key of the curve.
    InvalidKey,
}

impl KeyError {
    /// The error in words.
    pub fn message(&self) -> (text: &'static str)
        ensures
            text@ == match *self {
                KeyError::Missing => "Private key is required. Go to Settings to configure it."@,
                KeyError::BadFormat => "Invalid private key format. Must be 0x-prefixed hex (66 chars)."@,
                KeyError::InvalidHex => "Invalid hex in private key"@,
                KeyError::InvalidKey => "Invalid private key"@,
            },
    {
        match self {
            KeyError::Missing => "Private key is required. Go to Settings to configure it.",
            KeyError::BadFormat => "Invalid private key format. Must be 0x-prefixed hex (66 chars).",
            KeyError::InvalidHex => "Invalid hex in private key",
            KeyError::InvalidKey => "Invalid private key",
        }
    }
}

/// The number of bytes of a configured private key: `0x` and 64 digits.
pub const KEY_TEXT_LEN: usize = 66;

/// The number of bytes of a secret key.
pub const SECRET_LEN: usize = 32;

/// What the form of a configured key is found to be: missing where it is
/// empty, badly formed unless it begins with `0x` and is 66 bytes long.
pub open spec fn key_format(key: &str) -> Option<KeyError> {
    if key@.len() == 0 {
        Some(KeyError::Missing)
    } else if !starts_with(key@, "0x"@) || key.spec_bytes().len() != KEY_TEXT_LEN {
        Some(KeyError::BadFormat)
    } else {
        None
    }
}

/// Checks the form of a configured private key before anything is started.
pub fn check_key_format(key: &str) -> (outcome: Result<(), KeyError>)
    ensures
        outcome == match key_format(key) {
            Some(e) => Err::<(), KeyError>(e),
            None => Ok::<(), KeyError>(()),
        },
{
    if key.is_empty() {
        Err(KeyError::Missing)
    } else if !crate::text::str_starts_with(key, "0x") || key.as_bytes().len() != KEY_TEXT_LEN {
        Err(KeyError::BadFormat)
    } else {
        Ok(())
    }
}

/// A key text without the `0x` that may stand before its digits.
pub open spec fn key_digits(text: Seq<char>) -> Seq<char> {
    if starts_with(text, "0x"@) {
        text.skip(2)
    } else {
        text
    }
}

/// The secret that a key text stands for, given whether the curve accepts
/// the bytes: the text must be hexadecimal digits for 32 bytes, with or
/// without `0x` before them.
pub open spec fn secret_of(text: Seq<char>, accepted: bool) -> Result<Seq<u8>, KeyError> {
    match unhex(key_digits(text)) {
        None => Err(KeyError::InvalidHex),
        Some(bytes) => if bytes.len() == SECRET_LEN && accepted {
            Ok(bytes)
        } else {
            Err(KeyError::InvalidKey)
        },
    }
}

/// A secret, where there is one, as a sequence of bytes.
pub open spec fn secret_view(outcome: Result<Vec<u8>, KeyError>) -> Result<Seq<u8>, KeyError> {
    match outcome {
        Ok(bytes) => Ok(bytes@),
        Err(e) => Err(e),
    }
}

/// Reads a private key from its text, with or without `0x` before the
/// digits. The result is the secret of 32 bytes.
pub fn parse_private_key(hex_key: &str) -> (outcome: Result<Vec<u8>, KeyError>)
    ensures
        secret_view(outcome) == secret_of(
            hex_key@,
            match unhex(key_digits(hex_key@)) {
                Some(bytes) => secp256k1_valid_secret(bytes),
                None => false,
            },
        ),
{
    proof {
        reveal_strlit("0x");
    }
    let chars = chars_of(hex_key);
    let prefix = chars_of("0x");
    let digits = if crate::text::matches_at(chars.as_slice(), prefix.as_slice(), 0) {
        let rest = vstd::slice::slice_subrange(chars.as_slice(), 2, chars.len());
        assert(rest@ =~= hex_key@.skip(2));
        string_of(rest)
    } else {
        hex_key.to_owned()
    };
    match hex_decode(digits.as_str()) {
        None => Err(KeyError::InvalidHex),
        Some(bytes) => {
            if bytes.len() == SECRET_LEN && valid_secret(bytes.as_slice()) {
                Ok(bytes)
            } else {
                Err(KeyError::InvalidKey)
            }
        },
    }
}

/// The bytes that a signature of a message covers: the prefix of signed
/// messages, the message's length in bytes as a decimal numeral, and the
/// message.
pub open spec fn signed_message_bytes(message: Seq<char>) -> Seq<u8> {
    encode_utf8("\x19Ethereum Signed Message:\n"@) + encode_utf8(
        decimal(encode_utf8(message).len()),
    ) + encode_utf8(message)
}

/// A signature as text: its 64 bytes and the recovery id plus 27, in
/// hexadecimal digits after `0x`.
pub open spec fn signature_text(signature: Seq<u8>) -> Seq<char> {
    "0x"@ + hex_of(signature.take(64).push((signature[64] + 27) as u8))
}

/// Why a message could not be signed.
#[derive(Debug, Clone, Copy, PartialEq, Eq, Structural)]
pub enum SignError {
    SigningFailed,
}

/// Writes a recoverable signature of 65 bytes as text.
pub fn encode_signature(signature: &[u8]) -> (text: String)
    requires
        signature@.len() == 65,
        signature@[64] <= 228,
    ensures
        text@ == signature_text(signature@),
{
    let mut bytes = vstd::slice::slice_to_vec(vstd::slice::slice_subrange(signature, 0, 64));
    assert(bytes@ =~= signature@.take(64));
    bytes.push(signature[64] + 27);
    let mut text = "0x".to_owned();
    text.append(hex_encode(bytes.as_slice()).as_str());
    text
}

/// The bytes that a signature of a message covers.
pub fn signed_message(message: &str) -> (bytes: Vec<u8>)
    ensures
        bytes@ == signed_message_bytes(message@),
{
    let mut bytes: Vec<u8> = Vec::new();
    bytes.extend_from_slice("\x19Ethereum Signed Message:\n".as_bytes());
    let body = message.as_bytes();
    let length = decimal_string(body.len() as u64);
    bytes.extend_from_slice(length.as_str().as_bytes());
    bytes.extend_from_slice(body);
    assert(bytes@ =~= signed_message_bytes(message@));
    bytes
}

/// Signs a message as its author: the signature covers the digest of the
/// prefixed message and is written as text of 132 characters.
pub fn personal_sign(message: &str, secret: &[u8]) -> (outcome: Result<String, SignError>)
    ensures
        match secp256k1_signature(secret@, keccak256_digest(signed_message_bytes(message@))) {
            Some(signature) => outcome matches Ok(text) && text@ == signature_text(signature),
            None => outcome is Err,
        },
{
    let payload = signed_message(message);
    let digest = keccak256(payload.as_slice());
    match sign_prehash(secret, digest.as_slice()) {
        Some(signature) => Ok(encode_signature(signature.as_slice())),
        None => Err(SignError::SigningFailed),
    }
}

/// The address that a digest of a public key stands for: its last 20 bytes
/// in hexadecimal digits after `0x`.
pub open spec fn address_text(digest: Seq<u8>) -> Seq<char> {
    "0x"@ + hex_of(digest.skip(12))
}

/// Writes the address that the digest of a public key stands for.
pub fn encode_address(digest: &[u8; 32]) -> (text: String)
    ensures
        text@ == address_text(digest@),
{
    let tail = vstd::slice::slice_subrange(digest.as_slice(), 12, 32);
    assert(tail@ =~= digest@.skip(12));
    let mut text = "0x".to_owned();
    text.append(hex_encode(tail).as_str());
    text
}

/// The address of a secret key: that of the digest of its public key's two
/// coordinates. Nothing for bytes that are no valid key.
pub fn address_from_key(secret: &[u8]) -> (address: Option<String>)
    ensures
        address is Some <==> secp256k1_valid_secret(secret@),
        match secp256k1_public_key(secret@) {
            Some(point) => address matches Some(text) && text@ == address_text(
                keccak256_digest(point.skip(1)),
            ),
            None => address is None,
        },
{
    match public_key(secret) {
        Some(point) => {
            let coordinates = vstd::slice::slice_subrange(point.as_slice(), 1, point.len());
            assert(coordinates@ =~= point@.skip(1));
            let digest = keccak256(coordinates);
            Some(encode_address(&digest))
        },
        None => None,
    }
}


/// The address of a built-in contract: 19 zero bytes and its number.
pub fn precompile_addr(id: u8) -> (addr: [u8; 20])
    ensures
        addr@ == Seq::new(20, |i: int| if i == 19 { id } else { 0u8 }),
{
    let mut addr = [0u8; 20];
    addr.set(19, id);
    assert(addr@ =~= Seq::new(20, |i: int| if i == 19 { id } else { 0u8 }));
    addr
}

/// The address of the reward pool: `0x1000`, in 20 bytes.
pub fn pool_address() -> (addr: [u8; 20])
    ensures
        addr@ == Seq::new(20, |i: int| if i == 18 { 0x10u8 } else { 0u8 }),
{
    let mut addr = [0u8; 20];
    addr.set(18, 0x10);
    addr.set(19, 0x00);
    assert(addr@ =~= Seq::new(20, |i: int| if i == 18 { 0x10u8 } else { 0u8 }));
    addr
}

/// A digest as text: hexadecimal digits after `0x`.
pub open spec fn hash_text(digest: Seq<u8>) -> Seq<char> {
    "0x"@ + hex_of(digest)
}

/// An address as a word of 32 bytes: 12 zero bytes before the 20 of the
/// address, or zero where the text is no address of 20 bytes.
pub open spec fn padded_address(address: Seq<char>) -> Seq<u8> {
    match unhex(key_digits(address)) {
        Some(bytes) => if bytes.len() == 20 {
            Seq::new(12, |i: int| 0u8) + bytes
        } else {
            Seq::new(32, |i: int| 0u8)
        },
        None => Seq::new(32, |i: int| 0u8),
    }
}

/// What a proof of inference is a digest of: the digests of model, input
/// and output, and the agent's address as a word.
pub open spec fn proof_preimage_bytes(
    model_hash: Seq<u8>,
    input_hash: Seq<u8>,
    output_hash: Seq<u8>,
    address: Seq<char>,
) -> Seq<u8> {
    model_hash + input_hash + output_hash + padded_address(address)
}

fn zeros(n: usize) -> (out: Vec<u8>)
    ensures
        out@ == Seq::new(n as nat, |i: int| 0u8),
{
    let mut out: Vec<u8> = Vec::new();
    let mut i: usize = 0;
    while i < n
        invariant
            i <= n,
            out@ == Seq::new(i as nat, |j: int| 0u8),
        decreases n - i,
    {
        out.push(0);
        assert(out@ =~= Seq::new((i + 1) as nat, |j: int| 0u8));
        i += 1;
    }
    out
}

fn digits_of_key(text: &str) -> (digits: String)
    ensures
        digits@ == key_digits(text@),
{
    proof {
        reveal_strlit("0x");
    }
    let chars = chars_of(text);
    let prefix = chars_of("0x");
    if crate::text::matches_at(chars.as_slice(), prefix.as_slice(), 0) {
        let rest = vstd::slice::slice_subrange(chars.as_slice(), 2, chars.len());
        assert(rest@ =~= text@.skip(2));
        string_of(rest)
    } else {
        text.to_owned()
    }
}

/// Writes an address as a word of 32 bytes.
pub fn pad_address(address: &str) -> (word: Vec<u8>)
    ensures
        word@ == padded_address(address@),
{
    let digits = digits_of_key(address);
    match hex_decode(digits.as_str()) {
        Some(bytes) => {
            if bytes.len() == 20 {
                let mut word = zeros(12);
                word.extend_from_slice(bytes.as_slice());
                word
            } else {
                zeros(32)
            }
        },
        None => zeros(32),
    }
}

/// Puts together what a proof of inference is a digest of.
pub fn proof_preimage(
    model_hash: &[u8; 32],
    input_hash: &[u8; 32],
    output_hash: &[u8; 32],
    address: &str,
) -> (bytes: Vec<u8>)
    ensures
        bytes@ == proof_preimage_bytes(model_hash@, input_hash@, output_hash@, address@),
{
    let mut bytes: Vec<u8> = Vec::new();
    bytes.extend_from_slice(model_hash.as_slice());
    bytes.extend_from_slice(input_hash.as_slice());
    bytes.extend_from_slice(output_hash.as_slice());
    bytes.extend_from_slice(pad_address(address).as_slice());
    assert(bytes@ =~= proof_preimage_bytes(model_hash@, input_hash@, output_hash@, address@));
    bytes
}

/// A proof that an agent ran a model on an input and got an output.
#[derive(Debug, Clone)]
pub struct ProofData {
    pub model_hash: String,
    pub input_hash: String,
    pub output_hash: String,
    pub agent_address: String,
    pub token_count: u64,
    pub proof_hash: String,
}

/// Makes proofs of inference for one model and one agent.
pub struct InferenceProofGenerator {
    pub model_hash: [u8; 32],
    pub agent_address: String,
}

impl InferenceProofGenerator {
    /// A generator for the model of this name and the agent of this address.
    pub fn new(model_name: &str, agent_address: &str) -> (generator: InferenceProofGenerator)
        ensures
            generator.model_hash@ == keccak256_digest(encode_utf8(model_name@)),
            generator.agent_address@ == agent_address@,
    {
        InferenceProofGenerator {
            model_hash: keccak256(model_name.as_bytes()),
            agent_address: agent_address.to_owned(),
        }
    }

    /// The proof for an input, the output that it gave and the number of
    /// tokens: the digests of model, input and output, and the digest of
    /// all three with the agent's address.
    pub fn generate_proof(&self, input_data: &str, output_data: &str, token_count: u64) -> (proof:
        ProofData)
        ensures
            proof.model_hash@ == hash_text(self.model_hash@),
            proof.input_hash@ == hash_text(keccak256_digest(encode_utf8(input_data@))),
            proof.output_hash@ == hash_text(keccak256_digest(encode_utf8(output_data@))),
            proof.agent_address@ == self.agent_address@,
            proof.token_count == token_count,
            proof.proof_hash@ == hash_text(
                keccak256_digest(
                    proof_preimage_bytes(
                        self.model_hash@,
                        keccak256_digest(encode_utf8(input_data@)),
                        keccak256_digest(encode_utf8(output_data@)),
                        self.agent_address@,
                    ),
                ),
            ),
    {
        let input_hash = keccak256(input_data.as_bytes());
        let output_hash = keccak256(output_data.as_bytes());
        let preimage = proof_preimage(
            &self.model_hash,
            &input_hash,
            &output_hash,
            self.agent_address.as_str(),
        );
        let proof_hash = keccak256(preimage.as_slice());
        ProofData {
            model_hash: hash_string(self.model_hash.as_slice()),
            input_hash: hash_string(input_hash.as_slice()),
            output_hash: hash_string(output_hash.as_slice()),
            agent_address: self.agent_address.clone(),
            token_count,
            proof_hash: hash_string(proof_hash.as_slice()),
        }
    }
}

/// Writes bytes as hexadecimal digits after `0x`.
pub fn hash_string(bytes: &[u8]) -> (text: String)
    ensures
        text@ == hash_text(bytes@),
{
    let mut text = "0x".to_owned();
    text.append(hex_encode(bytes).as_str());
    text
}

/// A transaction of the first kind as a list: nonce, gas price, gas limit,
/// recipient, a value of zero, call data, and the three words of the
/// signature. Before signing, the three words are the chain's number and
/// two zeros.
pub open spec fn legacy_tx_bytes(
    nonce: u64,
    gas_price: u64,
    gas: u64,
    to: Seq<u8>,
    data: Seq<u8>,
    v: u64,
    r: Seq<u8>,
    s: Seq<u8>,
) -> Seq<u8> {
    rlp_list(
        seq![
            rlp_u64(nonce),
            rlp_u64(gas_price),
            rlp_u64(gas),
            rlp_bytes(to),
            rlp_u64(0),
            rlp_bytes(data),
            rlp_u64(v),
            rlp_bytes(r),
            rlp_bytes(s),
        ],
    )
}

/// Encodes a transaction of the first kind.
pub fn encode_legacy_tx(
    nonce: u64,
    gas_price: u64,
    gas: u64,
    to: &[u8],
    data: &[u8],
    v: u64,
    r: &[u8],
    s: &[u8],
) -> (bytes: Vec<u8>)
    ensures
        bytes@ == legacy_tx_bytes(nonce, gas_price, gas, to@, data@, v, r@, s@),
{
    let mut items: Vec<Vec<u8>> = Vec::new();
    items.push(rlp_encode_u64(nonce));
    items.push(rlp_encode_u64(gas_price));
    items.push(rlp_encode_u64(gas));
    items.push(rlp_encode_bytes(to));
    items.push(rlp_encode_u64(0));
    items.push(rlp_encode_bytes(data));
    items.push(rlp_encode_u64(v));
    items.push(rlp_encode_bytes(r));
    items.push(rlp_encode_bytes(s));
    assert(byte_views(items@) =~= seq![
        rlp_u64(nonce),
        rlp_u64(gas_price),
        rlp_u64(gas),
        rlp_bytes(to@),
        rlp_u64(0),
        rlp_bytes(data@),
        rlp_u64(v),
        rlp_bytes(r@),
        rlp_bytes(s@),
    ]);
    rlp_encode_list(items.as_slice())
}

/// The first word of a signature on a chain: twice the chain's number, plus
/// 35, plus the recovery id; nothing where that does not fit in 64 bits.
pub open spec fn recovery_word(chain_id: u64, recovery: u8) -> Option<u64> {
    if chain_id * 2 + 35 + recovery <= u64::MAX {
        Some((chain_id * 2 + 35 + recovery) as u64)
    } else {
        None
    }
}

/// The first word of a signature on a chain.
pub fn recovery_v(chain_id: u64, recovery: u8) -> (v: Option<u64>)
    ensures
        v == recovery_word(chain_id, recovery),
{
    if chain_id > (u64::MAX - 35 - 255) / 2 {
        let doubled = chain_id as u128 * 2 + 35 + recovery as u128;
        if doubled <= u64::MAX as u128 {
            Some(doubled as u64)
        } else {
            None
        }
    } else {
        Some(chain_id * 2 + 35 + recovery as u64)
    }
}

/// The signed transaction for a signature of its unsigned form: the
/// transaction with the signature's words in place, as hexadecimal text.
pub open spec fn signed_tx_text(
    nonce: u64,
    gas_price: u64,
    gas: u64,
    to: Seq<u8>,
    data: Seq<u8>,
    chain_id: u64,
    signature: Seq<u8>,
) -> Option<Seq<char>> {
    match recovery_word(chain_id, signature[64]) {
        Some(v) => Some(
            hash_text(
                legacy_tx_bytes(
                    nonce,
                    gas_price,
                    gas,
                    to,
                    data,
                    v,
                    without_leading_zeros(signature.subrange(0, 32)),
                    without_leading_zeros(signature.subrange(32, 64)),
                ),
            ),
        ),
        None => None,
    }
}

/// Puts a signature of 65 bytes in its place in a transaction and writes
/// the transaction as text.
pub fn assemble_signed_tx(
    nonce: u64,
    gas_price: u64,
    gas: u64,
    to: &[u8],
    data: &[u8],
    chain_id: u64,
    signature: &[u8],
) -> (text: Option<String>)
    requires
        signature@.len() == 65,
    ensures
        crate::text::opt_view(text) == signed_tx_text(
            nonce,
            gas_price,
            gas,
            to@,
            data@,
            chain_id,
            signature@,
        ),
{
    let v = match recovery_v(chain_id, signature[64]) {
        Some(v) => v,
        None => {
            return None;
        },
    };
    let r = strip_leading_zeros(vstd::slice::slice_subrange(signature, 0, 32));
    let s = strip_leading_zeros(vstd::slice::slice_subrange(signature, 32, 64));
    let bytes = encode_legacy_tx(nonce, gas_price, gas, to, data, v, r.as_slice(), s.as_slice());
    Some(hash_string(bytes.as_slice()))
}

/// Signs a transaction for a chain and writes it as text. Nothing where the
/// secret is no valid key or the chain's number is too large.
pub fn sign_transaction(
    secret: &[u8],
    nonce: u64,
    gas_price: u64,
    gas: u64,
    to: &[u8],
    data: &[u8],
    chain_id: u64,
) -> (text: Option<String>)
    ensures
        crate::text::opt_view(text) == match secp256k1_signature(
            secret@,
            keccak256_digest(
                legacy_tx_bytes(nonce, gas_price, gas, to@, data@, chain_id, seq![], seq![]),
            ),
        ) {
            Some(signature) => signed_tx_text(nonce, gas_price, gas, to@, data@, chain_id, signature),
            None => None,
        },
{
    let empty: Vec<u8> = Vec::new();
    let unsigned = encode_legacy_tx(
        nonce,
        gas_price,
        gas,
        to,
        data,
        chain_id,
        empty.as_slice(),
        empty.as_slice(),
    );
    assert(empty@ =~= seq![]);
    let digest = keccak256(unsigned.as_slice());
    match sign_prehash(secret, digest.as_slice()) {
        Some(signature) => assemble_signed_tx(
            nonce,
            gas_price,
            gas,
            to,
            data,
            chain_id,
            signature.as_slice(),
        ),
        None => None,
    }
}


/// What is wrong with an answer of the chain's RPC service.
#[derive(Debug, Clone, Copy, PartialEq, Eq, Structural)]
pub enum RpcError {
    /// The answer holds no text where a quantity was expected.
    NotText,
    /// The text is no hexadecimal quantity, or one too large.
    InvalidHex,
}

impl RpcError {
    /// The error in words.
    pub fn message(&self) -> (text: &'static str)
        ensures
            text@ == match *self {
                RpcError::NotText => "Expected hex string in RPC response"@,
                RpcError::InvalidHex => "Invalid hex quantity in RPC response"@,
            },
    {
        match self {
            RpcError::NotText => "Expected hex string in RPC response",
            RpcError::InvalidHex => "Invalid hex quantity in RPC response",
        }
    }
}

/// The quantity that a text of an answer stands for: hexadecimal digits,
/// with or without `0x` before them, up to `max`. Where `empty_is_zero`,
/// a text without digits stands for zero.
pub open spec fn quantity_of(text: Option<Seq<char>>, max: nat, empty_is_zero: bool) -> Result<
    nat,
    RpcError,
> {
    match text {
        None => Err(RpcError::NotText),
        Some(t) => if empty_is_zero && key_digits(t).len() == 0 {
            Ok(0)
        } else {
            match parsed_hex(key_digits(t), max) {
                Some(n) => Ok(n),
                None => Err(RpcError::InvalidHex),
            }
        },
    }
}

fn quantity(text: Option<&str>, max: u128, empty_is_zero: bool) -> (outcome: Result<
    u128,
    RpcError,
>)
    ensures
        match quantity_of(
            match text {
                Some(t) => Some(t@),
                None => None,
            },
            max as nat,
            empty_is_zero,
        ) {
            Ok(n) => outcome == Ok::<u128, RpcError>(n as u128) && n <= max,
            Err(e) => outcome == Err::<u128, RpcError>(e),
        },
{
    let t = match text {
        Some(t) => t,
        None => {
            return Err(RpcError::NotText);
        },
    };
    let digits = chars_of(digits_of_key(t).as_str());
    if empty_is_zero && digits.len() == 0 {
        return Ok(0);
    }
    match parse_hex(digits.as_slice(), max) {
        Some(n) => Ok(n),
        None => Err(RpcError::InvalidHex),
    }
}

/// Reads a count or a price out of an answer: a quantity of up to 64 bits,
/// where a text without digits stands for zero.
pub fn parse_hex_u64(text: Option<&str>) -> (outcome: Result<u64, RpcError>)
    ensures
        match quantity_of(
            match text {
                Some(t) => Some(t@),
                None => None,
            },
            u64::MAX as nat,
            true,
        ) {
            Ok(n) => outcome == Ok::<u64, RpcError>(n as u64),
            Err(e) => outcome == Err::<u64, RpcError>(e),
        },
{
    match quantity(text, u64::MAX as u128, true) {
        Ok(n) => Ok(n as u64),
        Err(e) => Err(e),
    }
}

/// Reads a pending reward out of an answer: a quantity of up to 128 bits,
/// where a text without digits stands for zero.
pub fn parse_reward(text: Option<&str>) -> (outcome: Result<u128, RpcError>)
    ensures
        match quantity_of(
            match text {
                Some(t) => Some(t@),
                None => None,
            },
            u128::MAX as nat,
            true,
        ) {
            Ok(n) => outcome == Ok::<u128, RpcError>(n as u128),
            Err(e) => outcome == Err::<u128, RpcError>(e),
        },
{
    quantity(text, u128::MAX, true)
}

/// Reads a balance out of an answer: a quantity of up to 128 bits with at
/// least one digit.
pub fn parse_balance(text: Option<&str>) -> (outcome: Result<u128, RpcError>)
    ensures
        match quantity_of(
            match text {
                Some(t) => Some(t@),
                None => None,
            },
            u128::MAX as nat,
            false,
        ) {
            Ok(n) => outcome == Ok::<u128, RpcError>(n as u128),
            Err(e) => outcome == Err::<u128, RpcError>(e),
        },
{
    quantity(text, u128::MAX, false)
}

/// Shows a balance, given in the smallest unit, in whole units.
pub fn balance_display(wei: u128) -> (text: String)
    ensures
        text@ == crate::system::wei_display(decimal(wei as nat)),
{
    let mut numeral = String::new();
    crate::text::push_decimal_wide(&mut numeral, wei);
    assert(Seq::<char>::empty() + decimal(wei as nat) =~= decimal(wei as nat));
    crate::system::wei_to_display(numeral.as_str())
}

/// A transaction succeeded where its receipt says `0x1`.
pub fn receipt_succeeded(status: Option<&str>) -> (succeeded: bool)
    ensures
        succeeded == match status {
            Some(text) => text@ == "0x1"@,
            None => false,
        },
{
    match status {
        Some(text) => str_eq(text, "0x1"),
        None => false,
    }
}

/// The first four bytes of a digest: what selects a function of a contract.
pub fn selector_of(digest: &[u8; 32]) -> (selector: Vec<u8>)
    ensures
        selector@ == digest@.take(4),
{
    let head = vstd::slice::slice_subrange(digest.as_slice(), 0, 4);
    assert(head@ =~= digest@.take(4));
    vstd::slice::slice_to_vec(head)
}

/// What selects the function of this signature.
pub fn selector(signature: &str) -> (bytes: Vec<u8>)
    ensures
        bytes@ == keccak256_digest(encode_utf8(signature@)).take(4),
{
    let digest = keccak256(signature.as_bytes());
    selector_of(&digest)
}

/// The call that asks the reward pool for an agent's pending reward, given
/// the selector of that function: the selector, and the agent's address as
/// a word. Nothing where the address is no hexadecimal text.
pub open spec fn reward_call_text(selector: Seq<u8>, address: Seq<char>) -> Option<Seq<char>> {
    match unhex(key_digits(address)) {
        Some(bytes) => Some(hash_text(selector + Seq::new(12, |i: int| 0u8) + bytes)),
        None => None,
    }
}

/// Builds the call that asks the reward pool for an agent's pending reward.
pub fn reward_call(selector: &[u8], agent_address: &str) -> (call: Option<String>)
    ensures
        crate::text::opt_view(call) == reward_call_text(selector@, agent_address@),
{
    let digits = digits_of_key(agent_address);
    match hex_decode(digits.as_str()) {
        Some(bytes) => {
            let mut data: Vec<u8> = Vec::new();
            data.extend_from_slice(selector);
            data.extend_from_slice(zeros(12).as_slice());
            data.extend_from_slice(bytes.as_slice());
            assert(data@ =~= selector@ + Seq::new(12, |i: int| 0u8) + bytes@);
            Some(hash_string(data.as_slice()))
        },
        None => None,
    }
}

/// The call that asks the reward pool for an agent's pending reward.
pub fn pending_reward_call(agent_address: &str) -> (call: Option<String>)
    ensures
        crate::text::opt_view(call) == reward_call_text(
            keccak256_digest(encode_utf8("getPendingReward(address)"@)).take(4),
            agent_address@,
        ),
{
    let chosen = selector("getPendingReward(address)");
    reward_call(chosen.as_slice(), agent_address)
}

/// The data of the call that claims an agent's reward.
pub fn claim_reward_data() -> (data: Vec<u8>)
    ensures
        data@ == keccak256_digest(encode_utf8("claimReward()"@)).take(4),
{
    selector("claimReward()")
}

/// A name as a word of 32 bytes: its first 32 bytes, or all of them and
/// zeros behind.
pub open spec fn name_word(name: Seq<u8>) -> Seq<u8> {
    if name.len() >= 32 {
        name.take(32)
    } else {
        name + Seq::new((32 - name.len()) as nat, |i: int| 0u8)
    }
}

/// The data of the call that registers an agent on the chain: its name as
/// a word, the digest of its model, and a count of capabilities that is zero.
pub fn register_agent_data(name: &str, model_hash: &[u8; 32]) -> (data: Vec<u8>)
    ensures
        data@ == name_word(encode_utf8(name@)) + model_hash@ + Seq::new(32, |i: int| 0u8),
{
    let raw = name.as_bytes();
    let mut data: Vec<u8> = Vec::new();
    if raw.len() >= 32 {
        let head = vstd::slice::slice_subrange(raw, 0, 32);
        assert(head@ =~= raw@.take(32));
        data.extend_from_slice(head);
    } else {
        data.extend_from_slice(raw);
        data.extend_from_slice(zeros(32 - raw.len()).as_slice());
    }
    assert(data@ =~= name_word(encode_utf8(name@)));
    data.extend_from_slice(model_hash.as_slice());
    data.extend_from_slice(zeros(32).as_slice());
    data
}

} // verus!
