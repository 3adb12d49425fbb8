//! Fixed-width wire format of commitment-like values: one tag byte that
//! carries the kind and the parity of the point, then 32 bytes of x-coordinate.

use vstd::prelude::*;

verus! {

/// Every commitment-like value is exactly this many bytes on the wire.
pub const COMMITMENT_LEN: usize = 33;

/// The three kinds of commitment-like values; each reserves two adjacent tags.
#[derive(Clone, Copy, Debug, PartialEq, Eq, Structural)]
pub enum CommitmentKind {
    /// An ephemeral public key (tags 0x02 / 0x03).
    Nonce,
    /// A Pedersen value commitment (tags 0x08 / 0x09).
    Value,
    /// A blinded asset generator (tags 0x0a / 0x0b).
    Asset,
}

/// Why a byte string is not a commitment of the requested kind.
#[derive(Clone, Copy, Debug, PartialEq, Eq, Structural)]
pub enum DecodeError {
    /// The input is not exactly 33 bytes long; carries the length found.
    WrongLength(usize),
    /// The first byte is not one of the two tags of the kind; carries it.
    InvalidPrefix(u8),
    /// Length and tag are right but the x-coordinate is not a valid point.
    InvalidPoint,
}

impl CommitmentKind {
    /// The even one of the two tags reserved for this kind.
    pub open spec fn even_tag(self) -> u8 {
        match self {
            CommitmentKind::Nonce => 2,
            CommitmentKind::Value => 8,
            CommitmentKind::Asset => 10,
        }
    }

    pub fn even_prefix(&self) -> (r: u8)
        ensures
            r == self.even_tag(),
    {
        match self {
            CommitmentKind::Nonce => 2,
            CommitmentKind::Value => 8,
            CommitmentKind::Asset => 10,
        }
    }

    /// Whether `b` is one of the two tags reserved for this kind.
    pub open spec fn reserves(self, b: u8) -> bool {
        b == self.even_tag() || b == self.even_tag() + 1
    }
}

/// Whether secp256k1 accepts `b` as a compressed public key.
pub uninterp spec fn public_key_parses(b: Seq<u8>) -> bool;

/// Whether secp256k1-zkp accepts `b` as a serialized Pedersen commitment.
pub uninterp spec fn pedersen_commitment_parses(b: Seq<u8>) -> bool;

/// Whether secp256k1-zkp accepts `b` as a serialized generator.
pub uninterp spec fn generator_parses(b: Seq<u8>) -> bool;

/// Whether the curve library accepts `b` as a point of the given kind.
pub open spec fn point_parses(kind: CommitmentKind, b: Seq<u8>) -> bool {
    match kind {
        CommitmentKind::Nonce => public_key_parses(b),
        CommitmentKind::Value => pedersen_commitment_parses(b),
        CommitmentKind::Asset => generator_parses(b),
    }
}

/// The outcome of decoding `b` as a value of kind `kind`: the checks run in
/// the order length, tag, point.
pub open spec fn decode_spec(kind: CommitmentKind, b: Seq<u8>) -> Result<Seq<u8>, DecodeError> {
    if b.len() != COMMITMENT_LEN {
        Err(DecodeError::WrongLength(b.len() as usize))
    } else if !kind.reserves(b[0]) {
        Err(DecodeError::InvalidPrefix(b[0]))
    } else if !point_parses(kind, b) {
        Err(DecodeError::InvalidPoint)
    } else {
        Ok(b)
    }
}

/// The encodings that are values of kind `kind`.
pub open spec fn valid_encoding(kind: CommitmentKind, b: Seq<u8>) -> bool {
    &&& b.len() == COMMITMENT_LEN
    &&& kind.reserves(b[0])
    &&& point_parses(kind, b)
}

/// Relies on `bitcoin::secp256k1::PublicKey::from_slice`: whether the bytes
/// parse as a public key; it accepts only 33-byte compressed keys with tag
/// 0x02 / 0x03, or 65-byte ones with another tag.
#[verifier::external_body]
fn public_key_from_slice_ok(b: &[u8]) -> (r: bool)
    ensures
        r == public_key_parses(b@),
        r && b@.len() == 33 ==> b@[0] == 2 || b@[0] == 3,
{
    bitcoin::secp256k1::PublicKey::from_slice(b).is_ok()
}

/// Relies on `secp256k1_zkp::PedersenCommitment::from_slice`: whether the
/// bytes parse as a commitment; it accepts only 33 bytes with tag 0x08 / 0x09.
#[verifier::external_body]
fn pedersen_commitment_from_slice_ok(b: &[u8]) -> (r: bool)
    ensures
        r == pedersen_commitment_parses(b@),
        r ==> b@.len() == 33 && (b@[0] == 8 || b@[0] == 9),
{
    secp256k1_zkp::PedersenCommitment::from_slice(b).is_ok()
}

/// Relies on `secp256k1_zkp::Generator::from_slice`: whether the bytes parse
/// as a generator; it accepts only 33 bytes with tag 0x0a / 0x0b.
#[verifier::external_body]
fn generator_from_slice_ok(b: &[u8]) -> (r: bool)
    ensures
        r == generator_parses(b@),
        r ==> b@.len() == 33 && (b@[0] == 10 || b@[0] == 11),
{
    secp256k1_zkp::Generator::from_slice(b).is_ok()
}

fn point_parses_exec(kind: CommitmentKind, b: &[u8]) -> (r: bool)
    ensures
        r == point_parses(kind, b@),
{
    match kind {
        CommitmentKind::Nonce => public_key_from_slice_ok(b),
        CommitmentKind::Value => pedersen_commitment_from_slice_ok(b),
        CommitmentKind::Asset => generator_from_slice_ok(b),
    }
}

/// Checks `bytes` as the encoding of a value of kind `kind` and returns a
/// copy of it: the length first, then the tag, then the point.
pub fn decode_commitment(kind: CommitmentKind, bytes: &[u8]) -> (r: Result<Vec<u8>, DecodeError>)
    ensures
        match r {
            Ok(v) => decode_spec(kind, bytes@) == Ok::<Seq<u8>, DecodeError>(v@),
            Err(e) => decode_spec(kind, bytes@) == Err::<Seq<u8>, DecodeError>(e),
        },
{
    if bytes.len() != COMMITMENT_LEN {
        return Err(DecodeError::WrongLength(bytes.len()));
    }
    let tag = bytes[0];
    let even = kind.even_prefix();
    if tag != even && tag != even + 1 {
        return Err(DecodeError::InvalidPrefix(tag));
    }
    if !point_parses_exec(kind, bytes) {
        return Err(DecodeError::InvalidPoint);
    }
    Ok(vstd::slice::slice_to_vec(bytes))
}

/// Decoding then encoding gives back the input: an encoding that decodes is
/// returned as it stands.
pub proof fn lemma_decode_then_encode(kind: CommitmentKind, b: Seq<u8>)
    requires
        decode_spec(kind, b) is Ok,
    ensures
        decode_spec(kind, b)->Ok_0 == b,
        valid_encoding(kind, b),
{
}

/// Encoding then decoding gives back the value: every valid encoding decodes
/// to itself.
pub proof fn lemma_encode_then_decode(kind: CommitmentKind, b: Seq<u8>)
    requires
        valid_encoding(kind, b),
    ensures
        decode_spec(kind, b) == Ok::<Seq<u8>, DecodeError>(b),
{
}

/// A 33-byte string whose first byte is not one of the two tags of the kind
/// never decodes, and the error carries that byte.
pub proof fn lemma_prefix_rejected(kind: CommitmentKind, b: Seq<u8>)
    requires
        b.len() == COMMITMENT_LEN,
        !kind.reserves(b[0]),
    ensures
        decode_spec(kind, b) == Err::<Seq<u8>, DecodeError>(DecodeError::InvalidPrefix(b[0])),
{
}

} // verus!
