//! Pedersen value commitments, blinded asset generators, nonces and the
//! blinding factors behind them.

use crate::codec::{
    decode_commitment, decode_spec, generator_parses, pedersen_commitment_parses, public_key_parses,
    valid_encoding, CommitmentKind, DecodeError, COMMITMENT_LEN,
};
use crate::scalar::{curve_order, scalar_of};
use secp256k1_zkp::{compute_adaptive_blinding_factor, CommitmentSecrets, Tweak};
use vstd::prelude::*;

verus! {

broadcast use vstd::array::group_array_axioms;

/// Identifier of an asset on the ledger: a 32-byte tag.
#[derive(Clone, Copy, Debug, PartialEq, Eq)]
pub struct AssetId(pub [u8; 32]);

/// Why a byte string is not a blinding factor.
#[derive(Clone, Copy, Debug, PartialEq, Eq, Structural)]
pub enum ScalarError {
    /// Not exactly 32 bytes long.
    InvalidLength,
    /// 32 bytes, but the scalar they spell is out of range.
    OutOfRange,
}

/// The secret that blinds an asset generator: a scalar in `1 .. n`.
#[derive(Clone, Copy, Debug, PartialEq, Eq)]
pub struct AssetBlindingFactor {
    bytes: [u8; 32],
}

/// The secret that blinds a committed value: a scalar in `0 .. n`.
#[derive(Clone, Copy, Debug, PartialEq, Eq)]
pub struct ValueBlindingFactor {
    bytes: [u8; 32],
}

/// Relies on `SecretKey::new` with the thread-local CSPRNG: a random
/// secret key, whose bytes always spell a scalar in `1 .. n`.
#[verifier::external_body]
fn random_secret_key() -> (r: [u8; 32])
    ensures
        0 < scalar_of(r@) < curve_order(),
{
    bitcoin::secp256k1::SecretKey::new(&mut secp256k1_zkp::rand::thread_rng()).secret_bytes()
}

/// Relies on `SecretKey::from_slice`: it accepts exactly the 32-byte strings
/// that spell a scalar in `1 .. n`.
#[verifier::external_body]
fn secret_key_from_slice_ok(b: &[u8]) -> (r: bool)
    ensures
        r == (b@.len() == 32 && 0 < scalar_of(b@) < curve_order()),
{
    bitcoin::secp256k1::SecretKey::from_slice(b).is_ok()
}

/// Relies on `secp256k1_zkp::Tweak::from_slice`: it accepts exactly the
/// 32-byte strings that spell a scalar in `0 .. n`.
#[verifier::external_body]
fn tweak_from_slice_ok(b: &[u8]) -> (r: bool)
    ensures
        r == (b@.len() == 32 && scalar_of(b@) < curve_order()),
{
    secp256k1_zkp::Tweak::from_slice(b).is_ok()
}

/// The big-endian scalar of a byte string is zero exactly when every byte is.
proof fn lemma_scalar_zero(s: Seq<u8>)
    ensures
        scalar_of(s) == 0 <==> (forall|i: int| 0 <= i < s.len() ==> s[i] == 0),
    decreases s.len(),
{
    if s.len() > 0 {
        let d = s.drop_last();
        lemma_scalar_zero(d);
        if scalar_of(s) == 0 {
            assert(scalar_of(d) == 0 && s.last() == 0);
            assert forall|i: int| 0 <= i < s.len() implies s[i] == 0 by {
                if i < s.len() - 1 {
                    assert(s[i] == d[i]);
                }
            }
        }
        if forall|i: int| 0 <= i < s.len() ==> s[i] == 0 {
            assert forall|i: int| 0 <= i < d.len() implies d[i] == 0 by {
                assert(d[i] == s[i]);
            }
            assert(s.last() == s[s.len() - 1]);
        }
    }
}

fn is_zero(b: &[u8; 32]) -> (r: bool)
    ensures
        r == (scalar_of(b@) == 0),
{
    proof {
        lemma_scalar_zero(b@);
    }
    let mut i: usize = 0;
    while i < 32
        invariant
            0 <= i <= 32,
            b@.len() == 32,
            forall|j: int| 0 <= j < i ==> b@[j] == 0,
        decreases 32 - i,
    {
        if b[i] != 0 {
            proof {
                lemma_scalar_zero(b@);
                assert(b@[i as int] != 0);
                assert(!(forall|j: int| 0 <= j < b@.len() ==> b@[j] == 0));
            }
            return false;
        }
        i = i + 1;
    }
    true
}

fn copy_32(b: &[u8]) -> (r: [u8; 32])
    requires
        b@.len() == 32,
    ensures
        r@ == b@,
{
    let mut r: [u8; 32] = [0u8; 32];
    let mut i: usize = 0;
    while i < 32
        invariant
            b@.len() == 32,
            r@.len() == 32,
            0 <= i <= 32,
            forall|j: int| 0 <= j < i ==> r@[j] == b@[j],
        decreases 32 - i,
    {
        r[i] = b[i];
        i = i + 1;
    }
    assert(r@ =~= b@);
    r
}

impl View for AssetBlindingFactor {
    type V = Seq<u8>;

    closed spec fn view(&self) -> Seq<u8> {
        self.bytes@
    }
}

impl View for ValueBlindingFactor {
    type V = Seq<u8>;

    closed spec fn view(&self) -> Seq<u8> {
        self.bytes@
    }
}

impl AssetBlindingFactor {
    /// The scalar this factor stands for.
    pub open spec fn scalar(&self) -> nat {
        scalar_of(self@)
    }

    /// Valid factors are non-zero scalars below the group order.
    pub open spec fn wf(&self) -> bool {
        0 < self.scalar() < curve_order()
    }

    /// A fresh factor drawn from a cryptographically secure source.
    pub fn new() -> (r: Self)
        ensures
            r.wf(),
    {
        AssetBlindingFactor { bytes: random_secret_key() }
    }

    /// Reads a factor from 32 big-endian bytes.
    pub fn from_slice(bytes: &[u8]) -> (r: Result<Self, ScalarError>)
        ensures
            bytes@.len() != 32 ==> r == Err::<Self, ScalarError>(ScalarError::InvalidLength),
            bytes@.len() == 32 && !(0 < scalar_of(bytes@) < curve_order()) ==> r == Err::<
                Self,
                ScalarError,
            >(ScalarError::OutOfRange),
            r is Ok <==> (bytes@.len() == 32 && 0 < scalar_of(bytes@) < curve_order()),
            r is Ok ==> r->Ok_0@ == bytes@ && r->Ok_0.wf(),
    {
        if bytes.len() != 32 {
            return Err(ScalarError::InvalidLength);
        }
        if !secret_key_from_slice_ok(bytes) {
            return Err(ScalarError::OutOfRange);
        }
        Ok(AssetBlindingFactor { bytes: copy_32(bytes) })
    }

    /// The 32 big-endian bytes of the factor.
    pub fn into_inner(self) -> (r: [u8; 32])
        ensures
            r@ == self@,
    {
        self.bytes
    }
}

impl ValueBlindingFactor {
    /// The value blinding factor of the last output of a transaction: given
    /// the openings of every input and of every other output, and the value
    /// and asset blinding factor of that last output, the factor that makes
    /// the commitments of the inputs and of the outputs sum to the same point.
    pub fn last(
        value: u64,
        abf: AssetBlindingFactor,
        inputs: &[Opening],
        outputs: &[Opening],
    ) -> (r: Self)
        requires
            abf.wf(),
            openings_wf(inputs@),
            openings_wf(outputs@),
        ensures
            r.wf(),
            r.scalar() == balancing_scalar(value, abf, inputs@, outputs@),
    {
        let bytes = adaptive_blinding_factor(value, &abf, inputs, outputs);
        proof {
            lemma_mod_bound(
                opening_sum(inputs@) - opening_sum(outputs@) - value as int * abf.scalar(),
            );
        }
        ValueBlindingFactor { bytes }
    }

    /// The scalar this factor stands for.
    pub open spec fn scalar(&self) -> nat {
        scalar_of(self@)
    }

    /// Valid factors are scalars below the group order.
    pub open spec fn wf(&self) -> bool {
        self.scalar() < curve_order()
    }

    /// A fresh factor drawn from a cryptographically secure source.
    pub fn random() -> (r: Self)
        ensures
            r.wf(),
            0 < r.scalar(),
    {
        ValueBlindingFactor { bytes: random_secret_key() }
    }

    /// Reads a factor from 32 big-endian bytes; zero is a valid factor.
    pub fn from_slice(bytes: &[u8]) -> (r: Result<Self, ScalarError>)
        ensures
            bytes@.len() != 32 ==> r == Err::<Self, ScalarError>(ScalarError::InvalidLength),
            bytes@.len() == 32 && scalar_of(bytes@) >= curve_order() ==> r == Err::<
                Self,
                ScalarError,
            >(ScalarError::OutOfRange),
            r is Ok <==> (bytes@.len() == 32 && scalar_of(bytes@) < curve_order()),
            r is Ok ==> r->Ok_0@ == bytes@ && r->Ok_0.wf(),
    {
        if bytes.len() != 32 {
            return Err(ScalarError::InvalidLength);
        }
        if !tweak_from_slice_ok(bytes) {
            return Err(ScalarError::OutOfRange);
        }
        Ok(ValueBlindingFactor { bytes: copy_32(bytes) })
    }

    /// The 32 big-endian bytes of the factor.
    pub fn into_inner(self) -> (r: [u8; 32])
        ensures
            r@ == self@,
    {
        self.bytes
    }
}

/// One known opening `(value, asset blinding factor, value blinding factor)`
/// of a commitment in a transaction.
pub type Opening = (u64, AssetBlindingFactor, ValueBlindingFactor);

/// The blinding scalar that an opening contributes to the balance:
/// `v * r + r'`, for a commitment `v * (T + r * G) + r' * G`.
pub open spec fn opening_scalar(o: Opening) -> int {
    o.0 as int * o.1.scalar() + o.2.scalar()
}

/// The sum of the blinding scalars of a list of openings, as an integer.
pub open spec fn opening_sum(s: Seq<Opening>) -> int
    decreases s.len(),
{
    if s.len() == 0 {
        0
    } else {
        opening_sum(s.drop_last()) + opening_scalar(s.last())
    }
}

/// Every factor in the list is valid.
pub open spec fn openings_wf(s: Seq<Opening>) -> bool {
    forall|i: int| 0 <= i < s.len() ==> (#[trigger] s[i]).1.wf() && s[i].2.wf()
}

/// The value blinding factor that closes the balance: the one scalar that
/// makes the input openings and the output openings, the closing output
/// `(value, abf, result)` included, sum to the same scalar.
pub open spec fn balancing_scalar(
    value: u64,
    abf: AssetBlindingFactor,
    inputs: Seq<Opening>,
    outputs: Seq<Opening>,
) -> int {
    (opening_sum(inputs) - opening_sum(outputs) - value as int * abf.scalar()) % curve_order()
}

/// Relies on `secp256k1_zkp::compute_adaptive_blinding_factor`, with the
/// inputs as its first set and the outputs as its second: it returns
/// `sum(inputs) - sum(outputs) - value * abf` modulo the group order, each
/// term `v * r + r'`, and panics only on a factor out of range.
#[verifier::external_body]
fn adaptive_blinding_factor(
    value: u64,
    abf: &AssetBlindingFactor,
    inputs: &[Opening],
    outputs: &[Opening],
) -> (r: [u8; 32])
    requires
        abf.wf(),
        openings_wf(inputs@),
        openings_wf(outputs@),
    ensures
        scalar_of(r@) == balancing_scalar(value, *abf, inputs@, outputs@),
{
    let tweak = |b: [u8; 32]| Tweak::from_inner(b).unwrap();
    let secrets = |s: &[Opening]| {
        s.iter().map(|(v, a, b)| CommitmentSecrets::new(*v, tweak(b.bytes), tweak(a.bytes)))
            .collect::<std::vec::Vec<_>>()
    };
    let secp = secp256k1_zkp::Secp256k1::new();
    let r = compute_adaptive_blinding_factor(
        &secp, value, tweak(abf.bytes), &secrets(inputs), &secrets(outputs));
    *AsRef::<[u8; 32]>::as_ref(&r)
}

proof fn lemma_mod_bound(x: int)
    ensures
        0 <= x % curve_order() < curve_order(),
{
    vstd::arithmetic::div_mod::lemma_mod_bound(x, curve_order());
}

/// With the factor that `last` returns for the closing output, the blinding
/// scalars of the inputs and of the outputs (the closing one included) are
/// equal modulo the group order: the commitments balance.
pub proof fn lemma_balance_closure(
    value: u64,
    abf: AssetBlindingFactor,
    vbf: ValueBlindingFactor,
    inputs: Seq<Opening>,
    outputs: Seq<Opening>,
)
    requires
        vbf.scalar() == balancing_scalar(value, abf, inputs, outputs),
    ensures
        opening_sum(inputs) % curve_order() == opening_sum(outputs.push((value, abf, vbf)))
            % curve_order(),
{
    let n = curve_order();
    let x = opening_sum(inputs) - opening_sum(outputs) - value as int * abf.scalar();
    let closed = outputs.push((value, abf, vbf));
    assert(closed.drop_last() =~= outputs);
    assert(opening_sum(closed) == opening_sum(outputs) + value as int * abf.scalar()
        + vbf.scalar());
    vstd::arithmetic::div_mod::lemma_fundamental_div_mod(x, n);
    assert(opening_sum(closed) == opening_sum(inputs) - n * (x / n));
    vstd::arithmetic::div_mod::lemma_mod_multiples_vanish(-(x / n), opening_sum(closed), n);
    assert(opening_sum(inputs) == opening_sum(closed) + n * (x / n));
    vstd::arithmetic::div_mod::lemma_mod_multiples_vanish(x / n, opening_sum(closed), n);
}

/// The encoding of the generator of `asset` blinded by `abf`.
pub uninterp spec fn blinded_generator_of(asset: Seq<u8>, abf: Seq<u8>) -> Seq<u8>;

/// The encoding of the commitment to `value` with blinding factor `vbf`
/// under the generator encoded as `generator`.
pub uninterp spec fn pedersen_commitment_of(value: u64, vbf: Seq<u8>, generator: Seq<u8>) -> Seq<
    u8,
>;

/// Whether the commitments encoded in `a` sum to the same point as those in `b`.
pub uninterp spec fn commitments_tally(a: Seq<Seq<u8>>, b: Seq<Seq<u8>>) -> bool;

/// Relies on `secp256k1_zkp::Generator::new_blinded` and `serialize`: the
/// generator of the asset's tag plus `abf * G`, serialized with tag 0x0a / 0x0b.
#[verifier::external_body]
fn blind_generator(asset: &[u8; 32], abf: &[u8; 32]) -> (r: Vec<u8>)
    requires
        0 < scalar_of(abf@) < curve_order(),
    ensures
        r@ == blinded_generator_of(asset@, abf@),
        r@.len() == 33,
        r@[0] == 10 || r@[0] == 11,
        generator_parses(r@),
{
    let secp = secp256k1_zkp::Secp256k1::new();
    let tweak = secp256k1_zkp::Tweak::from_inner(*abf).unwrap();
    let tag = secp256k1_zkp::Tag::from(*asset);
    secp256k1_zkp::Generator::new_blinded(&secp, tag, tweak).serialize().to_vec()
}

/// The 32 bytes of the scalar zero.
pub open spec fn zero_bytes() -> Seq<u8> {
    Seq::new(32, |i: int| 0u8)
}

/// Whether `vbf * G + value * H` is the point at infinity, for the generator
/// `H` encoded as `generator`. Where one of `value` and `vbf` is zero, the
/// sum is a non-zero multiple (below the group order) of a point of prime
/// order, or zero times both; otherwise it is at infinity exactly when the
/// commitments `value * H` and `vbf * G` sum to the empty sum.
pub open spec fn commitment_at_infinity(value: u64, vbf: Seq<u8>, generator: Seq<u8>) -> bool {
    if value == 0 || scalar_of(vbf) == 0 {
        value == 0 && scalar_of(vbf) == 0
    } else {
        commitments_tally(
            seq![
                pedersen_commitment_of(value, zero_bytes(), generator),
                pedersen_commitment_of(0, vbf, generator),
            ],
            Seq::empty(),
        )
    }
}

/// Relies on `secp256k1_zkp::PedersenCommitment::new` and `serialize`:
/// `vbf * G + value * H` for the generator `H`, serialized with tag 0x08 /
/// 0x09; it panics exactly when that sum is the point at infinity.
#[verifier::external_body]
fn pedersen_commit(value: u64, vbf: &[u8; 32], generator: &[u8]) -> (r: Vec<u8>)
    requires
        scalar_of(vbf@) < curve_order(),
        generator_parses(generator@),
        !commitment_at_infinity(value, vbf@, generator@),
    ensures
        r@ == pedersen_commitment_of(value, vbf@, generator@),
        r@.len() == 33,
        r@[0] == 8 || r@[0] == 9,
        pedersen_commitment_parses(r@),
{
    let secp = secp256k1_zkp::Secp256k1::new();
    let tweak = secp256k1_zkp::Tweak::from_inner(*vbf).unwrap();
    let generator = secp256k1_zkp::Generator::from_slice(generator).unwrap();
    secp256k1_zkp::PedersenCommitment::new(&secp, value, tweak, generator).serialize().to_vec()
}

/// Relies on `secp256k1_zkp::verify_commitments_sum_to_equal`: whether the
/// commitments of `a` sum to the same point as those of `b`.
#[verifier::external_body]
fn verify_sum(a: &[ValueCommitment], b: &[ValueCommitment]) -> (r: bool)
    ensures
        r == commitments_tally(encodings(a@), encodings(b@)),
{
    let parse = |s: &[ValueCommitment]| s.iter()
        .map(|c| secp256k1_zkp::PedersenCommitment::from_slice(&c.bytes).unwrap())
        .collect::<std::vec::Vec<_>>();
    let secp = secp256k1_zkp::Secp256k1::new();
    secp256k1_zkp::verify_commitments_sum_to_equal(&secp, &parse(a), &parse(b))
}

/// The compressed encoding of the public key of the secret key `sk`.
pub uninterp spec fn public_key_of(sk: Seq<u8>) -> Seq<u8>;

/// Relies on `PublicKey::from_secret_key` and `serialize`: the public key of
/// a valid secret key in compressed form, 33 bytes with tag 0x02 / 0x03.
#[verifier::external_body]
fn public_key_from_secret(sk: &[u8; 32]) -> (r: Vec<u8>)
    requires
        0 < scalar_of(sk@) < curve_order(),
    ensures
        r@ == public_key_of(sk@),
        r@.len() == 33,
        r@[0] == 2 || r@[0] == 3,
        public_key_parses(r@),
{
    let secp = bitcoin::secp256k1::Secp256k1::new();
    let sk = bitcoin::secp256k1::SecretKey::from_slice(sk).unwrap();
    bitcoin::secp256k1::PublicKey::from_secret_key(&secp, &sk).serialize().to_vec()
}

/// A blinded asset generator, held as its 33-byte encoding.
#[derive(Debug, PartialEq, Eq)]
pub struct AssetGenerator {
    bytes: Vec<u8>,
}

/// A Pedersen value commitment, held as its 33-byte encoding.
#[derive(Debug, PartialEq, Eq)]
pub struct ValueCommitment {
    bytes: Vec<u8>,
}

/// An ephemeral public key for ECDH, held as its 33-byte encoding.
#[derive(Debug, PartialEq, Eq)]
pub struct Nonce {
    bytes: Vec<u8>,
}

impl View for AssetGenerator {
    type V = Seq<u8>;

    closed spec fn view(&self) -> Seq<u8> {
        self.bytes@
    }
}

impl View for ValueCommitment {
    type V = Seq<u8>;

    closed spec fn view(&self) -> Seq<u8> {
        self.bytes@
    }
}

impl View for Nonce {
    type V = Seq<u8>;

    closed spec fn view(&self) -> Seq<u8> {
        self.bytes@
    }
}

/// The encodings of a list of commitments.
pub open spec fn encodings(s: Seq<ValueCommitment>) -> Seq<Seq<u8>> {
    s.map_values(|c: ValueCommitment| c@)
}

/// Whether the value commitments of `inputs` sum to the same point as those
/// of `outputs`: the balance check of a confidential transaction.
pub fn commitments_balance(inputs: &[ValueCommitment], outputs: &[ValueCommitment]) -> (r: bool)
    ensures
        r == commitments_tally(encodings(inputs@), encodings(outputs@)),
{
    verify_sum(inputs, outputs)
}

impl AssetGenerator {
    #[verifier::type_invariant]
    closed spec fn inv(&self) -> bool {
        valid_encoding(CommitmentKind::Asset, self.bytes@)
    }

    /// The generator of `asset`, blinded by `bf`; the same inputs always give
    /// the same generator.
    pub fn new(asset: AssetId, bf: AssetBlindingFactor) -> (r: Self)
        requires
            bf.wf(),
        ensures
            r@ == blinded_generator_of(asset.0@, bf@),
            valid_encoding(CommitmentKind::Asset, r@),
    {
        let bytes = blind_generator(&asset.0, &bf.into_inner());
        AssetGenerator { bytes }
    }

    pub fn encoded_length(&self) -> (r: usize)
        ensures
            r == COMMITMENT_LEN,
    {
        COMMITMENT_LEN
    }

    /// The 33-byte encoding.
    pub fn consensus_encode(&self) -> (r: Vec<u8>)
        ensures
            r@ == self@,
            valid_encoding(CommitmentKind::Asset, r@),
    {
        proof {
            use_type_invariant(self);
        }
        self.bytes.clone()
    }

    /// Reads a generator from its 33-byte encoding.
    pub fn consensus_decode(bytes: &[u8]) -> (r: Result<Self, DecodeError>)
        ensures
            match r {
                Ok(g) => decode_spec(CommitmentKind::Asset, bytes@) == Ok::<Seq<u8>, DecodeError>(g@),
                Err(e) => decode_spec(CommitmentKind::Asset, bytes@) == Err::<Seq<u8>, DecodeError>(e),
            },
    {
        match decode_commitment(CommitmentKind::Asset, bytes) {
            Ok(bytes) => Ok(AssetGenerator { bytes }),
            Err(e) => Err(e),
        }
    }
}

impl ValueCommitment {
    #[verifier::type_invariant]
    closed spec fn inv(&self) -> bool {
        valid_encoding(CommitmentKind::Value, self.bytes@)
    }

    /// The commitment to `value` under the generator `asset`, blinded by
    /// `bf`; none where `bf * G + value * H` is the point at infinity, which
    /// has no encoding.
    pub fn new(value: u64, asset: &AssetGenerator, bf: ValueBlindingFactor) -> (r: Option<Self>)
        requires
            bf.wf(),
        ensures
            r is None <==> commitment_at_infinity(value, bf@, asset@),
            r matches Some(c) ==> c@ == pedersen_commitment_of(value, bf@, asset@)
                && valid_encoding(CommitmentKind::Value, c@),
    {
        proof {
            use_type_invariant(asset);
        }
        let vbf = bf.into_inner();
        let zero: [u8; 32] = [0u8; 32];
        proof {
            assert(zero@ =~= zero_bytes());
            lemma_scalar_zero(zero@);
        }
        let vbf_zero = is_zero(&vbf);
        if value == 0 || vbf_zero {
            if value == 0 && vbf_zero {
                return None;
            }
        } else {
            let scaled = ValueCommitment { bytes: pedersen_commit(value, &zero, &asset.bytes) };
            let blind = ValueCommitment { bytes: pedersen_commit(0, &vbf, &asset.bytes) };
            let ghost (s1, s2) = (scaled@, blind@);
            let mut parts: Vec<ValueCommitment> = Vec::new();
            parts.push(scaled);
            parts.push(blind);
            let none: Vec<ValueCommitment> = Vec::new();
            proof {
                assert(encodings(parts@) =~= seq![s1, s2]);
                assert(encodings(none@) =~= Seq::<Seq<u8>>::empty());
            }
            if verify_sum(parts.as_slice(), none.as_slice()) {
                return None;
            }
        }
        Some(ValueCommitment { bytes: pedersen_commit(value, &vbf, &asset.bytes) })
    }

    pub fn encoded_length(&self) -> (r: usize)
        ensures
            r == COMMITMENT_LEN,
    {
        COMMITMENT_LEN
    }

    /// The 33-byte encoding.
    pub fn consensus_encode(&self) -> (r: Vec<u8>)
        ensures
            r@ == self@,
            valid_encoding(CommitmentKind::Value, r@),
    {
        proof {
            use_type_invariant(self);
        }
        self.bytes.clone()
    }

    /// Reads a commitment from its 33-byte encoding.
    pub fn consensus_decode(bytes: &[u8]) -> (r: Result<Self, DecodeError>)
        ensures
            match r {
                Ok(c) => decode_spec(CommitmentKind::Value, bytes@) == Ok::<Seq<u8>, DecodeError>(c@),
                Err(e) => decode_spec(CommitmentKind::Value, bytes@) == Err::<Seq<u8>, DecodeError>(e),
            },
    {
        match decode_commitment(CommitmentKind::Value, bytes) {
            Ok(bytes) => Ok(ValueCommitment { bytes }),
            Err(e) => Err(e),
        }
    }
}

impl Nonce {
    #[verifier::type_invariant]
    closed spec fn inv(&self) -> bool {
        valid_encoding(CommitmentKind::Nonce, self.bytes@)
    }

    /// A fresh nonce, with the secret key that only its maker knows.
    pub fn new() -> (r: (Self, [u8; 32]))
        ensures
            0 < scalar_of(r.1@) < curve_order(),
            r.0@ == public_key_of(r.1@),
            valid_encoding(CommitmentKind::Nonce, r.0@),
    {
        let sk = random_secret_key();
        (Nonce::from_secret_key(&sk), sk)
    }

    /// The nonce whose secret key is `sk`: its public key.
    pub fn from_secret_key(sk: &[u8; 32]) -> (r: Self)
        requires
            0 < scalar_of(sk@) < curve_order(),
        ensures
            r@ == public_key_of(sk@),
            valid_encoding(CommitmentKind::Nonce, r@),
    {
        Nonce { bytes: public_key_from_secret(sk) }
    }

    pub fn encoded_length(&self) -> (r: usize)
        ensures
            r == COMMITMENT_LEN,
    {
        COMMITMENT_LEN
    }

    /// The 33-byte encoding.
    pub fn consensus_encode(&self) -> (r: Vec<u8>)
        ensures
            r@ == self@,
            valid_encoding(CommitmentKind::Nonce, r@),
    {
        proof {
            use_type_invariant(self);
        }
        self.bytes.clone()
    }

    /// Reads a nonce from its 33-byte encoding.
    pub fn consensus_decode(bytes: &[u8]) -> (r: Result<Self, DecodeError>)
        ensures
            match r {
                Ok(n) => decode_spec(CommitmentKind::Nonce, bytes@) == Ok::<Seq<u8>, DecodeError>(n@),
                Err(e) => decode_spec(CommitmentKind::Nonce, bytes@) == Err::<Seq<u8>, DecodeError>(e),
            },
    {
        match decode_commitment(CommitmentKind::Nonce, bytes) {
            Ok(bytes) => Ok(Nonce { bytes }),
            Err(e) => Err(e),
        }
    }
}

/// Under one asset blinding factor, the blinding scalar of the opening
/// `(v1 + v2, abf, bf1 + bf2)` is, modulo the group order, the sum of those
/// of `(v1, abf, bf1)` and `(v2, abf, bf2)`: the scalar side of the additive
/// homomorphism of commitments.
pub proof fn lemma_opening_scalars_add(
    v1: u64,
    v2: u64,
    abf: AssetBlindingFactor,
    bf1: ValueBlindingFactor,
    bf2: ValueBlindingFactor,
    bf_sum: ValueBlindingFactor,
)
    requires
        v1 + v2 <= u64::MAX,
        bf_sum.scalar() as int == (bf1.scalar() + bf2.scalar()) as int % curve_order(),
    ensures
        opening_scalar(((v1 + v2) as u64, abf, bf_sum)) % curve_order() == (opening_scalar(
            (v1, abf, bf1),
        ) + opening_scalar((v2, abf, bf2))) % curve_order(),
{
    let n = curve_order();
    let a = abf.scalar() as int;
    let b: int = bf1.scalar() as int + bf2.scalar() as int;
    assert((v1 as int + v2 as int) * a == v1 as int * a + v2 as int * a) by (nonlinear_arith);
    let lhs = opening_scalar(((v1 + v2) as u64, abf, bf_sum));
    let rhs = opening_scalar((v1, abf, bf1)) + opening_scalar((v2, abf, bf2));
    assert(lhs == v1 as int * a + v2 as int * a + b % n);
    assert(rhs == v1 as int * a + v2 as int * a + b);
    vstd::arithmetic::div_mod::lemma_fundamental_div_mod(b, n);
    assert(rhs == lhs + n * (b / n));
    vstd::arithmetic::div_mod::lemma_mod_multiples_vanish(b / n, lhs, n);
}

} // verus!
