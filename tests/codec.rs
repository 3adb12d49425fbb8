use elements_swap::codec::{decode_commitment, CommitmentKind, DecodeError, COMMITMENT_LEN};
use elements_swap::confidential::{
    AssetBlindingFactor, AssetGenerator, AssetId, Nonce, ValueBlindingFactor, ValueCommitment,
};

fn scalar(k: u8) -> [u8; 32] {
    let mut b = [0u8; 32];
    b[31] = k;
    b
}

fn generator() -> AssetGenerator {
    let abf = AssetBlindingFactor::from_slice(&scalar(7)).unwrap();
    AssetGenerator::new(AssetId([1u8; 32]), abf)
}

#[test]
fn generator_round_trips() {
    let g = generator();
    let bytes = g.consensus_encode();
    assert_eq!(bytes.len(), COMMITMENT_LEN);
    assert!(bytes[0] == 0x0a || bytes[0] == 0x0b);
    let back = AssetGenerator::consensus_decode(&bytes).unwrap();
    assert_eq!(back, g);
    assert_eq!(back.consensus_encode(), bytes);
    assert_eq!(g.encoded_length(), 33);
}

#[test]
fn generator_is_deterministic() {
    assert_eq!(generator(), generator());
    let abf = AssetBlindingFactor::from_slice(&scalar(8)).unwrap();
    let other = AssetGenerator::new(AssetId([1u8; 32]), abf);
    assert_ne!(other, generator());
}

#[test]
fn value_commitment_round_trips() {
    let vbf = ValueBlindingFactor::from_slice(&scalar(3)).unwrap();
    let c = ValueCommitment::new(1_000, &generator(), vbf).unwrap();
    let bytes = c.consensus_encode();
    assert!(bytes[0] == 0x08 || bytes[0] == 0x09);
    let back = ValueCommitment::consensus_decode(&bytes).unwrap();
    assert_eq!(back.consensus_encode(), bytes);
    assert_eq!(back, c);
}

#[test]
fn nonce_round_trips() {
    let (nonce, secret) = Nonce::new();
    assert_ne!(secret, [0u8; 32]);
    let bytes = nonce.consensus_encode();
    assert!(bytes[0] == 0x02 || bytes[0] == 0x03);
    let back = Nonce::consensus_decode(&bytes).unwrap();
    assert_eq!(back, nonce);
    assert_eq!(nonce.encoded_length(), 33);
}

#[test]
fn wrong_length_is_rejected() {
    let bytes = generator().consensus_encode();
    assert_eq!(
        AssetGenerator::consensus_decode(&bytes[..32]),
        Err(DecodeError::WrongLength(32))
    );
    assert_eq!(
        decode_commitment(CommitmentKind::Value, &[]),
        Err(DecodeError::WrongLength(0))
    );
    let mut long = bytes.clone();
    long.push(0);
    assert_eq!(
        decode_commitment(CommitmentKind::Asset, &long),
        Err(DecodeError::WrongLength(34))
    );
}

#[test]
fn foreign_prefix_is_rejected() {
    let bytes = generator().consensus_encode();
    for tag in [0x00u8, 0x01, 0x02, 0x03, 0x08, 0x09, 0x0c, 0xff] {
        let mut mutated = bytes.clone();
        mutated[0] = tag;
        assert_eq!(
            AssetGenerator::consensus_decode(&mutated),
            Err(DecodeError::InvalidPrefix(tag))
        );
    }
    let (nonce, _) = Nonce::new();
    let mut mutated = nonce.consensus_encode();
    mutated[0] = 0x04;
    assert_eq!(Nonce::consensus_decode(&mutated), Err(DecodeError::InvalidPrefix(0x04)));
    let vbf = ValueBlindingFactor::from_slice(&scalar(3)).unwrap();
    let mut mutated = ValueCommitment::new(5, &generator(), vbf).unwrap().consensus_encode();
    mutated[0] = 0x0a;
    assert_eq!(
        ValueCommitment::consensus_decode(&mutated),
        Err(DecodeError::InvalidPrefix(0x0a))
    );
}

#[test]
fn invalid_point_is_rejected() {
    let mut bytes = vec![0xffu8; 33];
    bytes[0] = 0x0a;
    assert_eq!(AssetGenerator::consensus_decode(&bytes), Err(DecodeError::InvalidPoint));
    bytes[0] = 0x08;
    assert_eq!(ValueCommitment::consensus_decode(&bytes), Err(DecodeError::InvalidPoint));
    bytes[0] = 0x02;
    assert_eq!(Nonce::consensus_decode(&bytes), Err(DecodeError::InvalidPoint));
}

#[test]
fn decode_copies_input() {
    let bytes = generator().consensus_encode();
    assert_eq!(decode_commitment(CommitmentKind::Asset, &bytes), Ok(bytes.clone()));
}

#[test]
fn nonce_from_secret_key_is_deterministic() {
    let a = Nonce::from_secret_key(&scalar(5));
    let b = Nonce::from_secret_key(&scalar(5));
    assert_eq!(a, b);
    assert_ne!(a, Nonce::from_secret_key(&scalar(6)));
    // the public key of 1 is the curve's base point G
    let g = a.consensus_encode();
    assert_eq!(g.len(), 33);
    let one = Nonce::from_secret_key(&scalar(1)).consensus_encode();
    assert_eq!(one[0], 0x02);
    assert_eq!(&one[1..5], &[0x79, 0xbe, 0x66, 0x7e]);
}
