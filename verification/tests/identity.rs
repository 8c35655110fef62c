//! Mesh identity assembly, checked against the base64 crate directly.

use base64::engine::general_purpose::{STANDARD, URL_SAFE_NO_PAD};
use base64::Engine;
use macula_console::config::{did_for_key, MeshIdentity};

#[test]
fn from_keys_encodes_both_keys_and_derives_the_did() {
    let pk: Vec<u8> = (0u8..32).collect();
    let sk: Vec<u8> = (100u8..132).collect();
    let id = MeshIdentity::from_keys(&pk, &sk);
    assert_eq!(id.public_key, STANDARD.encode(&pk));
    assert_eq!(id.private_key, STANDARD.encode(&sk));
    let expected_did = format!("did:macula:{}", URL_SAFE_NO_PAD.encode(&pk[..16]));
    assert_eq!(id.did, expected_did);
    assert_eq!(id.public_key.len(), 44);
    assert_eq!(id.private_key.len(), 44);
    assert_eq!(id.did.len(), 33);
}

#[test]
fn did_uses_only_the_first_sixteen_bytes() {
    let mut pk: Vec<u8> = vec![7u8; 32];
    let did_a = did_for_key(&pk);
    // Changing a byte past the sixteenth does not change the identifier.
    pk[20] = 9;
    let did_b = did_for_key(&pk);
    assert_eq!(did_a, did_b);
    // Changing an early byte does.
    pk[0] = 9;
    let did_c = did_for_key(&pk);
    assert_ne!(did_b, did_c);
    assert!(did_c.starts_with("did:macula:"));
}

#[test]
fn generated_identities_are_fresh_keypairs() {
    let a = MeshIdentity::generate();
    let b = MeshIdentity::generate();
    assert_eq!(a.public_key.len(), 44);
    assert_eq!(a.private_key.len(), 44);
    assert_eq!(a.did.len(), 33);
    assert!(a.did.starts_with("did:macula:"));
    // Two generations draw different randomness.
    assert_ne!(a.private_key, b.private_key);
    // The advertised public key decodes back to 32 bytes.
    let decoded = STANDARD.decode(&a.public_key).unwrap();
    assert_eq!(decoded.len(), 32);
}
