use ed25519_dalek::{Signer, SigningKey};
use script_ops::crypto::construct_address;
use script_ops::crypto_ops::{
    enough_matches, match_on_multisig_to_pubkey, op_checkmultisigmem, op_checksig,
    op_equalverify, op_hash256, op_multisig,
};
use script_ops::{OpCodes, PublicKey, Signature, StackEntry};
use sha3::Digest;

fn keypair(seed: u8) -> (SigningKey, PublicKey) {
    let sk = SigningKey::from_bytes(&[seed; 32]);
    let pk = PublicKey(sk.verifying_key().to_bytes());
    (sk, pk)
}

fn sign(sk: &SigningKey, msg: &str) -> Signature {
    Signature(sk.sign(msg.as_bytes()).to_bytes())
}

// ---- hash256 ----

#[test]
fn address_is_hex_of_sha3_of_key() {
    let (_, pk) = keypair(1);
    let addr = construct_address(&pk);
    assert_eq!(addr, hex::encode(sha3::Sha3_256::digest(pk.0)));
    assert_eq!(addr.len(), 64);
    assert!(addr.chars().all(|c| c.is_ascii_digit() || ('a'..='f').contains(&c)));
    assert_ne!(addr, hex::encode(pk.0));
}

#[test]
fn address_of_zero_key() {
    // SHA3-256 of 32 zero bytes.
    let addr = construct_address(&PublicKey([0u8; 32]));
    assert_eq!(addr, hex::encode(sha3::Sha3_256::digest([0u8; 32])));
    assert_ne!(addr, construct_address(&PublicKey([1u8; 32])));
}

#[test]
fn hash256_replaces_key_by_address() {
    let (_, pk) = keypair(2);
    let mut s = vec![StackEntry::Num(9), StackEntry::PubKey(pk)];
    assert!(op_hash256(&mut s, None));
    assert_eq!(s, vec![StackEntry::Num(9), StackEntry::PubKeyHash(construct_address(&pk))]);
}

#[test]
fn hash256_fails_on_other_entry_and_pops_it() {
    let mut s = vec![StackEntry::Num(9), StackEntry::Num(4)];
    assert!(!op_hash256(&mut s, Some(0)));
    assert_eq!(s, vec![StackEntry::Num(9)]);
}

// ---- equalverify ----

#[test]
fn equalverify_equal_entries() {
    let mut s = vec![
        StackEntry::Num(1),
        StackEntry::PubKeyHash("ab".to_string()),
        StackEntry::PubKeyHash("ab".to_string()),
    ];
    assert!(op_equalverify(&mut s));
    assert_eq!(s, vec![StackEntry::Num(1)]);
}

#[test]
fn equalverify_unequal_entries() {
    let mut s = vec![StackEntry::PubKeyHash("ab".to_string()), StackEntry::Bytes("ab".to_string())];
    assert!(!op_equalverify(&mut s));
    assert!(s.is_empty());
}

#[test]
fn equalverify_on_short_stacks() {
    let mut empty: Vec<StackEntry> = Vec::new();
    assert!(op_equalverify(&mut empty));
    assert!(empty.is_empty());
    let mut one = vec![StackEntry::Num(0)];
    assert!(!op_equalverify(&mut one));
    assert!(one.is_empty());
}

// ---- checksig ----

#[test]
fn checksig_accepts_valid_signature() {
    let (sk, pk) = keypair(3);
    let msg = "transaction data";
    let mut s = vec![
        StackEntry::Num(5),
        StackEntry::Bytes(msg.to_string()),
        StackEntry::Signature(sign(&sk, msg)),
        StackEntry::PubKey(pk),
    ];
    assert!(op_checksig(&mut s));
    assert_eq!(s, vec![StackEntry::Num(5)]);
}

#[test]
fn checksig_rejects_other_message() {
    let (sk, pk) = keypair(3);
    let mut s = vec![
        StackEntry::Bytes("other data".to_string()),
        StackEntry::Signature(sign(&sk, "transaction data")),
        StackEntry::PubKey(pk),
    ];
    assert!(!op_checksig(&mut s));
    assert!(s.is_empty());
}

#[test]
fn checksig_rejects_other_key() {
    let (sk, _) = keypair(3);
    let (_, other) = keypair(4);
    let mut s = vec![
        StackEntry::Bytes("m".to_string()),
        StackEntry::Signature(sign(&sk, "m")),
        StackEntry::PubKey(other),
    ];
    assert!(!op_checksig(&mut s));
}

#[test]
fn checkmultisigmem_checks_one_member() {
    let (sk, pk) = keypair(5);
    let mut good = vec![
        StackEntry::Bytes("m".to_string()),
        StackEntry::Signature(sign(&sk, "m")),
        StackEntry::PubKey(pk),
    ];
    assert!(op_checkmultisigmem(&mut good));
    let mut bad = vec![
        StackEntry::Bytes("n".to_string()),
        StackEntry::Signature(sign(&sk, "m")),
        StackEntry::PubKey(pk),
    ];
    assert!(!op_checkmultisigmem(&mut bad));
}

// ---- multisig ----

fn multisig_stack(msg: &str, sigs: &[Signature], m: usize, keys: &[PublicKey], n: usize) -> Vec<StackEntry> {
    let mut s = vec![StackEntry::Op(OpCodes::OP_0), StackEntry::Bytes(msg.to_string())];
    for sig in sigs {
        s.push(StackEntry::Signature(*sig));
    }
    s.push(StackEntry::Num(m));
    for key in keys {
        s.push(StackEntry::PubKey(*key));
    }
    s.push(StackEntry::Num(n));
    s
}

#[test]
fn multisig_two_of_three() {
    let (sk1, pk1) = keypair(11);
    let (_sk2, pk2) = keypair(12);
    let (sk3, pk3) = keypair(13);
    let msg = "pay 5";
    let mut s = multisig_stack(msg, &[sign(&sk1, msg), sign(&sk3, msg)], 2, &[pk1, pk2, pk3], 3);
    assert!(op_multisig(&mut s));
    assert_eq!(s, vec![StackEntry::Op(OpCodes::OP_0)]);
}

#[test]
fn multisig_not_enough_valid_signatures() {
    let (sk1, pk1) = keypair(11);
    let (_sk2, pk2) = keypair(12);
    let (sk3, pk3) = keypair(13);
    let msg = "pay 5";
    let mut s = multisig_stack(msg, &[sign(&sk1, msg), sign(&sk3, "pay 6")], 2, &[pk1, pk2, pk3], 3);
    assert!(!op_multisig(&mut s));
    assert_eq!(s, vec![StackEntry::Op(OpCodes::OP_0)]);
}

#[test]
fn multisig_one_key_counts_for_each_of_its_signatures() {
    let (sk1, pk1) = keypair(11);
    let msg = "pay 5";
    let mut s = multisig_stack(msg, &[sign(&sk1, msg), sign(&sk1, msg)], 2, &[pk1], 1);
    // m (2) exceeds the number of keys (1): refused before any signature check.
    assert!(!op_multisig(&mut s));
    assert_eq!(s.len(), 4);
    assert!(match_on_multisig_to_pubkey(msg.to_string(), vec![sign(&sk1, msg), sign(&sk1, msg)], vec![pk1], 2));
}

#[test]
fn multisig_too_few_keys() {
    let (sk1, pk1) = keypair(11);
    let msg = "m";
    let mut s = multisig_stack(msg, &[sign(&sk1, msg)], 1, &[pk1], 2);
    assert!(!op_multisig(&mut s));
    // n and the key were popped; m is still there.
    assert_eq!(s.last(), Some(&StackEntry::Num(1)));
    assert_eq!(s.len(), 4);
}

#[test]
fn multisig_m_greater_than_n() {
    let (sk1, pk1) = keypair(11);
    let (_, pk2) = keypair(12);
    let msg = "m";
    let mut s = multisig_stack(msg, &[sign(&sk1, msg)], 2, &[pk1, pk2], 1);
    assert!(!op_multisig(&mut s));
    assert_eq!(s.last(), Some(&StackEntry::Signature(sign(&sk1, msg))));
}

#[test]
fn multisig_zero_required() {
    let (_, pk1) = keypair(11);
    let mut s = multisig_stack("m", &[], 0, &[pk1], 1);
    assert!(op_multisig(&mut s));
    assert_eq!(s, vec![StackEntry::Op(OpCodes::OP_0)]);
}

#[test]
fn enough_matches_counts_successes() {
    assert!(enough_matches(&vec![true, false, true], 2));
    assert!(!enough_matches(&vec![true, false, true], 3));
    assert!(enough_matches(&vec![], 0));
    assert!(!enough_matches(&vec![false, false], 1));
}

#[test]
fn match_on_multisig_with_unknown_key() {
    let (sk1, _) = keypair(21);
    let (_, pk2) = keypair(22);
    assert!(!match_on_multisig_to_pubkey("d".to_string(), vec![sign(&sk1, "d")], vec![pk2], 1));
    assert!(match_on_multisig_to_pubkey("d".to_string(), vec![sign(&sk1, "d")], vec![pk2], 0));
}

#[test]
fn one_of_one_multisig_agrees_with_checksig() {
    let (sk, pk) = keypair(31);
    for (signed, checked) in [("a", "a"), ("a", "b")] {
        let sig = sign(&sk, signed);
        let mut multi = multisig_stack(checked, &[sig], 1, &[pk], 1);
        let mut single = vec![
            StackEntry::Op(OpCodes::OP_0),
            StackEntry::Bytes(checked.to_string()),
            StackEntry::Signature(sig),
            StackEntry::PubKey(pk),
        ];
        assert_eq!(op_multisig(&mut multi), op_checksig(&mut single));
        assert_eq!(multi, single);
    }
}
