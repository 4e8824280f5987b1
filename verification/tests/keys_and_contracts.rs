use std::str::FromStr;

use bdk::bitcoin::{Network, PublicKey};
use bdk::database::MemoryDatabase;
use bdk::Wallet;
use bdk::descriptor::Descriptor;
use joinswap::bytes::{bytes_eq, to_hex};
use joinswap::commitment::{gen_hash, preimage_matches, Commitment};
use joinswap::descriptor::{
    maker2users_contract_desc, users2maker_contract_desc, users2maker_signing_desc,
    PAYOUT_TIMELOCK, REFUND_TIMELOCK,
};
use joinswap::error::Abort;
use joinswap::keys::{
    all_distinct, check_contract_keys, check_prv_keys, count_occurrences, gen_key_pair, nine_keys,
    KeyPair, PrivKey, PubKey,
};
use joinswap::wallet::{get_descriptors, wpkh_descriptor};

const KEY_ONE_WIF: &str = "KwDiBf89QgGbjEhKnhXJuH7LrciVrZi3qYjgd9M7rFU73sVHnoWn";
const KEY_ONE_PUBLIC: &str = "0279be667ef9dcbbac55a06295ce870b07029bfcdb2dce28d959f2815b16f81798";

fn fresh() -> KeyPair {
    gen_key_pair().expect("a key pair")
}

fn public_from_hex(text: &str) -> PubKey {
    PubKey { bytes: PublicKey::from_str(text).unwrap().to_bytes() }
}

fn nine_fresh() -> Vec<KeyPair> {
    (0..9).map(|_| fresh()).collect()
}

fn publics(pairs: &[KeyPair]) -> Vec<PubKey> {
    pairs.iter().map(|p| p.public.clone()).collect()
}

#[test]
fn hex_text_is_lowercase_and_two_digits_per_byte() {
    assert_eq!(to_hex(&[0x00, 0x0f, 0xa0, 0xff, 0x7b]), "000fa0ff7b");
    assert_eq!(to_hex(&[]), "");
}

#[test]
fn bytes_are_compared_by_content() {
    assert!(bytes_eq(&[1, 2, 3], &[1, 2, 3]));
    assert!(!bytes_eq(&[1, 2, 3], &[1, 2, 4]));
    assert!(!bytes_eq(&[1, 2, 3], &[1, 2]));
    assert!(bytes_eq(&[], &[]));
}

#[test]
fn generated_pair_is_compressed_and_consistent() {
    let pair = fresh();
    assert_eq!(pair.public.bytes.len(), 33);
    assert!(pair.public.bytes[0] == 2 || pair.public.bytes[0] == 3);
    assert_eq!(check_prv_keys(&vec![pair.private.clone()], vec![pair.public.clone()]), Ok(()));
}

#[test]
fn generated_pairs_differ() {
    let a = fresh();
    let b = fresh();
    assert_ne!(a.public.bytes, b.public.bytes);
    assert_ne!(a.private.wif, b.private.wif);
}

#[test]
fn private_key_gives_its_known_public_key() {
    let private = PrivKey { wif: KEY_ONE_WIF.to_string() };
    let public = public_from_hex(KEY_ONE_PUBLIC);
    assert_eq!(check_prv_keys(&vec![private], vec![public]), Ok(()));
}

#[test]
fn private_key_of_another_public_key_is_refused() {
    let private = PrivKey { wif: KEY_ONE_WIF.to_string() };
    let other = fresh();
    assert_eq!(check_prv_keys(&vec![private], vec![other.public]), Err(Abort::KeyMismatch));
}

#[test]
fn text_that_is_no_private_key_is_refused() {
    let expected = public_from_hex(KEY_ONE_PUBLIC);
    let not_a_key = PrivKey { wif: KEY_ONE_PUBLIC.to_string() };
    assert_eq!(check_prv_keys(&vec![not_a_key], vec![expected]), Err(Abort::KeyMismatch));
}

#[test]
fn private_key_that_matches_twice_is_refused() {
    let pair = fresh();
    let twice = vec![pair.public.clone(), pair.public.clone()];
    assert_eq!(check_prv_keys(&vec![pair.private], twice), Err(Abort::KeyMismatch));
}

#[test]
fn every_handed_key_must_match() {
    let a = fresh();
    let b = fresh();
    let stranger = fresh();
    let expected = vec![a.public.clone(), b.public.clone()];
    assert_eq!(
        check_prv_keys(&vec![a.private.clone(), b.private.clone()], expected.clone()),
        Ok(())
    );
    assert_eq!(
        check_prv_keys(&vec![a.private.clone(), stranger.private], expected.clone()),
        Err(Abort::KeyMismatch)
    );
    assert_eq!(check_prv_keys(&vec![], expected), Ok(()));
}

#[test]
fn occurrences_are_counted() {
    let a = fresh().public;
    let b = fresh().public;
    let keys = vec![a.clone(), b.clone(), a.clone()];
    assert_eq!(count_occurrences(&keys, &a), 2);
    assert_eq!(count_occurrences(&keys, &b), 1);
    assert_eq!(count_occurrences(&keys, &fresh().public), 0);
    assert!(!all_distinct(&keys));
    assert!(all_distinct(&keys[..2]));
}

#[test]
fn contract_keys_pass_when_distinct_and_in_their_paths() {
    let pairs = nine_fresh();
    let keys = nine_keys(&publics(&pairs)).unwrap();
    assert_eq!(
        check_contract_keys(&keys, &pairs[0].public, &pairs[3].public, &pairs[6].public),
        Ok(())
    );
    assert_eq!(
        check_contract_keys(&keys, &pairs[1].public, &pairs[4].public, &pairs[8].public),
        Ok(())
    );
}

#[test]
fn contract_key_in_the_wrong_path_is_refused() {
    let pairs = nine_fresh();
    let keys = nine_keys(&publics(&pairs)).unwrap();
    assert_eq!(
        check_contract_keys(&keys, &pairs[3].public, &pairs[0].public, &pairs[6].public),
        Err(Abort::KeyNotInPath)
    );
    let stranger = fresh();
    assert_eq!(
        check_contract_keys(&keys, &pairs[0].public, &pairs[3].public, &stranger.public),
        Err(Abort::KeyNotInPath)
    );
}

#[test]
fn duplicate_contract_keys_are_refused() {
    let pairs = nine_fresh();
    let mut list = publics(&pairs);
    list[7] = list[1].clone();
    let keys = nine_keys(&list).unwrap();
    assert_eq!(
        check_contract_keys(&keys, &pairs[0].public, &pairs[3].public, &pairs[6].public),
        Err(Abort::DuplicateKeys)
    );
}

#[test]
fn sha256_of_a_known_preimage() {
    let digest_of_zeros = [
        0x66, 0x68, 0x7a, 0xad, 0xf8, 0x62, 0xbd, 0x77, 0x6c, 0x8f, 0xc1, 0x8b, 0x8e, 0x9f, 0x8e,
        0x20, 0x08, 0x97, 0x14, 0x85, 0x6e, 0xe2, 0x33, 0xb3, 0x90, 0x2a, 0x59, 0x1d, 0x0d, 0x5f,
        0x29, 0x25,
    ];
    assert!(preimage_matches(&[0u8; 32], &digest_of_zeros));
    assert!(!preimage_matches(&[1u8; 32], &digest_of_zeros));
    assert!(!preimage_matches(&[0u8; 32], &[0u8; 32]));
}

#[test]
fn generated_secret_opens_its_hash() {
    let (preimage, hash) = gen_hash();
    assert!(preimage_matches(&preimage, &hash));
    let (other, other_hash) = gen_hash();
    assert_ne!(preimage, other);
    assert!(!preimage_matches(&preimage, &other_hash));
}

#[test]
fn commitment_takes_only_its_preimage() {
    let (preimage, hash) = gen_hash();
    let committed = Commitment::committed(hash);
    assert_eq!(committed.hash(), hash);
    assert_eq!(committed.preimage(), None);
    assert_eq!(committed.accept_preimage([7u8; 32]), Err(Abort::PreimageMismatch));
    let revealed = committed.accept_preimage(preimage).unwrap();
    assert_eq!(revealed, Commitment::Revealed { hash, preimage });
    assert_eq!(revealed.preimage(), Some(preimage));
    assert_eq!(revealed.hash(), hash);
    assert_eq!(Commitment::from_preimage(preimage), revealed);
}

#[test]
fn users_to_maker_descriptor_text() {
    let pairs = nine_fresh();
    let keys = nine_keys(&publics(&pairs)).unwrap();
    let hash = [0xabu8; 32];
    let k: Vec<String> = keys.iter().map(|key| to_hex(&key.bytes)).collect();
    let expected = format!(
        "wsh(thresh(1,multi(3,{},{},{}),anj:and_v(v:multi(3,{},{},{}),older(48)),aj:and_v(v:multi(3,{},{},{}),sha256({}))))",
        k[0], k[1], k[2], k[3], k[4], k[5], k[6], k[7], k[8], "ab".repeat(32)
    );
    let text = users2maker_contract_desc(&keys, &hash);
    assert_eq!(text, expected);
    let parsed = Descriptor::<PublicKey>::from_str(&text).unwrap();
    assert!(parsed.sanity_check().is_ok());
    assert_eq!(REFUND_TIMELOCK, 48);
}

#[test]
fn maker_to_user_descriptor_text() {
    let user_multisig = fresh().public;
    let maker_multisig = fresh().public;
    let timelock = fresh().public;
    let hashlock = fresh().public;
    let hash = [0x01u8; 32];
    let expected = format!(
        "wsh(thresh(1,multi(2,{},{}),snj:and_v(v:pk({}),older(69)),aj:and_v(v:pk({}),sha256({}))))",
        to_hex(&user_multisig.bytes),
        to_hex(&maker_multisig.bytes),
        to_hex(&timelock.bytes),
        to_hex(&hashlock.bytes),
        "01".repeat(32)
    );
    let text = maker2users_contract_desc(
        &[user_multisig, maker_multisig],
        &timelock,
        &hashlock,
        &hash,
    );
    assert_eq!(text, expected);
    assert!(Descriptor::<PublicKey>::from_str(&text).is_ok());
    assert_eq!(PAYOUT_TIMELOCK, 69);
}

#[test]
fn signing_descriptor_shows_own_private_keys_only() {
    let pairs = nine_fresh();
    let keys = nine_keys(&publics(&pairs)).unwrap();
    let hash = [0x22u8; 32];
    let own = vec![pairs[2].clone(), pairs[5].clone(), pairs[8].clone()];
    let public_text = users2maker_contract_desc(&keys, &hash);
    let expected = public_text
        .replace(&to_hex(&pairs[2].public.bytes), &pairs[2].private.wif)
        .replace(&to_hex(&pairs[5].public.bytes), &pairs[5].private.wif)
        .replace(&to_hex(&pairs[8].public.bytes), &pairs[8].private.wif);
    assert_eq!(users2maker_signing_desc(&keys, &hash, &own), expected);
    assert_eq!(users2maker_signing_desc(&keys, &hash, &[]), public_text);
}

#[test]
fn wallet_descriptor_wraps_the_key() {
    assert_eq!(wpkh_descriptor("abc"), "wpkh(abc)");
    assert_eq!(wpkh_descriptor(""), "wpkh()");
}

#[test]
fn fresh_wallet_descriptor_is_a_descriptor() {
    let descriptor = get_descriptors().unwrap();
    assert!(descriptor.starts_with("wpkh(["));
    assert!(descriptor.contains("/84'/1'/0'/0]tprv"));
    assert!(descriptor.ends_with("/*)"));
    assert_ne!(get_descriptors().unwrap(), descriptor);
    let wallet = Wallet::new(&descriptor, None, Network::Regtest, MemoryDatabase::new());
    assert!(wallet.is_ok());
}

#[test]
fn only_nine_keys_make_a_contract() {
    let pairs = nine_fresh();
    let list = publics(&pairs);
    assert_eq!(nine_keys(&list).unwrap().to_vec(), list);
    assert_eq!(nine_keys(&list[..8].to_vec()), None);
    assert_eq!(nine_keys(&vec![]), None);
    let mut ten = list.clone();
    ten.push(fresh().public);
    assert_eq!(nine_keys(&ten), None);
}
