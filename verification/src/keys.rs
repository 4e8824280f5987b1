//! Participant identities: public keys, private keys, and the checks that tie a
//! handed-over private key to the public key it was expected for.

use crate::bytes::bytes_eq;
use crate::error::Abort;
use bdk::bitcoin::secp256k1::Secp256k1;
use bdk::bitcoin::{PrivateKey, PublicKey};
use bdk::descriptor::Segwitv0;
use bdk::keys::{GeneratableKey, GeneratedKey, PrivateKeyGenerateOptions};
use std::str::FromStr;
use vstd::prelude::*;
use vstd::slice::slice_subrange;

verus! {

/// A public key, held as its serialized bytes: 33 bytes when compressed, 65 when not.
/// Two keys are the same key exactly when their bytes are equal.
#[derive(Debug, PartialEq, Eq)]
pub struct PubKey {
    pub bytes: Vec<u8>,
}

impl View for PubKey {
    type V = Seq<u8>;

    open spec fn view(&self) -> Seq<u8> {
        self.bytes@
    }
}

impl DeepView for PubKey {
    type V = Seq<u8>;

    open spec fn deep_view(&self) -> Seq<u8> {
        self.bytes@
    }
}

impl Clone for PubKey {
    fn clone(&self) -> (copy: Self)
        ensures
            copy@ == self@,
    {
        let bytes = self.bytes.clone();
        assert(bytes@ =~= self.bytes@);
        PubKey { bytes }
    }
}

impl PubKey {
    /// Whether `self` and `other` are the same key.
    pub fn same_as(&self, other: &PubKey) -> (same: bool)
        ensures
            same == (self@ == other@),
    {
        bytes_eq(self.bytes.as_slice(), other.bytes.as_slice())
    }
}

/// A private key, held as its text in wallet import format.
#[derive(Debug, PartialEq, Eq)]
pub struct PrivKey {
    pub wif: String,
}

impl View for PrivKey {
    type V = Seq<char>;

    open spec fn view(&self) -> Seq<char> {
        self.wif@
    }
}

impl DeepView for PrivKey {
    type V = Seq<char>;

    open spec fn deep_view(&self) -> Seq<char> {
        self.wif@
    }
}

impl Clone for PrivKey {
    fn clone(&self) -> (copy: Self)
        ensures
            copy@ == self@,
    {
        PrivKey { wif: self.wif.clone() }
    }
}

/// A private key together with its public key.
#[derive(Debug, PartialEq, Eq)]
pub struct KeyPair {
    pub private: PrivKey,
    pub public: PubKey,
}

impl DeepView for KeyPair {
    type V = (Seq<char>, Seq<u8>);

    open spec fn deep_view(&self) -> (Seq<char>, Seq<u8>) {
        (self.private@, self.public@)
    }
}

impl KeyPair {
    /// The public key is the one that the private key derives.
    pub open spec fn consistent(&self) -> bool {
        derived_public_key(self.private@) == Some(self.public@)
    }
}

impl Clone for KeyPair {
    fn clone(&self) -> (copy: Self)
        ensures
            copy.private@ == self.private@,
            copy.public@ == self.public@,
    {
        KeyPair { private: self.private.clone(), public: self.public.clone() }
    }
}

/// The serialized public key that a text denotes, if it denotes one.
pub uninterp spec fn parsed_public_key(text: Seq<char>) -> Option<Seq<u8>>;

/// The serialized public key of the private key that a text in wallet import format
/// denotes, if it denotes one.
pub uninterp spec fn derived_public_key(wif: Seq<char>) -> Option<Seq<u8>>;

/// Parses a public key with `PublicKey::from_str` of the bitcoin library and serializes
/// it with `PublicKey::to_bytes`. Trusted: the outcome is a function of the text alone.
#[verifier::external_body]
pub(crate) fn parse_public_key(text: &str) -> (key: Option<PubKey>)
    ensures
        key.deep_view() == parsed_public_key(text@),
{
    PublicKey::from_str(text).ok().map(|k| PubKey { bytes: k.to_bytes() })
}

/// Parses a private key with `PrivateKey::from_wif`, derives its public key with
/// `PrivateKey::public_key` and serializes that with `PublicKey::to_bytes`, all of the
/// bitcoin library. Trusted: the outcome is a function of the text alone.
#[verifier::external_body]
pub(crate) fn derive_public_key(key: &PrivKey) -> (public: Option<PubKey>)
    ensures
        public.deep_view() == derived_public_key(key@),
{
    PrivateKey::from_wif(&key.wif).ok().map(
        |k| PubKey { bytes: k.public_key(&Secp256k1::new()).to_bytes() },
    )
}

/// Generates a fresh compressed key pair with `PrivateKey::generate` of the wallet
/// library. Trusted: whatever key was drawn, the public key returned is the one derived
/// from the private key returned. `None` when the random bytes drawn are no valid key.
#[verifier::external_body]
pub fn gen_key_pair() -> (pair: Option<KeyPair>)
    ensures
        pair matches Some(p) ==> p.consistent(),
{
    let options = PrivateKeyGenerateOptions::default();
    let key: GeneratedKey<PrivateKey, Segwitv0> = PrivateKey::generate(options).ok()?;
    let public = key.public_key(&Secp256k1::new()).to_bytes();
    Some(KeyPair { private: PrivKey { wif: key.into_key().to_wif() }, public: PubKey { bytes: public } })
}

/// How many keys of `keys` equal `key`.
pub open spec fn occurrences(keys: Seq<Seq<u8>>, key: Seq<u8>) -> nat
    decreases keys.len(),
{
    if keys.len() == 0 {
        0
    } else {
        occurrences(keys.drop_last(), key) + if keys.last() == key { 1nat } else { 0nat }
    }
}

/// No two keys of `keys` are equal.
pub open spec fn pairwise_distinct(keys: Seq<Seq<u8>>) -> bool {
    forall|i: int, j: int| 0 <= i < j < keys.len() ==> keys[i] != keys[j]
}

/// Counts the keys of `keys` that equal `key`.
pub fn count_occurrences(keys: &[PubKey], key: &PubKey) -> (n: usize)
    ensures
        n == occurrences(keys.deep_view(), key@),
        n <= keys.len(),
{
    let mut n: usize = 0;
    let mut i: usize = 0;
    while i < keys.len()
        invariant
            i <= keys.len(),
            n <= i,
            n == occurrences(keys.deep_view().take(i as int), key@),
        decreases keys.len() - i,
    {
        proof {
            let next = keys.deep_view().take(i + 1);
            assert(next.drop_last() =~= keys.deep_view().take(i as int));
            assert(next.last() == keys[i as int]@);
        }
        if keys[i].same_as(key) {
            n += 1;
        }
        i += 1;
    }
    assert(keys.deep_view().take(keys.len() as int) =~= keys.deep_view());
    n
}

/// Whether no two keys of `keys` are equal.
pub fn all_distinct(keys: &[PubKey]) -> (distinct: bool)
    ensures
        distinct == pairwise_distinct(keys.deep_view()),
{
    let mut j: usize = 0;
    while j < keys.len()
        invariant
            j <= keys.len(),
            forall|a: int, b: int| 0 <= a < b < j ==> keys.deep_view()[a] != keys.deep_view()[b],
        decreases keys.len() - j,
    {
        let mut i: usize = 0;
        while i < j
            invariant
                i <= j < keys.len(),
                forall|a: int| 0 <= a < i ==> keys.deep_view()[a] != keys.deep_view()[j as int],
            decreases j - i,
        {
            if keys[i].same_as(&keys[j]) {
                assert(keys.deep_view()[i as int] == keys.deep_view()[j as int]);
                return false;
            }
            i += 1;
        }
        j += 1;
    }
    true
}

/// The public key derived from the private key `wif` occurs exactly once in `expected`.
pub open spec fn key_accepted(wif: Seq<char>, expected: Seq<Seq<u8>>) -> bool {
    derived_public_key(wif) matches Some(public) && occurrences(expected, public) == 1
}

/// Checks that each handed-over private key belongs to exactly one of the public keys
/// in `match_against`. A key that belongs to none of them ends the session.
pub fn check_prv_keys(prv_keys: &Vec<PrivKey>, match_against: Vec<PubKey>) -> (checked: Result<(), Abort>)
    ensures
        checked is Ok <==> forall|i: int|
            0 <= i < prv_keys.len() ==> key_accepted(
                #[trigger] prv_keys[i]@,
                match_against.deep_view(),
            ),
        checked is Err ==> checked == Err::<(), Abort>(Abort::KeyMismatch),
{
    let mut i: usize = 0;
    while i < prv_keys.len()
        invariant
            i <= prv_keys.len(),
            forall|j: int|
                0 <= j < i ==> key_accepted(#[trigger] prv_keys[j]@, match_against.deep_view()),
        decreases prv_keys.len() - i,
    {
        let accepted = match derive_public_key(&prv_keys[i]) {
            Some(public) => {
                let expected = match_against.as_slice();
                assert(expected.deep_view() =~= match_against.deep_view());
                count_occurrences(expected, &public) == 1
            },
            None => false,
        };
        if !accepted {
            return Err(Abort::KeyMismatch);
        }
        i += 1;
    }
    Ok(())
}

/// The three keys of spending path `path` (0, 1 or 2) of a users-to-maker contract.
pub open spec fn path_keys(keys: Seq<Seq<u8>>, path: int) -> Seq<Seq<u8>> {
    keys.subrange(3 * path, 3 * path + 3)
}

/// The keys of a users-to-maker contract are pairwise distinct, and the caller's three
/// keys occur exactly once each in the spending path they were made for.
pub open spec fn contract_keys_valid(
    keys: Seq<Seq<u8>>,
    my_key1: Seq<u8>,
    my_key2: Seq<u8>,
    my_key3: Seq<u8>,
) -> bool {
    &&& keys.len() == 9
    &&& pairwise_distinct(keys)
    &&& occurrences(path_keys(keys, 0), my_key1) == 1
    &&& occurrences(path_keys(keys, 1), my_key2) == 1
    &&& occurrences(path_keys(keys, 2), my_key3) == 1
}

/// Checks that all contract keys are different and that the caller's key of each
/// spending path occurs exactly once among the three keys of that path.
pub fn check_contract_keys(
    keys: &[PubKey; 9],
    my_key1: &PubKey,
    my_key2: &PubKey,
    my_key3: &PubKey,
) -> (checked: Result<(), Abort>)
    ensures
        checked is Ok <==> contract_keys_valid(keys.deep_view(), my_key1@, my_key2@, my_key3@),
        checked == Err::<(), Abort>(Abort::DuplicateKeys) <==> !pairwise_distinct(keys.deep_view()),
        checked is Err ==> checked == Err::<(), Abort>(Abort::DuplicateKeys) || checked == Err::<
            (),
            Abort,
        >(Abort::KeyNotInPath),
{
    let all = keys.as_slice();
    assert(all.deep_view() =~= keys.deep_view());
    if !all_distinct(all) {
        return Err(Abort::DuplicateKeys);
    }
    let first = slice_subrange(all, 0, 3);
    let second = slice_subrange(all, 3, 6);
    let third = slice_subrange(all, 6, 9);
    assert(first.deep_view() =~= path_keys(keys.deep_view(), 0));
    assert(second.deep_view() =~= path_keys(keys.deep_view(), 1));
    assert(third.deep_view() =~= path_keys(keys.deep_view(), 2));
    if count_occurrences(first, my_key1) == 1 && count_occurrences(second, my_key2) == 1
        && count_occurrences(third, my_key3) == 1 {
        Ok(())
    } else {
        Err(Abort::KeyNotInPath)
    }
}

/// The keys of a list as the array that a users-to-maker contract takes, if they are nine.
pub fn nine_keys(keys: &Vec<PubKey>) -> (array: Option<[PubKey; 9]>)
    ensures
        match array {
            Some(nine) => nine.deep_view() == keys.deep_view(),
            None => keys.len() != 9,
        },
{
    if keys.len() != 9 {
        return None;
    }
    let nine = [
        keys[0].clone(),
        keys[1].clone(),
        keys[2].clone(),
        keys[3].clone(),
        keys[4].clone(),
        keys[5].clone(),
        keys[6].clone(),
        keys[7].clone(),
        keys[8].clone(),
    ];
    assert(nine.deep_view() =~= keys.deep_view());
    Some(nine)
}

/// A key that occurs in a list stands at some place of it.
pub proof fn lemma_occurring_key_has_place(keys: Seq<Seq<u8>>, key: Seq<u8>)
    requires
        occurrences(keys, key) > 0,
    ensures
        exists|i: int| 0 <= i < keys.len() && keys[i] == key,
    decreases keys.len(),
{
    if keys.last() == key {
        assert(keys[keys.len() - 1] == key);
    } else {
        lemma_occurring_key_has_place(keys.drop_last(), key);
        let i = choose|i: int| 0 <= i < keys.drop_last().len() && keys.drop_last()[i] == key;
        assert(keys[i] == key);
    }
}

/// A key that stands at no place of a list does not occur in it.
pub proof fn lemma_absent_key_occurs_never(keys: Seq<Seq<u8>>, key: Seq<u8>)
    requires
        forall|i: int| 0 <= i < keys.len() ==> keys[i] != key,
    ensures
        occurrences(keys, key) == 0,
    decreases keys.len(),
{
    if keys.len() > 0 {
        assert(keys.last() == keys[keys.len() - 1]);
        lemma_absent_key_occurs_never(keys.drop_last(), key);
    }
}

/// The occurrences in a list are those in its front and those in its back.
pub proof fn lemma_occurrences_add_up(front: Seq<Seq<u8>>, back: Seq<Seq<u8>>, key: Seq<u8>)
    ensures
        occurrences(front + back, key) == occurrences(front, key) + occurrences(back, key),
    decreases back.len(),
{
    if back.len() == 0 {
        assert(front + back =~= front);
    } else {
        assert((front + back).drop_last() =~= front + back.drop_last());
        assert((front + back).last() == back.last());
        lemma_occurrences_add_up(front, back.drop_last(), key);
    }
}

/// In a contract whose keys passed the check no key occurs twice, and each of the
/// caller's keys occurs in exactly one spending path: once in its own and in no other.
pub proof fn lemma_checked_keys_occur_once(
    keys: Seq<Seq<u8>>,
    my_key1: Seq<u8>,
    my_key2: Seq<u8>,
    my_key3: Seq<u8>,
)
    requires
        contract_keys_valid(keys, my_key1, my_key2, my_key3),
    ensures
        forall|i: int, j: int| 0 <= i < j < 9 ==> keys[i] != keys[j],
        occurrences(keys, my_key1) == 1,
        occurrences(keys, my_key2) == 1,
        occurrences(keys, my_key3) == 1,
        occurrences(path_keys(keys, 1), my_key1) == 0 && occurrences(path_keys(keys, 2), my_key1)
            == 0,
        occurrences(path_keys(keys, 0), my_key2) == 0 && occurrences(path_keys(keys, 2), my_key2)
            == 0,
        occurrences(path_keys(keys, 0), my_key3) == 0 && occurrences(path_keys(keys, 1), my_key3)
            == 0,
{
    lemma_key_of_one_path(keys, 0, my_key1);
    lemma_key_of_one_path(keys, 1, my_key2);
    lemma_key_of_one_path(keys, 2, my_key3);
}

/// A key that occurs in one path of nine distinct keys occurs in no other path, and as
/// often among all nine as in its path.
pub proof fn lemma_key_of_one_path(keys: Seq<Seq<u8>>, path: int, key: Seq<u8>)
    requires
        keys.len() == 9,
        pairwise_distinct(keys),
        0 <= path < 3,
        occurrences(path_keys(keys, path), key) > 0,
    ensures
        forall|other: int|
            0 <= other < 3 && other != path ==> occurrences(#[trigger] path_keys(keys, other), key)
                == 0,
        occurrences(keys, key) == occurrences(path_keys(keys, path), key),
{
    lemma_occurring_key_has_place(path_keys(keys, path), key);
    let at = choose|i: int| 0 <= i < 3 && path_keys(keys, path)[i] == key;
    assert(keys[3 * path + at] == key);
    assert forall|other: int| 0 <= other < 3 && other != path implies occurrences(
        #[trigger] path_keys(keys, other),
        key,
    ) == 0 by {
        assert forall|i: int| 0 <= i < 3 implies path_keys(keys, other)[i] != key by {
            assert(path_keys(keys, other)[i] == keys[3 * other + i]);
            if 3 * other + i < 3 * path + at {
                assert(keys[3 * other + i] != keys[3 * path + at]);
            } else {
                assert(keys[3 * path + at] != keys[3 * other + i]);
            }
        }
        lemma_absent_key_occurs_never(path_keys(keys, other), key);
    }
    lemma_occurrences_add_up(path_keys(keys, 0), path_keys(keys, 1), key);
    lemma_occurrences_add_up(path_keys(keys, 0) + path_keys(keys, 1), path_keys(keys, 2), key);
    assert(path_keys(keys, 0) + path_keys(keys, 1) + path_keys(keys, 2) =~= keys);
    assert(occurrences(path_keys(keys, 0), key) == 0 || path == 0);
    assert(occurrences(path_keys(keys, 1), key) == 0 || path == 1);
    assert(occurrences(path_keys(keys, 2), key) == 0 || path == 2);
}

} // verus!
