//! The two contract shapes of a swap, written as script descriptors.
//!
//! The users-to-maker contract offers three spending paths, each a 3-of-3 multisig of
//! user A, user B and the maker: at once, after a relative timelock, and upon the
//! commitment preimage. The maker-to-user contract offers a 2-of-2 multisig at once,
//! the maker's key after a relative timelock, and the user's key upon the preimage.

use crate::bytes::{hex_text, push_hex, to_hex};
use crate::keys::{KeyPair, PubKey};
use bdk::bitcoin::PublicKey;
use bdk::descriptor::Descriptor;
use std::str::FromStr;
use vstd::prelude::*;

verus! {

/// Blocks that must pass before the users' refund can be spent.
pub const REFUND_TIMELOCK: u32 = 48;

/// Blocks that must pass before the maker can take back what it paid into a second contract.
pub const PAYOUT_TIMELOCK: u32 = 69;

/// The users-to-maker descriptor over nine key texts and the text of the hash. The
/// texts stand in path order: the three of the cooperative path, the three of the
/// timelock path, the three of the hashlock path.
pub open spec fn users2maker_text(keys: Seq<Seq<char>>, hash: Seq<char>) -> Seq<char> {
    "wsh(thresh(1,multi(3,"@ + keys[0] + ","@ + keys[1] + ","@ + keys[2]
        + "),anj:and_v(v:multi(3,"@ + keys[3] + ","@ + keys[4] + ","@ + keys[5]
        + "),older(48)),aj:and_v(v:multi(3,"@ + keys[6] + ","@ + keys[7] + ","@ + keys[8]
        + "),sha256("@ + hash + "))))"@
}

/// The maker-to-user descriptor over the texts of its four keys and of the hash.
pub open spec fn maker2users_text(
    multisig0: Seq<char>,
    multisig1: Seq<char>,
    timelock: Seq<char>,
    hashlock: Seq<char>,
    hash: Seq<char>,
) -> Seq<char> {
    "wsh(thresh(1,multi(2,"@ + multisig0 + ","@ + multisig1 + "),snj:and_v(v:pk("@ + timelock
        + "),older(69)),aj:and_v(v:pk("@ + hashlock + "),sha256("@ + hash + "))))"@
}

/// The hexadecimal texts of a list of keys.
pub open spec fn key_texts(keys: Seq<Seq<u8>>) -> Seq<Seq<char>> {
    Seq::new(keys.len(), |i: int| hex_text(keys[i]))
}

fn assemble_users2maker(keys: &Vec<String>, hash: &[u8; 32]) -> (text: String)
    requires
        keys.len() == 9,
    ensures
        text@ == users2maker_text(keys.deep_view(), hex_text(hash@)),
{
    let mut text = String::new();
    text.append("wsh(thresh(1,multi(3,");
    assert(text@ =~= "wsh(thresh(1,multi(3,"@);
    text.append(keys[0].as_str());
    text.append(",");
    text.append(keys[1].as_str());
    text.append(",");
    text.append(keys[2].as_str());
    text.append("),anj:and_v(v:multi(3,");
    text.append(keys[3].as_str());
    text.append(",");
    text.append(keys[4].as_str());
    text.append(",");
    text.append(keys[5].as_str());
    text.append("),older(48)),aj:and_v(v:multi(3,");
    text.append(keys[6].as_str());
    text.append(",");
    text.append(keys[7].as_str());
    text.append(",");
    text.append(keys[8].as_str());
    text.append("),sha256(");
    push_hex(&mut text, hash.as_slice());
    text.append("))))");
    text
}

/// The descriptor of the users-to-maker contract. Each triplet of keys holds the keys
/// of user A, user B and the maker for one spending path.
pub fn users2maker_contract_desc(keys: &[PubKey; 9], hash: &[u8; 32]) -> (text: String)
    ensures
        text@ == users2maker_text(key_texts(keys.deep_view()), hex_text(hash@)),
{
    let mut texts: Vec<String> = Vec::new();
    let mut i: usize = 0;
    while i < 9
        invariant
            i <= 9,
            texts.len() == i,
            forall|j: int| 0 <= j < i ==> texts[j]@ == hex_text(keys[j]@),
        decreases 9 - i,
    {
        texts.push(to_hex(keys[i].bytes.as_slice()));
        i += 1;
    }
    assert(texts.deep_view() =~= key_texts(keys.deep_view()));
    assemble_users2maker(&texts, hash)
}

/// The text that stands for `key` where the holder of `own` signs: the private key of
/// the first pair of `own` whose public key is `key`, and the key's own text if there
/// is none.
pub open spec fn signing_text(key: Seq<u8>, own: Seq<(Seq<char>, Seq<u8>)>) -> Seq<char>
    decreases own.len(),
{
    if own.len() == 0 {
        hex_text(key)
    } else if own[0].1 == key {
        own[0].0
    } else {
        signing_text(key, own.drop_first())
    }
}

fn signing_key_text(key: &PubKey, own: &[KeyPair]) -> (text: String)
    ensures
        text@ == signing_text(key@, own.deep_view()),
{
    let mut i: usize = 0;
    assert(own.deep_view().skip(0) =~= own.deep_view());
    while i < own.len()
        invariant
            i <= own.len(),
            signing_text(key@, own.deep_view()) == signing_text(key@, own.deep_view().skip(i as int)),
        decreases own.len() - i,
    {
        let ghost rest = own.deep_view().skip(i as int);
        assert(rest[0] == (own[i as int].private@, own[i as int].public@));
        assert(rest.drop_first() =~= own.deep_view().skip(i + 1));
        if own[i].public.same_as(key) {
            return own[i].private.wif.clone();
        }
        i += 1;
    }
    to_hex(key.bytes.as_slice())
}

/// The signing texts of a list of keys.
pub open spec fn signing_texts(keys: Seq<Seq<u8>>, own: Seq<(Seq<char>, Seq<u8>)>) -> Seq<Seq<char>> {
    Seq::new(keys.len(), |i: int| signing_text(keys[i], own))
}

/// The users-to-maker descriptor with which the holder of `own` signs: as
/// `users2maker_contract_desc`, but with the private key in place of every key that is
/// the public key of a pair of `own`.
pub fn users2maker_signing_desc(keys: &[PubKey; 9], hash: &[u8; 32], own: &[KeyPair]) -> (text:
    String)
    ensures
        text@ == users2maker_text(signing_texts(keys.deep_view(), own.deep_view()), hex_text(hash@)),
{
    let mut texts: Vec<String> = Vec::new();
    let mut i: usize = 0;
    while i < 9
        invariant
            i <= 9,
            texts.len() == i,
            forall|j: int| 0 <= j < i ==> texts[j]@ == signing_text(keys[j]@, own.deep_view()),
        decreases 9 - i,
    {
        texts.push(signing_key_text(&keys[i], own));
        i += 1;
    }
    assert(texts.deep_view() =~= signing_texts(keys.deep_view(), own.deep_view()));
    assemble_users2maker(&texts, hash)
}

/// The descriptor of a maker-to-user contract. The multisig keys are the user's and
/// the maker's, the timelock key is the maker's, the hashlock key is the user's.
pub fn maker2users_contract_desc(
    multisig_keys: &[PubKey; 2],
    timelock_key: &PubKey,
    hashlock_key: &PubKey,
    hash: &[u8; 32],
) -> (text: String)
    ensures
        text@ == maker2users_text(
            hex_text(multisig_keys[0]@),
            hex_text(multisig_keys[1]@),
            hex_text(timelock_key@),
            hex_text(hashlock_key@),
            hex_text(hash@),
        ),
{
    let mut text = String::new();
    text.append("wsh(thresh(1,multi(2,");
    assert(text@ =~= "wsh(thresh(1,multi(2,"@);
    push_hex(&mut text, multisig_keys[0].bytes.as_slice());
    text.append(",");
    push_hex(&mut text, multisig_keys[1].bytes.as_slice());
    text.append("),snj:and_v(v:pk(");
    push_hex(&mut text, timelock_key.bytes.as_slice());
    text.append("),older(69)),aj:and_v(v:pk(");
    push_hex(&mut text, hashlock_key.bytes.as_slice());
    text.append("),sha256(");
    push_hex(&mut text, hash.as_slice());
    text.append("))))");
    text
}

/// The output script that a descriptor text compiles to, if it is a descriptor.
pub uninterp spec fn compiled_script(descriptor: Seq<char>) -> Option<Seq<u8>>;

/// Whether a descriptor text is a descriptor that passes the script library's sanity check.
pub uninterp spec fn passes_sanity_check(descriptor: Seq<char>) -> bool;

/// Parses a descriptor with `Descriptor::<PublicKey>::from_str` and compiles it with
/// `Descriptor::script_pubkey`, both of the miniscript library. Trusted: the outcome is a
/// function of the text alone.
#[verifier::external_body]
pub(crate) fn descriptor_script(descriptor: &str) -> (script: Option<Vec<u8>>)
    ensures
        script.deep_view() == compiled_script(descriptor@),
{
    Descriptor::<PublicKey>::from_str(descriptor).ok().map(|d| d.script_pubkey().to_bytes())
}

/// Parses a descriptor with `Descriptor::<PublicKey>::from_str` and runs
/// `Descriptor::sanity_check` of the miniscript library on it. Trusted: the outcome is a
/// function of the text alone.
#[verifier::external_body]
pub(crate) fn descriptor_is_sane(descriptor: &str) -> (sane: bool)
    ensures
        sane == passes_sanity_check(descriptor@),
{
    Descriptor::<PublicKey>::from_str(descriptor).map_or(false, |d| d.sanity_check().is_ok())
}

} // verus!
