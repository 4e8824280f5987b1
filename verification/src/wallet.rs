//! The descriptor of a participant's own wallet, derived from a fresh mnemonic.

use bdk::bitcoin::secp256k1::Secp256k1;
use bdk::bitcoin::util::bip32::DerivationPath;
use bdk::bitcoin::Network;
use bdk::descriptor::Segwitv0;
use bdk::keys::bip39::{Language, Mnemonic, WordCount};
use bdk::keys::{DerivableKey, DescriptorKey, ExtendedKey, GeneratableKey, GeneratedKey};
use std::str::FromStr;
use vstd::prelude::*;

verus! {

/// The longest derivation path that is handed to the wallet library. A path of so few
/// characters has fewer steps than a key can be deep.
pub const MAX_PATH_LENGTH: usize = 64;

/// Draws a mnemonic of twelve English words with `Mnemonic::generate` of the wallet
/// library, turns it, with the passphrase, into a master key for the regression test
/// network, derives the child key at `path` with `ExtendedPrivKey::derive_priv` of the
/// bitcoin library and writes it as a descriptor key with the master's fingerprint and
/// the path as its origin, through `DerivableKey::into_descriptor_key`. The master key is
/// fresh, so the derivation starts at depth 0. Nothing is promised of the key.
#[verifier::external_body]
pub(crate) fn generate_descriptor_key(passphrase: &str, path: &str) -> (key: Option<String>)
    requires
        path@.len() <= MAX_PATH_LENGTH,
{
    let secp = Secp256k1::new();
    let words = (WordCount::Words12, Language::English);
    let mnemonic: GeneratedKey<Mnemonic, Segwitv0> = Mnemonic::generate(words).ok()?;
    let phrase = Some(passphrase.to_string());
    let xkey: ExtendedKey = (mnemonic.into_key(), phrase).into_extended_key().ok()?;
    let xprv = xkey.into_xprv(Network::Regtest)?;
    let path = DerivationPath::from_str(path).ok()?;
    let derived = xprv.derive_priv(&secp, &path).ok()?;
    let origin = Some((xprv.fingerprint(&secp), path));
    match derived.into_descriptor_key(origin, DerivationPath::default()).ok()? {
        DescriptorKey::<Segwitv0>::Secret(secret, ..) => Some(secret.to_string()),
        DescriptorKey::Public(..) => None,
    }
}

/// The descriptor that pays to the hash of one key.
pub open spec fn wpkh_text(key: Seq<char>) -> Seq<char> {
    "wpkh("@ + key + ")"@
}

/// Wraps a key into the descriptor that pays to its hash.
pub fn wpkh_descriptor(key: &str) -> (descriptor: String)
    ensures
        descriptor@ == wpkh_text(key@),
{
    let mut descriptor = String::new();
    descriptor.append("wpkh(");
    assert(descriptor@ =~= "wpkh("@);
    descriptor.append(key);
    descriptor.append(")");
    descriptor
}

/// Makes a fresh wallet and returns the descriptor of its receiving addresses: the
/// key that the wallet derives for them, wrapped to pay to its hash.
pub fn get_descriptors() -> (descriptor: Option<String>)
    ensures
        descriptor matches Some(d) ==> exists|key: Seq<char>| d@ == #[trigger] wpkh_text(key),
{
    proof {
        reveal_strlit("m/84h/1h/0h/0");
    }
    let key = generate_descriptor_key("watafak", "m/84h/1h/0h/0")?;
    let descriptor = wpkh_descriptor(key.as_str());
    assert(descriptor@ == wpkh_text(key@));
    Some(descriptor)
}

} // verus!
