//! Addresses, read for the script that they pay to.

use bdk::bitcoin::Address;
use std::str::FromStr;
use vstd::prelude::*;

verus! {

/// The output script that an address text pays to, if it is an address.
pub uninterp spec fn address_script_of(address: Seq<char>) -> Option<Seq<u8>>;

/// Parses an address with `Address::from_str` and takes its script with
/// `Address::script_pubkey`, both of the bitcoin library. Trusted: the outcome is a
/// function of the text alone.
#[verifier::external_body]
pub(crate) fn address_script(address: &str) -> (script: Option<Vec<u8>>)
    ensures
        script.deep_view() == address_script_of(address@),
{
    Address::from_str(address).ok().map(|a| a.script_pubkey().to_bytes())
}

} // verus!
