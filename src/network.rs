//! Bitcoin networks, and the address and public-key checks that the `bitcoin` crate
//! performs.
use vstd::prelude::*;
use std::str::FromStr;

verus! {

/// The chain that a pool works on.
#[derive(Debug, Clone, Copy, PartialEq, Eq, Structural)]
pub enum Network {
    Bitcoin,
    Testnet,
    Testnet4,
    Signet,
    Regtest,
}

/// The network that a command-line style name selects: `main`, `test`, `testnet4`,
/// `signet` or `regtest`, matched case-sensitively.
pub open spec fn network_named(s: Seq<char>) -> Option<Network> {
    if s == "main"@ {
        Some(Network::Bitcoin)
    } else if s == "test"@ {
        Some(Network::Testnet)
    } else if s == "testnet4"@ {
        Some(Network::Testnet4)
    } else if s == "signet"@ {
        Some(Network::Signet)
    } else if s == "regtest"@ {
        Some(Network::Regtest)
    } else {
        None
    }
}

/// The lower-case name under which a network is shown.
pub open spec fn network_label(n: Network) -> Seq<char> {
    match n {
        Network::Bitcoin => "bitcoin"@,
        Network::Testnet => "testnet"@,
        Network::Testnet4 => "testnet4"@,
        Network::Signet => "signet"@,
        Network::Regtest => "regtest"@,
    }
}

impl Network {
    /// The network that `s` names, as `bitcoin::Network::from_core_arg` reads it.
    pub fn from_core_arg(s: &str) -> (r: Option<Network>)
        ensures
            r == network_named(s@),
    {
        let v = crate::text::chars_of(s);
        if crate::text::same_chars(&v, &crate::text::chars_of("main")) {
            Some(Network::Bitcoin)
        } else if crate::text::same_chars(&v, &crate::text::chars_of("test")) {
            Some(Network::Testnet)
        } else if crate::text::same_chars(&v, &crate::text::chars_of("testnet4")) {
            Some(Network::Testnet4)
        } else if crate::text::same_chars(&v, &crate::text::chars_of("signet")) {
            Some(Network::Signet)
        } else if crate::text::same_chars(&v, &crate::text::chars_of("regtest")) {
            Some(Network::Regtest)
        } else {
            None
        }
    }

    pub fn label(&self) -> (r: &'static str)
        ensures
            r@ == network_label(*self),
    {
        match self {
            Network::Bitcoin => "bitcoin",
            Network::Testnet => "testnet",
            Network::Testnet4 => "testnet4",
            Network::Signet => "signet",
            Network::Regtest => "regtest",
        }
    }
}

/// Whether `bitcoin::Address` parses the text as an address of some network.
pub uninterp spec fn address_parses(s: Seq<char>) -> bool;

/// Whether an address text that parses belongs to the network `n`.
pub uninterp spec fn address_on_network(s: Seq<char>, n: Network) -> bool;

/// Whether `secp256k1::PublicKey` parses the text as a public key.
pub uninterp spec fn pubkey_parses(s: Seq<char>) -> bool;

/// An address text that is valid on the network `n`.
pub open spec fn address_valid(s: Seq<char>, n: Network) -> bool {
    address_parses(s) && address_on_network(s, n)
}

/// Relies on `<bitcoin::Address<NetworkUnchecked> as FromStr>::from_str`: whether the text
/// is a well-formed address of some network.
#[verifier::external_body]
fn address_well_formed(s: &str) -> (r: bool)
    ensures
        r == address_parses(s@),
{
    bitcoin::Address::<bitcoin::address::NetworkUnchecked>::from_str(s).is_ok()
}

/// Relies on `bitcoin::Address::<NetworkUnchecked>::is_valid_for_network`: whether a
/// well-formed address text belongs to the network `n`.
#[verifier::external_body]
fn address_belongs_to(s: &str, n: Network) -> (r: bool)
    requires
        address_parses(s@),
    ensures
        r == address_on_network(s@, n),
{
    let net = match n {
        Network::Bitcoin => bitcoin::Network::Bitcoin,
        Network::Testnet => bitcoin::Network::Testnet,
        Network::Testnet4 => bitcoin::Network::Testnet4,
        Network::Signet => bitcoin::Network::Signet,
        Network::Regtest => bitcoin::Network::Regtest,
    };
    match bitcoin::Address::<bitcoin::address::NetworkUnchecked>::from_str(s) {
        Ok(a) => a.is_valid_for_network(net),
        Err(_) => false,
    }
}

/// Whether `s` is an address that parses and belongs to the network `n`; a well-formed
/// address of another network is refused as a malformed one is.
pub fn check_address(s: &str, n: Network) -> (r: bool)
    ensures
        r == address_valid(s@, n),
{
    address_well_formed(s) && address_belongs_to(s, n)
}

/// Relies on `<bitcoin::secp256k1::PublicKey as FromStr>::from_str`: whether the text is
/// the hexadecimal form of a valid public key.
#[verifier::external_body]
pub(crate) fn check_pubkey(s: &str) -> (r: bool)
    ensures
        r == pubkey_parses(s@),
{
    bitcoin::secp256k1::PublicKey::from_str(s).is_ok()
}

} // verus!
