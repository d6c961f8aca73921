//! Validity checks for the textual arguments that the commands forward to
//! the node: Bitcoin addresses, node public keys, peer socket addresses,
//! and BOLT11 invoices. Each check calls the parser of the crate that also
//! consumes the value later, so a value accepted here is exactly a value
//! that the node operation can take.

use vstd::prelude::*;

verus! {

/// Whether `bitcoin::address::Address::from_str` accepts `s`.
pub uninterp spec fn is_bitcoin_address(s: Seq<char>) -> bool;

/// Whether the address written as `s` passes
/// `bitcoin::Address::require_network` for the Signet network.
pub uninterp spec fn is_signet_address(s: Seq<char>) -> bool;

/// The verdict on a destination address for an on-chain transfer.
#[derive(Clone, Copy, Debug, PartialEq, Eq, Structural)]
pub enum AddressCheck {
    /// Not a Bitcoin address at all.
    Invalid,
    /// A Bitcoin address, but for a network other than Signet.
    WrongNetwork,
    /// A Bitcoin address that is valid for Signet.
    Valid,
}

/// Relies on `bitcoin::address::Address::from_str` to decide whether `s` is
/// a Bitcoin address, and on `bitcoin::Address::require_network` to decide
/// whether it is one for Signet. Both depend on `s` alone.
#[verifier::external_body]
pub(crate) fn check_signet_address(s: &str) -> (v: AddressCheck)
    ensures
        (v is Invalid) == !is_bitcoin_address(s@),
        (v is WrongNetwork) == (is_bitcoin_address(s@) && !is_signet_address(s@)),
        (v is Valid) == (is_bitcoin_address(s@) && is_signet_address(s@)),
{
    match <bitcoin::Address<bitcoin::address::NetworkUnchecked> as core::str::FromStr>::from_str(
        s,
    ) {
        Ok(a) => match a.require_network(bitcoin::Network::Signet) {
            Ok(_) => AddressCheck::Valid,
            Err(_) => AddressCheck::WrongNetwork,
        },
        Err(_) => AddressCheck::Invalid,
    }
}

/// Whether `bitcoin::secp256k1::PublicKey::from_str` accepts `s`.
pub uninterp spec fn is_node_pubkey(s: Seq<char>) -> bool;

/// Relies on `bitcoin::secp256k1::PublicKey::from_str`, whose result
/// depends on `s` alone: whether `s` is a well-formed node public key.
#[verifier::external_body]
pub(crate) fn check_node_pubkey(s: &str) -> (r: bool)
    ensures
        r == is_node_pubkey(s@),
{
    <bitcoin::secp256k1::PublicKey as core::str::FromStr>::from_str(s).is_ok()
}

/// Whether `lightning::ln::msgs::SocketAddress::from_str` accepts `s`.
pub uninterp spec fn is_socket_address(s: Seq<char>) -> bool;

/// Relies on `lightning::ln::msgs::SocketAddress::from_str`, whose result
/// depends on `s` alone: whether `s` is a well-formed peer socket address.
#[verifier::external_body]
pub(crate) fn check_socket_address(s: &str) -> (r: bool)
    ensures
        r == is_socket_address(s@),
{
    <lightning::ln::msgs::SocketAddress as core::str::FromStr>::from_str(s).is_ok()
}

/// What `lightning_invoice::Bolt11Invoice::from_str` says of `s`: `None`
/// when `s` parses as an invoice, and the parse error's text otherwise.
pub uninterp spec fn bolt11_parse_error(s: Seq<char>) -> Option<Seq<char>>;

/// Relies on `lightning_invoice::Bolt11Invoice::from_str`, whose result
/// depends on `s` alone. Returns `None` when `s` parses as a BOLT11
/// invoice, and the text of the parse error otherwise.
#[verifier::external_body]
pub(crate) fn check_bolt11_invoice(s: &str) -> (r: Option<String>)
    ensures
        (r is None) == (bolt11_parse_error(s@) is None),
        r matches Some(e) ==> (bolt11_parse_error(s@) matches Some(t) && e@ == t),
{
    match <lightning_invoice::Bolt11Invoice as core::str::FromStr>::from_str(s) {
        Ok(_) => None,
        Err(e) => Some(format!("{}", e)),
    }
}

} // verus!
