//! The console texts of the harness that carry values: balance reports,
//! channel listings, and the outcome lines of the node operations. Each
//! text is specified exactly, so a front end that prints these strings
//! prints what the dispatch layer decided, nothing else.

use vstd::prelude::*;

use crate::amount::{btc_text, Bitcoin};
use crate::command::Role;

verus! {

/// A string made of a fixed prefix and a value.
fn prefixed(prefix: &str, rest: &str) -> (s: String)
    ensures
        s@ == prefix@ + rest@,
{
    let mut m = String::from_str(prefix);
    m.append(rest);
    m
}

/// The two balance lines, separated by a newline: on-chain first, then
/// Lightning, each as a fixed-precision Bitcoin amount, with the labels of
/// the given role.
pub open spec fn balances_text(role: Role, onchain_sats: u64, lightning_sats: u64) -> Seq<char> {
    if role is User {
        "User On-Chain Balance: "@ + btc_text(onchain_sats) + "\nStable Receiver Lightning Balance: "@
            + btc_text(lightning_sats)
    } else {
        "LSP On-Chain Balance: "@ + btc_text(onchain_sats) + "\nLSP Lightning Balance: "@
            + btc_text(lightning_sats)
    }
}

/// Renders the balance report for a role.
pub fn render_balances(role: Role, onchain_sats: u64, lightning_sats: u64) -> (s: String)
    ensures
        s@ == balances_text(role, onchain_sats, lightning_sats),
{
    let onchain = Bitcoin::from_sats(onchain_sats).to_text();
    let lightning = Bitcoin::from_sats(lightning_sats).to_text();
    let mut m = match role {
        Role::User => String::from_str("User On-Chain Balance: "),
        Role::Lsp => String::from_str("LSP On-Chain Balance: "),
    };
    m.append(onchain.as_str());
    match role {
        Role::User => m.append("\nStable Receiver Lightning Balance: "),
        Role::Lsp => m.append("\nLSP Lightning Balance: "),
    }
    m.append(lightning.as_str());
    proof {
        assert(m@ =~= balances_text(role, onchain_sats, lightning_sats));
    }
    m
}

/// One entry of the user's channel listing: a separator line, the channel
/// id, the capacity as a Bitcoin amount, and the readiness flag.
pub open spec fn channel_entry_text(channel_id: Seq<char>, value_sats: u64, is_ready: bool) -> Seq<
    char,
> {
    "--------------------------------------------\nChannel ID: "@ + channel_id
        + "\nChannel Value: "@ + btc_text(value_sats) + "\nChannel Ready?: "@ + (if is_ready {
        "true"@
    } else {
        "false"@
    })
}

/// Renders one entry of the user's channel listing.
pub fn render_channel_entry(channel_id: &str, value_sats: u64, is_ready: bool) -> (s: String)
    ensures
        s@ == channel_entry_text(channel_id@, value_sats, is_ready),
{
    let value = Bitcoin::from_sats(value_sats).to_text();
    let mut m = String::from_str("--------------------------------------------\nChannel ID: ");
    m.append(channel_id);
    m.append("\nChannel Value: ");
    m.append(value.as_str());
    m.append("\nChannel Ready?: ");
    if is_ready {
        m.append("true");
    } else {
        m.append("false");
    }
    proof {
        assert(m@ =~= channel_entry_text(channel_id@, value_sats, is_ready));
    }
    m
}

/// The notice for a channel listing with no channels.
pub fn msg_no_channels() -> (s: String)
    ensures
        s@ == "No channels found."@,
{
    String::from_str("No channels found.")
}

/// The header of the user's channel listing.
pub fn msg_channels_header() -> (s: String)
    ensures
        s@ == "User Channels:"@,
{
    String::from_str("User Channels:")
}

/// The separator line that closes the user's channel listing.
pub fn msg_channels_end() -> (s: String)
    ensures
        s@ == "--------------------------------------------"@,
{
    String::from_str("--------------------------------------------")
}

/// The notice printed after all channels were asked to close.
pub fn msg_closing_all() -> (s: String)
    ensures
        s@ == "Closing all channels."@,
{
    String::from_str("Closing all channels.")
}

/// The outcome line of a successful on-chain transfer.
pub fn msg_onchain_success(txid: &str) -> (s: String)
    ensures
        s@ == "On-chain transfer successful. Transaction ID: "@ + txid@,
{
    prefixed("On-chain transfer successful. Transaction ID: ", txid)
}

/// The outcome line of a failed on-chain transfer.
pub fn msg_onchain_error(error: &str) -> (s: String)
    ensures
        s@ == "Error sending on-chain transfer: "@ + error@,
{
    prefixed("Error sending on-chain transfer: ", error)
}

/// The outcome line of a fresh funding address, with the role's label.
pub fn msg_funding_address(role: Role, address: &str) -> (s: String)
    ensures
        role is User ==> s@ == "User Funding Address: "@ + address@,
        role is Lsp ==> s@ == "LSP Funding Address: "@ + address@,
{
    match role {
        Role::User => prefixed("User Funding Address: ", address),
        Role::Lsp => prefixed("LSP Funding Address: ", address),
    }
}

/// The outcome line of a failed funding-address request.
pub fn msg_funding_error(error: &str) -> (s: String)
    ensures
        s@ == "Error getting funding address: "@ + error@,
{
    prefixed("Error getting funding address: ", error)
}

/// The outcome line of a successful channel open.
pub fn msg_channel_opened(node_id: &str) -> (s: String)
    ensures
        s@ == "Channel successfully opened to "@ + node_id@,
{
    prefixed("Channel successfully opened to ", node_id)
}

/// The outcome line of a failed channel open.
pub fn msg_open_channel_error(error: &str) -> (s: String)
    ensures
        s@ == "Failed to open channel: "@ + error@,
{
    prefixed("Failed to open channel: ", error)
}

/// The outcome line of a created invoice, with the role's label.
pub fn msg_invoice(role: Role, invoice: &str) -> (s: String)
    ensures
        role is User ==> s@ == "User Invoice: "@ + invoice@,
        role is Lsp ==> s@ == "LSP Invoice: "@ + invoice@,
{
    match role {
        Role::User => prefixed("User Invoice: ", invoice),
        Role::Lsp => prefixed("LSP Invoice: ", invoice),
    }
}

/// The outcome line of a failed invoice creation.
pub fn msg_invoice_error(error: &str) -> (s: String)
    ensures
        s@ == "Error creating invoice: "@ + error@,
{
    prefixed("Error creating invoice: ", error)
}

/// The outcome line of a sent payment, with the role's label.
pub fn msg_payment_sent(role: Role, payment_id: &str) -> (s: String)
    ensures
        role is User ==> s@ == "Payment sent from User with payment_id: "@ + payment_id@,
        role is Lsp ==> s@ == "Payment sent from LSP with payment_id: "@ + payment_id@,
{
    match role {
        Role::User => prefixed("Payment sent from User with payment_id: ", payment_id),
        Role::Lsp => prefixed("Payment sent from LSP with payment_id: ", payment_id),
    }
}

/// The outcome line of a failed payment, with the role's label.
pub fn msg_payment_error(role: Role, error: &str) -> (s: String)
    ensures
        role is User ==> s@ == "Error sending payment from User: "@ + error@,
        role is Lsp ==> s@ == "Error sending payment from LSP: "@ + error@,
{
    match role {
        Role::User => prefixed("Error sending payment from User: ", error),
        Role::Lsp => prefixed("Error sending payment from LSP: ", error),
    }
}

} // verus!
