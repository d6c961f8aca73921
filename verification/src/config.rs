//! What the bootstrapper decides before the node library takes over: the
//! fixed network, the block-explorer endpoint, the storage directory
//! derived from the role alias, the listening socket built from the port,
//! and the fixed liquidity-source coordinates.

use vstd::prelude::*;

use crate::digits::{dec_digits, u64_to_decimal};

verus! {

/// Everything a node is configured with before it is built and started.
/// The network is always Signet; these are the remaining choices.
pub struct NodeConfig {
    /// The role alias the node runs under.
    pub alias: String,
    /// Where the node library persists its state.
    pub storage_dir: String,
    /// The one socket address the node listens on.
    pub listen_addr: String,
    /// The announced node alias.
    pub node_alias: String,
    /// The block-explorer endpoint used as the chain source.
    pub esplora_url: String,
}

/// The storage directory for a role alias.
pub open spec fn storage_dir_text(alias: Seq<char>) -> Seq<char> {
    "./data/"@ + alias
}

/// The local listening address for a port.
pub open spec fn listen_addr_text(port: u16) -> Seq<char> {
    "127.0.0.1:"@ + dec_digits(port as nat)
}

/// Builds the configuration for a role alias and a listening port.
pub fn node_config(alias: &str, port: u16) -> (c: NodeConfig)
    ensures
        c.alias@ == alias@,
        c.storage_dir@ == storage_dir_text(alias@),
        c.listen_addr@ == listen_addr_text(port),
        c.node_alias@ == "some_alias"@,
        c.esplora_url@ == "https://mutinynet.com/api/"@,
{
    let mut storage_dir = String::from_str("./data/");
    storage_dir.append(alias);
    let mut listen_addr = String::from_str("127.0.0.1:");
    let port_text = u64_to_decimal(port as u64);
    listen_addr.append(port_text.as_str());
    NodeConfig {
        alias: alias.to_owned(),
        storage_dir,
        listen_addr,
        node_alias: String::from_str("some_alias"),
        esplora_url: String::from_str("https://mutinynet.com/api/"),
    }
}

/// The fixed local address of the liquidity source, used when a node is
/// given an upstream liquidity provider.
pub fn liquidity_source_addr() -> (s: String)
    ensures
        s@ == "127.0.0.1:9377"@,
{
    String::from_str("127.0.0.1:9377")
}

/// The fixed placeholder access token handed to the liquidity source.
pub fn liquidity_source_token() -> (s: String)
    ensures
        s@ == "00000000000000000000000000000000"@,
{
    String::from_str("00000000000000000000000000000000")
}

/// The banner printed once a node has started: role, identity, and the
/// first listening address, framed by blank lines.
pub open spec fn banner_text(alias: Seq<char>, node_id: Seq<char>, address: Seq<char>) -> Seq<
    char,
> {
    "\nActor Role: "@ + alias + "\nPublic Key: "@ + node_id + "\nInternet Address: "@ + address
        + "\n"@
}

/// Renders the startup banner.
pub fn render_banner(alias: &str, node_id: &str, address: &str) -> (s: String)
    ensures
        s@ == banner_text(alias@, node_id@, address@),
{
    let mut m = String::from_str("\nActor Role: ");
    m.append(alias);
    m.append("\nPublic Key: ");
    m.append(node_id);
    m.append("\nInternet Address: ");
    m.append(address);
    m.append("\n");
    proof {
        assert(m@ =~= banner_text(alias@, node_id@, address@));
    }
    m
}

/// The notice printed when a started node has no listening address.
pub fn msg_no_listen_addr() -> (s: String)
    ensures
        s@ == "No listening addresses found."@,
{
    String::from_str("No listening addresses found.")
}

} // verus!
