//! Dispatch: from a parsed command to the one step the harness takes for
//! it. A step either asks the unverified front end to perform a node
//! operation, prints a reply and continues, does nothing, or leaves the
//! command loop. All argument validation happens here, before any
//! operation is requested, and a malformed argument always turns into a
//! reply, never into an operation.

use vstd::prelude::*;

use crate::checks::{
    bolt11_parse_error, check_bolt11_invoice, check_node_pubkey, check_signet_address,
    check_socket_address, is_bitcoin_address, is_node_pubkey, is_signet_address,
    is_socket_address, AddressCheck,
};
use crate::command::{parse_command, spec_parse_command, Command, Role, SpecCmd};
use crate::digits::{dec_val, is_u64_numeral, parse_u64};
use crate::tokenize::{is_space_char, lemma_all_space_no_tokens, spec_tokens, tokenize};

verus! {

/// A request against the node handle, with every argument already
/// validated.
#[derive(Clone, Debug, PartialEq, Eq)]
pub enum NodeAction {
    /// Send an on-chain payment to a Signet address.
    SendOnchain { address: String, sats: u64 },
    /// Request a fresh on-chain receiving address.
    NewAddress,
    /// Open an announced channel, pushing half the capacity to the peer.
    OpenChannel { node_id: String, net_address: String, sats: u64, push_msat: u64 },
    /// Fetch the aggregate on-chain and Lightning balances.
    ListBalances,
    /// Close every known channel.
    CloseAllChannels,
    /// List the known channels.
    ListChannels,
    /// Create a BOLT11 invoice.
    ReceiveInvoice { msats: u64, description: String, expiry_secs: u32 },
    /// Pay a BOLT11 invoice.
    PayInvoice { invoice: String },
    /// Request an invoice that opens a just-in-time channel.
    ReceiveViaJitChannel { msats: u64, description: String, expiry_secs: u32, max_lsp_fee_msat: u64 },
}

/// The mathematical value of a `NodeAction`.
pub enum SpecAction {
    SendOnchain { address: Seq<char>, sats: u64 },
    NewAddress,
    OpenChannel { node_id: Seq<char>, net_address: Seq<char>, sats: u64, push_msat: u64 },
    ListBalances,
    CloseAllChannels,
    ListChannels,
    ReceiveInvoice { msats: u64, description: Seq<char>, expiry_secs: u32 },
    PayInvoice { invoice: Seq<char> },
    ReceiveViaJitChannel { msats: u64, description: Seq<char>, expiry_secs: u32, max_lsp_fee_msat: u64 },
}

impl View for NodeAction {
    type V = SpecAction;

    open spec fn view(&self) -> SpecAction {
        match self {
            NodeAction::SendOnchain { address, sats } => SpecAction::SendOnchain {
                address: address@,
                sats: *sats,
            },
            NodeAction::NewAddress => SpecAction::NewAddress,
            NodeAction::OpenChannel { node_id, net_address, sats, push_msat } => {
                SpecAction::OpenChannel {
                    node_id: node_id@,
                    net_address: net_address@,
                    sats: *sats,
                    push_msat: *push_msat,
                }
            },
            NodeAction::ListBalances => SpecAction::ListBalances,
            NodeAction::CloseAllChannels => SpecAction::CloseAllChannels,
            NodeAction::ListChannels => SpecAction::ListChannels,
            NodeAction::ReceiveInvoice { msats, description, expiry_secs } => {
                SpecAction::ReceiveInvoice {
                    msats: *msats,
                    description: description@,
                    expiry_secs: *expiry_secs,
                }
            },
            NodeAction::PayInvoice { invoice } => SpecAction::PayInvoice { invoice: invoice@ },
            NodeAction::ReceiveViaJitChannel { msats, description, expiry_secs, max_lsp_fee_msat } => {
                SpecAction::ReceiveViaJitChannel {
                    msats: *msats,
                    description: description@,
                    expiry_secs: *expiry_secs,
                    max_lsp_fee_msat: *max_lsp_fee_msat,
                }
            },
        }
    }
}

/// An action that reads node state without changing it.
pub open spec fn action_is_read_only(a: SpecAction) -> bool {
    ||| a is NewAddress
    ||| a is ListBalances
    ||| a is ListChannels
}

/// One step of the command loop.
#[derive(Clone, Debug, PartialEq, Eq)]
pub enum Step {
    /// Perform a node operation.
    Act(NodeAction),
    /// Print a reply and keep the loop running.
    Reply(String),
    /// Do nothing and keep the loop running.
    Nothing,
    /// Leave the command loop.
    Exit,
}

/// The mathematical value of a `Step`.
pub enum SpecStep {
    Act(SpecAction),
    Reply(Seq<char>),
    Nothing,
    Exit,
}

impl View for Step {
    type V = SpecStep;

    open spec fn view(&self) -> SpecStep {
        match self {
            Step::Act(a) => SpecStep::Act(a@),
            Step::Reply(s) => SpecStep::Reply(s@),
            Step::Nothing => SpecStep::Nothing,
            Step::Exit => SpecStep::Exit,
        }
    }
}

/// The usage error for `onchaintransfer`.
pub open spec fn usage_onchaintransfer_text() -> Seq<char> {
    "Error: 'onchaintransfer' command requires two parameters: <destination_address> and <sats>"@
}

/// The usage error for `openchannel`.
pub open spec fn usage_openchannel_text() -> Seq<char> {
    "Error: 'openchannel' command requires three parameters: <node_id>, <listening_address>, and <sats>"@
}

/// The reply to a destination that is not a Bitcoin address.
pub open spec fn invalid_address_text() -> Seq<char> {
    "Invalid bitcoin address"@
}

/// The reply to a Bitcoin address of a network other than Signet.
pub open spec fn wrong_network_text() -> Seq<char> {
    "Bitcoin address is not valid for Signet"@
}

/// The reply to a malformed or oversized satoshi amount of a transfer or a
/// channel open.
pub open spec fn invalid_sats_text() -> Seq<char> {
    "Invalid amount of satoshis provided"@
}

/// The reply to a malformed or oversized satoshi amount of `getinvoice`.
pub open spec fn invalid_invoice_sats_text() -> Seq<char> {
    "Invalid sats value provided"@
}

/// The reply to a malformed node public key.
pub open spec fn invalid_node_id_text() -> Seq<char> {
    "Invalid node id provided"@
}

/// The reply to a malformed peer listening address.
pub open spec fn invalid_net_address_text() -> Seq<char> {
    "Invalid listening address provided"@
}

/// The reply to an unrecognized command, a wrong argument shape, or an
/// empty line.
pub open spec fn unknown_command_text() -> Seq<char> {
    "Unknown command or incorrect arguments"@
}

/// The prefix of the reply to an invoice that does not parse.
pub open spec fn invoice_parse_error_prefix() -> Seq<char> {
    "Error parsing invoice: "@
}

/// The description every `getinvoice` invoice carries.
pub open spec fn invoice_description_text() -> Seq<char> {
    "test invoice"@
}

/// The description every just-in-time invoice carries.
pub open spec fn jit_description_text() -> Seq<char> {
    "Stable Channel"@
}

/// The step taken for a parsed command. Every validation the harness owns
/// is decided here; a failed validation is a reply, never an action.
pub open spec fn spec_dispatch(role: Role, c: SpecCmd) -> SpecStep {
    match c {
        SpecCmd::OnchainTransfer { address, sats_text } => {
            if !is_bitcoin_address(address) {
                SpecStep::Reply(invalid_address_text())
            } else if !is_signet_address(address) {
                SpecStep::Reply(wrong_network_text())
            } else if !is_u64_numeral(sats_text) {
                SpecStep::Reply(invalid_sats_text())
            } else {
                SpecStep::Act(
                    SpecAction::SendOnchain { address, sats: dec_val(sats_text) as u64 },
                )
            }
        },
        SpecCmd::OnchainTransferUsage => SpecStep::Reply(usage_onchaintransfer_text()),
        SpecCmd::GetAddress => SpecStep::Act(SpecAction::NewAddress),
        SpecCmd::OpenChannel { node_id, net_address, sats_text } => {
            if !is_node_pubkey(node_id) {
                SpecStep::Reply(invalid_node_id_text())
            } else if !is_socket_address(net_address) {
                SpecStep::Reply(invalid_net_address_text())
            } else if !is_u64_numeral(sats_text) {
                SpecStep::Reply(invalid_sats_text())
            } else if dec_val(sats_text) / 2 > u64::MAX as nat / 1000 {
                SpecStep::Reply(invalid_sats_text())
            } else {
                SpecStep::Act(
                    SpecAction::OpenChannel {
                        node_id,
                        net_address,
                        sats: dec_val(sats_text) as u64,
                        push_msat: ((dec_val(sats_text) / 2) * 1000) as u64,
                    },
                )
            }
        },
        SpecCmd::OpenChannelUsage => SpecStep::Reply(usage_openchannel_text()),
        SpecCmd::Balance => SpecStep::Act(SpecAction::ListBalances),
        SpecCmd::ConnectToLsp => SpecStep::Nothing,
        SpecCmd::CloseAllChannels => SpecStep::Act(SpecAction::CloseAllChannels),
        SpecCmd::ListChannels => SpecStep::Act(SpecAction::ListChannels),
        SpecCmd::GetInvoice { sats_text } => {
            if !is_u64_numeral(sats_text) {
                SpecStep::Reply(invalid_invoice_sats_text())
            } else if dec_val(sats_text) > u64::MAX as nat / 1000 {
                SpecStep::Reply(invalid_invoice_sats_text())
            } else {
                SpecStep::Act(
                    SpecAction::ReceiveInvoice {
                        msats: (dec_val(sats_text) * 1000) as u64,
                        description: invoice_description_text(),
                        expiry_secs: 6000,
                    },
                )
            }
        },
        SpecCmd::PayInvoice { invoice } => {
            match bolt11_parse_error(invoice) {
                Some(e) => SpecStep::Reply(invoice_parse_error_prefix() + e),
                None => SpecStep::Act(SpecAction::PayInvoice { invoice }),
            }
        },
        SpecCmd::GetJitInvoice => SpecStep::Act(
            SpecAction::ReceiveViaJitChannel {
                msats: 50000000,
                description: jit_description_text(),
                expiry_secs: 3600,
                max_lsp_fee_msat: 10000000,
            },
        ),
        SpecCmd::Exit => SpecStep::Exit,
        SpecCmd::Unknown => SpecStep::Reply(unknown_command_text()),
    }
}

/// The step taken for a whole input line, for the given role.
pub open spec fn spec_respond(role: Role, line: Seq<char>) -> SpecStep {
    spec_dispatch(role, spec_parse_command(role, spec_tokens(line)))
}

/// Takes the step that a parsed command calls for.
pub fn dispatch(role: Role, cmd: Command) -> (st: Step)
    ensures
        st@ == spec_dispatch(role, cmd@),
{
    match cmd {
        Command::OnchainTransfer { address, sats_text } => {
            match check_signet_address(address.as_str()) {
                AddressCheck::Invalid => Step::Reply(String::from_str("Invalid bitcoin address")),
                AddressCheck::WrongNetwork => Step::Reply(
                    String::from_str("Bitcoin address is not valid for Signet"),
                ),
                AddressCheck::Valid => match parse_u64(sats_text.as_str()) {
                    None => Step::Reply(String::from_str("Invalid amount of satoshis provided")),
                    Some(sats) => Step::Act(NodeAction::SendOnchain { address, sats }),
                },
            }
        },
        Command::OnchainTransferUsage => Step::Reply(
            String::from_str(
                "Error: 'onchaintransfer' command requires two parameters: <destination_address> and <sats>",
            ),
        ),
        Command::GetAddress => Step::Act(NodeAction::NewAddress),
        Command::OpenChannel { node_id, net_address, sats_text } => {
            if !check_node_pubkey(node_id.as_str()) {
                Step::Reply(String::from_str("Invalid node id provided"))
            } else if !check_socket_address(net_address.as_str()) {
                Step::Reply(String::from_str("Invalid listening address provided"))
            } else {
                match parse_u64(sats_text.as_str()) {
                    None => Step::Reply(String::from_str("Invalid amount of satoshis provided")),
                    Some(sats) => {
                        let half = sats / 2;
                        if half > u64::MAX / 1000 {
                            Step::Reply(String::from_str("Invalid amount of satoshis provided"))
                        } else {
                            Step::Act(
                                NodeAction::OpenChannel {
                                    node_id,
                                    net_address,
                                    sats,
                                    push_msat: half * 1000,
                                },
                            )
                        }
                    },
                }
            }
        },
        Command::OpenChannelUsage => Step::Reply(
            String::from_str(
                "Error: 'openchannel' command requires three parameters: <node_id>, <listening_address>, and <sats>",
            ),
        ),
        Command::Balance => Step::Act(NodeAction::ListBalances),
        Command::ConnectToLsp => Step::Nothing,
        Command::CloseAllChannels => Step::Act(NodeAction::CloseAllChannels),
        Command::ListChannels => Step::Act(NodeAction::ListChannels),
        Command::GetInvoice { sats_text } => {
            match parse_u64(sats_text.as_str()) {
                None => Step::Reply(String::from_str("Invalid sats value provided")),
                Some(sats) => {
                    if sats > u64::MAX / 1000 {
                        Step::Reply(String::from_str("Invalid sats value provided"))
                    } else {
                        Step::Act(
                            NodeAction::ReceiveInvoice {
                                msats: sats * 1000,
                                description: String::from_str("test invoice"),
                                expiry_secs: 6000,
                            },
                        )
                    }
                },
            }
        },
        Command::PayInvoice { invoice } => {
            match check_bolt11_invoice(invoice.as_str()) {
                Some(e) => {
                    let mut m = String::from_str("Error parsing invoice: ");
                    m.append(e.as_str());
                    Step::Reply(m)
                },
                None => Step::Act(NodeAction::PayInvoice { invoice }),
            }
        },
        Command::GetJitInvoice => Step::Act(
            NodeAction::ReceiveViaJitChannel {
                msats: 50000000,
                description: String::from_str("Stable Channel"),
                expiry_secs: 3600,
                max_lsp_fee_msat: 10000000,
            },
        ),
        Command::Exit => Step::Exit,
        Command::Unknown => Step::Reply(String::from_str("Unknown command or incorrect arguments")),
    }
}

/// Tokenizes a line, recognizes its command, and takes the step the
/// command calls for: one whole iteration of the command loop short of the
/// node operation itself.
pub fn respond(role: Role, line: &str) -> (st: Step)
    ensures
        st@ == spec_respond(role, line@),
{
    let toks = tokenize(line);
    let cmd = parse_command(role, &toks);
    dispatch(role, cmd)
}

/// The lengths of the command names, and the inequality of the same-length
/// pairs that the dispatch order depends on.
proof fn lemma_command_name_facts()
    ensures
        "onchaintransfer"@.len() == 15,
        "getaddress"@.len() == 10,
        "openchannel"@.len() == 11,
        "balance"@.len() == 7,
        "connecttolsp"@.len() == 12,
        "closeallchannels"@.len() == 16,
        "listallchannels"@.len() == 15,
        "getinvoice"@.len() == 10,
        "payinvoice"@.len() == 10,
        "getjitinvoice"@.len() == 13,
        "exit"@.len() == 4,
        "listallchannels"@ != "onchaintransfer"@,
        "getinvoice"@ != "getaddress"@,
{
    reveal_strlit("onchaintransfer");
    reveal_strlit("getaddress");
    reveal_strlit("openchannel");
    reveal_strlit("balance");
    reveal_strlit("connecttolsp");
    reveal_strlit("closeallchannels");
    reveal_strlit("listallchannels");
    reveal_strlit("getinvoice");
    reveal_strlit("payinvoice");
    reveal_strlit("getjitinvoice");
    reveal_strlit("exit");
    assert(("listallchannels"@)[0] != ("onchaintransfer"@)[0]);
    assert(("getinvoice"@)[3] != ("getaddress"@)[3]);
}

/// A line of whitespace alone names no command: the loop replies with the
/// unknown-command notice and requests no node operation.
pub proof fn lemma_whitespace_only_is_unknown(role: Role, line: Seq<char>)
    requires
        forall|i: int| 0 <= i < line.len() ==> is_space_char(#[trigger] line[i]),
    ensures
        spec_respond(role, line) == SpecStep::Reply(unknown_command_text()),
{
    lemma_all_space_no_tokens(line);
}

/// `getaddress`, `balance` and `listallchannels` only ever read: whatever
/// the rest of the line holds, the step they produce is never a mutating
/// node operation.
pub proof fn lemma_reads_never_mutate(role: Role, line: Seq<char>)
    requires
        spec_tokens(line).len() > 0,
        spec_tokens(line)[0] == "getaddress"@ || spec_tokens(line)[0] == "balance"@
            || spec_tokens(line)[0] == "listallchannels"@,
    ensures
        spec_respond(role, line) matches SpecStep::Act(a) ==> action_is_read_only(a),
{
    lemma_command_name_facts();
}

/// `onchaintransfer` with a second argument that is not a satoshi count
/// never sends: the step is a reply, and for a well-formed Signet
/// destination it is exactly the invalid-amount notice.
pub proof fn lemma_onchain_transfer_bad_amount(role: Role, line: Seq<char>)
    requires
        spec_tokens(line).len() == 3,
        spec_tokens(line)[0] == "onchaintransfer"@,
        !is_u64_numeral(spec_tokens(line)[2]),
    ensures
        !(spec_respond(role, line) is Act),
        is_bitcoin_address(spec_tokens(line)[1]) && is_signet_address(spec_tokens(line)[1])
            ==> spec_respond(role, line) == SpecStep::Reply(invalid_sats_text()),
{
}

/// `onchaintransfer` to an address of another network never sends: the
/// step is exactly the wrong-network notice.
pub proof fn lemma_onchain_transfer_wrong_network(role: Role, line: Seq<char>)
    requires
        spec_tokens(line).len() == 3,
        spec_tokens(line)[0] == "onchaintransfer"@,
    ensures
        is_bitcoin_address(spec_tokens(line)[1]) && !is_signet_address(spec_tokens(line)[1])
            ==> spec_respond(role, line) == SpecStep::Reply(wrong_network_text()),
        is_bitcoin_address(spec_tokens(line)[1]) && !is_signet_address(spec_tokens(line)[1])
            ==> !(spec_respond(role, line) is Act),
{
}

/// `exit` leaves the loop whatever follows it on the line, exactly as
/// `exit` alone does.
pub proof fn lemma_exit_any_arguments(role: Role, line: Seq<char>)
    requires
        spec_tokens(line).len() > 0,
        spec_tokens(line)[0] == "exit"@,
    ensures
        spec_respond(role, line) is Exit,
{
    lemma_command_name_facts();
}

/// `getinvoice` with a satoshi count asks the node for an invoice of a
/// thousand millisatoshis per satoshi, with the fixed description and
/// the fixed expiry of 6000 seconds.
pub proof fn lemma_getinvoice_requests_msats(role: Role, line: Seq<char>)
    requires
        spec_tokens(line).len() == 2,
        spec_tokens(line)[0] == "getinvoice"@,
        is_u64_numeral(spec_tokens(line)[1]),
        dec_val(spec_tokens(line)[1]) <= u64::MAX as nat / 1000,
    ensures
        spec_respond(role, line) == SpecStep::Act(
            SpecAction::ReceiveInvoice {
                msats: (dec_val(spec_tokens(line)[1]) * 1000) as u64,
                description: invoice_description_text(),
                expiry_secs: 6000,
            },
        ),
{
    lemma_command_name_facts();
}

} // verus!

