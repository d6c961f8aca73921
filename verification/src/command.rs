//! The command language of the harness: which role is being driven, which
//! commands it accepts, and how a tokenized input line maps to a command.
//!
//! A command is recognized by its name and its argument shape. A name with
//! the wrong number of arguments is either a usage error (for the two
//! commands that state their usage) or falls through to `Unknown`, and a
//! name outside the role's table is `Unknown` as well.

use vstd::prelude::*;

use crate::tokenize::spec_tokens;

verus! {

/// The role a node plays: a consumer wallet or a liquidity service
/// provider.
#[derive(Clone, Copy, Debug, PartialEq, Eq, Structural)]
pub enum Role {
    User,
    Lsp,
}

/// A parsed command: one variant per recognized (name, argument-shape)
/// pair, plus the two usage errors and `Unknown`.
#[derive(Clone, Debug, PartialEq, Eq)]
pub enum Command {
    /// `onchaintransfer <destination_address> <sats>`
    OnchainTransfer { address: String, sats_text: String },
    /// `onchaintransfer` with any other number of arguments.
    OnchainTransferUsage,
    /// `getaddress`
    GetAddress,
    /// `openchannel <node_id> <listening_address> <sats>`
    OpenChannel { node_id: String, net_address: String, sats_text: String },
    /// `openchannel` with any other number of arguments.
    OpenChannelUsage,
    /// `balance`
    Balance,
    /// `connecttolsp` (user role only): a declared no-op.
    ConnectToLsp,
    /// `closeallchannels` (user role only)
    CloseAllChannels,
    /// `listallchannels`
    ListChannels,
    /// `getinvoice <sats>`
    GetInvoice { sats_text: String },
    /// `payinvoice <invoice>`
    PayInvoice { invoice: String },
    /// `getjitinvoice` (user role only)
    GetJitInvoice,
    /// `exit`, with any arguments.
    Exit,
    /// Anything else, including the empty line.
    Unknown,
}

/// The mathematical value of a `Command`: the same variants over character
/// sequences.
pub enum SpecCmd {
    OnchainTransfer { address: Seq<char>, sats_text: Seq<char> },
    OnchainTransferUsage,
    GetAddress,
    OpenChannel { node_id: Seq<char>, net_address: Seq<char>, sats_text: Seq<char> },
    OpenChannelUsage,
    Balance,
    ConnectToLsp,
    CloseAllChannels,
    ListChannels,
    GetInvoice { sats_text: Seq<char> },
    PayInvoice { invoice: Seq<char> },
    GetJitInvoice,
    Exit,
    Unknown,
}

impl View for Command {
    type V = SpecCmd;

    open spec fn view(&self) -> SpecCmd {
        match self {
            Command::OnchainTransfer { address, sats_text } => SpecCmd::OnchainTransfer {
                address: address@,
                sats_text: sats_text@,
            },
            Command::OnchainTransferUsage => SpecCmd::OnchainTransferUsage,
            Command::GetAddress => SpecCmd::GetAddress,
            Command::OpenChannel { node_id, net_address, sats_text } => SpecCmd::OpenChannel {
                node_id: node_id@,
                net_address: net_address@,
                sats_text: sats_text@,
            },
            Command::OpenChannelUsage => SpecCmd::OpenChannelUsage,
            Command::Balance => SpecCmd::Balance,
            Command::ConnectToLsp => SpecCmd::ConnectToLsp,
            Command::CloseAllChannels => SpecCmd::CloseAllChannels,
            Command::ListChannels => SpecCmd::ListChannels,
            Command::GetInvoice { sats_text } => SpecCmd::GetInvoice { sats_text: sats_text@ },
            Command::PayInvoice { invoice } => SpecCmd::PayInvoice { invoice: invoice@ },
            Command::GetJitInvoice => SpecCmd::GetJitInvoice,
            Command::Exit => SpecCmd::Exit,
            Command::Unknown => SpecCmd::Unknown,
        }
    }
}

/// The command named by a token sequence, for the given role.
pub open spec fn spec_parse_command(role: Role, toks: Seq<Seq<char>>) -> SpecCmd {
    if toks.len() == 0 {
        SpecCmd::Unknown
    } else {
        let name = toks[0];
        let nargs = toks.len() - 1;
        if name == "onchaintransfer"@ {
            if nargs == 2 {
                SpecCmd::OnchainTransfer { address: toks[1], sats_text: toks[2] }
            } else {
                SpecCmd::OnchainTransferUsage
            }
        } else if name == "getaddress"@ {
            if nargs == 0 {
                SpecCmd::GetAddress
            } else {
                SpecCmd::Unknown
            }
        } else if name == "openchannel"@ {
            if nargs == 3 {
                SpecCmd::OpenChannel { node_id: toks[1], net_address: toks[2], sats_text: toks[3] }
            } else {
                SpecCmd::OpenChannelUsage
            }
        } else if name == "balance"@ {
            if nargs == 0 {
                SpecCmd::Balance
            } else {
                SpecCmd::Unknown
            }
        } else if name == "connecttolsp"@ && role is User {
            if nargs == 0 {
                SpecCmd::ConnectToLsp
            } else {
                SpecCmd::Unknown
            }
        } else if name == "closeallchannels"@ && role is User {
            if nargs == 0 {
                SpecCmd::CloseAllChannels
            } else {
                SpecCmd::Unknown
            }
        } else if name == "listallchannels"@ {
            if nargs == 0 {
                SpecCmd::ListChannels
            } else {
                SpecCmd::Unknown
            }
        } else if name == "getinvoice"@ {
            if nargs == 1 {
                SpecCmd::GetInvoice { sats_text: toks[1] }
            } else {
                SpecCmd::Unknown
            }
        } else if name == "payinvoice"@ {
            if nargs == 1 {
                SpecCmd::PayInvoice { invoice: toks[1] }
            } else {
                SpecCmd::Unknown
            }
        } else if name == "getjitinvoice"@ && role is User {
            if nargs == 0 {
                SpecCmd::GetJitInvoice
            } else {
                SpecCmd::Unknown
            }
        } else if name == "exit"@ {
            SpecCmd::Exit
        } else {
            SpecCmd::Unknown
        }
    }
}

/// The command named by an input line, for the given role.
pub open spec fn spec_parse_line(role: Role, line: Seq<char>) -> SpecCmd {
    spec_parse_command(role, spec_tokens(line))
}

/// Whether a `String` equals a given string slice, character for
/// character.
fn str_eq(a: &String, b: &str) -> (r: bool)
    ensures
        r == (a@ == b@),
{
    let bs = String::from_str(b);
    a.eq(&bs)
}

/// Recognizes the command named by a token sequence, for the given role.
pub fn parse_command(role: Role, toks: &Vec<String>) -> (c: Command)
    ensures
        c@ == spec_parse_command(role, toks.deep_view()),
{
    if toks.len() == 0 {
        return Command::Unknown;
    }
    let ghost dv = toks.deep_view();
    assert(forall|k: int| 0 <= k < toks@.len() ==> dv[k] == #[trigger] toks@[k]@);
    let name = &toks[0];
    let nargs = toks.len() - 1;
    if str_eq(name, "onchaintransfer") {
        if nargs == 2 {
            Command::OnchainTransfer { address: toks[1].clone(), sats_text: toks[2].clone() }
        } else {
            Command::OnchainTransferUsage
        }
    } else if str_eq(name, "getaddress") {
        if nargs == 0 {
            Command::GetAddress
        } else {
            Command::Unknown
        }
    } else if str_eq(name, "openchannel") {
        if nargs == 3 {
            Command::OpenChannel {
                node_id: toks[1].clone(),
                net_address: toks[2].clone(),
                sats_text: toks[3].clone(),
            }
        } else {
            Command::OpenChannelUsage
        }
    } else if str_eq(name, "balance") {
        if nargs == 0 {
            Command::Balance
        } else {
            Command::Unknown
        }
    } else if str_eq(name, "connecttolsp") && matches!(role, Role::User) {
        if nargs == 0 {
            Command::ConnectToLsp
        } else {
            Command::Unknown
        }
    } else if str_eq(name, "closeallchannels") && matches!(role, Role::User) {
        if nargs == 0 {
            Command::CloseAllChannels
        } else {
            Command::Unknown
        }
    } else if str_eq(name, "listallchannels") {
        if nargs == 0 {
            Command::ListChannels
        } else {
            Command::Unknown
        }
    } else if str_eq(name, "getinvoice") {
        if nargs == 1 {
            Command::GetInvoice { sats_text: toks[1].clone() }
        } else {
            Command::Unknown
        }
    } else if str_eq(name, "payinvoice") {
        if nargs == 1 {
            Command::PayInvoice { invoice: toks[1].clone() }
        } else {
            Command::Unknown
        }
    } else if str_eq(name, "getjitinvoice") && matches!(role, Role::User) {
        if nargs == 0 {
            Command::GetJitInvoice
        } else {
            Command::Unknown
        }
    } else if str_eq(name, "exit") {
        Command::Exit
    } else {
        Command::Unknown
    }
}

} // verus!
