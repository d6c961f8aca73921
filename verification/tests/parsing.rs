use ln_harness::command::{parse_command, Command, Role};
use ln_harness::digits::parse_u64;
use ln_harness::tokenize::tokenize;

fn toks(words: &[&str]) -> Vec<String> {
    words.iter().map(|w| w.to_string()).collect()
}

#[test]
fn tokenize_splits_on_whitespace_runs() {
    assert_eq!(tokenize("getinvoice 1000"), toks(&["getinvoice", "1000"]));
    assert_eq!(tokenize("  getinvoice \t 1000  "), toks(&["getinvoice", "1000"]));
    assert_eq!(tokenize("a b c"), toks(&["a", "b", "c"]));
}

#[test]
fn tokenize_of_whitespace_is_empty() {
    assert_eq!(tokenize(""), Vec::<String>::new());
    assert_eq!(tokenize("   \t \r\n"), Vec::<String>::new());
}

#[test]
fn parse_u64_accepts_digit_strings() {
    assert_eq!(parse_u64("0"), Some(0));
    assert_eq!(parse_u64("42"), Some(42));
    assert_eq!(parse_u64("1000"), Some(1000));
    assert_eq!(parse_u64("18446744073709551615"), Some(u64::MAX));
}

#[test]
fn parse_u64_rejects_everything_else() {
    assert_eq!(parse_u64(""), None);
    assert_eq!(parse_u64("abc"), None);
    assert_eq!(parse_u64("12a"), None);
    assert_eq!(parse_u64("-1"), None);
    assert_eq!(parse_u64("1.5"), None);
    assert_eq!(parse_u64("18446744073709551616"), None);
    assert_eq!(parse_u64("99999999999999999999999"), None);
}

#[test]
fn empty_line_is_unknown() {
    assert_eq!(parse_command(Role::User, &toks(&[])), Command::Unknown);
}

#[test]
fn unrecognized_name_is_unknown() {
    assert_eq!(parse_command(Role::User, &toks(&["frobnicate"])), Command::Unknown);
}

#[test]
fn argument_shapes_are_exact() {
    assert_eq!(parse_command(Role::User, &toks(&["getaddress"])), Command::GetAddress);
    assert_eq!(parse_command(Role::User, &toks(&["getaddress", "x"])), Command::Unknown);
    assert_eq!(parse_command(Role::Lsp, &toks(&["balance"])), Command::Balance);
    assert_eq!(parse_command(Role::Lsp, &toks(&["balance", "now"])), Command::Unknown);
    assert_eq!(
        parse_command(Role::User, &toks(&["getinvoice", "1000"])),
        Command::GetInvoice { sats_text: "1000".to_string() }
    );
    assert_eq!(parse_command(Role::User, &toks(&["getinvoice"])), Command::Unknown);
    assert_eq!(parse_command(Role::User, &toks(&["getinvoice", "1", "2"])), Command::Unknown);
}

#[test]
fn usage_errors_keep_their_command() {
    assert_eq!(
        parse_command(Role::User, &toks(&["onchaintransfer", "addr"])),
        Command::OnchainTransferUsage
    );
    assert_eq!(
        parse_command(Role::Lsp, &toks(&["openchannel", "a", "b"])),
        Command::OpenChannelUsage
    );
}

#[test]
fn user_only_commands() {
    assert_eq!(parse_command(Role::User, &toks(&["connecttolsp"])), Command::ConnectToLsp);
    assert_eq!(parse_command(Role::Lsp, &toks(&["connecttolsp"])), Command::Unknown);
    assert_eq!(parse_command(Role::User, &toks(&["closeallchannels"])), Command::CloseAllChannels);
    assert_eq!(parse_command(Role::Lsp, &toks(&["closeallchannels"])), Command::Unknown);
    assert_eq!(parse_command(Role::User, &toks(&["getjitinvoice"])), Command::GetJitInvoice);
    assert_eq!(parse_command(Role::Lsp, &toks(&["getjitinvoice"])), Command::Unknown);
}

#[test]
fn exit_takes_any_arguments() {
    assert_eq!(parse_command(Role::User, &toks(&["exit"])), Command::Exit);
    assert_eq!(parse_command(Role::User, &toks(&["exit", "now"])), Command::Exit);
    assert_eq!(parse_command(Role::Lsp, &toks(&["exit", "a", "b", "c"])), Command::Exit);
}
