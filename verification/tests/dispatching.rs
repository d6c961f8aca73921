use ln_harness::command::Role;
use ln_harness::dispatch::{respond, NodeAction, Step};

// Valid Segwit destinations: the first for the Testnet family (which Signet
// belongs to), the second for Mainnet.
const SIGNET_ADDR: &str = "tb1qrp33g0q5c5txsp9arysrx4k6zdkfs4nce4xj0gdcccefvpysxf3q0sl5k7";
const MAINNET_ADDR: &str = "bc1qw508d6qejxtdg4y5r3zarvary0c5xw7kv8f3t4";

// A well-formed compressed secp256k1 public key.
const NODE_ID: &str = "0279be667ef9dcbbac55a06295ce870b07029bfcdb2dce28d959f2815b16f81798";

// A properly signed BOLT11 invoice.
const INVOICE: &str = "lnbc25m1pvjluezpp5qqqsyqcyq5rqwzqfqqqsyqcyq5rqwzqfqqqsyqcyq5rqwzqfqypqdq5vdhkven9v5sxyetpdeessp5zyg3zyg3zyg3zyg3zyg3zyg3zyg3zyg3zyg3zyg3zyg3zyg3zygs9q5sqqqqqqqqqqqqqqqpqsq67gye39hfg3zd8rgc80k32tvy9xk2xunwm5lzexnvpx6fd77en8qaq424dxgt56cag2dpt359k3ssyhetktkpqh24jqnjyw6uqd08sgptq44qu";

#[test]
fn whitespace_only_lines_are_unknown() {
    let expected = Step::Reply("Unknown command or incorrect arguments".to_string());
    assert_eq!(respond(Role::User, ""), expected);
    assert_eq!(respond(Role::User, "   \t  "), expected);
    assert_eq!(respond(Role::Lsp, " \r\n"), expected);
}

#[test]
fn reads_produce_read_only_actions() {
    assert_eq!(respond(Role::User, "getaddress"), Step::Act(NodeAction::NewAddress));
    assert_eq!(respond(Role::Lsp, "balance"), Step::Act(NodeAction::ListBalances));
    assert_eq!(respond(Role::User, "listallchannels"), Step::Act(NodeAction::ListChannels));
}

#[test]
fn getinvoice_requests_a_thousandfold_msats() {
    assert_eq!(
        respond(Role::User, "getinvoice 1000"),
        Step::Act(NodeAction::ReceiveInvoice {
            msats: 1_000_000,
            description: "test invoice".to_string(),
            expiry_secs: 6000,
        })
    );
}

#[test]
fn getinvoice_rejects_bad_and_oversized_amounts() {
    let expected = Step::Reply("Invalid sats value provided".to_string());
    assert_eq!(respond(Role::User, "getinvoice abc"), expected);
    assert_eq!(respond(Role::Lsp, "getinvoice 18446744073709551615"), expected);
}

#[test]
fn onchaintransfer_sends_to_a_signet_address() {
    let line = format!("onchaintransfer {} 2500", SIGNET_ADDR);
    assert_eq!(
        respond(Role::User, &line),
        Step::Act(NodeAction::SendOnchain { address: SIGNET_ADDR.to_string(), sats: 2500 })
    );
}

#[test]
fn onchaintransfer_rejects_a_non_numeric_amount() {
    let line = format!("onchaintransfer {} abc", SIGNET_ADDR);
    assert_eq!(
        respond(Role::User, &line),
        Step::Reply("Invalid amount of satoshis provided".to_string())
    );
}

#[test]
fn onchaintransfer_rejects_a_mainnet_address() {
    let line = format!("onchaintransfer {} 100", MAINNET_ADDR);
    assert_eq!(
        respond(Role::User, &line),
        Step::Reply("Bitcoin address is not valid for Signet".to_string())
    );
    assert_eq!(respond(Role::Lsp, &line), Step::Reply(
        "Bitcoin address is not valid for Signet".to_string(),
    ));
}

#[test]
fn onchaintransfer_rejects_a_malformed_address() {
    assert_eq!(
        respond(Role::User, "onchaintransfer notanaddress 100"),
        Step::Reply("Invalid bitcoin address".to_string())
    );
}

#[test]
fn onchaintransfer_states_its_usage() {
    let expected = Step::Reply(
        "Error: 'onchaintransfer' command requires two parameters: <destination_address> and <sats>"
            .to_string(),
    );
    assert_eq!(respond(Role::User, "onchaintransfer onlyone"), expected);
    assert_eq!(respond(Role::Lsp, "onchaintransfer a b c"), expected);
}

#[test]
fn openchannel_pushes_half_the_capacity() {
    let line = format!("openchannel {} 127.0.0.1:9737 100000", NODE_ID);
    assert_eq!(
        respond(Role::User, &line),
        Step::Act(NodeAction::OpenChannel {
            node_id: NODE_ID.to_string(),
            net_address: "127.0.0.1:9737".to_string(),
            sats: 100000,
            push_msat: 50_000_000,
        })
    );
}

#[test]
fn openchannel_rejects_bad_arguments() {
    assert_eq!(
        respond(Role::User, "openchannel nothex 127.0.0.1:9737 100000"),
        Step::Reply("Invalid node id provided".to_string())
    );
    let bad_addr = format!("openchannel {} not!an!address 100000", NODE_ID);
    assert_eq!(
        respond(Role::User, &bad_addr),
        Step::Reply("Invalid listening address provided".to_string())
    );
    let bad_sats = format!("openchannel {} 127.0.0.1:9737 many", NODE_ID);
    assert_eq!(
        respond(Role::Lsp, &bad_sats),
        Step::Reply("Invalid amount of satoshis provided".to_string())
    );
}

#[test]
fn openchannel_states_its_usage() {
    assert_eq!(
        respond(Role::Lsp, "openchannel a b"),
        Step::Reply(
            "Error: 'openchannel' command requires three parameters: <node_id>, <listening_address>, and <sats>"
                .to_string(),
        )
    );
}

#[test]
fn payinvoice_accepts_a_signed_invoice() {
    let line = format!("payinvoice {}", INVOICE);
    assert_eq!(
        respond(Role::User, &line),
        Step::Act(NodeAction::PayInvoice { invoice: INVOICE.to_string() })
    );
}

#[test]
fn payinvoice_reports_a_parse_error() {
    match respond(Role::Lsp, "payinvoice notaninvoice") {
        Step::Reply(m) => assert!(m.starts_with("Error parsing invoice: ")),
        other => panic!("expected a reply, got {:?}", other),
    }
}

#[test]
fn getjitinvoice_uses_the_fixed_parameters() {
    assert_eq!(
        respond(Role::User, "getjitinvoice"),
        Step::Act(NodeAction::ReceiveViaJitChannel {
            msats: 50_000_000,
            description: "Stable Channel".to_string(),
            expiry_secs: 3600,
            max_lsp_fee_msat: 10_000_000,
        })
    );
    assert_eq!(
        respond(Role::Lsp, "getjitinvoice"),
        Step::Reply("Unknown command or incorrect arguments".to_string())
    );
}

#[test]
fn connecttolsp_does_nothing() {
    assert_eq!(respond(Role::User, "connecttolsp"), Step::Nothing);
}

#[test]
fn closeallchannels_is_a_user_command() {
    assert_eq!(respond(Role::User, "closeallchannels"), Step::Act(NodeAction::CloseAllChannels));
    assert_eq!(
        respond(Role::Lsp, "closeallchannels"),
        Step::Reply("Unknown command or incorrect arguments".to_string())
    );
}

#[test]
fn exit_ends_the_loop_with_any_trailing_arguments() {
    assert_eq!(respond(Role::User, "exit"), Step::Exit);
    assert_eq!(respond(Role::User, "exit now"), Step::Exit);
    assert_eq!(respond(Role::Lsp, "  exit please  "), Step::Exit);
}
