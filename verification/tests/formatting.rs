use ln_harness::amount::Bitcoin;
use ln_harness::command::Role;
use ln_harness::config::{
    liquidity_source_addr, liquidity_source_token, msg_no_listen_addr, node_config, render_banner,
};
use ln_harness::render::{
    msg_channel_opened, msg_channels_end, msg_channels_header, msg_closing_all,
    msg_funding_address, msg_invoice, msg_no_channels, msg_onchain_success, msg_payment_sent,
    render_balances, render_channel_entry,
};

#[test]
fn one_btc_renders_as_one() {
    assert_eq!(Bitcoin::from_sats(100_000_000).to_text(), "1.00000000");
}

#[test]
fn zero_btc_renders_as_zero() {
    assert_eq!(Bitcoin::from_sats(0).to_text(), "0.00000000");
}

#[test]
fn one_satoshi_renders_in_last_place() {
    assert_eq!(Bitcoin::from_sats(1).to_text(), "0.00000001");
}

#[test]
fn one_and_a_half_btc() {
    assert_eq!(Bitcoin::from_sats(150_000_000).to_text(), "1.50000000");
}

#[test]
fn largest_amount_renders_fully() {
    assert_eq!(Bitcoin::from_sats(u64::MAX).to_text(), "184467440737.09551615");
}

#[test]
fn nearby_amounts_render_differently() {
    assert_ne!(Bitcoin::from_sats(99_999_999).to_text(), Bitcoin::from_sats(100_000_000).to_text());
    assert_ne!(Bitcoin::from_sats(10).to_text(), Bitcoin::from_sats(100).to_text());
}

#[test]
fn sats_returns_the_wrapped_count() {
    assert_eq!(Bitcoin::from_sats(1234).sats(), 1234);
}

#[test]
fn user_balance_report() {
    assert_eq!(
        render_balances(Role::User, 100_000_000, 50_000_000),
        "User On-Chain Balance: 1.00000000\nStable Receiver Lightning Balance: 0.50000000"
    );
}

#[test]
fn lsp_balance_report() {
    assert_eq!(
        render_balances(Role::Lsp, 0, 1),
        "LSP On-Chain Balance: 0.00000000\nLSP Lightning Balance: 0.00000001"
    );
}

#[test]
fn channel_entry_listing() {
    assert_eq!(
        render_channel_entry("abc123", 100_000, true),
        "--------------------------------------------\nChannel ID: abc123\nChannel Value: 0.00100000\nChannel Ready?: true"
    );
    assert_eq!(
        render_channel_entry("ff", 0, false),
        "--------------------------------------------\nChannel ID: ff\nChannel Value: 0.00000000\nChannel Ready?: false"
    );
}

#[test]
fn fixed_notices() {
    assert_eq!(msg_no_channels(), "No channels found.");
    assert_eq!(msg_channels_header(), "User Channels:");
    assert_eq!(msg_channels_end(), "--------------------------------------------");
    assert_eq!(msg_closing_all(), "Closing all channels.");
    assert_eq!(msg_no_listen_addr(), "No listening addresses found.");
}

#[test]
fn outcome_lines_carry_their_values() {
    assert_eq!(
        msg_onchain_success("deadbeef"),
        "On-chain transfer successful. Transaction ID: deadbeef"
    );
    assert_eq!(msg_funding_address(Role::User, "tb1xyz"), "User Funding Address: tb1xyz");
    assert_eq!(msg_funding_address(Role::Lsp, "tb1xyz"), "LSP Funding Address: tb1xyz");
    assert_eq!(msg_channel_opened("02aa"), "Channel successfully opened to 02aa");
    assert_eq!(msg_invoice(Role::User, "lnbc1"), "User Invoice: lnbc1");
    assert_eq!(msg_invoice(Role::Lsp, "lnbc1"), "LSP Invoice: lnbc1");
    assert_eq!(
        msg_payment_sent(Role::User, "0011"),
        "Payment sent from User with payment_id: 0011"
    );
    assert_eq!(msg_payment_sent(Role::Lsp, "0011"), "Payment sent from LSP with payment_id: 0011");
}

#[test]
fn node_config_for_user_role() {
    let c = node_config("user", 9736);
    assert_eq!(c.alias, "user");
    assert_eq!(c.storage_dir, "./data/user");
    assert_eq!(c.listen_addr, "127.0.0.1:9736");
    assert_eq!(c.node_alias, "some_alias");
    assert_eq!(c.esplora_url, "https://mutinynet.com/api/");
}

#[test]
fn node_config_for_lsp_role() {
    let c = node_config("lsp", 9737);
    assert_eq!(c.storage_dir, "./data/lsp");
    assert_eq!(c.listen_addr, "127.0.0.1:9737");
}

#[test]
fn liquidity_source_constants() {
    assert_eq!(liquidity_source_addr(), "127.0.0.1:9377");
    assert_eq!(liquidity_source_token(), "00000000000000000000000000000000");
}

#[test]
fn startup_banner() {
    assert_eq!(
        render_banner("user", "02aa", "127.0.0.1:9736"),
        "\nActor Role: user\nPublic Key: 02aa\nInternet Address: 127.0.0.1:9736\n"
    );
}
