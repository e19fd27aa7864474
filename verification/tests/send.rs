use clap::{Arg, ArgAction, ArgMatches, Command};
use hypecli::address::Address;
use hypecli::decimal::Decimal;
use hypecli::market::{AssetTarget, Chain, SignerArgs, SpotToken};
use hypecli::send::run::{Labels, SendEvent, SendRequest, SendState, SendStep};
use hypecli::send::{ArgsError, MultiSigSendAsset, SendArgs, SendCmd};

type Step = SendStep<&'static str>;

const MULTISIG: &str = "0x1111111111111111111111111111111111111111";
const RECIPIENT: &str = "0x2222222222222222222222222222222222222222";

fn address(text: &str) -> Address {
    Address { bytes: text.parse::<alloy::primitives::Address>().unwrap().into_array() }
}

fn decimal(text: &str) -> Decimal {
    let u = text.parse::<rust_decimal::Decimal>().unwrap().unpack();
    Decimal { negative: u.negative, lo: u.lo, mid: u.mid, hi: u.hi, scale: u.scale }
}

fn option(name: &'static str) -> Arg {
    Arg::new(name).long(name)
}

fn cli() -> Command {
    let shared = |command: Command| {
        command
            .arg(option("token").required(true))
            .arg(option("amount").required(true))
            .arg(option("chain"))
            .arg(option("multi-sig-addr"))
            .arg(option("local").action(ArgAction::SetTrue))
            .arg(option("to"))
    };
    Command::new("hypecli")
        .subcommand(
            shared(Command::new("send"))
                .arg(option("destination"))
                .arg(option("from"))
                .arg(option("from-subaccount")),
        )
        .subcommand(
            Command::new("multisig").subcommand(
                shared(Command::new("send-asset"))
                    .arg(option("source"))
                    .arg(option("dest")),
            ),
        )
}

fn text(matches: &ArgMatches, name: &str) -> Option<String> {
    matches.get_one::<String>(name).cloned()
}

fn signer(matches: &ArgMatches) -> SignerArgs {
    let chain = match text(matches, "chain").as_deref() {
        Some("testnet") => Chain::Testnet,
        _ => Chain::Mainnet,
    };
    SignerArgs { chain }
}

fn try_parse_send(args: &[&str]) -> Result<SendCmd, ArgsError> {
    let matches = cli().try_get_matches_from(args).unwrap();
    match matches.subcommand() {
        Some(("send", m)) => SendCmd::from_args(SendArgs {
            signer: signer(m),
            token: text(m, "token").unwrap(),
            amount: decimal(&text(m, "amount").unwrap()),
            destination: text(m, "destination").map(|a| address(&a)),
            from: text(m, "from").map(|name| AssetTarget::named(&name)),
            to: text(m, "to").map(|name| AssetTarget::named(&name)),
            from_subaccount: text(m, "from-subaccount"),
            multi_sig_addr: text(m, "multi-sig-addr").map(|a| address(&a)),
            local: m.get_flag("local"),
        }),
        Some(("multisig", m)) => {
            let (_, m) = m.subcommand().unwrap();
            Ok(MultiSigSendAsset {
                signer: signer(m),
                multi_sig_addr: address(&text(m, "multi-sig-addr").unwrap()),
                to: address(&text(m, "to").unwrap()),
                token: text(m, "token").unwrap(),
                amount: decimal(&text(m, "amount").unwrap()),
                source: AssetTarget::named(&text(m, "source").unwrap()),
                dest: AssetTarget::named(&text(m, "dest").unwrap()),
                local: m.get_flag("local"),
            }
            .into())
        }
        _ => panic!("expected send command"),
    }
}

fn parse_send(args: &[&str]) -> SendCmd {
    try_parse_send(args).unwrap()
}

fn token() -> SpotToken {
    SpotToken {
        name: "USDT0".into(),
        index: 268,
        token_id: Default::default(),
        evm_contract: None,
        cross_chain_address: None,
        sz_decimals: 2,
        wei_decimals: 8,
        evm_extra_decimals: 0,
    }
}

fn labels() -> Labels {
    Labels { from: "perp".to_string(), to: "spot".to_string() }
}

#[test]
fn internal_multisig_transfer_defaults_to_multisig_account() {
    let cmd = parse_send(&[
        "hypecli",
        "send",
        "--token",
        "USDT0",
        "--amount",
        "100",
        "--multi-sig-addr",
        MULTISIG,
        "--from",
        "perp",
        "--to",
        "spot",
        "--local",
    ]);
    assert!(cmd.local);
    let account = cmd.multi_sig_addr.unwrap();
    let transfer = cmd.build_transfer(account, token(), 123);
    assert_eq!(transfer.destination, account);
    assert!(matches!(transfer.source_dex, AssetTarget::Perp));
    assert!(matches!(transfer.destination_dex, AssetTarget::Spot));
    assert_eq!(transfer.amount, decimal("100"));
    assert_eq!(transfer.nonce, 123);
}

#[test]
fn legacy_and_unified_multisig_send_produce_identical_actions() {
    let unified = parse_send(&[
        "hypecli",
        "send",
        "--token",
        "USDT0",
        "--amount",
        "100",
        "--multi-sig-addr",
        MULTISIG,
        "--destination",
        RECIPIENT,
        "--from",
        "spot",
        "--to",
        "xyz",
        "--chain",
        "testnet",
        "--local",
    ]);
    let legacy = parse_send(&[
        "hypecli",
        "multisig",
        "send-asset",
        "--token",
        "USDT0",
        "--amount",
        "100",
        "--multi-sig-addr",
        MULTISIG,
        "--to",
        RECIPIENT,
        "--source",
        "spot",
        "--dest",
        "xyz",
        "--chain",
        "testnet",
        "--local",
    ]);
    assert_eq!(unified.multi_sig_addr, legacy.multi_sig_addr);
    assert_eq!(unified.local, legacy.local);
    let account = unified.multi_sig_addr.unwrap();
    let action = |cmd: &SendCmd| (cmd.build_transfer(account, token(), 123), cmd.chain);
    assert_eq!(action(&unified), action(&legacy));
    assert_eq!(
        unified.build_transfer(account, token(), 123).destination,
        address(RECIPIENT)
    );
}

#[test]
fn single_signer_send_preserves_defaults_and_rejects_local_flag() {
    let args = ["hypecli", "send", "--token", "USDC", "--amount", "100"];
    let cmd = parse_send(&args);
    assert!(cmd.multi_sig_addr.is_none());
    assert!(!cmd.local);
    let signer = address(RECIPIENT);
    assert_eq!(cmd.build_transfer(signer, token(), 123).destination, signer);
    let mut invalid = args.to_vec();
    invalid.push("--local");
    assert!(try_parse_send(&invalid).is_err());
}

#[test]
fn local_without_a_wallet_is_named_as_the_error() {
    let args = ["hypecli", "send", "--token", "USDC", "--amount", "1", "--local"];
    assert_eq!(try_parse_send(&args), Err(ArgsError::LocalWithoutMultiSig));
}

#[test]
fn locations_default_to_the_perpetuals_balance() {
    let cmd = parse_send(&["hypecli", "send", "--token", "0", "--amount", "1"]);
    assert_eq!(cmd.from, AssetTarget::Perp);
    assert_eq!(cmd.to, AssetTarget::Perp);
    assert_eq!(cmd.from_subaccount, None);
}

#[test]
fn locations_are_read_by_name() {
    assert_eq!(AssetTarget::named("perp"), AssetTarget::Perp);
    assert_eq!(AssetTarget::named("spot"), AssetTarget::Spot);
    assert_eq!(AssetTarget::named("xyz"), AssetTarget::Dex("xyz".to_string()));
}

#[test]
fn transfer_carries_every_field() {
    let cmd = parse_send(&[
        "hypecli",
        "send",
        "--token",
        "USDT0",
        "--amount",
        "1.50",
        "--from-subaccount",
        "savings",
        "--from",
        "xyz",
    ]);
    let transfer = cmd.build_transfer(address(MULTISIG), token(), 7);
    assert_eq!(transfer.source_dex, AssetTarget::Dex("xyz".to_string()));
    assert_eq!(transfer.destination_dex, AssetTarget::Perp);
    assert_eq!(transfer.token.0, token());
    assert_eq!(transfer.from_sub_account, "savings");
    let plain = parse_send(&["hypecli", "send", "--token", "0", "--amount", "1"]);
    assert_eq!(plain.build_transfer(address(MULTISIG), token(), 7).from_sub_account, "");
}

#[test]
fn single_signer_run_announces_and_sends() {
    let recipient = "0xd8da6bf26964af9d7eed9e03e53415d37aa96045";
    let cmd = parse_send(&[
        "hypecli",
        "send",
        "--token",
        "USDT0",
        "--amount",
        "1.50",
        "--from-subaccount",
        "savings",
        "--to",
        "spot",
        "--destination",
        recipient,
    ]);
    let step: Step = cmd.run(labels());
    assert!(step.lines.is_empty());
    assert_eq!(
        step.request,
        Some(SendRequest::FindToken { chain: Chain::Mainnet, token: "USDT0".to_string() })
    );
    let step: Step = step.state.step(SendEvent::Token(token()));
    assert_eq!(step.request, Some(SendRequest::FindSigner));
    let step: Step = step.state.step(SendEvent::SignerFound(address(RECIPIENT)));
    assert!(step.lines.is_empty());
    assert_eq!(step.request, Some(SendRequest::TakeNonce));
    let step: Step = step.state.step(SendEvent::Nonce(123));
    assert_eq!(
        step.lines,
        vec![
            "Sending 1.50 USDT0 from perp to spot",
            "  From: 0x2222222222222222222222222222222222222222",
            "  To:   0xd8dA6BF26964aF9D7eEd9e03E53415D37aA96045",
            "  Subaccount: savings",
        ]
    );
    match step.request {
        Some(SendRequest::SendAsset { chain, transfer, nonce }) => {
            assert_eq!(chain, Chain::Mainnet);
            assert_eq!(transfer.destination, address(recipient));
            assert_eq!(transfer.nonce, 123);
            assert_eq!(nonce, 123);
        }
        _ => panic!("expected a transfer"),
    }
    let step: Step = step.state.step(SendEvent::Submitted);
    assert_eq!(step.lines, vec!["Success!"]);
    assert_eq!(step.request, Some(SendRequest::Finish(Ok(()))));
    let step: Step = step.state.step(SendEvent::Submitted);
    assert_eq!(step, SendStep { state: SendState::Finished, lines: vec![], request: None });
}

#[test]
fn announcement_without_subaccount_has_three_lines() {
    let cmd = parse_send(&["hypecli", "send", "--token", "USDT0", "--amount", "100"]);
    let step: Step = cmd.run(labels());
    let step: Step = step.state.step(SendEvent::Token(token()));
    let step: Step = step.state.step(SendEvent::SignerFound(address(RECIPIENT)));
    let step: Step = step.state.step(SendEvent::Nonce(1));
    assert_eq!(
        step.lines,
        vec![
            "Sending 100 USDT0 from perp to spot",
            "  From: 0x2222222222222222222222222222222222222222",
            "  To:   0x2222222222222222222222222222222222222222",
        ]
    );
}

#[test]
fn multi_sig_run_prints_nothing_and_pays_from_the_wallet() {
    let cmd = parse_send(&[
        "hypecli",
        "send",
        "--token",
        "USDT0",
        "--amount",
        "100",
        "--multi-sig-addr",
        MULTISIG,
        "--chain",
        "testnet",
        "--local",
    ]);
    let wallet = address(MULTISIG);
    let step: Step = cmd.run(labels());
    let step: Step = step.state.step(SendEvent::Token(token()));
    assert_eq!(
        step.request,
        Some(SendRequest::ReadMultiSigConfig { chain: Chain::Testnet, account: wallet })
    );
    let step: Step = step.state.step(SendEvent::MultiSigConfig(vec![address(RECIPIENT)]));
    assert_eq!(
        step.request,
        Some(SendRequest::FindSigners { authorized: vec![address(RECIPIENT)] })
    );
    let step: Step = step.state.step(SendEvent::SignersFound);
    assert_eq!(step.request, Some(SendRequest::TakeNonce));
    let step: Step = step.state.step(SendEvent::Nonce(9));
    assert!(step.lines.is_empty());
    match step.request {
        Some(SendRequest::ExecuteMultiSig { chain, account, transfer, nonce, local }) => {
            assert_eq!(chain, Chain::Testnet);
            assert_eq!(account, wallet);
            assert_eq!(transfer.destination, wallet);
            assert_eq!((transfer.nonce, nonce), (9, 9));
            assert!(local);
        }
        _ => panic!("expected a multi-sig transfer"),
    }
    let step: Step = step.state.step(SendEvent::Submitted);
    assert!(step.lines.is_empty());
    assert_eq!(step.request, Some(SendRequest::Finish(Ok(()))));
}

#[test]
fn failed_lookup_ends_the_transfer() {
    let cmd = parse_send(&["hypecli", "send", "--token", "NOPE", "--amount", "100"]);
    let step: Step = cmd.run(labels());
    let step: Step = step.state.step(SendEvent::Failed("unknown token"));
    assert_eq!(
        step,
        SendStep {
            state: SendState::Finished,
            lines: vec![],
            request: Some(SendRequest::Finish(Err("unknown token"))),
        }
    );
}

#[test]
fn replies_nobody_asked_for_change_nothing() {
    let cmd = || parse_send(&["hypecli", "send", "--token", "USDT0", "--amount", "100"]);
    let state = || SendState::FindingToken { cmd: cmd(), labels: labels() };
    let step: Step = state().step(SendEvent::Submitted);
    assert_eq!(step, SendStep { state: state(), lines: vec![], request: None });
    let step: Step = state().step(SendEvent::Nonce(1));
    assert_eq!(step, SendStep { state: state(), lines: vec![], request: None });
}
