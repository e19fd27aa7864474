use hypecli::address::Address;
use hypecli::decimal::Decimal;
use hypecli::earn::report::{position, status_report, ReserveState, Side, TokenState, UserState};
use hypecli::earn::run::{announce, EarnEvent, EarnRequest, EarnState, EarnStep};
use hypecli::earn::{
    format_pct, render_pct, token_name, try_format_pct, BorrowLendAction, BorrowLendOperation,
    EarnCmd, EarnStatusCmd, EarnTransferCmd, USDC_TOKEN,
};
use hypecli::market::{Chain, SignerArgs, SpotToken};

type Step = EarnStep<&'static str>;

fn decimal(text: &str) -> Decimal {
    let u = text.parse::<rust_decimal::Decimal>().unwrap().unpack();
    Decimal { negative: u.negative, lo: u.lo, mid: u.mid, hi: u.hi, scale: u.scale }
}

fn token(name: &str, index: u32) -> SpotToken {
    SpotToken {
        name: name.to_string(),
        index,
        token_id: [0; 16],
        evm_contract: None,
        cross_chain_address: None,
        sz_decimals: 2,
        wei_decimals: 8,
        evm_extra_decimals: 0,
    }
}

fn transfer(amount: Option<&str>, token: Option<u32>) -> EarnTransferCmd {
    EarnTransferCmd::from_args(SignerArgs { chain: Chain::Testnet }, amount.map(decimal), token)
}

fn reserve(supply: &str, borrow: &str, utilization: &str) -> ReserveState {
    ReserveState {
        borrow_yearly_rate: borrow.to_string(),
        supply_yearly_rate: supply.to_string(),
        total_supplied: "1000.5".to_string(),
        total_borrowed: "646.3".to_string(),
        utilization: utilization.to_string(),
        oracle_px: "1.0".to_string(),
    }
}

fn side(value: &str) -> Option<Side> {
    Some(Side { value: value.to_string() })
}

fn user() -> UserState {
    UserState {
        token_to_state: vec![
            (7, TokenState { supply: side("1"), borrow: None }),
            (0, TokenState { supply: side("12.5"), borrow: None }),
            (0, TokenState { supply: side("99"), borrow: side("99") }),
        ],
        health: "healthy".to_string(),
    }
}

#[test]
fn renders_fraction_as_percent() {
    assert_eq!(format_pct("0.0290714004"), "2.91");
    assert_eq!(format_pct("0.6460311198"), "64.60");
    assert_eq!(format_pct("garbage"), "garbage");
}

#[test]
fn percent_always_has_two_places() {
    assert_eq!(format_pct("0.25"), "25.00");
    assert_eq!(format_pct("0.5"), "50.00");
    assert_eq!(format_pct("1"), "100.00");
    assert_eq!(format_pct("12.3456"), "1234.56");
    assert_eq!(format_pct("5e-1"), "50.00");
}

#[test]
fn percent_of_zero_has_two_places_and_no_sign() {
    assert_eq!(format_pct("0"), "0.00");
    assert_eq!(format_pct("0.0000"), "0.00");
    assert_eq!(format_pct("-0.00"), "0.00");
    assert_eq!(format_pct("-0.1e-28"), "0.00");
}

#[test]
fn percent_rounds_ties_to_the_even_hundredth() {
    assert_eq!(format_pct("0.00005"), "0.00");
    assert_eq!(format_pct("0.00015"), "0.02");
    assert_eq!(format_pct("0.00025"), "0.02");
    assert_eq!(format_pct("0.000250001"), "0.03");
}

#[test]
fn percent_keeps_the_sign_unless_it_rounds_to_zero() {
    assert_eq!(format_pct("-0.005"), "-0.50");
    assert_eq!(format_pct("-0.00001"), "0.00");
}

fn shown(rate: &str) -> rust_decimal::Decimal {
    format_pct(rate).parse().unwrap()
}

#[test]
fn percentages_keep_the_order_of_the_rates() {
    let rates = [
        "-3", "-0.02005", "-0.020049", "-0.00005", "-0.00000", "0", "0.00005", "0.000051",
        "0.00015", "0.1", "0.10000000000000000001", "0.5", "7.9228162514264337593543950335", "8",
    ];
    for pair in rates.windows(2) {
        assert!(shown(pair[0]) <= shown(pair[1]), "{} and {}", pair[0], pair[1]);
    }
    assert!(shown("0.00005") < shown("0.000051"));
    assert_eq!(shown("0.1"), shown("0.10000000000000000001"));
}

#[test]
fn percentages_of_opposite_rates_are_opposite() {
    for (rate, opposite) in [
        ("0.5", "-0.500"),
        ("0.00015", "-0.00015"),
        ("0.00025", "-0.000250"),
        ("0.00001", "-0.00001"),
        ("0", "-0.00"),
    ] {
        assert_eq!(shown(rate), -shown(opposite));
    }
    assert_eq!(format_pct("0.00015"), "0.02");
    assert_eq!(format_pct("-0.00015"), "-0.02");
}

#[test]
fn percentage_is_the_rate_in_hundredths() {
    assert_eq!(shown("0.0290714004"), "2.91".parse().unwrap());
    assert_eq!(shown("12.3456"), "1234.56".parse().unwrap());
    assert_eq!(shown("-0.02005"), "-2.00".parse().unwrap());
    assert_eq!(shown("-0.02015"), "-2.02".parse().unwrap());
}

#[test]
fn percent_of_a_long_number_loses_nothing() {
    assert_eq!(format_pct("0.1000000000000000000000000000"), "10.00");
    assert_eq!(format_pct("7.9228162514264337593543950335"), "792.28");
    assert_eq!(
        format_pct("792281625142643375935439503"),
        "79228162514264337593543950300.00"
    );
}

#[test]
fn too_large_a_percentage_is_missing() {
    assert_eq!(try_format_pct("792281625142643375935439504"), None);
    assert_eq!(
        try_format_pct("792281625142643375935439503").as_deref(),
        Some("79228162514264337593543950300.00")
    );
    assert_eq!(try_format_pct("792281625142643375935439503.4"), None);
    assert_eq!(
        try_format_pct("792281625142643375935439503.3").as_deref(),
        Some("79228162514264337593543950330.00")
    );
    assert_eq!(try_format_pct("garbage").as_deref(), Some("garbage"));
    assert_eq!(try_format_pct("").as_deref(), Some(""));
}

#[test]
fn rate_is_shown_from_its_reading() {
    assert_eq!(render_pct(Some(decimal("0.0290714004")), "x").as_deref(), Some("2.91"));
    assert_eq!(render_pct(None, "x").as_deref(), Some("x"));
    assert_eq!(render_pct(Some(decimal("792281625142643375935439504")), "x"), None);
}

#[test]
fn token_is_called_by_its_first_symbol_or_its_index() {
    let tokens = Some(vec![token("HYPE", 150), token("USDT0", 268), token("OTHER", 268)]);
    assert_eq!(token_name(&tokens, 268), "USDT0");
    assert_eq!(token_name(&tokens, 150), "HYPE");
    assert_eq!(token_name(&tokens, 0), "0");
    assert_eq!(token_name(&None, 268), "268");
    assert_eq!(token_name(&Some(vec![]), u32::MAX), "4294967295");
}

#[test]
fn arguments_default_to_usdc_on_mainnet() {
    assert_eq!(USDC_TOKEN, 0);
    assert_eq!(transfer(None, None).token, 0);
    assert_eq!(transfer(None, Some(268)).token, 268);
    assert_eq!(transfer(None, None).chain, Chain::Testnet);
    let user = Address { bytes: [3; 20] };
    let query = EarnStatusCmd::from_args(user, None, None);
    assert_eq!((query.token, query.chain), (0, Chain::Mainnet));
    let query = EarnStatusCmd::from_args(user, Some(5), Some(Chain::Testnet));
    assert_eq!((query.token, query.chain), (5, Chain::Testnet));
}

#[test]
fn transfer_is_announced_with_its_amount() {
    let supply = BorrowLendOperation::Supply;
    let withdraw = BorrowLendOperation::Withdraw;
    assert_eq!(announce(&transfer(Some("25"), None), supply, "USDC"), "Supplying 25 USDC ...");
    assert_eq!(announce(&transfer(Some("0.50"), None), supply, "USDC"), "Supplying 0.50 USDC ...");
    assert_eq!(announce(&transfer(None, None), withdraw, "0"), "Withdrawing max 0 ...");
}

#[test]
fn position_is_the_first_entry_of_the_token() {
    assert_eq!(position(&user(), 0), ("12.5".to_string(), "0".to_string()));
    assert_eq!(position(&user(), 7), ("1".to_string(), "0".to_string()));
    assert_eq!(position(&user(), 1), ("0".to_string(), "0".to_string()));
}

#[test]
fn report_lists_rates_and_position() {
    let reserve = reserve("0.0290714004", "0.05", "0.6460311198");
    assert_eq!(
        status_report("USDC", 0, &reserve, &user()).unwrap(),
        vec![
            "Reserve: USDC (token 0)",
            "Supply APY: 2.91%",
            "Borrow APY: 5.00%",
            "Utilization: 64.60%",
            "Total Supplied: 1000.5 USDC",
            "Total Borrowed: 646.3 USDC",
            "Oracle Price: $1.0",
            "",
            "Your Position:",
            "  Supplied: 12.5 USDC",
            "  Borrowed: 0 USDC",
            "  Health: healthy",
        ]
    );
}

#[test]
fn report_is_missing_where_a_rate_is_too_large() {
    let large = "792281625142643375935439504";
    assert!(status_report("USDC", 0, &reserve(large, "0", "0"), &user()).is_none());
    assert!(status_report("USDC", 0, &reserve("0", large, "0"), &user()).is_none());
    assert!(status_report("USDC", 0, &reserve("0", "0", large), &user()).is_none());
}

#[test]
fn supply_runs_to_its_end() {
    let cmd = transfer(Some("25"), None);
    let step: Step = EarnCmd::Supply(cmd).run();
    assert!(step.lines.is_empty());
    assert_eq!(step.request, Some(EarnRequest::FindSigner));
    let step: Step = step.state.step(EarnEvent::SignerFound);
    assert!(step.lines.is_empty());
    assert_eq!(step.request, Some(EarnRequest::FetchSpotTokens { chain: Chain::Testnet }));
    let step: Step = step.state.step(EarnEvent::SpotTokens(vec![token("USDC", 0)]));
    assert_eq!(step.lines, vec!["Supplying 25 USDC ..."]);
    assert_eq!(step.request, Some(EarnRequest::TakeNonce));
    let step: Step = step.state.step(EarnEvent::Nonce(123));
    assert!(step.lines.is_empty());
    let action = BorrowLendAction {
        operation: BorrowLendOperation::Supply,
        token: 0,
        amount: Some(decimal("25")),
    };
    assert_eq!(
        step.request,
        Some(EarnRequest::Submit { chain: Chain::Testnet, action, nonce: 123 })
    );
    let step: Step = step.state.step(EarnEvent::Submitted);
    assert_eq!(step.lines, vec!["Supplied successfully."]);
    assert_eq!(step.request, Some(EarnRequest::Finish(Ok(()))));
    let step: Step = step.state.step(EarnEvent::Submitted);
    assert_eq!(step, EarnStep { state: EarnState::Finished, lines: vec![], request: None });
}

#[test]
fn withdrawal_without_amount_or_tokens_goes_on() {
    let step: Step = EarnCmd::Withdraw(transfer(None, Some(268))).run();
    let step: Step = step.state.step(EarnEvent::SignerFound);
    let step: Step = step.state.step(EarnEvent::Failed("no tokens"));
    assert_eq!(step.lines, vec!["Withdrawing max 268 ..."]);
    let step: Step = step.state.step(EarnEvent::Nonce(1));
    let action = BorrowLendAction {
        operation: BorrowLendOperation::Withdraw,
        token: 268,
        amount: None,
    };
    assert_eq!(
        step.request,
        Some(EarnRequest::Submit { chain: Chain::Testnet, action, nonce: 1 })
    );
    let step: Step = step.state.step(EarnEvent::Submitted);
    assert_eq!(step.lines, vec!["Withdrawn successfully."]);
}

#[test]
fn failures_end_a_transfer_without_a_word() {
    let step: Step = EarnCmd::Supply(transfer(None, None)).run();
    let step: Step = step.state.step(EarnEvent::Failed("no signer"));
    let end = |error| EarnStep {
        state: EarnState::Finished,
        lines: vec![],
        request: Some(EarnRequest::Finish(Err(error))),
    };
    assert_eq!(step, end("no signer"));
    let submitting = EarnState::Submitting { operation: BorrowLendOperation::Supply };
    let step: Step = submitting.step(EarnEvent::Failed("refused"));
    assert_eq!(step, end("refused"));
}

#[test]
fn stray_replies_change_nothing() {
    let cmd = transfer(None, None);
    let state = || EarnState::FindingSigner { cmd, operation: BorrowLendOperation::Supply };
    let step: Step = state().step(EarnEvent::Submitted);
    assert_eq!(step, EarnStep { state: state(), lines: vec![], request: None });
}

#[test]
fn query_reads_reserve_then_user_then_reports() {
    let who = Address { bytes: [3; 20] };
    let step: Step = EarnCmd::Status(EarnStatusCmd::from_args(who, None, None)).run();
    assert_eq!(step.request, Some(EarnRequest::FetchSpotTokens { chain: Chain::Mainnet }));
    let step: Step = step.state.step(EarnEvent::Failed("no tokens"));
    assert!(step.lines.is_empty());
    assert_eq!(step.request, Some(EarnRequest::FetchReserve { chain: Chain::Mainnet, token: 0 }));
    let step: Step = step.state.step(EarnEvent::Reserve(reserve("0.1", "0.2", "0.3")));
    assert!(step.lines.is_empty());
    assert_eq!(step.request, Some(EarnRequest::FetchUser { chain: Chain::Mainnet, user: who }));
    let step: Step = step.state.step(EarnEvent::User(user()));
    assert_eq!(step.lines.len(), 12);
    assert_eq!(step.lines[0], "Reserve: 0 (token 0)");
    assert_eq!(step.lines[1], "Supply APY: 10.00%");
    assert_eq!(step.request, Some(EarnRequest::Finish(Ok(()))));
}

#[test]
fn query_gives_up_on_too_large_a_rate() {
    let who = Address { bytes: [3; 20] };
    let step: Step = EarnStatusCmd::from_args(who, None, None).run();
    let step: Step = step.state.step(EarnEvent::SpotTokens(vec![token("USDC", 0)]));
    let large = "792281625142643375935439504";
    let step: Step = step.state.step(EarnEvent::Reserve(reserve(large, "0", "0")));
    let step: Step = step.state.step(EarnEvent::User(user()));
    assert!(step.lines.is_empty());
    assert_eq!(step.request, Some(EarnRequest::RateOverflow));
    assert_eq!(step.state, EarnState::Finished);
}

#[test]
fn failed_query_ends_with_its_error() {
    let who = Address { bytes: [3; 20] };
    let step: Step = EarnStatusCmd::from_args(who, None, None).run();
    let step: Step = step.state.step(EarnEvent::SpotTokens(vec![]));
    let step: Step = step.state.step(EarnEvent::Failed("offline"));
    assert_eq!(step.request, Some(EarnRequest::Finish(Err("offline"))));
    assert!(step.lines.is_empty());
}
