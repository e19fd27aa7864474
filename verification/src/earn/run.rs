//! How an Earn command runs: what is asked for, one request at a time, and what is
//! printed.
//!
//! The caller performs each request and hands the reply to `EarnState::step`.
use super::report::{rates_readable, report_text, status_report, ReserveState, UserState};
use super::{
    name_of, token_name, BorrowLendAction, BorrowLendOperation, EarnCmd, EarnStatusCmd,
    EarnTransferCmd,
};
use crate::address::Address;
use crate::decimal::{decimal_text, Decimal};
use crate::market::{Chain, SpotToken};
use crate::text::texts;
use std::ops::Deref;
use vstd::prelude::*;
use vstd::string::*;

verus! {

/// Where a command stands: the request that it waits for, and what it knows so far.
#[derive(Debug, PartialEq, Eq)]
pub enum EarnState {
    /// A transfer waits for its signer.
    FindingSigner { cmd: EarnTransferCmd, operation: BorrowLendOperation },
    /// A transfer waits for the spot tokens, to name its token.
    NamingToken { cmd: EarnTransferCmd, operation: BorrowLendOperation },
    /// A transfer waits for a nonce.
    TakingNonce { cmd: EarnTransferCmd, operation: BorrowLendOperation },
    /// A transfer waits for the exchange to accept it.
    Submitting { operation: BorrowLendOperation },
    /// A query waits for the spot tokens, to name the reserve.
    NamingReserve { query: EarnStatusCmd },
    /// A query waits for the state of the reserve.
    ReadingReserve { query: EarnStatusCmd, name: String },
    /// A query waits for the state of the user.
    ReadingUser { query: EarnStatusCmd, name: String, reserve: ReserveState },
    /// Waits for nothing.
    Finished,
}

/// A reply to a request.
#[derive(Debug, PartialEq, Eq)]
pub enum EarnEvent<E> {
    SignerFound,
    SpotTokens(Vec<SpotToken>),
    Nonce(u64),
    Submitted,
    Reserve(ReserveState),
    User(UserState),
    /// The request failed.
    Failed(E),
}

/// What a command asks its caller to do next.
#[derive(Debug, PartialEq, Eq)]
pub enum EarnRequest<E> {
    /// Find the signer.
    FindSigner,
    /// Fetch the spot tokens.
    FetchSpotTokens { chain: Chain },
    /// Take the next nonce.
    TakeNonce,
    /// Sign the transfer and submit it.
    Submit { chain: Chain, action: BorrowLendAction, nonce: u64 },
    /// Fetch the state of the reserve.
    FetchReserve { chain: Chain, token: u32 },
    /// Fetch the borrow/lend state of the user.
    FetchUser { chain: Chain, user: Address },
    /// Give up: a rate of the reserve is too large for a percentage.
    RateOverflow,
    /// End with this outcome.
    Finish(Result<(), E>),
}

/// The outcome of one step: print `lines`, then perform `request`.
#[derive(Debug, PartialEq, Eq)]
pub struct EarnStep<E> {
    pub state: EarnState,
    pub lines: Vec<String>,
    pub request: Option<EarnRequest<E>>,
}

impl EarnState {
    /// The transfer, where one is carried, holds a decimal amount or none.
    pub open spec fn wf(self) -> bool {
        match self {
            EarnState::FindingSigner { cmd, .. } => cmd.wf(),
            EarnState::NamingToken { cmd, .. } => cmd.wf(),
            EarnState::TakingNonce { cmd, .. } => cmd.wf(),
            _ => true,
        }
    }
}

/// What a transfer is said to be doing.
pub open spec fn verb_text(operation: BorrowLendOperation) -> Seq<char> {
    match operation {
        BorrowLendOperation::Supply => "Supplying"@,
        BorrowLendOperation::Withdraw => "Withdrawing"@,
    }
}

/// What a transfer is said to have done.
pub open spec fn past_text(operation: BorrowLendOperation) -> Seq<char> {
    match operation {
        BorrowLendOperation::Supply => "Supplied"@,
        BorrowLendOperation::Withdraw => "Withdrawn"@,
    }
}

/// How an amount is shown: `max` for the maximum available.
pub open spec fn amount_text(amount: Option<Decimal>) -> Seq<char> {
    match amount {
        Some(amount) => amount@.text(),
        None => "max"@,
    }
}

/// What is printed before a transfer is submitted.
pub open spec fn transfer_line(
    cmd: EarnTransferCmd,
    operation: BorrowLendOperation,
    name: Seq<char>,
) -> Seq<char> {
    verb_text(operation) + " "@ + amount_text(cmd.amount) + " "@ + name + " ..."@
}

/// A transfer is announced by its own operation, amount and token, an amount left out as
/// the maximum.
pub proof fn law_transfer_is_announced_as_it_is(cmd: EarnTransferCmd, name: Seq<char>)
    ensures
        ({
            let supply = transfer_line(cmd, BorrowLendOperation::Supply, name);
            let withdrawal = transfer_line(cmd, BorrowLendOperation::Withdraw, name);
            &&& cmd.amount matches Some(amount) ==> {
                &&& supply == "Supplying"@ + " "@ + amount@.text() + " "@ + name + " ..."@
                &&& withdrawal == "Withdrawing"@ + " "@ + amount@.text() + " "@ + name + " ..."@
            }
            &&& cmd.amount is None ==> {
                &&& supply == "Supplying"@ + " "@ + "max"@ + " "@ + name + " ..."@
                &&& withdrawal == "Withdrawing"@ + " "@ + "max"@ + " "@ + name + " ..."@
            }
        }),
{
}

/// The step leaves everything as it is.
pub open spec fn ignores<E>(state: EarnState, step: EarnStep<E>) -> bool {
    step.state == state && step.lines@.len() == 0 && step.request is None
}

/// The step prints `lines`, moves to `state` and asks for `request`.
pub open spec fn asks<E>(
    step: EarnStep<E>,
    lines: Seq<Seq<char>>,
    state: EarnState,
    request: EarnRequest<E>,
) -> bool {
    step.state == state && texts(step.lines@) == lines && step.request == Some(request)
}

/// A transfer announces itself under `name` and asks for a nonce.
pub open spec fn names_token<E>(
    step: EarnStep<E>,
    cmd: EarnTransferCmd,
    operation: BorrowLendOperation,
    name: Seq<char>,
) -> bool {
    asks(
        step,
        seq![transfer_line(cmd, operation, name)],
        EarnState::TakingNonce { cmd, operation },
        EarnRequest::TakeNonce,
    )
}

/// A query keeps `name` and asks for the state of the reserve.
pub open spec fn names_reserve<E>(step: EarnStep<E>, query: EarnStatusCmd, name: Seq<char>) -> bool {
    &&& step.state matches EarnState::ReadingReserve { query: kept, name: known } && kept == query
        && known@ == name
    &&& step.lines@.len() == 0
    &&& step.request == Some(
        EarnRequest::<E>::FetchReserve { chain: query.chain, token: query.token },
    )
}

/// `step` is how the run answers `event` in `state`.
pub open spec fn earn_transition<E>(
    state: EarnState,
    event: EarnEvent<E>,
    step: EarnStep<E>,
) -> bool {
    match (state, event) {
        (EarnState::Finished, _) => ignores(state, step),
        (EarnState::FindingSigner { cmd, operation }, EarnEvent::SignerFound) => asks(
            step,
            Seq::empty(),
            EarnState::NamingToken { cmd, operation },
            EarnRequest::FetchSpotTokens { chain: cmd.signer.chain },
        ),
        (EarnState::NamingToken { cmd, operation }, EarnEvent::SpotTokens(tokens)) => names_token(
            step,
            cmd,
            operation,
            name_of(Some(tokens@), cmd.token),
        ),
        (EarnState::NamingToken { cmd, operation }, EarnEvent::Failed(_)) => names_token(
            step,
            cmd,
            operation,
            name_of(None, cmd.token),
        ),
        (EarnState::TakingNonce { cmd, operation }, EarnEvent::Nonce(nonce)) => asks(
            step,
            Seq::empty(),
            EarnState::Submitting { operation },
            EarnRequest::Submit {
                chain: cmd.signer.chain,
                action: BorrowLendAction { operation, token: cmd.token, amount: cmd.amount },
                nonce,
            },
        ),
        (EarnState::Submitting { operation }, EarnEvent::Submitted) => asks(
            step,
            seq![past_text(operation) + " successfully."@],
            EarnState::Finished,
            EarnRequest::Finish(Ok(())),
        ),
        (EarnState::NamingReserve { query }, EarnEvent::SpotTokens(tokens)) => names_reserve(
            step,
            query,
            name_of(Some(tokens@), query.token),
        ),
        (EarnState::NamingReserve { query }, EarnEvent::Failed(_)) => names_reserve(
            step,
            query,
            name_of(None, query.token),
        ),
        (EarnState::ReadingReserve { query, name }, EarnEvent::Reserve(reserve)) => asks(
            step,
            Seq::empty(),
            EarnState::ReadingUser { query, name, reserve },
            EarnRequest::FetchUser { chain: query.chain, user: query.user },
        ),
        (EarnState::ReadingUser { query, name, reserve }, EarnEvent::User(user)) => {
            &&& rates_readable(reserve)
            &&& match report_text(name@, query.token, reserve, user) {
                Some(lines) => asks(step, lines, EarnState::Finished, EarnRequest::Finish(Ok(()))),
                None => asks(step, Seq::empty(), EarnState::Finished, EarnRequest::RateOverflow),
            }
        },
        (_, EarnEvent::Failed(error)) => asks(
            step,
            Seq::empty(),
            EarnState::Finished,
            EarnRequest::Finish(Err(error)),
        ),
        _ => ignores(state, step),
    }
}

fn quiet<E>(state: EarnState, request: Option<EarnRequest<E>>) -> (r: EarnStep<E>)
    ensures
        r.state == state,
        r.request == request,
        r.lines@.len() == 0,
        texts(r.lines@) == Seq::<Seq<char>>::empty(),
{
    let r = EarnStep { state, lines: Vec::new(), request };
    assert(texts(r.lines@) =~= Seq::<Seq<char>>::empty());
    r
}

/// The line that announces a transfer of the token called `name`.
pub fn announce(cmd: &EarnTransferCmd, operation: BorrowLendOperation, name: &str) -> (r: String)
    requires
        cmd.wf(),
    ensures
        r@ == transfer_line(*cmd, operation, name@),
{
    let verb = match operation {
        BorrowLendOperation::Supply => "Supplying",
        BorrowLendOperation::Withdraw => "Withdrawing",
    };
    let amount = match cmd.amount {
        Some(amount) => decimal_text(amount),
        None => "max".to_owned(),
    };
    verb.to_owned().concat(" ").concat(amount.as_str()).concat(" ").concat(name).concat(" ...")
}

fn start_transfer<E>(cmd: EarnTransferCmd, operation: BorrowLendOperation, name: String) -> (r:
    EarnStep<E>)
    requires
        cmd.wf(),
    ensures
        names_token(r, cmd, operation, name@),
{
    let mut lines: Vec<String> = Vec::new();
    lines.push(announce(&cmd, operation, name.as_str()));
    assert(texts(lines@) =~= seq![transfer_line(cmd, operation, name@)]);
    EarnStep {
        state: EarnState::TakingNonce { cmd, operation },
        lines,
        request: Some(EarnRequest::TakeNonce),
    }
}

fn start_query<E>(query: EarnStatusCmd, name: String) -> (r: EarnStep<E>)
    ensures
        names_reserve(r, query, name@),
{
    let request = EarnRequest::FetchReserve { chain: query.chain, token: query.token };
    quiet(EarnState::ReadingReserve { query, name }, Some(request))
}

impl EarnStatusCmd {
    /// Starts the query.
    pub fn run<E>(self) -> (r: EarnStep<E>)
        ensures
            asks(
                r,
                Seq::empty(),
                EarnState::NamingReserve { query: self },
                EarnRequest::FetchSpotTokens { chain: self.chain },
            ),
            EarnCmd::Status(self).starts_with(r),
            r.state.wf(),
            r.lines@.len() == 0,
            r.request == Some(EarnRequest::<E>::FetchSpotTokens { chain: self.chain }),
    {
        let request = EarnRequest::FetchSpotTokens { chain: self.chain };
        quiet(EarnState::NamingReserve { query: self }, Some(request))
    }
}

/// Starts a transfer.
pub fn execute_transfer<E>(cmd: EarnTransferCmd, operation: BorrowLendOperation) -> (r: EarnStep<E>)
    requires
        cmd.wf(),
    ensures
        asks(
            r,
            Seq::empty(),
            EarnState::FindingSigner { cmd, operation },
            EarnRequest::FindSigner,
        ),
        operation is Supply ==> EarnCmd::Supply(cmd).starts_with(r),
        operation is Withdraw ==> EarnCmd::Withdraw(cmd).starts_with(r),
        r.state.wf(),
        r.lines@.len() == 0,
        r.request == Some(EarnRequest::<E>::FindSigner),
{
    quiet(EarnState::FindingSigner { cmd, operation }, Some(EarnRequest::FindSigner))
}

impl EarnCmd {
    /// The first step of the command.
    pub open spec fn starts_with<E>(self, step: EarnStep<E>) -> bool {
        match self {
            EarnCmd::Supply(cmd) => asks(
                step,
                Seq::empty(),
                EarnState::FindingSigner { cmd, operation: BorrowLendOperation::Supply },
                EarnRequest::FindSigner,
            ),
            EarnCmd::Withdraw(cmd) => asks(
                step,
                Seq::empty(),
                EarnState::FindingSigner { cmd, operation: BorrowLendOperation::Withdraw },
                EarnRequest::FindSigner,
            ),
            EarnCmd::Status(query) => asks(
                step,
                Seq::empty(),
                EarnState::NamingReserve { query },
                EarnRequest::FetchSpotTokens { chain: query.chain },
            ),
        }
    }

    /// Starts the command.
    pub fn run<E>(self) -> (r: EarnStep<E>)
        requires
            self.wf(),
        ensures
            self.starts_with(r),
            r.state.wf(),
            r.lines@.len() == 0,
            !(self is Status) ==> r.request == Some(EarnRequest::<E>::FindSigner),
            self matches EarnCmd::Status(query) ==> r.request == Some(
                EarnRequest::<E>::FetchSpotTokens { chain: query.chain },
            ),
    {
        match self {
            EarnCmd::Supply(cmd) => execute_transfer(cmd, BorrowLendOperation::Supply),
            EarnCmd::Withdraw(cmd) => execute_transfer(cmd, BorrowLendOperation::Withdraw),
            EarnCmd::Status(query) => query.run(),
        }
    }
}

impl EarnState {
    /// Answers a reply. A reply to a request that is not outstanding changes nothing.
    pub fn step<E>(self, event: EarnEvent<E>) -> (r: EarnStep<E>)
        requires
            self.wf(),
        ensures
            earn_transition(self, event, r),
            r.state.wf(),
    {
        match (self, event) {
            (EarnState::Finished, _) => quiet(EarnState::Finished, None),
            (EarnState::FindingSigner { cmd, operation }, EarnEvent::SignerFound) => {
                let request = EarnRequest::FetchSpotTokens { chain: cmd.deref().chain };
                quiet(EarnState::NamingToken { cmd, operation }, Some(request))
            },
            (EarnState::NamingToken { cmd, operation }, EarnEvent::SpotTokens(tokens)) => {
                let name = token_name(&Some(tokens), cmd.token);
                start_transfer(cmd, operation, name)
            },
            (EarnState::NamingToken { cmd, operation }, EarnEvent::Failed(_)) => {
                let name = token_name(&None, cmd.token);
                start_transfer(cmd, operation, name)
            },
            (EarnState::TakingNonce { cmd, operation }, EarnEvent::Nonce(nonce)) => {
                let action = BorrowLendAction { operation, token: cmd.token, amount: cmd.amount };
                let request = EarnRequest::Submit { chain: cmd.signer.chain, action, nonce };
                quiet(EarnState::Submitting { operation }, Some(request))
            },
            (EarnState::Submitting { operation }, EarnEvent::Submitted) => {
                let past = match operation {
                    BorrowLendOperation::Supply => "Supplied",
                    BorrowLendOperation::Withdraw => "Withdrawn",
                };
                let mut lines: Vec<String> = Vec::new();
                lines.push(past.to_owned().concat(" successfully."));
                assert(texts(lines@) =~= seq![past_text(operation) + " successfully."@]);
                EarnStep {
                    state: EarnState::Finished,
                    lines,
                    request: Some(EarnRequest::Finish(Ok(()))),
                }
            },
            (EarnState::NamingReserve { query }, EarnEvent::SpotTokens(tokens)) => {
                let name = token_name(&Some(tokens), query.token);
                start_query(query, name)
            },
            (EarnState::NamingReserve { query }, EarnEvent::Failed(_)) => {
                let name = token_name(&None, query.token);
                start_query(query, name)
            },
            (EarnState::ReadingReserve { query, name }, EarnEvent::Reserve(reserve)) => {
                let request = EarnRequest::FetchUser { chain: query.chain, user: query.user };
                quiet(EarnState::ReadingUser { query, name, reserve }, Some(request))
            },
            (EarnState::ReadingUser { query, name, reserve }, EarnEvent::User(user)) => {
                match status_report(name.as_str(), query.token, &reserve, &user) {
                    Some(lines) => EarnStep {
                        state: EarnState::Finished,
                        lines,
                        request: Some(EarnRequest::Finish(Ok(()))),
                    },
                    None => quiet(EarnState::Finished, Some(EarnRequest::RateOverflow)),
                }
            },
            (_, EarnEvent::Failed(error)) => quiet(
                EarnState::Finished,
                Some(EarnRequest::Finish(Err(error))),
            ),
            (state, _) => quiet(state, None),
        }
    }
}

} // verus!
