//! How a transfer runs: what is asked for, one request at a time, and what is printed.
//!
//! The caller performs each request and hands the reply to `SendState::step`.
use super::{SendAsset, SendCmd};
use crate::address::{address_text, checksum_text, is_address_text, Address};
use crate::decimal::decimal_text;
use crate::market::{Chain, SpotToken};
use crate::text::texts;
use std::ops::Deref;
use vstd::prelude::*;
use vstd::string::*;

verus! {

/// The two locations of a transfer, as they are printed.
///
/// How the exchange's SDK prints a location is not computed here: whoever starts the
/// transfer owes that the two texts are the SDK's for the command's `from` and `to`.
#[derive(Debug, PartialEq, Eq)]
pub struct Labels {
    pub from: String,
    pub to: String,
}

/// Where a transfer stands: the request that it waits for, and what it knows so far.
#[derive(Debug, PartialEq, Eq)]
pub enum SendState {
    /// Waits for the token to be found.
    FindingToken { cmd: SendCmd, labels: Labels },
    /// Waits for the configuration of the multi-sig wallet.
    ReadingConfig { cmd: SendCmd, labels: Labels, account: Address, token: SpotToken },
    /// Waits for the signers of the multi-sig wallet.
    FindingSigners { cmd: SendCmd, labels: Labels, account: Address, token: SpotToken },
    /// Waits for the single signer.
    FindingSigner { cmd: SendCmd, labels: Labels, token: SpotToken },
    /// Waits for a nonce. `account` pays for the transfer.
    TakingNonce { cmd: SendCmd, labels: Labels, account: Address, token: SpotToken },
    /// Waits for the exchange to accept the transfer.
    Submitting { multi_sig: bool },
    /// Waits for nothing.
    Finished,
}

/// A reply to a request.
#[derive(Debug, PartialEq, Eq)]
pub enum SendEvent<E> {
    Token(SpotToken),
    /// The users that may sign for the multi-sig wallet
    MultiSigConfig(Vec<Address>),
    SignersFound,
    /// The address that the signer signs for
    SignerFound(Address),
    Nonce(u64),
    Submitted,
    /// The request failed.
    Failed(E),
}

/// What a transfer asks its caller to do next.
#[derive(Debug, PartialEq, Eq)]
pub enum SendRequest<E> {
    /// Find the token that the text names among the spot tokens.
    FindToken { chain: Chain, token: String },
    /// Read the configuration of a multi-sig wallet.
    ReadMultiSigConfig { chain: Chain, account: Address },
    /// Find the signers among the authorized users.
    FindSigners { authorized: Vec<Address> },
    /// Find the single signer.
    FindSigner,
    /// Take the next nonce.
    TakeNonce,
    /// Collect the signatures for the transfer and submit it.
    ExecuteMultiSig { chain: Chain, account: Address, transfer: SendAsset, nonce: u64, local: bool },
    /// Sign the transfer and submit it.
    SendAsset { chain: Chain, transfer: SendAsset, nonce: u64 },
    /// End with this outcome.
    Finish(Result<(), E>),
}

/// The outcome of one step: print `lines`, then perform `request`.
#[derive(Debug, PartialEq, Eq)]
pub struct SendStep<E> {
    pub state: SendState,
    pub lines: Vec<String>,
    pub request: Option<SendRequest<E>>,
}

impl SendState {
    /// The command, where one is carried, holds a decimal amount.
    pub open spec fn wf(self) -> bool {
        match self {
            SendState::FindingToken { cmd, .. } => cmd.wf(),
            SendState::ReadingConfig { cmd, .. } => cmd.wf(),
            SendState::FindingSigners { cmd, .. } => cmd.wf(),
            SendState::FindingSigner { cmd, .. } => cmd.wf(),
            SendState::TakingNonce { cmd, .. } => cmd.wf(),
            _ => true,
        }
    }
}

/// What is printed before a single signer sends its transfer: the amount, the token and
/// the two locations as `labels` has them, then who pays and who is paid.
pub open spec fn announcement(
    cmd: SendCmd,
    labels: Labels,
    account: Address,
    token: SpotToken,
) -> Seq<Seq<char>> {
    let head = seq![
        "Sending "@ + cmd.amount@.text() + " "@ + token.name@ + " from "@ + labels.from@ + " to "@
            + labels.to@,
        "  From: "@ + checksum_text(account.bytes@),
        "  To:   "@ + checksum_text(cmd.recipient(account).bytes@),
    ];
    match cmd.from_subaccount {
        Some(name) => head.push("  Subaccount: "@ + name@),
        None => head,
    }
}

/// The step leaves everything as it is.
pub open spec fn ignores<E>(state: SendState, step: SendStep<E>) -> bool {
    step.state == state && step.lines@.len() == 0 && step.request is None
}

/// The step ends the run, after printing `lines`.
pub open spec fn finishes<E>(
    step: SendStep<E>,
    lines: Seq<Seq<char>>,
    outcome: Result<(), E>,
) -> bool {
    &&& step.state is Finished
    &&& texts(step.lines@) == lines
    &&& step.request == Some(SendRequest::Finish(outcome))
}

/// The step prints nothing, moves to `state` and asks for `request`.
pub open spec fn asks<E>(step: SendStep<E>, state: SendState, request: SendRequest<E>) -> bool {
    step.state == state && step.lines@.len() == 0 && step.request == Some(request)
}

/// `step` is how the run answers `event` in `state`.
pub open spec fn send_transition<E>(
    state: SendState,
    event: SendEvent<E>,
    step: SendStep<E>,
) -> bool {
    match (state, event) {
        (SendState::Finished, _) => ignores(state, step),
        (_, SendEvent::Failed(error)) => finishes(step, Seq::empty(), Err(error)),
        (SendState::FindingToken { cmd, labels }, SendEvent::Token(token)) => {
            match cmd.multi_sig_addr {
                Some(account) => asks(
                    step,
                    SendState::ReadingConfig { cmd, labels, account, token },
                    SendRequest::ReadMultiSigConfig { chain: cmd.signer.chain, account },
                ),
                None => asks(
                    step,
                    SendState::FindingSigner { cmd, labels, token },
                    SendRequest::FindSigner,
                ),
            }
        },
        (
            SendState::ReadingConfig { cmd, labels, account, token },
            SendEvent::MultiSigConfig(authorized),
        ) => asks(
            step,
            SendState::FindingSigners { cmd, labels, account, token },
            SendRequest::FindSigners { authorized },
        ),
        (SendState::FindingSigners { cmd, labels, account, token }, SendEvent::SignersFound) => asks(
            step,
            SendState::TakingNonce { cmd, labels, account, token },
            SendRequest::TakeNonce,
        ),
        (SendState::FindingSigner { cmd, labels, token }, SendEvent::SignerFound(account)) => asks(
            step,
            SendState::TakingNonce { cmd, labels, account, token },
            SendRequest::TakeNonce,
        ),
        (SendState::TakingNonce { cmd, labels, account, token }, SendEvent::Nonce(nonce)) => {
            &&& step.state == (SendState::Submitting { multi_sig: cmd.multi_sig_addr is Some })
            &&& match (cmd.multi_sig_addr, step.request) {
                (Some(_), Some(SendRequest::ExecuteMultiSig { chain, account: payer, transfer, nonce: used, local })) => {
                    &&& step.lines@.len() == 0
                    &&& chain == cmd.signer.chain
                    &&& payer == account
                    &&& cmd.is_transfer(account, token, nonce, transfer)
                    &&& used == nonce
                    &&& local == cmd.local
                },
                (None, Some(SendRequest::SendAsset { chain, transfer, nonce: used })) => {
                    &&& texts(step.lines@) == announcement(cmd, labels, account, token)
                    &&& is_address_text(account.bytes@, checksum_text(account.bytes@))
                    &&& is_address_text(
                        cmd.recipient(account).bytes@,
                        checksum_text(cmd.recipient(account).bytes@),
                    )
                    &&& chain == cmd.signer.chain
                    &&& cmd.is_transfer(account, token, nonce, transfer)
                    &&& used == nonce
                },
                _ => false,
            }
        },
        (SendState::Submitting { multi_sig }, SendEvent::Submitted) => finishes(
            step,
            if multi_sig {
                Seq::empty()
            } else {
                seq!["Success!"@]
            },
            Ok(()),
        ),
        _ => ignores(state, step),
    }
}

fn announce(cmd: &SendCmd, labels: &Labels, account: Address, token: &SpotToken) -> (r: Vec<String>)
    requires
        cmd.wf(),
    ensures
        texts(r@) == announcement(*cmd, *labels, account, *token),
        is_address_text(account.bytes@, checksum_text(account.bytes@)),
        is_address_text(
            cmd.recipient(account).bytes@,
            checksum_text(cmd.recipient(account).bytes@),
        ),
{
    let destination = match cmd.destination {
        Some(destination) => destination,
        None => account,
    };
    let mut lines: Vec<String> = Vec::new();
    lines.push(
        "Sending ".to_owned().concat(decimal_text(cmd.amount).as_str()).concat(" ").concat(
            token.name.as_str(),
        ).concat(" from ").concat(labels.from.as_str()).concat(" to ").concat(labels.to.as_str()),
    );
    lines.push("  From: ".to_owned().concat(address_text(account).as_str()));
    lines.push("  To:   ".to_owned().concat(address_text(destination).as_str()));
    if let Some(name) = &cmd.from_subaccount {
        lines.push("  Subaccount: ".to_owned().concat(name.as_str()));
    }
    assert(texts(lines@) =~= announcement(*cmd, *labels, account, *token));
    lines
}

impl SendCmd {
    /// The first step of the transfer.
    pub open spec fn starts_with<E>(self, labels: Labels, step: SendStep<E>) -> bool {
        asks(
            step,
            SendState::FindingToken { cmd: self, labels },
            SendRequest::FindToken { chain: self.signer.chain, token: self.token },
        )
    }

    /// Starts the transfer. `labels` are printed as they come: the caller owes that they
    /// are how the exchange's SDK prints `self.from` and `self.to`.
    pub fn run<E>(self, labels: Labels) -> (r: SendStep<E>)
        requires
            self.wf(),
        ensures
            self.starts_with(labels, r),
            r.state.wf(),
            r.lines@.len() == 0,
            r.request == Some(
                SendRequest::<E>::FindToken { chain: self.signer.chain, token: self.token },
            ),
    {
        let chain = self.deref().chain;
        let request = SendRequest::FindToken { chain, token: self.token.clone() };
        SendStep {
            state: SendState::FindingToken { cmd: self, labels },
            lines: Vec::new(),
            request: Some(request),
        }
    }
}

impl SendState {
    /// Answers a reply. A reply to a request that is not outstanding changes nothing.
    pub fn step<E>(self, event: SendEvent<E>) -> (r: SendStep<E>)
        requires
            self.wf(),
        ensures
            send_transition(self, event, r),
            r.state.wf(),
    {
        match (self, event) {
            (SendState::Finished, _) => SendStep {
                state: SendState::Finished,
                lines: Vec::new(),
                request: None,
            },
            (_, SendEvent::Failed(error)) => {
                let step = SendStep {
                    state: SendState::Finished,
                    lines: Vec::new(),
                    request: Some(SendRequest::Finish(Err(error))),
                };
                assert(texts(step.lines@) =~= Seq::empty());
                step
            },
            (SendState::FindingToken { cmd, labels }, SendEvent::Token(token)) => {
                let chain = cmd.signer.chain;
                match cmd.multi_sig_addr {
                    Some(account) => SendStep {
                        state: SendState::ReadingConfig { cmd, labels, account, token },
                        lines: Vec::new(),
                        request: Some(SendRequest::ReadMultiSigConfig { chain, account }),
                    },
                    None => SendStep {
                        state: SendState::FindingSigner { cmd, labels, token },
                        lines: Vec::new(),
                        request: Some(SendRequest::FindSigner),
                    },
                }
            },
            (
                SendState::ReadingConfig { cmd, labels, account, token },
                SendEvent::MultiSigConfig(authorized),
            ) => SendStep {
                state: SendState::FindingSigners { cmd, labels, account, token },
                lines: Vec::new(),
                request: Some(SendRequest::FindSigners { authorized }),
            },
            (
                SendState::FindingSigners { cmd, labels, account, token },
                SendEvent::SignersFound,
            ) => SendStep {
                state: SendState::TakingNonce { cmd, labels, account, token },
                lines: Vec::new(),
                request: Some(SendRequest::TakeNonce),
            },
            (
                SendState::FindingSigner { cmd, labels, token },
                SendEvent::SignerFound(account),
            ) => SendStep {
                state: SendState::TakingNonce { cmd, labels, account, token },
                lines: Vec::new(),
                request: Some(SendRequest::TakeNonce),
            },
            (SendState::TakingNonce { cmd, labels, account, token }, SendEvent::Nonce(nonce)) => {
                let chain = cmd.signer.chain;
                match cmd.multi_sig_addr {
                    Some(_) => {
                        let transfer = cmd.build_transfer(account, token, nonce);
                        SendStep {
                            state: SendState::Submitting { multi_sig: true },
                            lines: Vec::new(),
                            request: Some(
                                SendRequest::ExecuteMultiSig {
                                    chain,
                                    account,
                                    transfer,
                                    nonce,
                                    local: cmd.local,
                                },
                            ),
                        }
                    },
                    None => {
                        let lines = announce(&cmd, &labels, account, &token);
                        let transfer = cmd.build_transfer(account, token, nonce);
                        SendStep {
                            state: SendState::Submitting { multi_sig: false },
                            lines,
                            request: Some(SendRequest::SendAsset { chain, transfer, nonce }),
                        }
                    },
                }
            },
            (SendState::Submitting { multi_sig }, SendEvent::Submitted) => {
                let mut lines: Vec<String> = Vec::new();
                if !multi_sig {
                    lines.push("Success!".to_owned());
                    assert(texts(lines@) =~= seq!["Success!"@]);
                } else {
                    assert(texts(lines@) =~= Seq::empty());
                }
                SendStep {
                    state: SendState::Finished,
                    lines,
                    request: Some(SendRequest::Finish(Ok(()))),
                }
            },
            (state, _) => SendStep { state, lines: Vec::new(), request: None },
        }
    }
}

} // verus!
