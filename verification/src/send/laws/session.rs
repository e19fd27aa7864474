//! What a transfer asks for and prints, from its first step on, told by the command that
//! started it and the replies that came in.
use super::super::run::{Labels, SendEvent, SendRequest, SendState, SendStep};
use super::super::{law_transfer_sends_what_was_asked, SendCmd};
use super::super::run::send_transition;
use super::{lemma_stage, send_run};
use crate::address::{
    checksum_text, law_address_text_spells_the_address, spells_address, Address,
};
use crate::market::SpotToken;
use crate::text::texts;
use vstd::prelude::*;

verus! {

/// A run from its first step on: `first` starts `cmd`, and `steps[i]` answers `events[i]`.
pub open spec fn send_session<E>(
    cmd: SendCmd,
    labels: Labels,
    first: SendStep<E>,
    states: Seq<SendState>,
    events: Seq<SendEvent<E>>,
    steps: Seq<SendStep<E>>,
) -> bool {
    &&& cmd.starts_with(labels, first)
    &&& send_run(states, events, steps)
    &&& states[0] == first.state
}

/// The request that was made last before `events[i]` came in.
pub open spec fn outstanding<E>(
    first: SendStep<E>,
    steps: Seq<SendStep<E>>,
    i: int,
) -> Option<SendRequest<E>>
    decreases i,
{
    if i <= 0 {
        first.request
    } else if steps[i - 1].request is Some {
        steps[i - 1].request
    } else {
        outstanding(first, steps, i - 1)
    }
}

/// `event` is a reply, good or bad, to `request`.
pub open spec fn replies<E>(request: SendRequest<E>, event: SendEvent<E>) -> bool {
    match request {
        SendRequest::FindToken { .. } => event is Token || event is Failed,
        SendRequest::ReadMultiSigConfig { .. } => event is MultiSigConfig || event is Failed,
        SendRequest::FindSigners { .. } => event is SignersFound || event is Failed,
        SendRequest::FindSigner => event is SignerFound || event is Failed,
        SendRequest::TakeNonce => event is Nonce || event is Failed,
        SendRequest::ExecuteMultiSig { .. } => event is Submitted || event is Failed,
        SendRequest::SendAsset { .. } => event is Submitted || event is Failed,
        SendRequest::Finish(_) => false,
    }
}

/// `token` is the token that the run was told before `events[i]`.
spec fn was_told_token<E>(
    token: SpotToken,
    events: Seq<SendEvent<E>>,
    steps: Seq<SendStep<E>>,
    i: int,
) -> bool {
    exists|k: int|
        0 <= k < i && steps[k].request is Some && #[trigger] events[k] == SendEvent::<E>::Token(token)
}

/// `account` is the address of the signer that the run was told before `events[i]`.
spec fn was_told_signer<E>(
    account: Address,
    events: Seq<SendEvent<E>>,
    steps: Seq<SendStep<E>>,
    i: int,
) -> bool {
    exists|k: int|
        0 <= k < i && steps[k].request is Some && #[trigger] events[k]
            == SendEvent::<E>::SignerFound(account)
}

/// What a state of the run holds before `events[i]`, and which request it waits on.
spec fn holds<E>(
    cmd: SendCmd,
    labels: Labels,
    first: SendStep<E>,
    state: SendState,
    events: Seq<SendEvent<E>>,
    steps: Seq<SendStep<E>>,
    i: int,
) -> bool {
    let request = outstanding(first, steps, i);
    match state {
        SendState::FindingToken { cmd: c, labels: l } => {
            &&& c == cmd && l == labels
            &&& request matches Some(SendRequest::FindToken { .. })
        },
        SendState::ReadingConfig { cmd: c, labels: l, account, token } => {
            &&& c == cmd && l == labels
            &&& request matches Some(SendRequest::ReadMultiSigConfig { .. })
            &&& cmd.multi_sig_addr == Some(account)
            &&& was_told_token(token, events, steps, i)
        },
        SendState::FindingSigners { cmd: c, labels: l, account, token } => {
            &&& c == cmd && l == labels
            &&& request matches Some(SendRequest::FindSigners { .. })
            &&& cmd.multi_sig_addr == Some(account)
            &&& was_told_token(token, events, steps, i)
        },
        SendState::FindingSigner { cmd: c, labels: l, token } => {
            &&& c == cmd && l == labels
            &&& request matches Some(SendRequest::FindSigner)
            &&& cmd.multi_sig_addr is None
            &&& was_told_token(token, events, steps, i)
        },
        SendState::TakingNonce { cmd: c, labels: l, account, token } => {
            &&& c == cmd && l == labels
            &&& request matches Some(SendRequest::TakeNonce)
            &&& cmd.multi_sig_addr is Some ==> cmd.multi_sig_addr == Some(account)
            &&& cmd.multi_sig_addr is None ==> was_told_signer(account, events, steps, i)
            &&& was_told_token(token, events, steps, i)
        },
        SendState::Submitting { multi_sig } => {
            &&& multi_sig == (cmd.multi_sig_addr is Some)
            &&& multi_sig ==> (request matches Some(SendRequest::ExecuteMultiSig { .. }))
            &&& !multi_sig ==> (request matches Some(SendRequest::SendAsset { .. }))
        },
        SendState::Finished => request matches Some(SendRequest::Finish(_)),
    }
}

proof fn lemma_holds<E>(
    cmd: SendCmd,
    labels: Labels,
    first: SendStep<E>,
    states: Seq<SendState>,
    events: Seq<SendEvent<E>>,
    steps: Seq<SendStep<E>>,
    i: int,
)
    requires
        send_session(cmd, labels, first, states, events, steps),
        0 <= i < states.len(),
    ensures
        holds(cmd, labels, first, states[i], events, steps, i),
    decreases i,
{
    if i > 0 {
        lemma_holds(cmd, labels, first, states, events, steps, i - 1);
        let k = i - 1;
        assert(send_transition(states[k], events[k], steps[k]));
        assert(states[k + 1] == steps[k].state);
        assert(forall|token: SpotToken|
            was_told_token(token, events, steps, k) ==> was_told_token(token, events, steps, i));
        assert(forall|account: Address|
            was_told_signer(account, events, steps, k) ==> was_told_signer(
                account,
                events,
                steps,
                i,
            ));
        if steps[k].request is Some {
            if let SendEvent::Token(token) = events[k] {
                assert(events[k] == SendEvent::<E>::Token(token));
                assert(was_told_token(token, events, steps, i));
            }
            if let SendEvent::SignerFound(account) = events[k] {
                assert(events[k] == SendEvent::<E>::SignerFound(account));
                assert(was_told_signer(account, events, steps, i));
            }
        }
    }
}

/// A transfer starts by asking for its token on its chain, and prints nothing yet.
pub proof fn law_first_request_is_for_the_token<E>(
    cmd: SendCmd,
    labels: Labels,
    first: SendStep<E>,
)
    requires
        cmd.starts_with(labels, first),
    ensures
        first.lines@.len() == 0,
        first.request matches Some(SendRequest::FindToken { chain, token }) && chain
            == cmd.signer.chain && token@ == cmd.token@,
{
}

/// The run goes on exactly at a reply to the request that it made last. Any other reply
/// prints nothing and leaves it where it was.
pub proof fn law_only_replies_lead_on<E>(
    cmd: SendCmd,
    labels: Labels,
    first: SendStep<E>,
    states: Seq<SendState>,
    events: Seq<SendEvent<E>>,
    steps: Seq<SendStep<E>>,
    i: int,
)
    requires
        send_session(cmd, labels, first, states, events, steps),
        0 <= i < steps.len(),
    ensures
        outstanding(first, steps, i) matches Some(request) && (steps[i].request is Some <==> replies(
            request,
            events[i],
        )),
        steps[i].request is None ==> steps[i].lines@.len() == 0 && steps[i].state == states[i],
{
    lemma_holds(cmd, labels, first, states, events, steps, i);
    assert(send_transition(states[i], events[i], steps[i]));
}

/// The token leads to the configuration of the command's multi-sig wallet, on the
/// command's chain, or to the signer where there is no such wallet.
pub proof fn law_token_leads_to_the_signers<E>(
    cmd: SendCmd,
    labels: Labels,
    first: SendStep<E>,
    states: Seq<SendState>,
    events: Seq<SendEvent<E>>,
    steps: Seq<SendStep<E>>,
    i: int,
)
    requires
        send_session(cmd, labels, first, states, events, steps),
        0 <= i < steps.len(),
        steps[i].request is Some,
        events[i] is Token,
    ensures
        steps[i].lines@.len() == 0,
        cmd.multi_sig_addr matches Some(wallet) ==> (steps[i].request matches Some(
            SendRequest::ReadMultiSigConfig { chain, account },
        ) && chain == cmd.signer.chain && account == wallet),
        cmd.multi_sig_addr is None ==> steps[i].request == Some(SendRequest::<E>::FindSigner),
{
    lemma_holds(cmd, labels, first, states, events, steps, i);
    assert(send_transition(states[i], events[i], steps[i]));
}

/// Signers are looked for among the users that the configuration names: all of them, in
/// their order.
pub proof fn law_signers_are_sought_among_all_users<E>(
    cmd: SendCmd,
    labels: Labels,
    first: SendStep<E>,
    states: Seq<SendState>,
    events: Seq<SendEvent<E>>,
    steps: Seq<SendStep<E>>,
    i: int,
    users: Vec<Address>,
)
    requires
        send_session(cmd, labels, first, states, events, steps),
        0 <= i < steps.len(),
        steps[i].request is Some,
        events[i] == SendEvent::<E>::MultiSigConfig(users),
    ensures
        steps[i].lines@.len() == 0,
        steps[i].request matches Some(SendRequest::FindSigners { authorized }) && authorized@
            == users@,
        cmd.multi_sig_addr is Some,
{
    lemma_holds(cmd, labels, first, states, events, steps, i);
    assert(send_transition(states[i], events[i], steps[i]));
}

/// Once whoever signs is found, a nonce is taken.
pub proof fn law_signers_lead_to_a_nonce<E>(
    cmd: SendCmd,
    labels: Labels,
    first: SendStep<E>,
    states: Seq<SendState>,
    events: Seq<SendEvent<E>>,
    steps: Seq<SendStep<E>>,
    i: int,
)
    requires
        send_session(cmd, labels, first, states, events, steps),
        0 <= i < steps.len(),
        steps[i].request is Some,
        events[i] is SignersFound || events[i] is SignerFound,
    ensures
        steps[i].lines@.len() == 0,
        steps[i].request == Some(SendRequest::<E>::TakeNonce),
        events[i] is SignersFound <==> cmd.multi_sig_addr is Some,
{
    lemma_holds(cmd, labels, first, states, events, steps, i);
    assert(send_transition(states[i], events[i], steps[i]));
}

/// With the nonce, the transfer is handed over on behalf of the multi-sig wallet: of the
/// token that the run was told, with the command's amount, between its locations, to its
/// destination or back to the wallet, under that nonce and on the command's chain.
/// Nothing is printed.
pub proof fn law_nonce_hands_over_for_the_wallet<E>(
    cmd: SendCmd,
    labels: Labels,
    first: SendStep<E>,
    states: Seq<SendState>,
    events: Seq<SendEvent<E>>,
    steps: Seq<SendStep<E>>,
    i: int,
    given: u64,
    wallet: Address,
)
    requires
        send_session(cmd, labels, first, states, events, steps),
        0 <= i < steps.len(),
        steps[i].request is Some,
        events[i] == SendEvent::<E>::Nonce(given),
        cmd.multi_sig_addr == Some(wallet),
    ensures
        steps[i].lines@.len() == 0,
        steps[i].request matches Some(
            SendRequest::ExecuteMultiSig { chain, account, transfer, nonce, local },
        ) && ({
            &&& chain == cmd.signer.chain
            &&& account == wallet
            &&& local == cmd.local
            &&& nonce == given
            &&& transfer.nonce == given
            &&& transfer.amount == cmd.amount
            &&& transfer.amount@ == cmd.amount@
            &&& transfer.source_dex == cmd.from
            &&& transfer.destination_dex == cmd.to
            &&& cmd.destination matches Some(destination) ==> transfer.destination == destination
            &&& cmd.destination is None ==> transfer.destination == wallet
            &&& cmd.from_subaccount matches Some(name) ==> transfer.from_sub_account@ == name@
            &&& cmd.from_subaccount is None ==> transfer.from_sub_account@.len() == 0
            &&& exists|k: int|
                0 <= k < i && steps[k].request is Some && #[trigger] events[k]
                    == SendEvent::<E>::Token(transfer.token.0)
        }),
{
    lemma_holds(cmd, labels, first, states, events, steps, i);
    assert(send_transition(states[i], events[i], steps[i]));
    if let SendState::TakingNonce { token, .. } = states[i] {
        if let Some(SendRequest::ExecuteMultiSig { transfer, .. }) = steps[i].request {
            law_transfer_sends_what_was_asked(cmd, wallet, token, given, transfer);
        }
    }
}

/// With the nonce, the single signer hands the transfer over: of the token that the run
/// was told, with the command's amount, between its locations, to its destination or back
/// to the signer, under that nonce and on the command's chain. Before that the run prints
/// what it sends: that amount, that token, the two locations, who pays, who is paid, and
/// the subaccount if one is named.
pub proof fn law_nonce_hands_over_for_the_signer<E>(
    cmd: SendCmd,
    labels: Labels,
    first: SendStep<E>,
    states: Seq<SendState>,
    events: Seq<SendEvent<E>>,
    steps: Seq<SendStep<E>>,
    i: int,
    given: u64,
)
    requires
        send_session(cmd, labels, first, states, events, steps),
        0 <= i < steps.len(),
        steps[i].request is Some,
        events[i] == SendEvent::<E>::Nonce(given),
        cmd.multi_sig_addr is None,
    ensures
        steps[i].request matches Some(SendRequest::SendAsset { chain, transfer, nonce }) && ({
            let lines = steps[i].lines@;
            &&& chain == cmd.signer.chain
            &&& nonce == given
            &&& transfer.nonce == given
            &&& transfer.amount == cmd.amount
            &&& transfer.amount@ == cmd.amount@
            &&& transfer.source_dex == cmd.from
            &&& transfer.destination_dex == cmd.to
            &&& cmd.destination matches Some(destination) ==> transfer.destination == destination
            &&& cmd.from_subaccount matches Some(name) ==> transfer.from_sub_account@ == name@
            &&& cmd.from_subaccount is None ==> transfer.from_sub_account@.len() == 0
            &&& exists|k: int|
                0 <= k < i && steps[k].request is Some && #[trigger] events[k]
                    == SendEvent::<E>::Token(transfer.token.0)
            &&& lines.len() == (if cmd.from_subaccount is Some {
                4int
            } else {
                3int
            })
            &&& lines[0]@ == "Sending "@ + transfer.amount@.text() + " "@ + transfer.token.0.name@
                + " from "@ + labels.from@ + " to "@ + labels.to@
            &&& lines[2]@ == "  To:   "@ + checksum_text(transfer.destination.bytes@)
            &&& spells_address(
                checksum_text(transfer.destination.bytes@),
                transfer.destination.bytes@,
            )
            &&& cmd.from_subaccount matches Some(name) ==> lines[3]@ == "  Subaccount: "@ + name@
            &&& exists|k: int|
                0 <= k < i && steps[k].request is Some && (#[trigger] events[k] matches
                    SendEvent::SignerFound(account) && ({
                    &&& cmd.destination is None ==> transfer.destination == account
                    &&& lines[1]@ == "  From: "@ + checksum_text(account.bytes@)
                    &&& spells_address(checksum_text(account.bytes@), account.bytes@)
                }))
        }),
{
    lemma_holds(cmd, labels, first, states, events, steps, i);
    assert(send_transition(states[i], events[i], steps[i]));
    if let SendState::TakingNonce { account, token, .. } = states[i] {
        if let Some(SendRequest::SendAsset { transfer, .. }) = steps[i].request {
            law_transfer_sends_what_was_asked(cmd, account, token, given, transfer);
            law_address_text_spells_the_address(
                account.bytes@,
                checksum_text(account.bytes@),
            );
            law_address_text_spells_the_address(
                transfer.destination.bytes@,
                checksum_text(transfer.destination.bytes@),
            );
            let lines = steps[i].lines@;
            assert(texts(lines).len() == lines.len());
            assert forall|j: int| 0 <= j < lines.len() implies (#[trigger] lines[j])@ == texts(
                lines,
            )[j] by {}
            assert(was_told_signer(account, events, steps, i));
            let k = choose|k: int|
                0 <= k < i && steps[k].request is Some && #[trigger] events[k]
                    == SendEvent::<E>::SignerFound(account);
            assert(events[k] matches SendEvent::SignerFound(a) && a == account);
        }
    }
}

/// A run ends well exactly when the exchange accepts what it handed over, and says so
/// where a single signer sent it.
pub proof fn law_acceptance_ends_the_run_well<E>(
    cmd: SendCmd,
    labels: Labels,
    first: SendStep<E>,
    states: Seq<SendState>,
    events: Seq<SendEvent<E>>,
    steps: Seq<SendStep<E>>,
    i: int,
)
    requires
        send_session(cmd, labels, first, states, events, steps),
        0 <= i < steps.len(),
        steps[i].request is Some,
    ensures
        steps[i].request == Some(SendRequest::<E>::Finish(Ok(()))) <==> events[i] is Submitted,
        events[i] is Submitted ==> {
            &&& cmd.multi_sig_addr is Some ==> {
                &&& outstanding(first, steps, i) matches Some(SendRequest::ExecuteMultiSig { .. })
                &&& steps[i].lines@.len() == 0
            }
            &&& cmd.multi_sig_addr is None ==> {
                &&& outstanding(first, steps, i) matches Some(SendRequest::SendAsset { .. })
                &&& steps[i].lines@.len() == 1
                &&& steps[i].lines@[0]@ == "Success!"@
            }
        },
{
    lemma_holds(cmd, labels, first, states, events, steps, i);
    assert(send_transition(states[i], events[i], steps[i]));
    if events[i] is Submitted {
        let lines = steps[i].lines@;
        assert(texts(lines).len() == lines.len());
        if lines.len() > 0 {
            assert(texts(lines)[0] == lines[0]@);
        }
    }
}

/// A failed request ends the run with that very failure, and with no word of success.
pub proof fn law_failure_is_handed_on<E>(
    cmd: SendCmd,
    labels: Labels,
    first: SendStep<E>,
    states: Seq<SendState>,
    events: Seq<SendEvent<E>>,
    steps: Seq<SendStep<E>>,
    i: int,
    error: E,
)
    requires
        send_session(cmd, labels, first, states, events, steps),
        0 <= i < steps.len(),
        steps[i].request is Some,
    ensures
        steps[i].request == Some(SendRequest::Finish(Err::<(), E>(error))) <==> events[i]
            == SendEvent::Failed(error),
        events[i] is Failed ==> steps[i].lines@.len() == 0,
{
    lemma_holds(cmd, labels, first, states, events, steps, i);
    assert(send_transition(states[i], events[i], steps[i]));
    assert(texts(steps[i].lines@).len() == steps[i].lines@.len());
}

/// A run is told one token and one signer, so whatever the replies say later, the token
/// and the payer stay what they were.
pub proof fn law_what_was_told_stays<E>(
    cmd: SendCmd,
    labels: Labels,
    first: SendStep<E>,
    states: Seq<SendState>,
    events: Seq<SendEvent<E>>,
    steps: Seq<SendStep<E>>,
    i: int,
    j: int,
)
    requires
        send_session(cmd, labels, first, states, events, steps),
        0 <= i < steps.len(),
        0 <= j < steps.len(),
        steps[i].request is Some,
        steps[j].request is Some,
    ensures
        events[i] is Token && events[j] is Token ==> i == j,
        events[i] is SignerFound && events[j] is SignerFound ==> i == j,
        events[i] is Nonce && events[j] is Nonce ==> i == j,
{
    lemma_holds(cmd, labels, first, states, events, steps, i);
    lemma_holds(cmd, labels, first, states, events, steps, j);
    assert(send_transition(states[i], events[i], steps[i]));
    assert(send_transition(states[j], events[j], steps[j]));
    if i < j {
        lemma_stage(states, events, steps, i + 1, j);
    } else if j < i {
        lemma_stage(states, events, steps, j + 1, i);
    }
}

} // verus!
