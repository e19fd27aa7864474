//! What holds of every run of a transfer, whatever replies come in and in whatever order.
use super::run::{send_transition, SendEvent, SendRequest, SendState, SendStep};
use super::SendCmd;
use crate::market::SpotToken;
use crate::text::texts;
use vstd::prelude::*;

pub mod session;

verus! {

/// A run: `states[i]` answers `events[i]` with `steps[i]`, which leads to `states[i + 1]`.
pub open spec fn send_run<E>(
    states: Seq<SendState>,
    events: Seq<SendEvent<E>>,
    steps: Seq<SendStep<E>>,
) -> bool {
    &&& states.len() == events.len() + 1
    &&& steps.len() == events.len()
    &&& forall|i: int|
        0 <= i < steps.len() ==> send_transition(states[i], events[i], #[trigger] steps[i])
            && states[i + 1] == steps[i].state
}

/// The step hands a transfer to the exchange.
pub open spec fn submits<E>(step: SendStep<E>) -> bool {
    match step.request {
        Some(SendRequest::ExecuteMultiSig { .. }) => true,
        Some(SendRequest::SendAsset { .. }) => true,
        _ => false,
    }
}

/// The step ends the run.
pub open spec fn ends<E>(step: SendStep<E>) -> bool {
    step.request matches Some(SendRequest::Finish(_))
}

/// How far a run has come, from 0 to 5.
pub open spec fn stage(state: SendState) -> int {
    match state {
        SendState::FindingToken { .. } => 0,
        SendState::ReadingConfig { .. } => 1,
        SendState::FindingSigner { .. } => 1,
        SendState::FindingSigners { .. } => 2,
        SendState::TakingNonce { .. } => 3,
        SendState::Submitting { .. } => 4,
        SendState::Finished => 5,
    }
}

/// The state belongs to a run of `cmd`.
pub open spec fn belongs_to(state: SendState, cmd: SendCmd) -> bool {
    match state {
        SendState::FindingToken { cmd: c, .. } => c == cmd,
        SendState::ReadingConfig { cmd: c, account, .. } => c == cmd && cmd.multi_sig_addr == Some(
            account,
        ),
        SendState::FindingSigners { cmd: c, account, .. } => c == cmd && cmd.multi_sig_addr
            == Some(account),
        SendState::FindingSigner { cmd: c, .. } => c == cmd && cmd.multi_sig_addr is None,
        SendState::TakingNonce { cmd: c, account, .. } => c == cmd && (cmd.multi_sig_addr is Some
            ==> cmd.multi_sig_addr == Some(account)),
        SendState::Submitting { multi_sig } => multi_sig == (cmd.multi_sig_addr is Some),
        SendState::Finished => true,
    }
}

pub(crate) proof fn lemma_stage<E>(
    states: Seq<SendState>,
    events: Seq<SendEvent<E>>,
    steps: Seq<SendStep<E>>,
    i: int,
    j: int,
)
    requires
        send_run(states, events, steps),
        0 <= i <= j < states.len(),
    ensures
        stage(states[i]) <= stage(states[j]),
    decreases j - i,
{
    if i < j {
        lemma_stage(states, events, steps, i, j - 1);
        assert(send_transition(states[j - 1], events[j - 1], steps[j - 1]));
    }
}

proof fn lemma_belongs<E>(
    cmd: SendCmd,
    states: Seq<SendState>,
    events: Seq<SendEvent<E>>,
    steps: Seq<SendStep<E>>,
    i: int,
)
    requires
        send_run(states, events, steps),
        belongs_to(states[0], cmd),
        0 <= i < states.len(),
    ensures
        belongs_to(states[i], cmd),
    decreases i,
{
    if i > 0 {
        lemma_belongs(cmd, states, events, steps, i - 1);
        assert(send_transition(states[i - 1], events[i - 1], steps[i - 1]));
    }
}

/// The event is a reply, good or bad, to the request that the state waits for.
pub open spec fn answers<E>(state: SendState, event: SendEvent<E>) -> bool {
    match state {
        SendState::FindingToken { .. } => event is Token || event is Failed,
        SendState::ReadingConfig { .. } => event is MultiSigConfig || event is Failed,
        SendState::FindingSigners { .. } => event is SignersFound || event is Failed,
        SendState::FindingSigner { .. } => event is SignerFound || event is Failed,
        SendState::TakingNonce { .. } => event is Nonce || event is Failed,
        SendState::Submitting { .. } => event is Submitted || event is Failed,
        SendState::Finished => false,
    }
}

/// The replies that lead to a request are those to the outstanding one.
pub proof fn law_replies_are_answered<E>(state: SendState, event: SendEvent<E>, step: SendStep<E>)
    requires
        send_transition(state, event, step),
    ensures
        step.request is Some <==> answers(state, event),
{
}

/// Every request moves the run on and none is made twice, so a run makes at most five
/// requests after the one it starts with. A reply that leads to no request changes
/// nothing and prints nothing.
pub proof fn law_requests_move_on<E>(
    states: Seq<SendState>,
    events: Seq<SendEvent<E>>,
    steps: Seq<SendStep<E>>,
    i: int,
    j: int,
)
    requires
        send_run(states, events, steps),
        0 <= i < j < steps.len(),
    ensures
        steps[i].request is Some ==> stage(states[i]) < stage(states[j]) <= 5,
        steps[i].request is None ==> states[i + 1] == states[i] && steps[i].lines@.len() == 0,
{
    assert(send_transition(states[i], events[i], steps[i]));
    lemma_stage(states, events, steps, i + 1, j);
}

/// A run hands over at most one transfer.
pub proof fn law_one_submission<E>(
    states: Seq<SendState>,
    events: Seq<SendEvent<E>>,
    steps: Seq<SendStep<E>>,
    i: int,
    j: int,
)
    requires
        send_run(states, events, steps),
        0 <= i < steps.len(),
        0 <= j < steps.len(),
        submits(steps[i]),
        submits(steps[j]),
    ensures
        i == j,
{
    let first = if i < j { i } else { j };
    let last = if i < j { j } else { i };
    assert(send_transition(states[first], events[first], steps[first]));
    assert(send_transition(states[last], events[last], steps[last]));
    if first < last {
        lemma_stage(states, events, steps, first + 1, last);
    }
}

/// A run that was started by a command ends well only after the exchange accepted a
/// transfer that the run had handed over before.
pub proof fn law_success_follows_submission<E>(
    states: Seq<SendState>,
    events: Seq<SendEvent<E>>,
    steps: Seq<SendStep<E>>,
    j: int,
)
    requires
        send_run(states, events, steps),
        states[0] is FindingToken,
        0 <= j < steps.len(),
        steps[j].request == Some(SendRequest::<E>::Finish(Ok(()))),
    ensures
        events[j] is Submitted,
        exists|i: int| 0 <= i < j && submits(#[trigger] steps[i]),
{
    assert(send_transition(states[j], events[j], steps[j]));
    lemma_submitting_follows_submission(states, events, steps, j);
}

proof fn lemma_submitting_follows_submission<E>(
    states: Seq<SendState>,
    events: Seq<SendEvent<E>>,
    steps: Seq<SendStep<E>>,
    j: int,
)
    requires
        send_run(states, events, steps),
        states[0] is FindingToken,
        0 <= j < states.len(),
        states[j] is Submitting,
    ensures
        exists|i: int| 0 <= i < j && submits(#[trigger] steps[i]),
    decreases j,
{
    assert(j > 0);
    assert(send_transition(states[j - 1], events[j - 1], steps[j - 1]));
    if states[j - 1] is Submitting {
        lemma_submitting_follows_submission(states, events, steps, j - 1);
    } else {
        assert(submits(steps[j - 1]));
    }
}

/// Once a run has ended it prints nothing and asks for nothing.
pub proof fn law_end_is_final<E>(
    states: Seq<SendState>,
    events: Seq<SendEvent<E>>,
    steps: Seq<SendStep<E>>,
    i: int,
    j: int,
)
    requires
        send_run(states, events, steps),
        0 <= i < j < steps.len(),
        ends(steps[i]),
    ensures
        steps[j].request is None,
        steps[j].lines@.len() == 0,
{
    assert(send_transition(states[i], events[i], steps[i]));
    lemma_stage(states, events, steps, i + 1, j);
    assert(send_transition(states[j], events[j], steps[j]));
}

/// A failed request ends a run that has not ended yet, with the failure itself and
/// without a line.
pub proof fn law_failure_ends_the_run<E>(
    states: Seq<SendState>,
    events: Seq<SendEvent<E>>,
    steps: Seq<SendStep<E>>,
    i: int,
    error: E,
)
    requires
        send_run(states, events, steps),
        0 <= i < steps.len(),
        states[i] !is Finished,
        events[i] == SendEvent::Failed(error),
    ensures
        steps[i].request == Some(SendRequest::Finish(Err::<(), E>(error))),
        steps[i].lines@.len() == 0,
        states[i + 1] is Finished,
{
    assert(send_transition(states[i], events[i], steps[i]));
    assert(texts(steps[i].lines@).len() == 0);
}

/// The token that a state has found.
pub open spec fn found_token(state: SendState) -> Option<SpotToken> {
    match state {
        SendState::ReadingConfig { token, .. } => Some(token),
        SendState::FindingSigners { token, .. } => Some(token),
        SendState::FindingSigner { token, .. } => Some(token),
        SendState::TakingNonce { token, .. } => Some(token),
        _ => None,
    }
}

/// A run on behalf of a multi-sig wallet prints nothing itself. What it hands over is
/// the transfer that the command describes, of the token that was found, paid by that
/// wallet and under the nonce that the reply brought.
pub proof fn law_multi_sig_run<E>(
    cmd: SendCmd,
    states: Seq<SendState>,
    events: Seq<SendEvent<E>>,
    steps: Seq<SendStep<E>>,
    i: int,
)
    requires
        send_run(states, events, steps),
        states[0] is FindingToken,
        belongs_to(states[0], cmd),
        cmd.multi_sig_addr is Some,
        0 <= i < steps.len(),
    ensures
        steps[i].lines@.len() == 0,
        submits(steps[i]) ==> ({
            &&& steps[i].request matches Some(
                SendRequest::ExecuteMultiSig { chain, account, transfer, nonce, local },
            )
            &&& cmd.multi_sig_addr == Some(account)
            &&& chain == cmd.signer.chain
            &&& local == cmd.local
            &&& events[i] == SendEvent::<E>::Nonce(nonce)
            &&& cmd.is_transfer(account, transfer.token.0, nonce, transfer)
            &&& exists|k: int|
                0 <= k < i && #[trigger] events[k] == SendEvent::<E>::Token(transfer.token.0)
        }),
{
    lemma_belongs(cmd, states, events, steps, i);
    assert(send_transition(states[i], events[i], steps[i]));
    assert(texts(steps[i].lines@).len() == steps[i].lines@.len());
    if submits(steps[i]) {
        lemma_token_was_found(states, events, steps, i);
    }
}

/// A run without a multi-sig wallet hands over the transfer that the command describes,
/// of the token that was found, for the address of the signer that was found and under
/// the nonce that the reply brought.
pub proof fn law_single_signer_run<E>(
    cmd: SendCmd,
    states: Seq<SendState>,
    events: Seq<SendEvent<E>>,
    steps: Seq<SendStep<E>>,
    i: int,
)
    requires
        send_run(states, events, steps),
        states[0] is FindingToken,
        belongs_to(states[0], cmd),
        cmd.multi_sig_addr is None,
        0 <= i < steps.len(),
        submits(steps[i]),
    ensures
        ({
            &&& steps[i].request matches Some(SendRequest::SendAsset { chain, transfer, nonce })
            &&& chain == cmd.signer.chain
            &&& events[i] == SendEvent::<E>::Nonce(nonce)
            &&& exists|k: int|
                0 <= k < i && (#[trigger] events[k] matches SendEvent::SignerFound(account)
                    && cmd.is_transfer(account, transfer.token.0, nonce, transfer))
            &&& exists|k: int|
                0 <= k < i && #[trigger] events[k] == SendEvent::<E>::Token(transfer.token.0)
        }),
{
    lemma_belongs(cmd, states, events, steps, i);
    assert(send_transition(states[i], events[i], steps[i]));
    lemma_signer_was_found(cmd, states, events, steps, i);
    lemma_token_was_found(states, events, steps, i);
}

proof fn lemma_token_was_found<E>(
    states: Seq<SendState>,
    events: Seq<SendEvent<E>>,
    steps: Seq<SendStep<E>>,
    i: int,
)
    requires
        send_run(states, events, steps),
        states[0] is FindingToken,
        0 <= i < states.len(),
        found_token(states[i]) is Some,
    ensures
        exists|k: int|
            0 <= k < i && #[trigger] events[k] == SendEvent::<E>::Token(found_token(states[i])->0),
    decreases i,
{
    assert(i > 0);
    assert(send_transition(states[i - 1], events[i - 1], steps[i - 1]));
    if found_token(states[i - 1]) is Some {
        lemma_token_was_found(states, events, steps, i - 1);
    } else {
        assert(events[i - 1] == SendEvent::<E>::Token(found_token(states[i])->0));
    }
}

proof fn lemma_signer_was_found<E>(
    cmd: SendCmd,
    states: Seq<SendState>,
    events: Seq<SendEvent<E>>,
    steps: Seq<SendStep<E>>,
    i: int,
)
    requires
        send_run(states, events, steps),
        states[0] is FindingToken,
        belongs_to(states[0], cmd),
        cmd.multi_sig_addr is None,
        0 <= i < states.len(),
        states[i] is TakingNonce,
    ensures
        exists|k: int|
            0 <= k < i && #[trigger] events[k] == SendEvent::<E>::SignerFound(
                states[i]->TakingNonce_account,
            ),
    decreases i,
{
    assert(i > 0);
    lemma_belongs(cmd, states, events, steps, i - 1);
    assert(send_transition(states[i - 1], events[i - 1], steps[i - 1]));
    if states[i - 1] is TakingNonce {
        lemma_signer_was_found(cmd, states, events, steps, i - 1);
    } else {
        assert(events[i - 1] == SendEvent::<E>::SignerFound(states[i]->TakingNonce_account));
    }
}

} // verus!
