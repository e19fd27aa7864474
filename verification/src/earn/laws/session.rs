//! What an Earn command asks for and prints, from its first step on, told by the command
//! and the replies that came in.
use super::super::pct::pct_text;
use super::super::report::{
    law_report_line_by_line, law_report_shows_the_three_rates, ReserveState, UserState,
};
use super::super::run::{
    earn_transition, law_transfer_is_announced_as_it_is, transfer_line, EarnEvent, EarnRequest,
    EarnState, EarnStep,
};
use super::super::{
    law_name_is_the_first_symbol, name_of, BorrowLendOperation, EarnCmd, EarnStatusCmd,
    EarnTransferCmd,
};
use super::{earn_run, lemma_stage};
use crate::decimal::{mantissa_limit, parsed_decimal, ten_pow};
use crate::market::SpotToken;
use crate::text::{nat_text, texts};
use vstd::prelude::*;
use vstd::string::*;

verus! {

/// A run from its first step on: `first` starts `cmd`, and `steps[i]` answers `events[i]`.
pub open spec fn earn_session<E>(
    cmd: EarnCmd,
    first: EarnStep<E>,
    states: Seq<EarnState>,
    events: Seq<EarnEvent<E>>,
    steps: Seq<EarnStep<E>>,
) -> bool {
    &&& cmd.starts_with(first)
    &&& earn_run(states, events, steps)
    &&& states[0] == first.state
}

/// The request that was made last before `events[i]` came in.
pub open spec fn outstanding<E>(
    first: EarnStep<E>,
    steps: Seq<EarnStep<E>>,
    i: int,
) -> Option<EarnRequest<E>>
    decreases i,
{
    if i <= 0 {
        first.request
    } else if steps[i - 1].request is Some {
        steps[i - 1].request
    } else {
        outstanding(first, steps, i - 1)
    }
}

/// `event` is a reply, good or bad, to `request`.
pub open spec fn replies<E>(request: EarnRequest<E>, event: EarnEvent<E>) -> bool {
    match request {
        EarnRequest::FindSigner => event is SignerFound || event is Failed,
        EarnRequest::FetchSpotTokens { .. } => event is SpotTokens || event is Failed,
        EarnRequest::TakeNonce => event is Nonce || event is Failed,
        EarnRequest::Submit { .. } => event is Submitted || event is Failed,
        EarnRequest::FetchReserve { .. } => event is Reserve || event is Failed,
        EarnRequest::FetchUser { .. } => event is User || event is Failed,
        EarnRequest::RateOverflow => false,
        EarnRequest::Finish(_) => false,
    }
}

/// The command supplies or withdraws, as `operation` says, what `transfer` holds.
spec fn moves(
    cmd: EarnCmd,
    transfer: EarnTransferCmd,
    operation: BorrowLendOperation,
) -> bool {
    &&& operation is Supply ==> cmd == EarnCmd::Supply(transfer)
    &&& operation is Withdraw ==> cmd == EarnCmd::Withdraw(transfer)
}

/// The spot tokens that a reply brings, `None` where the request failed.
spec fn tokens_of<E>(event: EarnEvent<E>) -> Option<Seq<SpotToken>> {
    match event {
        EarnEvent::SpotTokens(tokens) => Some(tokens@),
        _ => None,
    }
}

/// `name` comes from the reply that named the reserve before `events[i]`.
spec fn was_named<E>(
    name: Seq<char>,
    token: u32,
    first: EarnStep<E>,
    events: Seq<EarnEvent<E>>,
    steps: Seq<EarnStep<E>>,
    i: int,
) -> bool {
    exists|k: int|
        {
            &&& 0 <= k < i
            &&& steps[k].request is Some
            &&& outstanding(first, steps, k) matches Some(EarnRequest::FetchSpotTokens { .. })
            &&& name == name_of(tokens_of(#[trigger] events[k]), token)
        }
}

/// `reserve` is the state of the reserve that the run was told before `events[i]`.
spec fn was_told_reserve<E>(
    reserve: ReserveState,
    events: Seq<EarnEvent<E>>,
    steps: Seq<EarnStep<E>>,
    i: int,
) -> bool {
    exists|k: int|
        0 <= k < i && steps[k].request is Some && #[trigger] events[k]
            == EarnEvent::<E>::Reserve(reserve)
}

/// What a state of the run holds before `events[i]`, and which request it waits on.
spec fn holds<E>(
    cmd: EarnCmd,
    first: EarnStep<E>,
    state: EarnState,
    events: Seq<EarnEvent<E>>,
    steps: Seq<EarnStep<E>>,
    i: int,
) -> bool {
    let request = outstanding(first, steps, i);
    match state {
        EarnState::FindingSigner { cmd: c, operation } => {
            &&& moves(cmd, c, operation)
            &&& request matches Some(EarnRequest::FindSigner)
        },
        EarnState::NamingToken { cmd: c, operation } => {
            &&& moves(cmd, c, operation)
            &&& request matches Some(EarnRequest::FetchSpotTokens { .. })
        },
        EarnState::TakingNonce { cmd: c, operation } => {
            &&& moves(cmd, c, operation)
            &&& request matches Some(EarnRequest::TakeNonce)
        },
        EarnState::Submitting { operation } => {
            &&& operation is Supply ==> cmd is Supply
            &&& operation is Withdraw ==> cmd is Withdraw
            &&& request matches Some(EarnRequest::Submit { .. })
        },
        EarnState::NamingReserve { query } => {
            &&& cmd == EarnCmd::Status(query)
            &&& request matches Some(EarnRequest::FetchSpotTokens { .. })
        },
        EarnState::ReadingReserve { query, name } => {
            &&& cmd == EarnCmd::Status(query)
            &&& request matches Some(EarnRequest::FetchReserve { .. })
            &&& was_named(name@, query.token, first, events, steps, i)
        },
        EarnState::ReadingUser { query, name, reserve } => {
            &&& cmd == EarnCmd::Status(query)
            &&& request matches Some(EarnRequest::FetchUser { .. })
            &&& was_named(name@, query.token, first, events, steps, i)
            &&& was_told_reserve(reserve, events, steps, i)
        },
        EarnState::Finished => match request {
            Some(EarnRequest::Finish(_)) => true,
            Some(EarnRequest::RateOverflow) => true,
            _ => false,
        },
    }
}

proof fn lemma_holds<E>(
    cmd: EarnCmd,
    first: EarnStep<E>,
    states: Seq<EarnState>,
    events: Seq<EarnEvent<E>>,
    steps: Seq<EarnStep<E>>,
    i: int,
)
    requires
        earn_session(cmd, first, states, events, steps),
        0 <= i < states.len(),
    ensures
        holds(cmd, first, states[i], events, steps, i),
    decreases i,
{
    if i > 0 {
        let k = i - 1;
        lemma_holds(cmd, first, states, events, steps, k);
        assert(earn_transition(states[k], events[k], steps[k]));
        assert(states[k + 1] == steps[k].state);
        assert(forall|name: Seq<char>, token: u32|
            was_named(name, token, first, events, steps, k) ==> was_named(
                name,
                token,
                first,
                events,
                steps,
                i,
            ));
        assert(forall|reserve: ReserveState|
            was_told_reserve(reserve, events, steps, k) ==> was_told_reserve(
                reserve,
                events,
                steps,
                i,
            ));
        if let EarnState::NamingReserve { query } = states[k] {
            if steps[k].request is Some {
                let name = name_of(tokens_of(events[k]), query.token);
                assert(was_named(name, query.token, first, events, steps, i));
            }
        }
        if let EarnEvent::Reserve(reserve) = events[k] {
            if steps[k].request is Some {
                assert(events[k] == EarnEvent::<E>::Reserve(reserve));
                assert(was_told_reserve(reserve, events, steps, i));
            }
        }
    }
}

/// A supply or a withdrawal starts by looking for its signer, a query by asking for the
/// spot tokens of its chain. Nothing is printed yet, and no command ends with its first
/// step.
pub proof fn law_first_request<E>(cmd: EarnCmd, first: EarnStep<E>)
    requires
        cmd.starts_with(first),
    ensures
        first.lines@.len() == 0,
        cmd is Supply || cmd is Withdraw ==> first.request == Some(EarnRequest::<E>::FindSigner),
        cmd matches EarnCmd::Status(query) ==> first.request == Some(
            EarnRequest::<E>::FetchSpotTokens { chain: query.chain },
        ),
{
    assert(texts(first.lines@).len() == first.lines@.len());
}

/// The run goes on exactly at a reply to the request that it made last. Any other reply
/// prints nothing and leaves it where it was.
pub proof fn law_only_replies_lead_on<E>(
    cmd: EarnCmd,
    first: EarnStep<E>,
    states: Seq<EarnState>,
    events: Seq<EarnEvent<E>>,
    steps: Seq<EarnStep<E>>,
    i: int,
)
    requires
        earn_session(cmd, first, states, events, steps),
        0 <= i < steps.len(),
    ensures
        outstanding(first, steps, i) matches Some(request) && (steps[i].request is Some <==> replies(
            request,
            events[i],
        )),
        steps[i].request is None ==> steps[i].lines@.len() == 0 && steps[i].state == states[i],
{
    lemma_holds(cmd, first, states, events, steps, i);
    assert(earn_transition(states[i], events[i], steps[i]));
}

/// With the signer, a supply or a withdrawal asks for the spot tokens of its own chain.
pub proof fn law_signer_leads_to_the_name<E>(
    cmd: EarnCmd,
    first: EarnStep<E>,
    states: Seq<EarnState>,
    events: Seq<EarnEvent<E>>,
    steps: Seq<EarnStep<E>>,
    i: int,
)
    requires
        earn_session(cmd, first, states, events, steps),
        0 <= i < steps.len(),
        steps[i].request is Some,
        events[i] is SignerFound,
    ensures
        steps[i].lines@.len() == 0,
        !(cmd is Status),
        cmd matches EarnCmd::Supply(transfer) ==> steps[i].request == Some(
            EarnRequest::<E>::FetchSpotTokens { chain: transfer.signer.chain },
        ),
        cmd matches EarnCmd::Withdraw(transfer) ==> steps[i].request == Some(
            EarnRequest::<E>::FetchSpotTokens { chain: transfer.signer.chain },
        ),
{
    lemma_holds(cmd, first, states, events, steps, i);
    assert(earn_transition(states[i], events[i], steps[i]));
    assert(texts(steps[i].lines@).len() == steps[i].lines@.len());
}

/// The reply on the spot tokens, be it a failure, leads a supply or a withdrawal to print
/// one line and to take a nonce. The line tells the operation, the amount, and the token
/// by the symbol of the first spot token with its index, at `t`, or else by the index.
pub proof fn law_name_leads_to_the_announcement<E>(
    cmd: EarnCmd,
    transfer: EarnTransferCmd,
    first: EarnStep<E>,
    states: Seq<EarnState>,
    events: Seq<EarnEvent<E>>,
    steps: Seq<EarnStep<E>>,
    i: int,
    t: int,
)
    requires
        earn_session(cmd, first, states, events, steps),
        0 <= i < steps.len(),
        cmd == EarnCmd::Supply(transfer) || cmd == EarnCmd::Withdraw(transfer),
        outstanding(first, steps, i) matches Some(EarnRequest::FetchSpotTokens { .. }),
        events[i] is SpotTokens || events[i] is Failed,
    ensures
        steps[i].request == Some(EarnRequest::<E>::TakeNonce),
        steps[i].lines@.len() == 1,
        ({
            let verb = if cmd is Supply {
                "Supplying"@
            } else {
                "Withdrawing"@
            };
            let amount = match transfer.amount {
                Some(amount) => amount@.text(),
                None => "max"@,
            };
            let index = nat_text(transfer.token as nat);
            let line = steps[i].lines@[0]@;
            &&& events[i] matches EarnEvent::SpotTokens(tokens) ==> {
                &&& 0 <= t < tokens@.len() && tokens@[t].index == transfer.token && (forall|h: int|
                    0 <= h < t ==> (#[trigger] tokens@[h]).index != transfer.token) ==> line == verb
                    + " "@ + amount + " "@ + tokens@[t].name@ + " ..."@
                &&& (forall|h: int|
                    0 <= h < tokens@.len() ==> (#[trigger] tokens@[h]).index != transfer.token)
                    ==> line == verb + " "@ + amount + " "@ + index + " ..."@
            }
            &&& events[i] is Failed ==> line == verb + " "@ + amount + " "@ + index + " ..."@
        }),
{
    lemma_holds(cmd, first, states, events, steps, i);
    assert(earn_transition(states[i], events[i], steps[i]));
    let operation = if cmd is Supply {
        BorrowLendOperation::Supply
    } else {
        BorrowLendOperation::Withdraw
    };
    let name = name_of(tokens_of(events[i]), transfer.token);
    if let EarnEvent::SpotTokens(tokens) = events[i] {
        law_name_is_the_first_symbol(tokens@, transfer.token, t);
    } else {
        law_name_is_the_first_symbol(Seq::empty(), transfer.token, t);
    }
    law_transfer_is_announced_as_it_is(transfer, name);
    let lines = steps[i].lines@;
    assert(texts(lines).len() == lines.len());
    assert(texts(lines)[0] == lines[0]@);
    assert(lines[0]@ == transfer_line(transfer, operation, name));
}

/// With the nonce, the transfer is handed over: the command's own operation, token and
/// amount, on its own chain, under that nonce.
pub proof fn law_nonce_hands_the_transfer_over<E>(
    cmd: EarnCmd,
    transfer: EarnTransferCmd,
    first: EarnStep<E>,
    states: Seq<EarnState>,
    events: Seq<EarnEvent<E>>,
    steps: Seq<EarnStep<E>>,
    i: int,
    given: u64,
)
    requires
        earn_session(cmd, first, states, events, steps),
        0 <= i < steps.len(),
        steps[i].request is Some,
        cmd == EarnCmd::Supply(transfer) || cmd == EarnCmd::Withdraw(transfer),
        events[i] == EarnEvent::<E>::Nonce(given),
    ensures
        steps[i].lines@.len() == 0,
        steps[i].request matches Some(EarnRequest::Submit { chain, action, nonce }) && ({
            &&& chain == transfer.signer.chain
            &&& nonce == given
            &&& action.operation is Supply <==> cmd is Supply
            &&& action.operation is Withdraw <==> cmd is Withdraw
            &&& action.token == transfer.token
            &&& action.amount is None <==> transfer.amount is None
            &&& transfer.amount matches Some(asked) ==> (action.amount matches Some(amount)
                && amount == asked && amount@ == asked@)
        }),
{
    lemma_holds(cmd, first, states, events, steps, i);
    assert(earn_transition(states[i], events[i], steps[i]));
    assert(texts(steps[i].lines@).len() == steps[i].lines@.len());
}

/// Once the exchange accepts what was handed over, the run says what was done and ends
/// well.
pub proof fn law_acceptance_is_reported<E>(
    cmd: EarnCmd,
    first: EarnStep<E>,
    states: Seq<EarnState>,
    events: Seq<EarnEvent<E>>,
    steps: Seq<EarnStep<E>>,
    i: int,
)
    requires
        earn_session(cmd, first, states, events, steps),
        0 <= i < steps.len(),
        steps[i].request is Some,
        events[i] is Submitted,
    ensures
        outstanding(first, steps, i) matches Some(EarnRequest::Submit { .. }),
        steps[i].request == Some(EarnRequest::<E>::Finish(Ok(()))),
        steps[i].lines@.len() == 1,
        cmd is Supply ==> steps[i].lines@[0]@ == "Supplied successfully."@,
        cmd is Withdraw ==> steps[i].lines@[0]@ == "Withdrawn successfully."@,
        !(cmd is Status),
{
    lemma_holds(cmd, first, states, events, steps, i);
    assert(earn_transition(states[i], events[i], steps[i]));
    reveal_strlit("Supplied");
    reveal_strlit("Withdrawn");
    reveal_strlit(" successfully.");
    reveal_strlit("Supplied successfully.");
    reveal_strlit("Withdrawn successfully.");
    assert("Supplied"@ + " successfully."@ =~= "Supplied successfully."@);
    assert("Withdrawn"@ + " successfully."@ =~= "Withdrawn successfully."@);
    let lines = steps[i].lines@;
    assert(texts(lines).len() == lines.len());
    assert(texts(lines)[0] == lines[0]@);
}

/// The reply on the spot tokens, be it a failure, leads a query to the state of the
/// reserve that it asks about, on its chain.
pub proof fn law_query_reads_its_reserve<E>(
    query: EarnStatusCmd,
    first: EarnStep<E>,
    states: Seq<EarnState>,
    events: Seq<EarnEvent<E>>,
    steps: Seq<EarnStep<E>>,
    i: int,
)
    requires
        earn_session(EarnCmd::Status(query), first, states, events, steps),
        0 <= i < steps.len(),
        outstanding(first, steps, i) matches Some(EarnRequest::FetchSpotTokens { .. }),
        events[i] is SpotTokens || events[i] is Failed,
    ensures
        steps[i].lines@.len() == 0,
        steps[i].request matches Some(EarnRequest::FetchReserve { chain, token }) && chain
            == query.chain && token == query.token,
{
    lemma_holds(EarnCmd::Status(query), first, states, events, steps, i);
    assert(earn_transition(states[i], events[i], steps[i]));
}

/// The state of the reserve leads a query to the state of the user that it asks about, on
/// its chain.
pub proof fn law_query_reads_its_user<E>(
    cmd: EarnCmd,
    first: EarnStep<E>,
    states: Seq<EarnState>,
    events: Seq<EarnEvent<E>>,
    steps: Seq<EarnStep<E>>,
    i: int,
)
    requires
        earn_session(cmd, first, states, events, steps),
        0 <= i < steps.len(),
        steps[i].request is Some,
        events[i] is Reserve,
    ensures
        steps[i].lines@.len() == 0,
        cmd matches EarnCmd::Status(query) && (steps[i].request matches Some(
            EarnRequest::FetchUser { chain, user },
        ) && chain == query.chain && user == query.user),
{
    lemma_holds(cmd, first, states, events, steps, i);
    assert(earn_transition(states[i], events[i], steps[i]));
    assert(texts(steps[i].lines@).len() == steps[i].lines@.len());
}

/// Whenever a query asks for a reserve or a user, it asks for its own, on its own chain.
pub proof fn law_query_asks_for_its_own<E>(
    query: EarnStatusCmd,
    first: EarnStep<E>,
    states: Seq<EarnState>,
    events: Seq<EarnEvent<E>>,
    steps: Seq<EarnStep<E>>,
    i: int,
)
    requires
        earn_session(EarnCmd::Status(query), first, states, events, steps),
        0 <= i < steps.len(),
    ensures
        steps[i].request matches Some(EarnRequest::FetchReserve { chain, token }) ==> chain
            == query.chain && token == query.token,
        steps[i].request matches Some(EarnRequest::FetchUser { chain, user }) ==> chain
            == query.chain && user == query.user,
        !(steps[i].request matches Some(EarnRequest::Submit { .. })),
        !(steps[i].request matches Some(EarnRequest::FindSigner)),
        !(steps[i].request matches Some(EarnRequest::TakeNonce)),
{
    lemma_holds(EarnCmd::Status(query), first, states, events, steps, i);
    assert(earn_transition(states[i], events[i], steps[i]));
}

/// A query is named and told of its reserve before the state of the user ends it.
pub proof fn law_query_is_told_before_it_reports<E>(
    cmd: EarnCmd,
    first: EarnStep<E>,
    states: Seq<EarnState>,
    events: Seq<EarnEvent<E>>,
    steps: Seq<EarnStep<E>>,
    i: int,
)
    requires
        earn_session(cmd, first, states, events, steps),
        0 <= i < steps.len(),
        steps[i].request is Some,
        events[i] is User,
    ensures
        cmd is Status,
        exists|k: int|
            0 <= k < i && (#[trigger] steps[k]).request is Some && (outstanding(first, steps, k)
                matches Some(EarnRequest::FetchSpotTokens { .. })),
        exists|m: int| 0 <= m < i && steps[m].request is Some && #[trigger] events[m] is Reserve,
{
    lemma_holds(cmd, first, states, events, steps, i);
    assert(earn_transition(states[i], events[i], steps[i]));
    if let EarnState::ReadingUser { query, name, reserve } = states[i] {
        assert(was_named(name@, query.token, first, events, steps, i));
        assert(was_told_reserve(reserve, events, steps, i));
    }
}

/// The state of the user ends a query. Where one of the three rates that it was told, in
/// the reply `m`, is too large for a percentage, the query gives up without a line. Else
/// it ends well and prints the report: the reserve by the name from the reply `k` (the
/// symbol of the first spot token with its index, at `t`, or else the index), the three
/// rates as percentages, the totals, the price, the position that the entry `e` is the
/// first to tell of, and the health.
pub proof fn law_query_reports_what_it_was_told<E>(
    query: EarnStatusCmd,
    first: EarnStep<E>,
    states: Seq<EarnState>,
    events: Seq<EarnEvent<E>>,
    steps: Seq<EarnStep<E>>,
    i: int,
    k: int,
    m: int,
    t: int,
    e: int,
    name: Seq<char>,
    reserve: ReserveState,
    user: UserState,
)
    requires
        earn_session(EarnCmd::Status(query), first, states, events, steps),
        0 <= i < steps.len(),
        steps[i].request is Some,
        events[i] == EarnEvent::<E>::User(user),
        0 <= m < i,
        steps[m].request is Some,
        events[m] == EarnEvent::<E>::Reserve(reserve),
        0 <= k < i,
        steps[k].request is Some,
        outstanding(first, steps, k) matches Some(EarnRequest::FetchSpotTokens { .. }),
        match events[k] {
            EarnEvent::SpotTokens(tokens) => {
                ||| 0 <= t < tokens@.len() && tokens@[t].index == query.token && (forall|h: int|
                    0 <= h < t ==> (#[trigger] tokens@[h]).index != query.token) && name
                    == tokens@[t].name@
                ||| (forall|h: int|
                    0 <= h < tokens@.len() ==> (#[trigger] tokens@[h]).index != query.token) && name
                    == nat_text(query.token as nat)
            },
            _ => name == nat_text(query.token as nat),
        },
    ensures
        ({
            let supply = reserve.supply_yearly_rate@;
            let borrow = reserve.borrow_yearly_rate@;
            let used = reserve.utilization@;
            let entries = user.token_to_state@;
            let lines = steps[i].lines@;
            let overflows = {
                ||| parsed_decimal(supply) matches Some(v) && 100 * v.mantissa >= mantissa_limit()
                    * ten_pow(v.scale)
                ||| parsed_decimal(borrow) matches Some(v) && 100 * v.mantissa >= mantissa_limit()
                    * ten_pow(v.scale)
                ||| parsed_decimal(used) matches Some(v) && 100 * v.mantissa >= mantissa_limit()
                    * ten_pow(v.scale)
            };
            &&& overflows ==> {
                &&& steps[i].request == Some(EarnRequest::<E>::RateOverflow)
                &&& lines.len() == 0
            }
            &&& !overflows ==> {
                &&& steps[i].request == Some(EarnRequest::<E>::Finish(Ok(())))
                &&& lines.len() == 12
                &&& lines[0]@ == "Reserve: "@ + name + " (token "@ + nat_text(query.token as nat)
                    + ")"@
                &&& lines[1]@ == "Supply APY: "@ + pct_text(parsed_decimal(supply), supply)->0
                    + "%"@
                &&& lines[2]@ == "Borrow APY: "@ + pct_text(parsed_decimal(borrow), borrow)->0
                    + "%"@
                &&& lines[3]@ == "Utilization: "@ + pct_text(parsed_decimal(used), used)->0 + "%"@
                &&& lines[4]@ == "Total Supplied: "@ + reserve.total_supplied@ + " "@ + name
                &&& lines[5]@ == "Total Borrowed: "@ + reserve.total_borrowed@ + " "@ + name
                &&& lines[6]@ == "Oracle Price: $"@ + reserve.oracle_px@
                &&& lines[7]@.len() == 0
                &&& lines[8]@ == "Your Position:"@
                &&& 0 <= e < entries.len() && entries[e].0 == query.token && (forall|h: int|
                    0 <= h < e ==> (#[trigger] entries[h]).0 != query.token) ==> {
                    &&& entries[e].1.supply matches Some(side) ==> lines[9]@ == "  Supplied: "@
                        + side.value@ + " "@ + name
                    &&& entries[e].1.supply is None ==> lines[9]@ == "  Supplied: "@ + "0"@ + " "@
                        + name
                    &&& entries[e].1.borrow matches Some(side) ==> lines[10]@ == "  Borrowed: "@
                        + side.value@ + " "@ + name
                    &&& entries[e].1.borrow is None ==> lines[10]@ == "  Borrowed: "@ + "0"@ + " "@
                        + name
                }
                &&& (forall|h: int|
                    0 <= h < entries.len() ==> (#[trigger] entries[h]).0 != query.token) ==> {
                    &&& lines[9]@ == "  Supplied: "@ + "0"@ + " "@ + name
                    &&& lines[10]@ == "  Borrowed: "@ + "0"@ + " "@ + name
                }
                &&& lines[11]@ == "  Health: "@ + user.health@
            }
        }),
{
    let cmd = EarnCmd::Status(query);
    lemma_holds(cmd, first, states, events, steps, i);
    assert(earn_transition(states[i], events[i], steps[i]));
    let lines = steps[i].lines@;
    assert(texts(lines).len() == lines.len());
    if let EarnEvent::SpotTokens(tokens) = events[k] {
        law_name_is_the_first_symbol(tokens@, query.token, t);
    } else {
        law_name_is_the_first_symbol(Seq::empty(), query.token, t);
    }
    assert(name == name_of(tokens_of(events[k]), query.token));
    if let EarnState::ReadingUser { query: kept, name: known, reserve: told } = states[i] {
        assert(was_named(known@, query.token, first, events, steps, i));
        let named = choose|n: int|
            {
                &&& 0 <= n < i
                &&& steps[n].request is Some
                &&& outstanding(first, steps, n) matches Some(EarnRequest::FetchSpotTokens { .. })
                &&& known@ == name_of(tokens_of(#[trigger] events[n]), query.token)
            };
        law_what_was_told_stays(cmd, first, states, events, steps, named, k);
        let heard = choose|n: int|
            0 <= n < i && steps[n].request is Some && #[trigger] events[n]
                == EarnEvent::<E>::Reserve(told);
        law_what_was_told_stays(cmd, first, states, events, steps, heard, m);
        assert(known@ == name && told == reserve);
        law_report_shows_the_three_rates(name, query.token, reserve, user);
        law_report_line_by_line(
            name,
            query.token,
            reserve,
            user,
            pct_text(
                parsed_decimal(reserve.supply_yearly_rate@),
                reserve.supply_yearly_rate@,
            )->0,
            pct_text(
                parsed_decimal(reserve.borrow_yearly_rate@),
                reserve.borrow_yearly_rate@,
            )->0,
            pct_text(parsed_decimal(reserve.utilization@), reserve.utilization@)->0,
            e,
        );
        assert forall|j: int| 0 <= j < lines.len() implies (#[trigger] lines[j])@ == texts(
            lines,
        )[j] by {}
    }
}

/// A run ends well exactly when the exchange accepts what it handed over or, for a query,
/// when the user's state is in and every rate can be shown.
pub proof fn law_runs_end_well_for_a_reason<E>(
    cmd: EarnCmd,
    first: EarnStep<E>,
    states: Seq<EarnState>,
    events: Seq<EarnEvent<E>>,
    steps: Seq<EarnStep<E>>,
    i: int,
)
    requires
        earn_session(cmd, first, states, events, steps),
        0 <= i < steps.len(),
        steps[i].request is Some,
    ensures
        first.request != Some(EarnRequest::<E>::Finish(Ok(()))),
        steps[i].request == Some(EarnRequest::<E>::Finish(Ok(()))) ==> {
            &&& !(cmd is Status) ==> {
                &&& events[i] is Submitted
                &&& outstanding(first, steps, i) matches Some(EarnRequest::Submit { .. })
            }
            &&& cmd is Status ==> events[i] is User
        },
        events[i] is Submitted ==> steps[i].request == Some(EarnRequest::<E>::Finish(Ok(()))),
{
    lemma_holds(cmd, first, states, events, steps, i);
    assert(earn_transition(states[i], events[i], steps[i]));
}

/// A failed request, but for that for the spot tokens, ends the run with that very failure
/// and without a line; and a run ends with no other failure.
pub proof fn law_failure_is_handed_on<E>(
    cmd: EarnCmd,
    first: EarnStep<E>,
    states: Seq<EarnState>,
    events: Seq<EarnEvent<E>>,
    steps: Seq<EarnStep<E>>,
    i: int,
    error: E,
)
    requires
        earn_session(cmd, first, states, events, steps),
        0 <= i < steps.len(),
        steps[i].request is Some,
    ensures
        events[i] == EarnEvent::Failed(error) && !(outstanding(first, steps, i) matches Some(
            EarnRequest::FetchSpotTokens { .. },
        )) ==> {
            &&& steps[i].request == Some(EarnRequest::Finish(Err::<(), E>(error)))
            &&& steps[i].lines@.len() == 0
        },
        steps[i].request == Some(EarnRequest::Finish(Err::<(), E>(error))) ==> events[i]
            == EarnEvent::Failed(error),
{
    lemma_holds(cmd, first, states, events, steps, i);
    assert(earn_transition(states[i], events[i], steps[i]));
    assert(texts(steps[i].lines@).len() == steps[i].lines@.len());
}

/// A run is named, and told of its reserve, once.
pub proof fn law_what_was_told_stays<E>(
    cmd: EarnCmd,
    first: EarnStep<E>,
    states: Seq<EarnState>,
    events: Seq<EarnEvent<E>>,
    steps: Seq<EarnStep<E>>,
    i: int,
    j: int,
)
    requires
        earn_session(cmd, first, states, events, steps),
        0 <= i < steps.len(),
        0 <= j < steps.len(),
        steps[i].request is Some,
        steps[j].request is Some,
    ensures
        (outstanding(first, steps, i) matches Some(EarnRequest::FetchSpotTokens { .. })) && (
        outstanding(first, steps, j) matches Some(EarnRequest::FetchSpotTokens { .. })) ==> i == j,
        events[i] is Reserve && events[j] is Reserve ==> i == j,
        events[i] is Nonce && events[j] is Nonce ==> i == j,
{
    lemma_holds(cmd, first, states, events, steps, i);
    lemma_holds(cmd, first, states, events, steps, j);
    assert(earn_transition(states[i], events[i], steps[i]));
    assert(earn_transition(states[j], events[j], steps[j]));
    if i < j {
        lemma_stage(states, events, steps, i + 1, j);
    } else if j < i {
        lemma_stage(states, events, steps, j + 1, i);
    }
}

} // verus!
