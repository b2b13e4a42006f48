//! The delivery pipeline: a state machine that sequences one delivery
//! attempt.
//!
//! Each attempt walks `ReadingMessage -> ReadingTransactionId ->
//! ReadingEndpoint -> Dialing -> Calling -> Reporting`, terminal on
//! `Reporting`. The machine itself performs no I/O: every step returns the
//! next [`Action`] for the surrounding driver (read a context field, dial,
//! issue the remote call, or report the outcome), and the driver feeds the
//! result of that action back in as the next [`Event`]. The first failed
//! context read short-circuits to `Reporting` with `(421, "Temporary local
//! error")`; a dial or call failure reports `(421, <error text>)`; a
//! successful call reports `(250, "OK")`. No step is retried, and exactly one
//! outcome is reported per attempt.

use vstd::prelude::*;

use crate::outcome::{
    accepted_model, generic_local_reason, temp_fail_model, DeliveryOutcome, OutcomeModel,
};

verus! {

/// Where one delivery attempt stands. States carry the context values already
/// read, until those are handed out in an action.
#[derive(Debug, PartialEq)]
pub enum PipelineState {
    /// Waiting for the message bytes.
    ReadingMessage,
    /// Waiting for the transaction id; the message bytes are in hand.
    ReadingTransactionId { rfc822: Vec<u8> },
    /// Waiting for the target endpoint.
    ReadingEndpoint { rfc822: Vec<u8>, transaction_id: String },
    /// Waiting for the dial's result; the endpoint was handed to the driver.
    Dialing { rfc822: Vec<u8>, transaction_id: String },
    /// Waiting for the remote call's result; the request was handed to the
    /// driver.
    Calling,
    /// Terminal: the outcome was handed to the driver for reporting.
    Reporting { outcome: DeliveryOutcome },
}

/// What the driver observed while performing the last action. A `None` read
/// means the host could not supply the value; a `Some` error carries the
/// transport's own text.
#[derive(Debug, PartialEq)]
pub enum Event {
    MessageRead { body: Option<Vec<u8>> },
    TransactionIdRead { id: Option<String> },
    EndpointRead { url: Option<String> },
    Dialed { error: Option<String> },
    Called { error: Option<String> },
}

/// What the driver must do next. `Report` is emitted exactly once per
/// attempt, on the transition into the terminal state.
#[derive(Debug, PartialEq)]
pub enum Action {
    ReadMessage,
    ReadTransactionId,
    ReadEndpoint,
    Dial { url: String },
    Call { transaction_id: String, rfc822: Vec<u8> },
    Report { outcome: DeliveryOutcome },
}

/// The model of a pipeline state.
pub ghost enum StateModel {
    ReadingMessage,
    ReadingTransactionId { rfc822: Seq<u8> },
    ReadingEndpoint { rfc822: Seq<u8>, transaction_id: Seq<char> },
    Dialing { rfc822: Seq<u8>, transaction_id: Seq<char> },
    Calling,
    Reporting { outcome: OutcomeModel },
}

/// The model of an event.
pub ghost enum EventModel {
    MessageRead { body: Option<Seq<u8>> },
    TransactionIdRead { id: Option<Seq<char>> },
    EndpointRead { url: Option<Seq<char>> },
    Dialed { error: Option<Seq<char>> },
    Called { error: Option<Seq<char>> },
}

/// The model of an action.
pub ghost enum ActionModel {
    ReadMessage,
    ReadTransactionId,
    ReadEndpoint,
    Dial { url: Seq<char> },
    Call { transaction_id: Seq<char>, rfc822: Seq<u8> },
    Report { outcome: OutcomeModel },
}

impl View for PipelineState {
    type V = StateModel;

    open spec fn view(&self) -> StateModel {
        match self {
            PipelineState::ReadingMessage => StateModel::ReadingMessage,
            PipelineState::ReadingTransactionId { rfc822 } => {
                StateModel::ReadingTransactionId { rfc822: rfc822@ }
            },
            PipelineState::ReadingEndpoint { rfc822, transaction_id } => {
                StateModel::ReadingEndpoint {
                    rfc822: rfc822@,
                    transaction_id: transaction_id@,
                }
            },
            PipelineState::Dialing { rfc822, transaction_id } => {
                StateModel::Dialing { rfc822: rfc822@, transaction_id: transaction_id@ }
            },
            PipelineState::Calling => StateModel::Calling,
            PipelineState::Reporting { outcome } => StateModel::Reporting { outcome: outcome@ },
        }
    }
}

impl View for Event {
    type V = EventModel;

    open spec fn view(&self) -> EventModel {
        match self {
            Event::MessageRead { body } => {
                EventModel::MessageRead {
                    body: match body {
                        Some(b) => Some(b@),
                        None => None,
                    },
                }
            },
            Event::TransactionIdRead { id } => {
                EventModel::TransactionIdRead {
                    id: match id {
                        Some(t) => Some(t@),
                        None => None,
                    },
                }
            },
            Event::EndpointRead { url } => {
                EventModel::EndpointRead {
                    url: match url {
                        Some(u) => Some(u@),
                        None => None,
                    },
                }
            },
            Event::Dialed { error } => {
                EventModel::Dialed {
                    error: match error {
                        Some(e) => Some(e@),
                        None => None,
                    },
                }
            },
            Event::Called { error } => {
                EventModel::Called {
                    error: match error {
                        Some(e) => Some(e@),
                        None => None,
                    },
                }
            },
        }
    }
}

impl View for Action {
    type V = ActionModel;

    open spec fn view(&self) -> ActionModel {
        match self {
            Action::ReadMessage => ActionModel::ReadMessage,
            Action::ReadTransactionId => ActionModel::ReadTransactionId,
            Action::ReadEndpoint => ActionModel::ReadEndpoint,
            Action::Dial { url } => ActionModel::Dial { url: url@ },
            Action::Call { transaction_id, rfc822 } => {
                ActionModel::Call { transaction_id: transaction_id@, rfc822: rfc822@ }
            },
            Action::Report { outcome } => ActionModel::Report { outcome: outcome@ },
        }
    }
}

/// Whether a state is terminal: once the outcome is reported, the attempt is
/// over and the machine takes no further event.
pub open spec fn is_terminal(s: StateModel) -> bool {
    s is Reporting
}

/// Which event a state expects. The driver must answer each action with the
/// matching event; a terminal state expects none.
pub open spec fn expects(s: StateModel, e: EventModel) -> bool {
    match s {
        StateModel::ReadingMessage => e is MessageRead,
        StateModel::ReadingTransactionId { .. } => e is TransactionIdRead,
        StateModel::ReadingEndpoint { .. } => e is EndpointRead,
        StateModel::Dialing { .. } => e is Dialed,
        StateModel::Calling => e is Called,
        StateModel::Reporting { .. } => false,
    }
}

/// The terminal state and report action for a temporary failure.
pub open spec fn fail_transition(reason: Seq<char>) -> (StateModel, ActionModel) {
    (
        StateModel::Reporting { outcome: temp_fail_model(reason) },
        ActionModel::Report { outcome: temp_fail_model(reason) },
    )
}

/// The transition relation of the pipeline, on models. Meaningful whenever
/// `expects(s, e)` holds; on a mismatched pair the machine stays put.
pub open spec fn spec_step(s: StateModel, e: EventModel) -> (StateModel, ActionModel) {
    match (s, e) {
        (StateModel::ReadingMessage, EventModel::MessageRead { body }) => {
            match body {
                None => fail_transition(generic_local_reason()),
                Some(b) => (
                    StateModel::ReadingTransactionId { rfc822: b },
                    ActionModel::ReadTransactionId,
                ),
            }
        },
        (
            StateModel::ReadingTransactionId { rfc822 },
            EventModel::TransactionIdRead { id },
        ) => {
            match id {
                None => fail_transition(generic_local_reason()),
                Some(t) => (
                    StateModel::ReadingEndpoint { rfc822, transaction_id: t },
                    ActionModel::ReadEndpoint,
                ),
            }
        },
        (
            StateModel::ReadingEndpoint { rfc822, transaction_id },
            EventModel::EndpointRead { url },
        ) => {
            match url {
                None => fail_transition(generic_local_reason()),
                Some(u) => (
                    StateModel::Dialing { rfc822, transaction_id },
                    ActionModel::Dial { url: u },
                ),
            }
        },
        (StateModel::Dialing { rfc822, transaction_id }, EventModel::Dialed { error }) => {
            match error {
                Some(text) => fail_transition(text),
                None => (StateModel::Calling, ActionModel::Call { transaction_id, rfc822 }),
            }
        },
        (StateModel::Calling, EventModel::Called { error }) => {
            match error {
                Some(text) => fail_transition(text),
                None => (
                    StateModel::Reporting { outcome: accepted_model() },
                    ActionModel::Report { outcome: accepted_model() },
                ),
            }
        },
        _ => (s, ActionModel::ReadMessage),
    }
}

/// How many events a state can still consume before it must be terminal.
pub open spec fn fuel(s: StateModel) -> nat {
    match s {
        StateModel::ReadingMessage => 5,
        StateModel::ReadingTransactionId { .. } => 4,
        StateModel::ReadingEndpoint { .. } => 3,
        StateModel::Dialing { .. } => 2,
        StateModel::Calling => 1,
        StateModel::Reporting { .. } => 0,
    }
}

/// Begin one delivery attempt: the initial state, and the first action the
/// driver must perform.
pub fn start() -> (r: (PipelineState, Action))
    ensures
        r.0@ == StateModel::ReadingMessage,
        r.1@ == ActionModel::ReadMessage,
{
    (PipelineState::ReadingMessage, Action::ReadMessage)
}

/// Whether `event` is the answer `state` is waiting for. A driver checks this
/// before each [`step`] call; it is false for a terminal state.
pub fn expects_event(state: &PipelineState, event: &Event) -> (b: bool)
    ensures
        b == expects(state@, event@),
{
    match (state, event) {
        (PipelineState::ReadingMessage, Event::MessageRead { .. }) => true,
        (PipelineState::ReadingTransactionId { .. }, Event::TransactionIdRead { .. }) => true,
        (PipelineState::ReadingEndpoint { .. }, Event::EndpointRead { .. }) => true,
        (PipelineState::Dialing { .. }, Event::Dialed { .. }) => true,
        (PipelineState::Calling, Event::Called { .. }) => true,
        _ => false,
    }
}

/// Advance the attempt by one step: consume the event the current state waits
/// for, and return the next state together with the driver's next action.
pub fn step(state: PipelineState, event: Event) -> (r: (PipelineState, Action))
    requires
        expects(state@, event@),
    ensures
        (r.0@, r.1@) == spec_step(state@, event@),
        fuel(r.0@) < fuel(state@),
{
    match (state, event) {
        (PipelineState::ReadingMessage, Event::MessageRead { body }) => {
            match body {
                None => report_temp_local(),
                Some(b) => (
                    PipelineState::ReadingTransactionId { rfc822: b },
                    Action::ReadTransactionId,
                ),
            }
        },
        (
            PipelineState::ReadingTransactionId { rfc822 },
            Event::TransactionIdRead { id },
        ) => {
            match id {
                None => report_temp_local(),
                Some(t) => (
                    PipelineState::ReadingEndpoint { rfc822, transaction_id: t },
                    Action::ReadEndpoint,
                ),
            }
        },
        (
            PipelineState::ReadingEndpoint { rfc822, transaction_id },
            Event::EndpointRead { url },
        ) => {
            match url {
                None => report_temp_local(),
                Some(u) => (
                    PipelineState::Dialing { rfc822, transaction_id },
                    Action::Dial { url: u },
                ),
            }
        },
        (PipelineState::Dialing { rfc822, transaction_id }, Event::Dialed { error }) => {
            match error {
                Some(text) => report_temp_fail(text),
                None => (PipelineState::Calling, Action::Call { transaction_id, rfc822 }),
            }
        },
        (PipelineState::Calling, Event::Called { error }) => {
            match error {
                Some(text) => report_temp_fail(text),
                None => report_outcome(DeliveryOutcome::accepted()),
            }
        },
        _ => (PipelineState::ReadingMessage, Action::ReadMessage),
    }
}

/// The transition into `Reporting` for a failed context read.
fn report_temp_local() -> (r: (PipelineState, Action))
    ensures
        (r.0@, r.1@) == fail_transition(generic_local_reason()),
{
    report_outcome(DeliveryOutcome::temp_local_error())
}

/// The transition into `Reporting` for a dial or call failure carrying the
/// transport's error text.
fn report_temp_fail(reason: String) -> (r: (PipelineState, Action))
    ensures
        (r.0@, r.1@) == fail_transition(reason@),
{
    report_outcome(DeliveryOutcome::temp_fail(reason))
}

/// Enter the terminal state, handing the outcome to the driver once.
fn report_outcome(outcome: DeliveryOutcome) -> (r: (PipelineState, Action))
    ensures
        r.0@ == (StateModel::Reporting { outcome: outcome@ }),
        r.1@ == (ActionModel::Report { outcome: outcome@ }),
{
    let second = DeliveryOutcome { status: outcome.status, reason: outcome.reason.clone() };
    (
        PipelineState::Reporting { outcome: second },
        Action::Report { outcome },
    )
}

/// The actions a driver performs when it starts in state `s` and answers with
/// the events of `evs`, in order, for as long as each event is the one the
/// machine waits for.
pub open spec fn run_actions(s: StateModel, evs: Seq<EventModel>) -> Seq<ActionModel>
    decreases evs.len(),
{
    if evs.len() == 0 || !expects(s, evs[0]) {
        Seq::empty()
    } else {
        let next = spec_step(s, evs[0]);
        seq![next.1] + run_actions(next.0, evs.drop_first())
    }
}

/// The state a run ends in.
pub open spec fn run_state(s: StateModel, evs: Seq<EventModel>) -> StateModel
    decreases evs.len(),
{
    if evs.len() == 0 || !expects(s, evs[0]) {
        s
    } else {
        run_state(spec_step(s, evs[0]).0, evs.drop_first())
    }
}

/// Whether the driver answers every pending action with the matching event,
/// until the machine is terminal or the events run out.
pub open spec fn drives(s: StateModel, evs: Seq<EventModel>) -> bool
    decreases evs.len(),
{
    if evs.len() == 0 || is_terminal(s) {
        true
    } else {
        expects(s, evs[0]) && drives(spec_step(s, evs[0]).0, evs.drop_first())
    }
}

/// How many of the actions report an outcome.
pub open spec fn count_reports(actions: Seq<ActionModel>) -> nat
    decreases actions.len(),
{
    if actions.len() == 0 {
        0
    } else {
        (if actions[0] is Report {
            1nat
        } else {
            0nat
        }) + count_reports(actions.drop_first())
    }
}

/// How many of the actions open a connection.
pub open spec fn count_dials(actions: Seq<ActionModel>) -> nat
    decreases actions.len(),
{
    if actions.len() == 0 {
        0
    } else {
        (if actions[0] is Dial {
            1nat
        } else {
            0nat
        }) + count_dials(actions.drop_first())
    }
}

/// How many of the actions issue the remote call.
pub open spec fn count_calls(actions: Seq<ActionModel>) -> nat
    decreases actions.len(),
{
    if actions.len() == 0 {
        0
    } else {
        (if actions[0] is Call {
            1nat
        } else {
            0nat
        }) + count_calls(actions.drop_first())
    }
}

/// How many dials a state may still emit.
spec fn dial_budget(s: StateModel) -> nat {
    match s {
        StateModel::ReadingMessage => 1,
        StateModel::ReadingTransactionId { .. } => 1,
        StateModel::ReadingEndpoint { .. } => 1,
        _ => 0,
    }
}

/// How many remote calls a state may still emit.
spec fn call_budget(s: StateModel) -> nat {
    match s {
        StateModel::Calling => 0,
        StateModel::Reporting { .. } => 0,
        _ => 1,
    }
}

/// One unfolding of a run: the first matching event contributes its action,
/// and the run goes on from the successor state.
proof fn lemma_run_unfold(s: StateModel, e: EventModel, rest: Seq<EventModel>)
    requires
        expects(s, e),
    ensures
        run_actions(s, seq![e] + rest) == seq![spec_step(s, e).1] + run_actions(
            spec_step(s, e).0,
            rest,
        ),
        run_state(s, seq![e] + rest) == run_state(spec_step(s, e).0, rest),
{
    let evs = seq![e] + rest;
    assert(evs[0] == e);
    assert(evs.drop_first() =~= rest);
}

/// A run from a terminal state performs nothing: the attempt is over.
proof fn lemma_run_stops(s: StateModel, evs: Seq<EventModel>)
    requires
        is_terminal(s),
    ensures
        run_actions(s, evs) == Seq::<ActionModel>::empty(),
        run_state(s, evs) == s,
{
}

/// Each step burns fuel: the machine never revisits a stage.
proof fn lemma_step_decreases_fuel(s: StateModel, e: EventModel)
    requires
        expects(s, e),
    ensures
        fuel(spec_step(s, e).0) < fuel(s),
{
}

/// A step reports an outcome exactly when it enters the terminal state.
proof fn lemma_report_iff_terminal_step(s: StateModel, e: EventModel)
    requires
        expects(s, e),
    ensures
        spec_step(s, e).1 is Report <==> is_terminal(spec_step(s, e).0),
{
}

proof fn lemma_reports_iff_terminal(s: StateModel, evs: Seq<EventModel>)
    requires
        !is_terminal(s),
    ensures
        count_reports(run_actions(s, evs)) == if is_terminal(run_state(s, evs)) {
            1nat
        } else {
            0nat
        },
    decreases evs.len(),
{
    if evs.len() == 0 || !expects(s, evs[0]) {
    } else {
        let next = spec_step(s, evs[0]);
        let tail = run_actions(next.0, evs.drop_first());
        assert(run_actions(s, evs) == seq![next.1] + tail);
        assert(run_state(s, evs) == run_state(next.0, evs.drop_first()));
        assert((seq![next.1] + tail)[0] == next.1);
        assert((seq![next.1] + tail).drop_first() =~= tail);
        assert(count_reports(seq![next.1] + tail) == (if next.1 is Report {
            1nat
        } else {
            0nat
        }) + count_reports(tail));
        lemma_report_iff_terminal_step(s, evs[0]);
        if is_terminal(next.0) {
            lemma_run_stops(next.0, evs.drop_first());
            assert(count_reports(tail) == 0);
        } else {
            lemma_reports_iff_terminal(next.0, evs.drop_first());
        }
    }
}

/// Law: for every delivery attempt, exactly one outcome is reported once the
/// run reaches the terminal state, and none before it — no attempt is
/// answered twice, none is dropped by the machine.
pub proof fn lemma_exactly_one_report(evs: Seq<EventModel>)
    ensures
        count_reports(run_actions(StateModel::ReadingMessage, evs)) == if is_terminal(
            run_state(StateModel::ReadingMessage, evs),
        ) {
            1nat
        } else {
            0nat
        },
{
    lemma_reports_iff_terminal(StateModel::ReadingMessage, evs);
}

proof fn lemma_budgets(s: StateModel, evs: Seq<EventModel>)
    ensures
        count_dials(run_actions(s, evs)) <= dial_budget(s),
        count_calls(run_actions(s, evs)) <= call_budget(s),
    decreases evs.len(),
{
    if evs.len() == 0 || !expects(s, evs[0]) {
    } else {
        let next = spec_step(s, evs[0]);
        let tail = run_actions(next.0, evs.drop_first());
        assert(run_actions(s, evs) == seq![next.1] + tail);
        assert((seq![next.1] + tail)[0] == next.1);
        assert((seq![next.1] + tail).drop_first() =~= tail);
        lemma_budgets(next.0, evs.drop_first());
    }
}

/// Law: an attempt opens at most one connection and issues at most one
/// remote call, however far the run gets and however it ends — no step is
/// ever retried.
pub proof fn lemma_no_retries(evs: Seq<EventModel>)
    ensures
        count_dials(run_actions(StateModel::ReadingMessage, evs)) <= 1,
        count_calls(run_actions(StateModel::ReadingMessage, evs)) <= 1,
{
    lemma_budgets(StateModel::ReadingMessage, evs);
}

proof fn lemma_drives_terminates(s: StateModel, evs: Seq<EventModel>)
    requires
        drives(s, evs),
        evs.len() >= fuel(s),
    ensures
        is_terminal(run_state(s, evs)),
    decreases evs.len(),
{
    if is_terminal(s) {
        lemma_run_stops(s, evs);
    } else {
        let next = spec_step(s, evs[0]);
        lemma_step_decreases_fuel(s, evs[0]);
        lemma_drives_terminates(next.0, evs.drop_first());
    }
}

/// Law: a driver that answers every pending action reaches the terminal
/// state within five events — every attempt is eventually reported.
pub proof fn lemma_run_terminates(evs: Seq<EventModel>)
    requires
        drives(StateModel::ReadingMessage, evs),
        evs.len() >= 5,
    ensures
        is_terminal(run_state(StateModel::ReadingMessage, evs)),
{
    lemma_drives_terminates(StateModel::ReadingMessage, evs);
}

/// Law: if the message read fails, the whole run is a single report of
/// `(421, "Temporary local error")` — no further read, no dial, no remote
/// call, whatever events follow.
pub proof fn lemma_message_read_failure(rest: Seq<EventModel>)
    ensures
        run_actions(StateModel::ReadingMessage, seq![EventModel::MessageRead { body: None }] + rest)
            == seq![ActionModel::Report { outcome: temp_fail_model(generic_local_reason()) }],
        run_state(StateModel::ReadingMessage, seq![EventModel::MessageRead { body: None }] + rest)
            == (StateModel::Reporting { outcome: temp_fail_model(generic_local_reason()) }),
{
    let e = EventModel::MessageRead { body: None };
    lemma_run_unfold(StateModel::ReadingMessage, e, rest);
    lemma_run_stops(spec_step(StateModel::ReadingMessage, e).0, rest);
    assert(run_actions(StateModel::ReadingMessage, seq![e] + rest) =~= seq![
        ActionModel::Report { outcome: temp_fail_model(generic_local_reason()) },
    ]);
}

/// Law: if the transaction-id read fails, the run reads the message, then
/// reports `(421, "Temporary local error")` — no dial, no remote call.
pub proof fn lemma_transaction_id_read_failure(body: Seq<u8>, rest: Seq<EventModel>)
    ensures
        ({
            let evs = seq![
                EventModel::MessageRead { body: Some(body) },
                EventModel::TransactionIdRead { id: None },
            ] + rest;
            run_actions(StateModel::ReadingMessage, evs) == seq![
                ActionModel::ReadTransactionId,
                ActionModel::Report { outcome: temp_fail_model(generic_local_reason()) },
            ]
        }),
{
    let e1 = EventModel::MessageRead { body: Some(body) };
    let e2 = EventModel::TransactionIdRead { id: None };
    let evs = seq![e1, e2] + rest;
    assert(evs =~= seq![e1] + (seq![e2] + rest));
    lemma_run_unfold(StateModel::ReadingMessage, e1, seq![e2] + rest);
    let s1 = spec_step(StateModel::ReadingMessage, e1).0;
    lemma_run_unfold(s1, e2, rest);
    lemma_run_stops(spec_step(s1, e2).0, rest);
    assert(run_actions(StateModel::ReadingMessage, evs) =~= seq![
        ActionModel::ReadTransactionId,
        ActionModel::Report { outcome: temp_fail_model(generic_local_reason()) },
    ]);
}

/// Law: if the endpoint read fails, the run reads the message and the
/// transaction id, then reports `(421, "Temporary local error")` — no dial,
/// no remote call.
pub proof fn lemma_endpoint_read_failure(
    body: Seq<u8>,
    transaction_id: Seq<char>,
    rest: Seq<EventModel>,
)
    ensures
        ({
            let evs = seq![
                EventModel::MessageRead { body: Some(body) },
                EventModel::TransactionIdRead { id: Some(transaction_id) },
                EventModel::EndpointRead { url: None },
            ] + rest;
            run_actions(StateModel::ReadingMessage, evs) == seq![
                ActionModel::ReadTransactionId,
                ActionModel::ReadEndpoint,
                ActionModel::Report { outcome: temp_fail_model(generic_local_reason()) },
            ]
        }),
{
    let e1 = EventModel::MessageRead { body: Some(body) };
    let e2 = EventModel::TransactionIdRead { id: Some(transaction_id) };
    let e3 = EventModel::EndpointRead { url: None };
    let evs = seq![e1, e2, e3] + rest;
    assert(evs =~= seq![e1] + (seq![e2] + (seq![e3] + rest)));
    lemma_run_unfold(StateModel::ReadingMessage, e1, seq![e2] + (seq![e3] + rest));
    let s1 = spec_step(StateModel::ReadingMessage, e1).0;
    lemma_run_unfold(s1, e2, seq![e3] + rest);
    let s2 = spec_step(s1, e2).0;
    lemma_run_unfold(s2, e3, rest);
    lemma_run_stops(spec_step(s2, e3).0, rest);
    assert(run_actions(StateModel::ReadingMessage, evs) =~= seq![
        ActionModel::ReadTransactionId,
        ActionModel::ReadEndpoint,
        ActionModel::Report { outcome: temp_fail_model(generic_local_reason()) },
    ]);
}

/// Law: if the dial fails, the run performs the three reads and the dial,
/// then reports `(421, <connection error text>)` — no remote call is issued.
pub proof fn lemma_dial_failure(
    body: Seq<u8>,
    transaction_id: Seq<char>,
    url: Seq<char>,
    error: Seq<char>,
    rest: Seq<EventModel>,
)
    ensures
        ({
            let evs = seq![
                EventModel::MessageRead { body: Some(body) },
                EventModel::TransactionIdRead { id: Some(transaction_id) },
                EventModel::EndpointRead { url: Some(url) },
                EventModel::Dialed { error: Some(error) },
            ] + rest;
            run_actions(StateModel::ReadingMessage, evs) == seq![
                ActionModel::ReadTransactionId,
                ActionModel::ReadEndpoint,
                ActionModel::Dial { url },
                ActionModel::Report { outcome: temp_fail_model(error) },
            ]
        }),
{
    let e1 = EventModel::MessageRead { body: Some(body) };
    let e2 = EventModel::TransactionIdRead { id: Some(transaction_id) };
    let e3 = EventModel::EndpointRead { url: Some(url) };
    let e4 = EventModel::Dialed { error: Some(error) };
    let evs = seq![e1, e2, e3, e4] + rest;
    assert(evs =~= seq![e1] + (seq![e2] + (seq![e3] + (seq![e4] + rest))));
    lemma_run_unfold(StateModel::ReadingMessage, e1, seq![e2] + (seq![e3] + (seq![e4] + rest)));
    let s1 = spec_step(StateModel::ReadingMessage, e1).0;
    lemma_run_unfold(s1, e2, seq![e3] + (seq![e4] + rest));
    let s2 = spec_step(s1, e2).0;
    lemma_run_unfold(s2, e3, seq![e4] + rest);
    let s3 = spec_step(s2, e3).0;
    lemma_run_unfold(s3, e4, rest);
    lemma_run_stops(spec_step(s3, e4).0, rest);
    assert(run_actions(StateModel::ReadingMessage, evs) =~= seq![
        ActionModel::ReadTransactionId,
        ActionModel::ReadEndpoint,
        ActionModel::Dial { url },
        ActionModel::Report { outcome: temp_fail_model(error) },
    ]);
}

/// Law: if the remote call fails, the run performs the reads, the dial and
/// the call, then reports `(421, <call error text>)`.
pub proof fn lemma_call_failure(
    body: Seq<u8>,
    transaction_id: Seq<char>,
    url: Seq<char>,
    error: Seq<char>,
    rest: Seq<EventModel>,
)
    ensures
        ({
            let evs = seq![
                EventModel::MessageRead { body: Some(body) },
                EventModel::TransactionIdRead { id: Some(transaction_id) },
                EventModel::EndpointRead { url: Some(url) },
                EventModel::Dialed { error: None },
                EventModel::Called { error: Some(error) },
            ] + rest;
            run_actions(StateModel::ReadingMessage, evs) == seq![
                ActionModel::ReadTransactionId,
                ActionModel::ReadEndpoint,
                ActionModel::Dial { url },
                ActionModel::Call { transaction_id, rfc822: body },
                ActionModel::Report { outcome: temp_fail_model(error) },
            ]
        }),
{
    let e1 = EventModel::MessageRead { body: Some(body) };
    let e2 = EventModel::TransactionIdRead { id: Some(transaction_id) };
    let e3 = EventModel::EndpointRead { url: Some(url) };
    let e4 = EventModel::Dialed { error: None };
    let e5 = EventModel::Called { error: Some(error) };
    let evs = seq![e1, e2, e3, e4, e5] + rest;
    assert(evs =~= seq![e1] + (seq![e2] + (seq![e3] + (seq![e4] + (seq![e5] + rest)))));
    lemma_run_unfold(
        StateModel::ReadingMessage,
        e1,
        seq![e2] + (seq![e3] + (seq![e4] + (seq![e5] + rest))),
    );
    let s1 = spec_step(StateModel::ReadingMessage, e1).0;
    lemma_run_unfold(s1, e2, seq![e3] + (seq![e4] + (seq![e5] + rest)));
    let s2 = spec_step(s1, e2).0;
    lemma_run_unfold(s2, e3, seq![e4] + (seq![e5] + rest));
    let s3 = spec_step(s2, e3).0;
    lemma_run_unfold(s3, e4, seq![e5] + rest);
    let s4 = spec_step(s3, e4).0;
    lemma_run_unfold(s4, e5, rest);
    lemma_run_stops(spec_step(s4, e5).0, rest);
    assert(run_actions(StateModel::ReadingMessage, evs) =~= seq![
        ActionModel::ReadTransactionId,
        ActionModel::ReadEndpoint,
        ActionModel::Dial { url },
        ActionModel::Call { transaction_id, rfc822: body },
        ActionModel::Report { outcome: temp_fail_model(error) },
    ]);
}

/// Law: when every stage succeeds, the run dials the endpoint it read, sends
/// one call whose request carries the transaction id and, byte for byte, the
/// message bytes that were read, and reports exactly `(250, "OK")`.
pub proof fn lemma_successful_delivery(
    body: Seq<u8>,
    transaction_id: Seq<char>,
    url: Seq<char>,
    rest: Seq<EventModel>,
)
    ensures
        ({
            let evs = seq![
                EventModel::MessageRead { body: Some(body) },
                EventModel::TransactionIdRead { id: Some(transaction_id) },
                EventModel::EndpointRead { url: Some(url) },
                EventModel::Dialed { error: None },
                EventModel::Called { error: None },
            ] + rest;
            run_actions(StateModel::ReadingMessage, evs) == seq![
                ActionModel::ReadTransactionId,
                ActionModel::ReadEndpoint,
                ActionModel::Dial { url },
                ActionModel::Call { transaction_id, rfc822: body },
                ActionModel::Report { outcome: accepted_model() },
            ]
        }),
{
    let e1 = EventModel::MessageRead { body: Some(body) };
    let e2 = EventModel::TransactionIdRead { id: Some(transaction_id) };
    let e3 = EventModel::EndpointRead { url: Some(url) };
    let e4 = EventModel::Dialed { error: None };
    let e5 = EventModel::Called { error: None };
    let evs = seq![e1, e2, e3, e4, e5] + rest;
    assert(evs =~= seq![e1] + (seq![e2] + (seq![e3] + (seq![e4] + (seq![e5] + rest)))));
    lemma_run_unfold(
        StateModel::ReadingMessage,
        e1,
        seq![e2] + (seq![e3] + (seq![e4] + (seq![e5] + rest))),
    );
    let s1 = spec_step(StateModel::ReadingMessage, e1).0;
    lemma_run_unfold(s1, e2, seq![e3] + (seq![e4] + (seq![e5] + rest)));
    let s2 = spec_step(s1, e2).0;
    lemma_run_unfold(s2, e3, seq![e4] + (seq![e5] + rest));
    let s3 = spec_step(s2, e3).0;
    lemma_run_unfold(s3, e4, seq![e5] + rest);
    let s4 = spec_step(s3, e4).0;
    lemma_run_unfold(s4, e5, rest);
    lemma_run_stops(spec_step(s4, e5).0, rest);
    assert(run_actions(StateModel::ReadingMessage, evs) =~= seq![
        ActionModel::ReadTransactionId,
        ActionModel::ReadEndpoint,
        ActionModel::Dial { url },
        ActionModel::Call { transaction_id, rfc822: body },
        ActionModel::Report { outcome: accepted_model() },
    ]);
}

} // verus!

