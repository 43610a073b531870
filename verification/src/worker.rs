//! The life of one stream worker, as a state machine.
//!
//! A worker owns one upstream connection. It connects, sends its filter as
//! the first message, streams until the connection fails or closes, waits
//! the configured delay and connects again, for ever. The machine here
//! decides; the caller performs each action and reports what happened.

use vstd::prelude::*;
use crate::decode::{
    decode_batch, decoded_batch, DecodeError, UpstreamShape,
};
use crate::event::{EventModel, IncomingEvent};

verus! {

/// Where a worker stands.
#[derive(Clone, Copy, Debug, PartialEq, Eq, Structural)]
pub enum WorkerState {
    /// A connection attempt is under way.
    Connecting,
    /// The connection is up and the filter has been handed over for sending.
    Streaming,
    /// The connection attempt or the stream failed; the delay is running.
    Failed,
    /// The upstream closed the stream; the delay is running.
    Closed,
}

/// What the caller reports to the machine.
#[derive(Clone, Debug, PartialEq, Eq)]
pub enum WorkerInput {
    /// The connection attempt succeeded.
    Connected,
    /// The connection attempt failed.
    ConnectFailed,
    /// A text message arrived.
    Text(String),
    /// A ping arrived, with its payload.
    Ping(Vec<u8>),
    /// A frame of another kind arrived.
    OtherFrame,
    /// The upstream closed the stream.
    Close,
    /// Reading from the stream failed.
    ReadError,
    /// Sending on the stream failed.
    SendFailed,
    /// The delay that the machine asked for has passed.
    DelayElapsed,
}

/// The plain form of a [`WorkerInput`].
pub enum InputModel {
    Connected,
    ConnectFailed,
    Text(Seq<char>),
    Ping(Seq<u8>),
    OtherFrame,
    Close,
    ReadError,
    SendFailed,
    DelayElapsed,
}

impl View for WorkerInput {
    type V = InputModel;

    open spec fn view(&self) -> InputModel {
        match self {
            WorkerInput::Connected => InputModel::Connected,
            WorkerInput::ConnectFailed => InputModel::ConnectFailed,
            WorkerInput::Text(t) => InputModel::Text(t@),
            WorkerInput::Ping(d) => InputModel::Ping(d@),
            WorkerInput::OtherFrame => InputModel::OtherFrame,
            WorkerInput::Close => InputModel::Close,
            WorkerInput::ReadError => InputModel::ReadError,
            WorkerInput::SendFailed => InputModel::SendFailed,
            WorkerInput::DelayElapsed => InputModel::DelayElapsed,
        }
    }
}

/// What the machine asks the caller to do.
#[derive(Clone, Debug, PartialEq, Eq)]
pub enum WorkerAction {
    /// Open a connection to this address.
    Connect(String),
    /// Send this text as the first message on the new connection.
    SendFilter(String),
    /// Hand these events, in this order, to matching and dispatch.
    Deliver(Vec<IncomingEvent>),
    /// Report that one message could not be decoded, and go on.
    Skip(DecodeError),
    /// Answer a ping with a pong of this payload.
    SendPong(Vec<u8>),
    /// Drop the connection, if any, and report back after this many seconds.
    Sleep(u64),
    /// Do nothing.
    Nothing,
}

/// The plain form of a [`WorkerAction`].
pub enum ActionModel {
    Connect(Seq<char>),
    SendFilter(Seq<char>),
    Deliver(Seq<EventModel>),
    Skip(DecodeError),
    SendPong(Seq<u8>),
    Sleep(nat),
    Nothing,
}

impl View for WorkerAction {
    type V = ActionModel;

    open spec fn view(&self) -> ActionModel {
        match self {
            WorkerAction::Connect(url) => ActionModel::Connect(url@),
            WorkerAction::SendFilter(text) => ActionModel::SendFilter(text@),
            WorkerAction::Deliver(events) => ActionModel::Deliver(
                events@.map_values(|e: IncomingEvent| e@),
            ),
            WorkerAction::Skip(e) => ActionModel::Skip(*e),
            WorkerAction::SendPong(d) => ActionModel::SendPong(d@),
            WorkerAction::Sleep(secs) => ActionModel::Sleep(*secs as nat),
            WorkerAction::Nothing => ActionModel::Nothing,
        }
    }
}

/// What one worker is to do: where to connect, how the upstream frames its
/// messages, what to send first, which subscriptions it serves (by their
/// position in the configuration), and how long to wait before connecting
/// again.
#[derive(Clone, Debug, PartialEq, Eq)]
pub struct WorkerPlan {
    pub url: String,
    pub shape: UpstreamShape,
    pub filter_message: String,
    pub subscriptions: Vec<usize>,
    pub reconnect_delay_secs: u64,
}

/// The plain form of a [`WorkerPlan`].
pub struct PlanModel {
    pub url: Seq<char>,
    pub shape: UpstreamShape,
    pub filter_message: Seq<char>,
    pub subscriptions: Seq<int>,
    pub reconnect_delay_secs: nat,
}

impl View for WorkerPlan {
    type V = PlanModel;

    open spec fn view(&self) -> PlanModel {
        PlanModel {
            url: self.url@,
            shape: self.shape,
            filter_message: self.filter_message@,
            subscriptions: self.subscriptions@.map_values(|i: usize| i as int),
            reconnect_delay_secs: self.reconnect_delay_secs as nat,
        }
    }
}

/// Whether a worker in this state is waiting out the delay.
pub open spec fn waiting(state: WorkerState) -> bool {
    state is Failed || state is Closed
}

/// The state after `input` arrived in `state`.
pub open spec fn next_state(state: WorkerState, input: InputModel) -> WorkerState {
    match state {
        WorkerState::Connecting => match input {
            InputModel::Connected => WorkerState::Streaming,
            InputModel::ConnectFailed => WorkerState::Failed,
            _ => WorkerState::Connecting,
        },
        WorkerState::Streaming => match input {
            InputModel::Close => WorkerState::Closed,
            InputModel::ReadError => WorkerState::Failed,
            InputModel::SendFailed => WorkerState::Failed,
            _ => WorkerState::Streaming,
        },
        WorkerState::Failed => match input {
            InputModel::DelayElapsed => WorkerState::Connecting,
            _ => WorkerState::Failed,
        },
        WorkerState::Closed => match input {
            InputModel::DelayElapsed => WorkerState::Connecting,
            _ => WorkerState::Closed,
        },
    }
}

/// What the machine asks for when `input` arrives in `state`.
///
/// While connecting, success sends the filter and failure starts the delay.
/// While streaming, a text message is decoded and its events delivered, or
/// the message is skipped where it cannot be decoded; a ping is answered
/// with its own payload; a close, a read error or a send error starts the
/// delay. While waiting, only the end of the delay does anything: it opens
/// the next connection. Every other input is ignored.
pub open spec fn action_for(plan: PlanModel, state: WorkerState, input: InputModel) -> ActionModel {
    match state {
        WorkerState::Connecting => match input {
            InputModel::Connected => ActionModel::SendFilter(plan.filter_message),
            InputModel::ConnectFailed => ActionModel::Sleep(plan.reconnect_delay_secs),
            _ => ActionModel::Nothing,
        },
        WorkerState::Streaming => match input {
            InputModel::Text(message) => match decoded_batch(plan.shape, message) {
                Ok(events) => ActionModel::Deliver(events),
                Err(e) => ActionModel::Skip(e),
            },
            InputModel::Ping(payload) => ActionModel::SendPong(payload),
            InputModel::Close => ActionModel::Sleep(plan.reconnect_delay_secs),
            InputModel::ReadError => ActionModel::Sleep(plan.reconnect_delay_secs),
            InputModel::SendFailed => ActionModel::Sleep(plan.reconnect_delay_secs),
            _ => ActionModel::Nothing,
        },
        _ => match input {
            InputModel::DelayElapsed => ActionModel::Connect(plan.url),
            _ => ActionModel::Nothing,
        },
    }
}

/// The first step of a worker: it starts out connecting.
pub fn start_worker(plan: &WorkerPlan) -> (r: (WorkerState, WorkerAction))
    ensures
        r.0 == WorkerState::Connecting,
        r.1@ == ActionModel::Connect(plan@.url),
{
    (WorkerState::Connecting, WorkerAction::Connect(plan.url.clone()))
}

/// One step of a worker: the next state, and what the caller is to do.
pub fn worker_step(plan: &WorkerPlan, state: WorkerState, input: WorkerInput) -> (r: (
    WorkerState,
    WorkerAction,
))
    ensures
        r.0 == next_state(state, input@),
        r.1@ == action_for(plan@, state, input@),
{
    match state {
        WorkerState::Connecting => match input {
            WorkerInput::Connected => (
                WorkerState::Streaming,
                WorkerAction::SendFilter(plan.filter_message.clone()),
            ),
            WorkerInput::ConnectFailed => (
                WorkerState::Failed,
                WorkerAction::Sleep(plan.reconnect_delay_secs),
            ),
            _ => (WorkerState::Connecting, WorkerAction::Nothing),
        },
        WorkerState::Streaming => match input {
            WorkerInput::Text(message) => {
                let decoded = decode_batch(plan.shape, message.as_str());
                match decoded {
                    Ok(events) => (WorkerState::Streaming, WorkerAction::Deliver(events)),
                    Err(e) => (WorkerState::Streaming, WorkerAction::Skip(e)),
                }
            },
            WorkerInput::Ping(payload) => (WorkerState::Streaming, WorkerAction::SendPong(payload)),
            WorkerInput::Close => (
                WorkerState::Closed,
                WorkerAction::Sleep(plan.reconnect_delay_secs),
            ),
            WorkerInput::ReadError => (
                WorkerState::Failed,
                WorkerAction::Sleep(plan.reconnect_delay_secs),
            ),
            WorkerInput::SendFailed => (
                WorkerState::Failed,
                WorkerAction::Sleep(plan.reconnect_delay_secs),
            ),
            _ => (WorkerState::Streaming, WorkerAction::Nothing),
        },
        WorkerState::Failed => match input {
            WorkerInput::DelayElapsed => (
                WorkerState::Connecting,
                WorkerAction::Connect(plan.url.clone()),
            ),
            _ => (WorkerState::Failed, WorkerAction::Nothing),
        },
        WorkerState::Closed => match input {
            WorkerInput::DelayElapsed => (
                WorkerState::Connecting,
                WorkerAction::Connect(plan.url.clone()),
            ),
            _ => (WorkerState::Closed, WorkerAction::Nothing),
        },
    }
}

/// The state after a run of inputs.
pub open spec fn state_after(state: WorkerState, inputs: Seq<InputModel>) -> WorkerState
    decreases inputs.len(),
{
    if inputs.len() == 0 {
        state
    } else {
        next_state(state_after(state, inputs.drop_last()), inputs.last())
    }
}

/// The actions that a run of inputs asks for, one per input.
pub open spec fn actions_of(plan: PlanModel, state: WorkerState, inputs: Seq<InputModel>) -> Seq<
    ActionModel,
>
    decreases inputs.len(),
{
    if inputs.len() == 0 {
        Seq::empty()
    } else {
        actions_of(plan, state, inputs.drop_last()).push(
            action_for(plan, state_after(state, inputs.drop_last()), inputs.last()),
        )
    }
}

/// How many of the actions open a connection.
pub open spec fn connects_in(actions: Seq<ActionModel>) -> nat
    decreases actions.len(),
{
    if actions.len() == 0 {
        0
    } else {
        connects_in(actions.drop_last()) + if actions.last() is Connect {
            1nat
        } else {
            0nat
        }
    }
}

/// How many of the actions start a delay.
pub open spec fn sleeps_in(actions: Seq<ActionModel>) -> nat
    decreases actions.len(),
{
    if actions.len() == 0 {
        0
    } else {
        sleeps_in(actions.drop_last()) + if actions.last() is Sleep {
            1nat
        } else {
            0nat
        }
    }
}

/// The number of connections that a worker in this state still owes.
pub open spec fn owed(state: WorkerState) -> nat {
    if waiting(state) {
        1
    } else {
        0
    }
}

/// A connection is opened only at the end of a delay, to the planned
/// address, and the worker is then connecting.
pub proof fn lemma_connect_only_after_delay(plan: PlanModel, state: WorkerState, input: InputModel)
    ensures
        action_for(plan, state, input) is Connect <==> waiting(state) && input is DelayElapsed,
        action_for(plan, state, input) is Connect ==> action_for(plan, state, input)
            == ActionModel::Connect(plan.url) && next_state(state, input)
            == WorkerState::Connecting,
{
}

/// A delay is started exactly when a connection attempt or a stream ends,
/// it is the configured delay, and the worker then waits.
pub proof fn lemma_sleep_on_failure(plan: PlanModel, state: WorkerState, input: InputModel)
    ensures
        action_for(plan, state, input) is Sleep <==> !waiting(state) && waiting(
            next_state(state, input),
        ),
        action_for(plan, state, input) is Sleep ==> action_for(plan, state, input)
            == ActionModel::Sleep(plan.reconnect_delay_secs),
        state is Streaming && input is Close ==> action_for(plan, state, input)
            == ActionModel::Sleep(plan.reconnect_delay_secs) && next_state(state, input)
            == WorkerState::Closed,
{
}

/// The filter goes out before any event comes in: streaming is entered only
/// by the step that sends the filter, and only a streaming worker delivers
/// events, skips a message or answers a ping.
pub proof fn lemma_filter_before_events(plan: PlanModel, state: WorkerState, input: InputModel)
    ensures
        !(state is Streaming) && next_state(state, input) is Streaming ==> action_for(
            plan,
            state,
            input,
        ) == ActionModel::SendFilter(plan.filter_message),
        action_for(plan, state, input) is Deliver || action_for(plan, state, input) is Skip
            || action_for(plan, state, input) is SendPong ==> state is Streaming && next_state(
            state,
            input,
        ) is Streaming,
        action_for(plan, state, input) matches ActionModel::SendPong(payload) ==> input
            == InputModel::Ping(payload),
{
}

/// A worker never stops: no input leads out of the four states, and from a
/// waiting state the end of the delay always leads on to the next attempt.
pub proof fn lemma_no_terminal_state(plan: PlanModel, state: WorkerState)
    ensures
        waiting(state) ==> next_state(state, InputModel::DelayElapsed) == WorkerState::Connecting,
        state is Connecting ==> next_state(state, InputModel::Connected)
            == WorkerState::Streaming && action_for(plan, state, InputModel::Connected)
            == ActionModel::SendFilter(plan.filter_message),
{
}

/// Over any run of inputs, every delay is followed by exactly one
/// connection attempt: the attempts made equal the delays started, plus the
/// one owed at the start, less the one still owed at the end.
pub proof fn lemma_one_reconnect_per_failure(
    plan: PlanModel,
    state: WorkerState,
    inputs: Seq<InputModel>,
)
    ensures
        connects_in(actions_of(plan, state, inputs)) + owed(state_after(state, inputs))
            == sleeps_in(actions_of(plan, state, inputs)) + owed(state),
    decreases inputs.len(),
{
    if inputs.len() > 0 {
        let before = inputs.drop_last();
        lemma_one_reconnect_per_failure(plan, state, before);
        let actions = actions_of(plan, state, inputs);
        assert(actions.drop_last() =~= actions_of(plan, state, before));
        lemma_connect_only_after_delay(plan, state_after(state, before), inputs.last());
        lemma_sleep_on_failure(plan, state_after(state, before), inputs.last());
    }
}

} // verus!
