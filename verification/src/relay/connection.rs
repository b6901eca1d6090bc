//! The life of one outbound connection: probe, stream, close.
//!
//! One connection stands for one generation request and owns at most one
//! producer task. The caller probes the credential, serves the stream and
//! watches for the client; [`Connection::step`] says when to spawn the
//! producer, when to turn the caller away and when to cancel the producer.

use vstd::prelude::*;

verus! {

/// Where a connection stands.
#[derive(Debug, Clone, Copy, PartialEq, Eq, Structural)]
pub enum ConnectionPhase {
    /// The credential is being probed; nothing is allocated yet.
    Probing,
    /// The producer runs and the relay serves the client.
    Streaming,
    /// The connection is over. Terminal.
    Closed,
}

/// What the caller observed.
#[derive(Debug, Clone, Copy, PartialEq, Eq, Structural)]
pub enum ConnectionInput {
    /// The provider accepted the credential.
    ProbePassed,
    /// The provider refused the credential, or the probe failed.
    ProbeFailed,
    /// The relay transform reached a terminal state.
    RelayFinished,
    /// The client closed the connection, or the handler's scope ended.
    ClientGone,
}

/// What the caller is to do.
#[derive(Debug, Clone, Copy, PartialEq, Eq, Structural)]
pub enum ConnectionAction {
    /// Create the channel and spawn the producer task.
    SpawnProducer,
    /// Turn the caller away as not authorised.
    Reject,
    /// Cancel the producer task and drop the channel.
    CancelProducer,
    /// Nothing.
    Ignore,
}

/// One step of a connection: the next phase and the action.
pub open spec fn connection_step(phase: ConnectionPhase, input: ConnectionInput) -> (
    ConnectionPhase,
    ConnectionAction,
) {
    match (phase, input) {
        (ConnectionPhase::Probing, ConnectionInput::ProbePassed) => (
            ConnectionPhase::Streaming,
            ConnectionAction::SpawnProducer,
        ),
        (ConnectionPhase::Probing, ConnectionInput::ProbeFailed) => (
            ConnectionPhase::Closed,
            ConnectionAction::Reject,
        ),
        (ConnectionPhase::Probing, ConnectionInput::ClientGone) => (
            ConnectionPhase::Closed,
            ConnectionAction::Ignore,
        ),
        (ConnectionPhase::Streaming, ConnectionInput::RelayFinished) => (
            ConnectionPhase::Closed,
            ConnectionAction::CancelProducer,
        ),
        (ConnectionPhase::Streaming, ConnectionInput::ClientGone) => (
            ConnectionPhase::Closed,
            ConnectionAction::CancelProducer,
        ),
        _ => (phase, ConnectionAction::Ignore),
    }
}

/// One outbound connection.
#[derive(Debug)]
pub struct Connection {
    phase: ConnectionPhase,
}

impl View for Connection {
    type V = ConnectionPhase;

    closed spec fn view(&self) -> ConnectionPhase {
        self.phase
    }
}

impl Connection {
    /// A connection whose credential is yet to be probed.
    pub fn new() -> (connection: Connection)
        ensures
            connection@ == ConnectionPhase::Probing,
    {
        Connection { phase: ConnectionPhase::Probing }
    }

    /// The phase that the connection is in.
    pub fn phase(&self) -> (phase: ConnectionPhase)
        ensures
            phase == self@,
    {
        self.phase
    }

    /// Takes what the caller observed and says what to do.
    pub fn step(&mut self, input: ConnectionInput) -> (action: ConnectionAction)
        ensures
            (final(self)@, action) == connection_step(old(self)@, input),
    {
        match self.phase {
            ConnectionPhase::Probing => match input {
                ConnectionInput::ProbePassed => {
                    self.phase = ConnectionPhase::Streaming;
                    ConnectionAction::SpawnProducer
                },
                ConnectionInput::ProbeFailed => {
                    self.phase = ConnectionPhase::Closed;
                    ConnectionAction::Reject
                },
                ConnectionInput::ClientGone => {
                    self.phase = ConnectionPhase::Closed;
                    ConnectionAction::Ignore
                },
                ConnectionInput::RelayFinished => ConnectionAction::Ignore,
            },
            ConnectionPhase::Streaming => match input {
                ConnectionInput::RelayFinished | ConnectionInput::ClientGone => {
                    self.phase = ConnectionPhase::Closed;
                    ConnectionAction::CancelProducer
                },
                _ => ConnectionAction::Ignore,
            },
            ConnectionPhase::Closed => ConnectionAction::Ignore,
        }
    }
}

/// The actions of a run, one for each input, in order.
pub open spec fn connection_actions(phase: ConnectionPhase, inputs: Seq<ConnectionInput>) -> Seq<
    ConnectionAction,
>
    decreases inputs.len(),
{
    if inputs.len() == 0 {
        Seq::empty()
    } else {
        seq![connection_step(phase, inputs.first()).1] + connection_actions(
            connection_step(phase, inputs.first()).0,
            inputs.drop_first(),
        )
    }
}

/// How often an action occurs among the actions.
pub open spec fn occurrences(actions: Seq<ConnectionAction>, action: ConnectionAction) -> nat
    decreases actions.len(),
{
    if actions.len() == 0 {
        0
    } else {
        (if actions.first() == action {
            1nat
        } else {
            0nat
        }) + occurrences(actions.drop_first(), action)
    }
}

proof fn lemma_occurrences_cons(
    head: ConnectionAction,
    rest: Seq<ConnectionAction>,
    action: ConnectionAction,
)
    ensures
        occurrences(seq![head] + rest, action) == (if head == action {
            1nat
        } else {
            0nat
        }) + occurrences(rest, action),
{
    assert((seq![head] + rest).drop_first() =~= rest);
}

proof fn lemma_closed_connection_asks_nothing(inputs: Seq<ConnectionInput>, action: ConnectionAction)
    requires
        action != ConnectionAction::Ignore,
    ensures
        occurrences(connection_actions(ConnectionPhase::Closed, inputs), action) == 0,
    decreases inputs.len(),
{
    if inputs.len() > 0 {
        lemma_closed_connection_asks_nothing(inputs.drop_first(), action);
        lemma_occurrences_cons(
            ConnectionAction::Ignore,
            connection_actions(ConnectionPhase::Closed, inputs.drop_first()),
            action,
        );
    }
}

proof fn lemma_streaming_connection_spawns_nothing(inputs: Seq<ConnectionInput>)
    ensures
        occurrences(
            connection_actions(ConnectionPhase::Streaming, inputs),
            ConnectionAction::SpawnProducer,
        ) == 0,
        occurrences(
            connection_actions(ConnectionPhase::Streaming, inputs),
            ConnectionAction::CancelProducer,
        ) <= 1,
    decreases inputs.len(),
{
    if inputs.len() > 0 {
        let (next, action) = connection_step(ConnectionPhase::Streaming, inputs.first());
        let rest = inputs.drop_first();
        lemma_occurrences_cons(action, connection_actions(next, rest), ConnectionAction::SpawnProducer);
        lemma_occurrences_cons(action, connection_actions(next, rest), ConnectionAction::CancelProducer);
        if next == ConnectionPhase::Streaming {
            lemma_streaming_connection_spawns_nothing(rest);
        } else {
            lemma_closed_connection_asks_nothing(rest, ConnectionAction::SpawnProducer);
            lemma_closed_connection_asks_nothing(rest, ConnectionAction::CancelProducer);
        }
    }
}

/// Whatever happens on a connection, a producer is spawned at most once and
/// cancelled at most once, and never cancelled unless one was spawned.
pub proof fn law_one_producer_per_connection(phase: ConnectionPhase, inputs: Seq<ConnectionInput>)
    ensures
        occurrences(connection_actions(phase, inputs), ConnectionAction::SpawnProducer) <= 1,
        occurrences(connection_actions(phase, inputs), ConnectionAction::CancelProducer) <= 1,
        phase == ConnectionPhase::Probing ==> occurrences(
            connection_actions(phase, inputs),
            ConnectionAction::CancelProducer,
        ) <= occurrences(connection_actions(phase, inputs), ConnectionAction::SpawnProducer),
    decreases inputs.len(),
{
    if inputs.len() > 0 {
        let (next, action) = connection_step(phase, inputs.first());
        let rest = inputs.drop_first();
        lemma_occurrences_cons(action, connection_actions(next, rest), ConnectionAction::SpawnProducer);
        lemma_occurrences_cons(action, connection_actions(next, rest), ConnectionAction::CancelProducer);
        match next {
            ConnectionPhase::Probing => {
                law_one_producer_per_connection(next, rest);
            },
            ConnectionPhase::Streaming => {
                lemma_streaming_connection_spawns_nothing(rest);
            },
            ConnectionPhase::Closed => {
                lemma_closed_connection_asks_nothing(rest, ConnectionAction::SpawnProducer);
                lemma_closed_connection_asks_nothing(rest, ConnectionAction::CancelProducer);
            },
        }
    }
}

/// Unless the probe is the first thing to pass, no producer is ever spawned:
/// a refused credential or an early disconnect closes the connection before
/// anything is allocated, and the refusal is answered by a rejection.
pub proof fn law_no_producer_without_a_passed_probe(inputs: Seq<ConnectionInput>)
    requires
        inputs.len() > 0,
        inputs[0] == ConnectionInput::ProbeFailed || inputs[0] == ConnectionInput::ClientGone,
    ensures
        occurrences(
            connection_actions(ConnectionPhase::Probing, inputs),
            ConnectionAction::SpawnProducer,
        ) == 0,
        inputs[0] == ConnectionInput::ProbeFailed ==> connection_actions(
            ConnectionPhase::Probing,
            inputs,
        )[0] == ConnectionAction::Reject,
{
    let (next, action) = connection_step(ConnectionPhase::Probing, inputs.first());
    let rest = inputs.drop_first();
    lemma_occurrences_cons(action, connection_actions(next, rest), ConnectionAction::SpawnProducer);
    lemma_closed_connection_asks_nothing(rest, ConnectionAction::SpawnProducer);
}

} // verus!
