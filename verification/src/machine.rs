//! The handling sequence as a step machine, for driving the real
//! collaborators.
//!
//! The blocking steps — pool acquisition, schema initialization, the row
//! write, the read-back — are performed outside this crate; the machine
//! holds the decisions between them.  An unverified shell asks the machine
//! for the next action, performs it against the pool and the storage
//! engine, and hands the outcome back as an event.  Both execution
//! strategies (inline, or offloaded to a worker) drive the same machine;
//! they differ only in where the shell blocks.

use vstd::prelude::*;
use crate::response::Response;

verus! {

/// Which outcome the machine is waiting for.
pub enum Phase {
    /// Waiting for the pool to hand out a connection.
    AwaitingConnection,
    /// Waiting for the idempotent schema initialization.
    AwaitingSchema,
    /// Waiting for the row write.
    AwaitingWrite,
    /// Waiting for the read-back of the name under the fresh identifier.
    AwaitingRead,
    /// The response has been emitted; no further action follows.
    Finished,
}

/// What the shell must do next against the real collaborators.
pub enum StepAction {
    /// Check a connection out of the shared pool.
    AcquireConnection,
    /// Run the "create table if absent" statement.
    InitSchema,
    /// Persist the row (`id`, `name`).
    WriteRow { id: String, name: String },
    /// Read the stored name back under `id`.
    ReadRow { id: String },
    /// Send the response and release the connection; the sequence is over.
    Reply { resp: Response },
}

/// The outcome of the action the shell just performed.
pub enum StepEvent {
    /// A connection was checked out.
    ConnectionOk,
    /// The pool failed to hand out a connection (exhaustion, engine
    /// unreachable).
    ConnectionFailed,
    /// The schema initialization succeeded.
    SchemaOk,
    /// The schema initialization failed.
    SchemaFailed,
    /// The row was persisted.
    WriteOk,
    /// The write failed (constraint violation, I/O).
    WriteFailed,
    /// The read-back returned the stored name.
    ReadOk { name: String },
    /// The read-back failed (not found, I/O).
    ReadFailed,
}

impl StepEvent {
    /// Whether this event reports a failed step.
    pub open spec fn is_failure(self) -> bool {
        self is ConnectionFailed || self is SchemaFailed || self is WriteFailed
            || self is ReadFailed
    }
}

/// One request's progress through the handling sequence: the phase, and
/// the identifier and name the row is written with.
pub struct RequestMachine {
    pub phase: Phase,
    pub id: String,
    pub name: String,
}

/// Which events answer which phase: the shell hands back the outcome of
/// exactly the action it was asked to perform.
pub open spec fn event_answers(phase: Phase, ev: StepEvent) -> bool {
    match phase {
        Phase::AwaitingConnection => ev is ConnectionOk || ev is ConnectionFailed,
        Phase::AwaitingSchema => ev is SchemaOk || ev is SchemaFailed,
        Phase::AwaitingWrite => ev is WriteOk || ev is WriteFailed,
        Phase::AwaitingRead => (ev matches StepEvent::ReadOk { .. }) || ev is ReadFailed,
        Phase::Finished => false,
    }
}

/// The transition table: what each event does to the machine and which
/// action it emits.
///
/// Successes advance the sequence in its fixed order — connection, then
/// schema, then write, then read, then reply; the row is written with the
/// machine's own identifier and name, and the read-back uses that same
/// identifier.  A success response carries the name the read-back
/// returned.  Any failure event, at any phase, finishes the machine at
/// once with the one opaque internal-error reply; in particular a failed
/// write is never retried and is never followed by a read or another
/// write.
pub open spec fn step_spec(
    pre: RequestMachine,
    ev: StepEvent,
    post: RequestMachine,
    action: StepAction,
) -> bool {
    &&& post.id@ == pre.id@
    &&& post.name@ == pre.name@
    &&& if ev.is_failure() {
        &&& post.phase is Finished
        &&& action matches StepAction::Reply { resp } && resp.is_internal_error()
    } else {
        match pre.phase {
            Phase::AwaitingConnection => {
                &&& post.phase is AwaitingSchema
                &&& action is InitSchema
            },
            Phase::AwaitingSchema => {
                &&& post.phase is AwaitingWrite
                &&& action matches StepAction::WriteRow { id, name }
                    && id@ == pre.id@ && name@ == pre.name@
            },
            Phase::AwaitingWrite => {
                &&& post.phase is AwaitingRead
                &&& action matches StepAction::ReadRow { id } && id@ == pre.id@
            },
            Phase::AwaitingRead => {
                &&& post.phase is Finished
                &&& ev matches StepEvent::ReadOk { name }
                &&& action matches StepAction::Reply { resp } && resp.is_ok_with(name@)
            },
            Phase::Finished => false,
        }
    }
}

/// The executable counterpart of `event_answers`, for the shell that
/// drives the machine: it tests `step`'s precondition before each call,
/// so the guard cannot drift from the spec.
pub fn event_answers_exec(phase: &Phase, ev: &StepEvent) -> (b: bool)
    ensures
        b == event_answers(*phase, *ev),
{
    match phase {
        Phase::AwaitingConnection => match ev {
            StepEvent::ConnectionOk | StepEvent::ConnectionFailed => true,
            _ => false,
        },
        Phase::AwaitingSchema => match ev {
            StepEvent::SchemaOk | StepEvent::SchemaFailed => true,
            _ => false,
        },
        Phase::AwaitingWrite => match ev {
            StepEvent::WriteOk | StepEvent::WriteFailed => true,
            _ => false,
        },
        Phase::AwaitingRead => match ev {
            StepEvent::ReadOk { .. } | StepEvent::ReadFailed => true,
            _ => false,
        },
        Phase::Finished => false,
    }
}

impl RequestMachine {
    /// Starts the sequence for one request: the machine waits for a
    /// connection, and the shell's first task is to acquire one.
    pub fn new(id: String, name: String) -> (r: (RequestMachine, StepAction))
        ensures
            r.0.phase is AwaitingConnection,
            r.0.id@ == id@,
            r.0.name@ == name@,
            r.1 is AcquireConnection,
    {
        (
            RequestMachine { phase: Phase::AwaitingConnection, id, name },
            StepAction::AcquireConnection,
        )
    }

    /// Consumes the outcome of the last action and decides the next one,
    /// as `step_spec` states.
    pub fn step(&mut self, ev: StepEvent) -> (action: StepAction)
        requires
            event_answers(old(self).phase, ev),
        ensures
            step_spec(*old(self), ev, *final(self), action),
    {
        match ev {
            StepEvent::ConnectionFailed
            | StepEvent::SchemaFailed
            | StepEvent::WriteFailed
            | StepEvent::ReadFailed => {
                self.phase = Phase::Finished;
                StepAction::Reply { resp: Response { status: 500, body: None } }
            },
            StepEvent::ConnectionOk => {
                self.phase = Phase::AwaitingSchema;
                StepAction::InitSchema
            },
            StepEvent::SchemaOk => {
                self.phase = Phase::AwaitingWrite;
                StepAction::WriteRow { id: self.id.clone(), name: self.name.clone() }
            },
            StepEvent::WriteOk => {
                self.phase = Phase::AwaitingRead;
                StepAction::ReadRow { id: self.id.clone() }
            },
            StepEvent::ReadOk { name } => {
                self.phase = Phase::Finished;
                StepAction::Reply { resp: Response { status: 200, body: Some(name) } }
            },
        }
    }
}

/// The flat failure policy: whatever step fails, and at whatever phase,
/// the machine finishes at once and replies with the one opaque
/// internal-error response — in particular, a forced write failure yields
/// status 500 with an empty body and no further write or read is ever
/// asked of the shell.
pub proof fn lemma_any_failure_is_opaque(
    pre: RequestMachine,
    ev: StepEvent,
    post: RequestMachine,
    action: StepAction,
)
    requires
        step_spec(pre, ev, post, action),
        ev.is_failure(),
    ensures
        post.phase is Finished,
        action matches StepAction::Reply { resp } && resp.is_internal_error(),
{
}

/// The happy path: when every step succeeds, the machine asks for the
/// four actions in order, writes the row with its own identifier and
/// name, reads back under that same identifier, and replies 200 with the
/// name the read-back returned.
pub proof fn lemma_happy_path(
    m0: RequestMachine,
    m1: RequestMachine,
    m2: RequestMachine,
    m3: RequestMachine,
    m4: RequestMachine,
    a1: StepAction,
    a2: StepAction,
    a3: StepAction,
    ev_read: StepEvent,
    a4: StepAction,
)
    requires
        m0.phase is AwaitingConnection,
        step_spec(m0, StepEvent::ConnectionOk, m1, a1),
        step_spec(m1, StepEvent::SchemaOk, m2, a2),
        step_spec(m2, StepEvent::WriteOk, m3, a3),
        ev_read matches StepEvent::ReadOk { .. },
        step_spec(m3, ev_read, m4, a4),
    ensures
        a1 is InitSchema,
        a2 matches StepAction::WriteRow { id, name } && id@ == m0.id@ && name@ == m0.name@,
        a3 matches StepAction::ReadRow { id } && id@ == m0.id@,
        ev_read matches StepEvent::ReadOk { name }
            ==> a4 matches StepAction::Reply { resp } && resp.is_ok_with(name@),
        m4.phase is Finished,
{
}

} // verus!
