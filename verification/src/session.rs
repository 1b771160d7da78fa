//! The background task of one tunnel, as a state machine without I/O.
//!
//! Once the handshake has answered, the task upgrades the client connection,
//! dials the destination, relays, and closes what it opened. Each of these
//! is done by the driver; the session says which comes next, given how the
//! last one ended. Nothing is tried twice.

use vstd::prelude::*;
use crate::relay::{IoCause, TunnelResult, TunnelStatus};
use crate::target::TunnelTarget;

verus! {

/// Where a tunnel's task stands.
#[derive(Clone, Copy, Debug, PartialEq, Eq, Structural)]
pub enum Stage {
    /// The handshake has answered; the client stream is being obtained.
    Upgrading,
    /// The client stream is open; the destination is being dialled.
    Dialing,
    /// Both streams are open and bytes are relayed.
    Relaying,
    /// The task has ended and holds no stream.
    Closed,
}

/// What the driver reports to the session.
#[derive(Clone, Copy, Debug, PartialEq, Eq, Structural)]
pub enum SessionEvent {
    /// The client connection was upgraded to a raw stream.
    Upgraded,
    /// The client connection could not be upgraded.
    UpgradeFailed,
    /// The destination accepted the connection.
    Connected,
    /// The destination could not be reached, for this cause.
    DialFailed(IoCause),
    /// The relay ended with this report.
    RelayEnded(TunnelResult),
}

/// How a tunnel's task ended, for the log.
#[derive(Clone, Copy, Debug, PartialEq, Eq, Structural)]
pub enum Report {
    /// The client connection could not be upgraded.
    UpgradeFailed,
    /// The destination could not be reached, for this cause.
    DialFailed(IoCause),
    /// The relay ran and ended with this result.
    Relayed(TunnelResult),
}

/// The weight of a log line.
#[derive(Clone, Copy, Debug, PartialEq, Eq, Structural)]
pub enum Level {
    Debug,
    Warn,
}

/// The last orders of a task: what to log and which streams to close.
#[derive(Clone, Copy, Debug, PartialEq, Eq, Structural)]
pub struct Closing {
    pub report: Report,
    pub close_client: bool,
    pub close_destination: bool,
}

/// What the driver is to do next.
#[derive(Clone, Copy, Debug, PartialEq, Eq, Structural)]
pub enum Action {
    /// Open a connection to the target.
    Dial,
    /// Relay between the two streams until the relay ends.
    Relay,
    /// Log the report, close the streams named, and end the task.
    Finish(Closing),
    /// The event does not fit the stage: do nothing.
    Nothing,
}

impl Report {
    /// Only a relay that ended in success is logged for debugging; every
    /// failure is a warning.
    pub open spec fn spec_level(self) -> Level {
        match self {
            Report::Relayed(result) => match result.status {
                TunnelStatus::Success => Level::Debug,
                TunnelStatus::Failed(_) => Level::Warn,
            },
            _ => Level::Warn,
        }
    }

    /// The weight with which the report is logged.
    #[verifier::when_used_as_spec(spec_level)]
    pub fn level(self) -> (r: Level)
        ensures
            r == self.spec_level(),
    {
        match self {
            Report::Relayed(result) => match result.status {
                TunnelStatus::Success => Level::Debug,
                TunnelStatus::Failed(_) => Level::Warn,
            },
            _ => Level::Warn,
        }
    }
}

/// The stage and the action that follow an event.
pub open spec fn next(stage: Stage, event: SessionEvent) -> (Stage, Action) {
    match (stage, event) {
        (Stage::Upgrading, SessionEvent::Upgraded) => (Stage::Dialing, Action::Dial),
        (Stage::Upgrading, SessionEvent::UpgradeFailed) => (
            Stage::Closed,
            Action::Finish(
                Closing {
                    report: Report::UpgradeFailed,
                    close_client: false,
                    close_destination: false,
                },
            ),
        ),
        (Stage::Dialing, SessionEvent::Connected) => (Stage::Relaying, Action::Relay),
        (Stage::Dialing, SessionEvent::DialFailed(cause)) => (
            Stage::Closed,
            Action::Finish(
                Closing {
                    report: Report::DialFailed(cause),
                    close_client: true,
                    close_destination: false,
                },
            ),
        ),
        (Stage::Relaying, SessionEvent::RelayEnded(result)) => (
            Stage::Closed,
            Action::Finish(
                Closing {
                    report: Report::Relayed(result),
                    close_client: true,
                    close_destination: true,
                },
            ),
        ),
        _ => (stage, Action::Nothing),
    }
}

/// The actions that a sequence of events draws from a task, in order, and
/// the stage it is left in.
pub open spec fn run(stage: Stage, events: Seq<SessionEvent>) -> (Stage, Seq<Action>)
    decreases events.len(),
{
    if events.len() == 0 {
        (stage, Seq::empty())
    } else {
        let (before, actions) = run(stage, events.drop_last());
        let (after, action) = next(before, events.last());
        (after, actions.push(action))
    }
}

/// How many of the actions are a dial.
pub open spec fn dials(actions: Seq<Action>) -> nat
    decreases actions.len(),
{
    if actions.len() == 0 {
        0
    } else {
        dials(actions.drop_last()) + if actions.last() is Dial {
            1nat
        } else {
            0nat
        }
    }
}

/// How many of the actions start the relay.
pub open spec fn relays(actions: Seq<Action>) -> nat
    decreases actions.len(),
{
    if actions.len() == 0 {
        0
    } else {
        relays(actions.drop_last()) + if actions.last() is Relay {
            1nat
        } else {
            0nat
        }
    }
}

/// How many of the actions close the client stream.
pub open spec fn client_closes(actions: Seq<Action>) -> nat
    decreases actions.len(),
{
    if actions.len() == 0 {
        0
    } else {
        client_closes(actions.drop_last()) + if actions.last() matches Action::Finish(c)
            && c.close_client {
            1nat
        } else {
            0nat
        }
    }
}

/// How many of the actions close the destination stream.
pub open spec fn destination_closes(actions: Seq<Action>) -> nat
    decreases actions.len(),
{
    if actions.len() == 0 {
        0
    } else {
        destination_closes(actions.drop_last()) + if actions.last() matches Action::Finish(c)
            && c.close_destination {
            1nat
        } else {
            0nat
        }
    }
}

/// How many of the actions end the task.
pub open spec fn finishes(actions: Seq<Action>) -> nat
    decreases actions.len(),
{
    if actions.len() == 0 {
        0
    } else {
        finishes(actions.drop_last()) + if actions.last() is Finish {
            1nat
        } else {
            0nat
        }
    }
}

/// What holds of a task after any events: how often each thing was ordered,
/// by the stage reached. The client stream is open from the dial on, the
/// destination stream from the relay on.
pub open spec fn accounted(stage: Stage, actions: Seq<Action>) -> bool {
    let opened_client = dials(actions);
    let opened_destination = relays(actions);
    match stage {
        Stage::Upgrading => {
            &&& opened_client == 0
            &&& opened_destination == 0
            &&& finishes(actions) == 0
            &&& client_closes(actions) == 0
            &&& destination_closes(actions) == 0
        },
        Stage::Dialing => {
            &&& opened_client == 1
            &&& opened_destination == 0
            &&& finishes(actions) == 0
            &&& client_closes(actions) == 0
            &&& destination_closes(actions) == 0
        },
        Stage::Relaying => {
            &&& opened_client == 1
            &&& opened_destination == 1
            &&& finishes(actions) == 0
            &&& client_closes(actions) == 0
            &&& destination_closes(actions) == 0
        },
        Stage::Closed => {
            &&& opened_destination <= opened_client <= 1
            &&& finishes(actions) == 1
            &&& client_closes(actions) == opened_client
            &&& destination_closes(actions) == opened_destination
        },
    }
}

/// Whatever the driver reports, and in whatever order: the destination is
/// dialled at most once and only after the upgrade, the relay is started at
/// most once and only after the dial, the task ends at most once, and when
/// it has ended every stream that was opened has been closed exactly once
/// and none before.
pub proof fn lemma_each_step_once(events: Seq<SessionEvent>)
    ensures
        accounted(run(Stage::Upgrading, events).0, run(Stage::Upgrading, events).1),
    decreases events.len(),
{
    if events.len() > 0 {
        lemma_each_step_once(events.drop_last());
        let (before, actions) = run(Stage::Upgrading, events.drop_last());
        let (after, action) = next(before, events.last());
        assert(actions.push(action).drop_last() =~= actions);
        assert(actions.push(action).last() == action);
    }
}

/// A closed task stays closed and orders nothing more.
pub proof fn lemma_closed_is_final(event: SessionEvent)
    ensures
        next(Stage::Closed, event) == (Stage::Closed, Action::Nothing),
{
}

/// A task ends with a report of how: a failed upgrade leaves nothing to
/// close, a failed dial leaves the client stream, and the end of the relay
/// leaves both streams and its result.
pub proof fn lemma_finish_closes_what_is_open(stage: Stage, event: SessionEvent)
    requires
        next(stage, event).1 is Finish,
    ensures
        ({
            let closing = next(stage, event).1->Finish_0;
            &&& next(stage, event).0 == Stage::Closed
            &&& closing.close_client == (stage != Stage::Upgrading)
            &&& closing.close_destination == (stage == Stage::Relaying)
            &&& closing.report matches Report::Relayed(result) ==> event
                == SessionEvent::RelayEnded(result)
            &&& closing.report matches Report::DialFailed(cause) ==> event
                == SessionEvent::DialFailed(cause)
        }),
{
}

/// The task of one tunnel.
#[derive(Debug)]
pub struct TunnelSession {
    target: TunnelTarget,
    stage: Stage,
}

impl TunnelSession {
    /// The stage of the task, in contracts.
    pub closed spec fn spec_stage(&self) -> Stage {
        self.stage
    }

    /// The authority the task tunnels to, in contracts.
    pub closed spec fn spec_target(&self) -> Seq<char> {
        self.target@
    }

    /// A task for a tunnel whose handshake has just answered.
    pub fn new(target: TunnelTarget) -> (s: TunnelSession)
        ensures
            s.spec_stage() == Stage::Upgrading,
            s.spec_target() == target@,
    {
        TunnelSession { target, stage: Stage::Upgrading }
    }

    /// Where the task stands.
    #[verifier::when_used_as_spec(spec_stage)]
    pub fn stage(&self) -> (r: Stage)
        ensures
            r == self.spec_stage(),
    {
        self.stage
    }

    /// The destination of the tunnel.
    pub fn target(&self) -> (r: &TunnelTarget)
        ensures
            r@ == self.spec_target(),
    {
        &self.target
    }

    /// Takes an event and says what to do next. An event that does not fit
    /// the stage changes nothing.
    pub fn step(&mut self, event: SessionEvent) -> (action: Action)
        ensures
            (final(self).spec_stage(), action) == next(old(self).spec_stage(), event),
            final(self).spec_target() == old(self).spec_target(),
    {
        let (stage, action) = match (self.stage, event) {
            (Stage::Upgrading, SessionEvent::Upgraded) => (Stage::Dialing, Action::Dial),
            (Stage::Upgrading, SessionEvent::UpgradeFailed) => (
                Stage::Closed,
                Action::Finish(
                    Closing {
                        report: Report::UpgradeFailed,
                        close_client: false,
                        close_destination: false,
                    },
                ),
            ),
            (Stage::Dialing, SessionEvent::Connected) => (Stage::Relaying, Action::Relay),
            (Stage::Dialing, SessionEvent::DialFailed(cause)) => (
                Stage::Closed,
                Action::Finish(
                    Closing {
                        report: Report::DialFailed(cause),
                        close_client: true,
                        close_destination: false,
                    },
                ),
            ),
            (Stage::Relaying, SessionEvent::RelayEnded(result)) => (
                Stage::Closed,
                Action::Finish(
                    Closing {
                        report: Report::Relayed(result),
                        close_client: true,
                        close_destination: true,
                    },
                ),
            ),
            (stage, _) => (stage, Action::Nothing),
        };
        self.stage = stage;
        action
    }
}

} // verus!
