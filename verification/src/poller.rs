//! Polling controller: the state machine of the cancellable background
//! loop. The loop's decisions are pure functions here; the surrounding
//! application sleeps, performs the network calls, and feeds each outcome
//! back as an observation.
use vstd::prelude::*;

use crate::client::LolClient;
use crate::client::champ_select_session::{
    ChampSelectSession, Decision, decide, decide_spec, is_ban_phase, target_banned,
};

verus! {

/// Single-slot cancellation signal shared by the controller loop and its
/// owner. A real deployment backs it with a concurrent single-slot
/// channel; this models the slot's value semantics.
#[derive(Clone, Copy, Debug)]
pub struct StopSignal {
    pub raised: bool,
}

impl StopSignal {
    /// A fresh handle with no pending signal.
    pub fn new() -> (s: StopSignal)
        ensures
            !s.raised,
    {
        StopSignal { raised: false }
    }

    /// Requests a stop. Sending is permitted in every state, also after
    /// the loop has consumed an earlier signal and exited; it never fails
    /// or blocks, and at most one pending signal is kept.
    pub fn send(&mut self)
        ensures
            final(self).raised,
    {
        self.raised = true;
    }

    /// Takes the pending signal, if any: non-blocking, and a signal is
    /// consumed at most once.
    pub fn try_consume(&mut self) -> (was: bool)
        ensures
            was == old(self).raised,
            !final(self).raised,
    {
        let was = self.raised;
        self.raised = false;
        was
    }
}

/// Clamps the configured poll interval to at least one millisecond, so a
/// zero interval cannot busy-spin the loop.
pub fn clamp_interval(interval_ms: u64) -> (r: u64)
    ensures
        r == if interval_ms == 0 { 1u64 } else { interval_ms },
        r >= 1,
{
    if interval_ms == 0 {
        1
    } else {
        interval_ms
    }
}

/// Connection state the loop carries from tick to tick. The client is
/// replaced, never repaired: any failure drops back to `Disconnected` and
/// the next tick rediscovers the lockfile.
pub enum PollerState {
    Disconnected,
    Connected(LolClient),
}

impl PollerState {
    pub open spec fn is_connected(self) -> bool {
        self is Connected
    }
}

/// What the application observed while serving one step of the loop.
pub enum TickObservation {
    /// The stop handle held a signal when the tick began.
    StopRequested,
    /// Discovery, construction or the identity probe failed.
    ConnectFailed,
    /// A fresh client passed the identity probe.
    ConnectSucceeded(LolClient),
    /// The liveness probe on the held client failed.
    LivenessFailed,
    /// No draft session is active, or it failed to parse.
    SessionUnavailable,
    /// A full session snapshot was fetched.
    SessionFetched(ChampSelectSession),
}

/// What the loop must do next.
#[derive(Clone, Copy, Debug, PartialEq, Eq, Structural)]
pub enum TickAction {
    /// Leave the loop; the terminal state.
    Exit,
    /// Nothing more this tick; sleep and poll again.
    Wait,
    /// Submit the ban through this action, then keep polling.
    SubmitBan { action_id: i64, champion_id: i32 },
}

/// Transition of the loop on one observation: the state carried into the
/// next step and the action owed now.
pub open spec fn step_spec(state: PollerState, obs: TickObservation, target: i32) -> (
    PollerState,
    TickAction,
) {
    match obs {
        TickObservation::StopRequested => (state, TickAction::Exit),
        TickObservation::ConnectFailed => (PollerState::Disconnected, TickAction::Wait),
        TickObservation::ConnectSucceeded(c) => (PollerState::Connected(c), TickAction::Wait),
        TickObservation::LivenessFailed => (PollerState::Disconnected, TickAction::Wait),
        TickObservation::SessionUnavailable => (state, TickAction::Wait),
        TickObservation::SessionFetched(s) => (
            state,
            match decide_spec(s, target) {
                Decision::Act(id) => TickAction::SubmitBan { action_id: id, champion_id: target },
                Decision::NotActionable => TickAction::Wait,
                Decision::AlreadyBanned => TickAction::Wait,
            },
        ),
    }
}

impl PollerState {
    /// One step of the polling loop. Only a pending stop signal ends the
    /// loop; every failure is retryable and only drops the connection. A
    /// ban is submitted only for a fetched session that is in the ban
    /// phase with the target not yet banned, through the action that the
    /// decision algorithm picked.
    pub fn step(self, obs: TickObservation, target: i32) -> (r: (PollerState, TickAction))
        ensures
            r == step_spec(self, obs, target),
            obs is StopRequested <==> r.1 is Exit,
            r.0.is_connected() == match obs {
                TickObservation::ConnectSucceeded(_) => true,
                TickObservation::ConnectFailed => false,
                TickObservation::LivenessFailed => false,
                _ => self.is_connected(),
            },
            obs matches TickObservation::SessionFetched(s) ==> (match r.1 {
                TickAction::SubmitBan { action_id, champion_id } => {
                    &&& is_ban_phase(s)
                    &&& !target_banned(s, target)
                    &&& decide_spec(s, target) == Decision::Act(action_id)
                    &&& champion_id == target
                },
                _ => !(decide_spec(s, target) matches Decision::Act(_)),
            }),
    {
        match obs {
            TickObservation::StopRequested => (self, TickAction::Exit),
            TickObservation::ConnectFailed => (PollerState::Disconnected, TickAction::Wait),
            TickObservation::ConnectSucceeded(c) => (PollerState::Connected(c), TickAction::Wait),
            TickObservation::LivenessFailed => (PollerState::Disconnected, TickAction::Wait),
            TickObservation::SessionUnavailable => (self, TickAction::Wait),
            TickObservation::SessionFetched(s) => {
                let action = match decide(&s, target) {
                    Decision::Act(id) => TickAction::SubmitBan {
                        action_id: id,
                        champion_id: target,
                    },
                    Decision::NotActionable => TickAction::Wait,
                    Decision::AlreadyBanned => TickAction::Wait,
                };
                (self, action)
            },
        }
    }
}

} // verus!
