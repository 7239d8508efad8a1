use vstd::prelude::*;

use crate::clock::now_millis;
use crate::messages::ControllerMessage;

verus! {

/// Time between two status pushes, in milliseconds.
pub const UPDATE_INTERVAL_MS: i64 = 1000;

/// Pause between two iterations of the controller's loop, in milliseconds. It
/// bounds how long a shutdown request waits to be seen.
pub const POLL_INTERVAL_MS: u64 = 100;

/// The controller's state: running, with the instant of the next status push,
/// or stopped for good.
#[derive(Debug, Clone, Copy, PartialEq, Eq)]
pub enum ControllerState {
    Running { next_update_ms: i64 },
    Stopped,
}

/// What the controller's loop does after one poll.
#[derive(Debug, Clone, Copy, PartialEq, Eq)]
pub enum ControllerAction {
    /// Send `Quit` to the display, join its thread if still held, and return.
    Shutdown,
    /// Send a fresh status snapshot to the display, then sleep.
    PushUpdate,
    /// Only sleep.
    Sleep,
}

/// The next push deadline set at `now_ms`: one interval later, held to the
/// range of `i64`.
pub open spec fn deadline_after(now_ms: i64) -> i64 {
    if now_ms <= i64::MAX - UPDATE_INTERVAL_MS {
        (now_ms + UPDATE_INTERVAL_MS) as i64
    } else {
        i64::MAX
    }
}

/// One iteration of the controller's loop at time `now_ms`, where `polled` is
/// what the non-blocking poll of the shutdown channel gave.
pub open spec fn controller_step(
    state: ControllerState,
    polled: Option<ControllerMessage>,
    now_ms: i64,
) -> (ControllerState, ControllerAction) {
    match state {
        ControllerState::Stopped => (ControllerState::Stopped, ControllerAction::Shutdown),
        ControllerState::Running { next_update_ms } => match polled {
            Some(ControllerMessage::Shutdown) => (
                ControllerState::Stopped,
                ControllerAction::Shutdown,
            ),
            None => if now_ms >= next_update_ms {
                (
                    ControllerState::Running { next_update_ms: deadline_after(now_ms) },
                    ControllerAction::PushUpdate,
                )
            } else {
                (state, ControllerAction::Sleep)
            },
        },
    }
}

/// The actions of the controller's loop over successive polls, each given as
/// what the shutdown channel held and the time. It ends with the first
/// `Shutdown`, where the loop returns.
pub open spec fn controller_trace(
    state: ControllerState,
    polls: Seq<(Option<ControllerMessage>, i64)>,
) -> Seq<ControllerAction>
    decreases polls.len(),
{
    if polls.len() == 0 {
        Seq::empty()
    } else {
        let (next, action) = controller_step(state, polls[0].0, polls[0].1);
        if action == ControllerAction::Shutdown {
            seq![action]
        } else {
            seq![action] + controller_trace(next, polls.drop_first())
        }
    }
}

impl ControllerState {
    /// A running controller started at `now_ms`: its first push is due one
    /// interval later.
    pub fn start(now_ms: i64) -> (r: ControllerState)
        ensures
            r == (ControllerState::Running { next_update_ms: deadline_after(now_ms) }),
    {
        let next_update_ms = if now_ms <= i64::MAX - UPDATE_INTERVAL_MS {
            now_ms + UPDATE_INTERVAL_MS
        } else {
            i64::MAX
        };
        ControllerState::Running { next_update_ms }
    }

    /// A running controller started now, by the wall clock.
    pub fn start_now() -> (r: ControllerState)
        ensures
            exists|t: i64| r == (ControllerState::Running { next_update_ms: deadline_after(t) }),
    {
        let now = now_millis();
        ControllerState::start(now)
    }

    /// Whether the controller is still running.
    pub fn is_running(&self) -> (r: bool)
        ensures
            r == (*self is Running),
    {
        match self {
            ControllerState::Running { .. } => true,
            ControllerState::Stopped => false,
        }
    }

    /// One iteration of the loop at time `now_ms`: a shutdown request stops
    /// the controller at once; otherwise a push is made when its deadline has
    /// come, and the next one is set one interval after `now_ms`.
    pub fn step(&mut self, polled: Option<ControllerMessage>, now_ms: i64) -> (a: ControllerAction)
        ensures
            (*final(self), a) == controller_step(*old(self), polled, now_ms),
    {
        match *self {
            ControllerState::Stopped => ControllerAction::Shutdown,
            ControllerState::Running { next_update_ms } => match polled {
                Some(ControllerMessage::Shutdown) => {
                    *self = ControllerState::Stopped;
                    ControllerAction::Shutdown
                },
                None => {
                    if now_ms >= next_update_ms {
                        *self = ControllerState::start(now_ms);
                        ControllerAction::PushUpdate
                    } else {
                        ControllerAction::Sleep
                    }
                },
            },
        }
    }

    /// One iteration of the loop at the current wall-clock time.
    pub fn tick(&mut self, polled: Option<ControllerMessage>) -> (a: ControllerAction)
        ensures
            exists|t: i64| (*final(self), a) == controller_step(*old(self), polled, t),
    {
        let now = now_millis();
        self.step(polled, now)
    }
}

/// A shutdown request is acted on at the very poll that delivers it, whatever
/// the state and the time: the controller stops and the loop returns there,
/// so it waits at most one poll interval after the request was enqueued.
pub proof fn lemma_shutdown_stops_at_next_poll(
    state: ControllerState,
    polls: Seq<(Option<ControllerMessage>, i64)>,
    k: int,
)
    requires
        0 <= k < polls.len(),
        polls[k].0 == Some(ControllerMessage::Shutdown),
    ensures
        controller_trace(state, polls).len() <= k + 1,
        controller_trace(state, polls).last() == ControllerAction::Shutdown,
        forall|i: int|
            0 <= i < controller_trace(state, polls).len() - 1 ==> controller_trace(state, polls)[i]
                != ControllerAction::Shutdown,
    decreases k,
{
    let (next, action) = controller_step(state, polls[0].0, polls[0].1);
    if action != ControllerAction::Shutdown {
        assert(k > 0);
        let rest = polls.drop_first();
        assert(rest[k - 1] == polls[k]);
        lemma_shutdown_stops_at_next_poll(next, rest, k - 1);
        let t = controller_trace(next, rest);
        assert(controller_trace(state, polls) == seq![action] + t);
        assert forall|i: int|
            0 <= i < controller_trace(state, polls).len() - 1 implies controller_trace(
                state,
                polls,
            )[i] != ControllerAction::Shutdown by {
            if i > 0 {
                assert(controller_trace(state, polls)[i] == t[i - 1]);
            }
        }
    }
}

} // verus!
