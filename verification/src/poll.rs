//! The poll cycle as a state machine: fetch the status, publish its label,
//! record that the cycle finished, sleep, and start over. The machine decides;
//! whoever drives it performs each action and reports what came of it.

use vstd::prelude::*;
use crate::config::{parsed_address, Static, POLL_INTERVAL_SECONDS};
use crate::presence::{label_of_outcome, label_text, presentation_of_outcome, PresentationModel};
use crate::server::{FetchError, ServerInfo};

verus! {

/// Where in its cycle the poll loop stands: the work that is under way.
#[derive(Clone, Copy, Debug, PartialEq, Eq, Structural)]
pub enum PollState {
    /// The status is being fetched.
    Polling,
    /// The label is being published.
    Publishing,
    /// The end of the cycle is being recorded.
    Recording,
    /// The loop waits for the next cycle.
    Sleeping,
}

/// What came of the action that was under way.
#[derive(Clone, Debug)]
pub enum PollEvent {
    /// The fetch gave a status.
    Fetched(ServerInfo),
    /// The fetch failed.
    FetchFailed(FetchError),
    /// The label was published.
    Published,
    /// The label could not be published.
    PublishFailed,
    /// The end of the cycle was recorded.
    Recorded,
    /// The sleep is over.
    Woke,
}

/// What the driver is to do next.
#[derive(Clone, Debug)]
pub enum PollAction {
    /// Fetch the status from this address.
    Fetch(String),
    /// Publish this label.
    Publish(String),
    /// Record the current minute in the liveness tracker.
    Record,
    /// Sleep for this many seconds.
    Sleep(u64),
}

/// An action as plain values.
pub enum PollActionModel {
    Fetch(Seq<char>),
    Publish(Seq<char>),
    Record,
    Sleep(nat),
}

impl View for PollAction {
    type V = PollActionModel;

    open spec fn view(&self) -> PollActionModel {
        match *self {
            PollAction::Fetch(url) => PollActionModel::Fetch(url@),
            PollAction::Publish(label) => PollActionModel::Publish(label@),
            PollAction::Record => PollActionModel::Record,
            PollAction::Sleep(seconds) => PollActionModel::Sleep(seconds as nat),
        }
    }
}

/// Whether `event` reports the end of the work that is under way in `state`.
pub open spec fn accepts(state: PollState, event: PollEvent) -> bool {
    match state {
        PollState::Polling => event is Fetched || event is FetchFailed,
        PollState::Publishing => event is Published || event is PublishFailed,
        PollState::Recording => event is Recorded,
        PollState::Sleeping => event is Woke,
    }
}

/// The state that follows `state`.
pub open spec fn successor(state: PollState) -> PollState {
    match state {
        PollState::Polling => PollState::Publishing,
        PollState::Publishing => PollState::Recording,
        PollState::Recording => PollState::Sleeping,
        PollState::Sleeping => PollState::Polling,
    }
}

/// The state after `event` arrived in `state`: the successor where the event
/// ends the work under way, whatever its outcome, and `state` itself where
/// the event belongs to another state.
pub open spec fn next_state(state: PollState, event: PollEvent) -> PollState {
    if accepts(state, event) {
        successor(state)
    } else {
        state
    }
}

/// The label to publish after the fetch ended in `event`.
pub open spec fn label_after(event: PollEvent) -> Seq<char> {
    match event {
        PollEvent::Fetched(info) => label_text(presentation_of_outcome(Ok(info))),
        _ => label_text(PresentationModel::Unknown),
    }
}

/// The action that `event` calls for in `state`, for a loop that fetches from
/// `url`; none where the event belongs to another state.
pub open spec fn action_after(url: Seq<char>, state: PollState, event: PollEvent) -> Option<
    PollActionModel,
> {
    if !accepts(state, event) {
        None
    } else {
        Some(
            match state {
                PollState::Polling => PollActionModel::Publish(label_after(event)),
                PollState::Publishing => PollActionModel::Record,
                PollState::Recording => PollActionModel::Sleep(POLL_INTERVAL_SECONDS as nat),
                PollState::Sleeping => PollActionModel::Fetch(url),
            },
        )
    }
}

/// The view of an action that may be absent.
pub open spec fn action_view(action: Option<PollAction>) -> Option<PollActionModel> {
    match action {
        Some(a) => Some(a@),
        None => None,
    }
}

/// A poll loop: the address it fetches from and the state it is in.
pub struct PollLoop {
    address: String,
    state: PollState,
}

impl PollLoop {
    /// The state the loop is in.
    pub closed spec fn state_spec(&self) -> PollState {
        self.state
    }

    /// The address the loop fetches from.
    pub closed spec fn url_spec(&self) -> Seq<char> {
        self.address@
    }

    /// A loop about to fetch for the first time, from `address`.
    pub fn fetching_from(address: String) -> (poll: Self)
        ensures
            poll.state_spec() == PollState::Polling,
            poll.url_spec() == address@,
    {
        PollLoop { address, state: PollState::Polling }
    }

    /// A loop for `config`, about to fetch for the first time from the
    /// address that the settings name; nothing where the parser refuses that
    /// address.
    pub fn new(config: &Static) -> (poll: Option<Self>)
        ensures
            match parsed_address(config.status_url_spec()) {
                Some(address) => poll matches Some(p) && p.state_spec() == PollState::Polling
                    && p.url_spec() == address,
                None => poll.is_none(),
            },
    {
        match config.request_url() {
            Some(address) => Some(PollLoop::fetching_from(address)),
            None => None,
        }
    }

    /// The state the loop is in.
    pub fn state(&self) -> (state: PollState)
        ensures
            state == self.state_spec(),
    {
        self.state
    }

    /// The action that opens every cycle: fetch the status.
    pub fn first_action(&self) -> (action: PollAction)
        ensures
            action@ == PollActionModel::Fetch(self.url_spec()),
    {
        PollAction::Fetch(self.address.clone())
    }

    /// Takes in what came of the action under way and says what to do next.
    /// An event that does not belong to the current state changes nothing
    /// and calls for nothing.
    pub fn step(&mut self, event: PollEvent) -> (action: Option<PollAction>)
        ensures
            final(self).url_spec() == old(self).url_spec(),
            final(self).state_spec() == next_state(old(self).state_spec(), event),
            action_view(action) == action_after(
                old(self).url_spec(),
                old(self).state_spec(),
                event,
            ),
    {
        match self.state {
            PollState::Polling => match event {
                PollEvent::Fetched(info) => {
                    self.state = PollState::Publishing;
                    Some(PollAction::Publish(label_of_outcome(&Ok(info))))
                },
                PollEvent::FetchFailed(error) => {
                    self.state = PollState::Publishing;
                    Some(PollAction::Publish(label_of_outcome(&Err(error))))
                },
                _ => None,
            },
            PollState::Publishing => match event {
                PollEvent::Published | PollEvent::PublishFailed => {
                    self.state = PollState::Recording;
                    Some(PollAction::Record)
                },
                _ => None,
            },
            PollState::Recording => match event {
                PollEvent::Recorded => {
                    self.state = PollState::Sleeping;
                    Some(PollAction::Sleep(POLL_INTERVAL_SECONDS))
                },
                _ => None,
            },
            PollState::Sleeping => match event {
                PollEvent::Woke => {
                    self.state = PollState::Polling;
                    Some(PollAction::Fetch(self.address.clone()))
                },
                _ => None,
            },
        }
    }
}

/// The state after the events of `events` arrived one after another, the
/// first of them in `state`.
pub open spec fn run(state: PollState, events: Seq<PollEvent>) -> PollState
    decreases events.len(),
{
    if events.len() == 0 {
        state
    } else {
        run(next_state(state, events[0]), events.drop_first())
    }
}

/// How often the loop was told to record while `events` arrived, the first
/// of them in `state`.
pub open spec fn recordings(state: PollState, events: Seq<PollEvent>) -> nat
    decreases events.len(),
{
    if events.len() == 0 {
        0
    } else {
        let told: nat = if state == PollState::Publishing && accepts(state, events[0]) {
            1
        } else {
            0
        };
        told + recordings(next_state(state, events[0]), events.drop_first())
    }
}

/// How many cycles came to their end, the sleep included, while `events`
/// arrived, the first of them in `state`.
pub open spec fn cycles_completed(state: PollState, events: Seq<PollEvent>) -> nat
    decreases events.len(),
{
    if events.len() == 0 {
        0
    } else {
        let ended: nat = if state == PollState::Sleeping && accepts(state, events[0]) {
            1
        } else {
            0
        };
        ended + cycles_completed(next_state(state, events[0]), events.drop_first())
    }
}

/// One where the cycle under way in `state` has been told to record already,
/// zero where it has not.
pub open spec fn recorded_in_cycle(state: PollState) -> nat {
    match state {
        PollState::Recording | PollState::Sleeping => 1,
        _ => 0,
    }
}

/// Every state has an event that moves the loop on, and every event that is
/// accepted calls for an action: the loop has no end.
pub proof fn lemma_no_terminal_state(url: Seq<char>, state: PollState)
    ensures
        exists|event: PollEvent| accepts(state, event),
        forall|event: PollEvent| #[trigger]
            accepts(state, event) ==> action_after(url, state, event).is_some() && next_state(
                state,
                event,
            ) == successor(state),
{
    match state {
        PollState::Polling => {
            assert(accepts(state, PollEvent::FetchFailed(FetchError::Network)));
        },
        PollState::Publishing => {
            assert(accepts(state, PollEvent::Published));
        },
        PollState::Recording => {
            assert(accepts(state, PollEvent::Recorded));
        },
        PollState::Sleeping => {
            assert(accepts(state, PollEvent::Woke));
        },
    }
}

/// A fetch that fails does not stop the loop: the label for an unknown
/// status is published, and whether that works or not the cycle is recorded,
/// the loop sleeps, and then fetches again.
pub proof fn lemma_failed_fetch_completes_cycle(
    url: Seq<char>,
    error: FetchError,
    publish_outcome: PollEvent,
)
    requires
        publish_outcome is Published || publish_outcome is PublishFailed,
    ensures
        action_after(url, PollState::Polling, PollEvent::FetchFailed(error)) == Some(
            PollActionModel::Publish(label_text(PresentationModel::Unknown)),
        ),
        next_state(PollState::Polling, PollEvent::FetchFailed(error)) == PollState::Publishing,
        action_after(url, PollState::Publishing, publish_outcome) == Some(PollActionModel::Record),
        next_state(PollState::Publishing, publish_outcome) == PollState::Recording,
        action_after(url, PollState::Recording, PollEvent::Recorded) == Some(
            PollActionModel::Sleep(POLL_INTERVAL_SECONDS as nat),
        ),
        next_state(PollState::Recording, PollEvent::Recorded) == PollState::Sleeping,
        action_after(url, PollState::Sleeping, PollEvent::Woke) == Some(
            PollActionModel::Fetch(url),
        ),
        next_state(PollState::Sleeping, PollEvent::Woke) == PollState::Polling,
{
}

/// Over any events, from any state, the loop is told to record once for each
/// cycle: the recordings so far, with the one the cycle at the start had
/// behind it, are the cycles that ended with the one the cycle at the end has
/// behind it.
pub proof fn lemma_one_recording_per_cycle(state: PollState, events: Seq<PollEvent>)
    ensures
        recordings(state, events) + recorded_in_cycle(state) == cycles_completed(state, events)
            + recorded_in_cycle(run(state, events)),
    decreases events.len(),
{
    if events.len() > 0 {
        lemma_one_recording_per_cycle(next_state(state, events[0]), events.drop_first());
    }
}

/// From the start of a cycle, and whatever the fetches and the publishing
/// came to, a loop that is back at the start of a cycle was told to record
/// exactly once for each cycle that ended.
pub proof fn lemma_recordings_equal_cycles(events: Seq<PollEvent>)
    requires
        run(PollState::Polling, events) == PollState::Polling,
    ensures
        recordings(PollState::Polling, events) == cycles_completed(PollState::Polling, events),
{
    lemma_one_recording_per_cycle(PollState::Polling, events);
}

} // verus!
