//! The stream supervisor's decisions: which events of the feed lead to a
//! dispatch, and when the run ends.

use vstd::prelude::*;
use crate::model::{Post, PostView, WatchedAccount};

verus! {

/// What the feed delivers.
#[derive(Clone, Debug, PartialEq, Eq)]
pub enum StreamEvent {
    /// A post, by the watched account or by another.
    Post(Post),
    /// Anything that is no post.
    Other,
    /// The subscription is lost: a read failed or the feed ended.
    Lost,
}

pub enum StreamEventView {
    Post(PostView),
    Other,
    Lost,
}

impl View for StreamEvent {
    type V = StreamEventView;

    open spec fn view(&self) -> StreamEventView {
        match self {
            StreamEvent::Post(post) => StreamEventView::Post(post@),
            StreamEvent::Other => StreamEventView::Other,
            StreamEvent::Lost => StreamEventView::Lost,
        }
    }
}

/// Whether the supervisor still reads the feed.
#[derive(Clone, Copy, Debug, PartialEq, Eq, Structural)]
pub enum SupervisorState {
    Streaming,
    Stopped,
}

/// What the caller does after an event.
#[derive(Clone, Debug, PartialEq, Eq)]
pub enum SupervisorAction {
    /// Hand the post to a worker of its own, without waiting for it, and
    /// read on.
    Dispatch(Post),
    /// The post is by another account: drop it and read on.
    Discard,
    /// Nothing to do: read on.
    Ignore,
    /// Stop reading.
    Stop,
}

pub enum SupervisorActionView {
    Dispatch(PostView),
    Discard,
    Ignore,
    Stop,
}

impl View for SupervisorAction {
    type V = SupervisorActionView;

    open spec fn view(&self) -> SupervisorActionView {
        match self {
            SupervisorAction::Dispatch(post) => SupervisorActionView::Dispatch(post@),
            SupervisorAction::Discard => SupervisorActionView::Discard,
            SupervisorAction::Ignore => SupervisorActionView::Ignore,
            SupervisorAction::Stop => SupervisorActionView::Stop,
        }
    }
}

/// One step of the supervisor. While streaming, a post by the watched
/// account is dispatched and any other post discarded; the loss of the
/// subscription stops the run for good.
pub open spec fn step_spec(watched_id: u64, state: SupervisorState, event: StreamEventView) -> (
    SupervisorState,
    SupervisorActionView,
) {
    match state {
        SupervisorState::Stopped => (SupervisorState::Stopped, SupervisorActionView::Stop),
        SupervisorState::Streaming => match event {
            StreamEventView::Post(post) => if post.author_id == watched_id {
                (SupervisorState::Streaming, SupervisorActionView::Dispatch(post))
            } else {
                (SupervisorState::Streaming, SupervisorActionView::Discard)
            },
            StreamEventView::Other => (SupervisorState::Streaming, SupervisorActionView::Ignore),
            StreamEventView::Lost => (SupervisorState::Stopped, SupervisorActionView::Stop),
        },
    }
}

/// The posts dispatched, in order, while the events `events` arrive one
/// after the other, starting in `state`.
pub open spec fn dispatched_spec(
    watched_id: u64,
    state: SupervisorState,
    events: Seq<StreamEventView>,
) -> Seq<PostView>
    decreases events.len(),
{
    if events.len() == 0 {
        Seq::empty()
    } else {
        let (next, action) = step_spec(watched_id, state, events[0]);
        let now = match action {
            SupervisorActionView::Dispatch(post) => seq![post],
            _ => Seq::empty(),
        };
        now + dispatched_spec(watched_id, next, events.drop_first())
    }
}

/// Whatever the feed delivers, every post that is dispatched is by the
/// watched account.
pub proof fn lemma_only_watched_dispatched(
    watched_id: u64,
    state: SupervisorState,
    events: Seq<StreamEventView>,
)
    ensures
        forall|i: int|
            0 <= i < dispatched_spec(watched_id, state, events).len() ==> (#[trigger] dispatched_spec(
                watched_id,
                state,
                events,
            )[i]).author_id == watched_id,
    decreases events.len(),
{
    if events.len() > 0 {
        let (next, action) = step_spec(watched_id, state, events[0]);
        lemma_only_watched_dispatched(watched_id, next, events.drop_first());
    }
}

/// Once the run has stopped, nothing is dispatched any more.
pub proof fn lemma_nothing_dispatched_once_stopped(watched_id: u64, events: Seq<StreamEventView>)
    ensures
        dispatched_spec(watched_id, SupervisorState::Stopped, events).len() == 0,
    decreases events.len(),
{
    if events.len() > 0 {
        lemma_nothing_dispatched_once_stopped(watched_id, events.drop_first());
    }
}

/// The supervisor of one subscription.
#[derive(Clone, Debug, PartialEq, Eq)]
pub struct Supervisor {
    pub watched_id: u64,
    pub state: SupervisorState,
}

impl Supervisor {
    /// A supervisor that streams the feed of `watched`.
    pub fn new(watched: &WatchedAccount) -> (supervisor: Supervisor)
        ensures
            supervisor.watched_id == watched.id,
            supervisor.state == SupervisorState::Streaming,
    {
        Supervisor { watched_id: watched.id, state: SupervisorState::Streaming }
    }

    /// Whether the feed is still to be read.
    pub fn is_streaming(&self) -> (streaming: bool)
        ensures
            streaming == (self.state == SupervisorState::Streaming),
    {
        match self.state {
            SupervisorState::Streaming => true,
            SupervisorState::Stopped => false,
        }
    }

    /// Takes one event of the feed and says what to do with it. A post is
    /// dispatched exactly when the supervisor streams and the post's author
    /// is the watched account; the post handed on is the one that came.
    pub fn on_event(&mut self, event: StreamEvent) -> (action: SupervisorAction)
        ensures
            final(self).watched_id == old(self).watched_id,
            (final(self).state, action@) == step_spec(
                old(self).watched_id,
                old(self).state,
                event@,
            ),
            action is Dispatch ==> event == StreamEvent::Post(action->Dispatch_0)
                && action->Dispatch_0.author_id == old(self).watched_id,
    {
        match self.state {
            SupervisorState::Stopped => SupervisorAction::Stop,
            SupervisorState::Streaming => match event {
                StreamEvent::Post(post) => {
                    if post.author_id == self.watched_id {
                        SupervisorAction::Dispatch(post)
                    } else {
                        SupervisorAction::Discard
                    }
                },
                StreamEvent::Other => SupervisorAction::Ignore,
                StreamEvent::Lost => {
                    self.state = SupervisorState::Stopped;
                    SupervisorAction::Stop
                },
            },
        }
    }
}

} // verus!
