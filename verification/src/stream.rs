//! The update stream of a running webhook: forward updates while the listener
//! runs; once it has stopped, remove the webhook and end with one error that
//! says how the listener ended.
use vstd::prelude::*;
use crate::webhook::{DeleteWebhookRequest, Webhook, WebhookConfig};

verus! {

/// How the listener task ended.
pub enum ListenerOutcome {
    /// It returned, which a listener never does on its own.
    Stopped,
    /// It panicked or was aborted; the text describes how.
    Failed(String),
}

/// The error that ends the update stream.
pub enum StreamError {
    ListenerStopped,
    ListenerFailed(String),
}

/// The error that reports a listener outcome.
pub open spec fn error_for(outcome: ListenerOutcome) -> StreamError {
    match outcome {
        ListenerOutcome::Stopped => StreamError::ListenerStopped,
        ListenerOutcome::Failed(why) => StreamError::ListenerFailed(why),
    }
}

/// The text of a stream error.
pub open spec fn error_text(err: StreamError) -> Seq<char> {
    match err {
        StreamError::ListenerStopped => "webhook listener task stopped unexpectedly"@,
        StreamError::ListenerFailed(why) => "webhook listener task failed: "@ + why@,
    }
}

impl StreamError {
    /// The error's text.
    pub fn message(&self) -> (text: String)
        ensures
            text@ == error_text(*self),
    {
        match self {
            StreamError::ListenerStopped => String::from_str("webhook listener task stopped unexpectedly"),
            StreamError::ListenerFailed(why) => {
                let text = String::from_str("webhook listener task failed: ");
                text.concat(why.as_str())
            },
        }
    }
}

/// Where the stream stands.
pub enum StreamPhase {
    /// The listener runs; updates are passed on.
    Forwarding,
    /// The listener has ended; the webhook is being removed.
    TearingDown(ListenerOutcome),
    /// The final error has been given; nothing follows.
    Finished,
}

/// What the stream learned while waiting.
pub enum StreamEvent<U> {
    /// The listener handed over an update.
    Received(U),
    /// The update channel is closed and empty.
    ChannelClosed,
    /// The listener task has ended.
    ListenerDone(ListenerOutcome),
    /// Removing the webhook has finished, whether or not it succeeded.
    TornDown,
}

/// What the stream does next.
pub enum StreamAction<U> {
    /// Give this update to the consumer.
    Yield(U),
    /// Wait again.
    Wait,
    /// Remove the webhook with this call.
    TearDown(DeleteWebhookRequest),
    /// Give this error to the consumer; the stream then ends.
    Fail(StreamError),
}

/// Whether `event` can happen in `phase`.
pub open spec fn stream_fits<U>(phase: StreamPhase, event: StreamEvent<U>) -> bool {
    match phase {
        StreamPhase::Forwarding => !(event is TornDown),
        StreamPhase::TearingDown(_) => event is TornDown,
        StreamPhase::Finished => false,
    }
}

/// One step of the stream of a webhook that drops pending updates or not.
pub open spec fn stream_next<U>(drop_pending: bool, phase: StreamPhase, event: StreamEvent<U>) -> (
    StreamPhase,
    StreamAction<U>,
) {
    match (phase, event) {
        (StreamPhase::Forwarding, StreamEvent::Received(u)) => (
            StreamPhase::Forwarding,
            StreamAction::Yield(u),
        ),
        (StreamPhase::Forwarding, StreamEvent::ListenerDone(outcome)) => (
            StreamPhase::TearingDown(outcome),
            StreamAction::TearDown(DeleteWebhookRequest { drop_pending_updates: Some(drop_pending) }),
        ),
        (StreamPhase::TearingDown(outcome), StreamEvent::TornDown) => (
            StreamPhase::Finished,
            StreamAction::Fail(error_for(outcome)),
        ),
        _ => (phase, StreamAction::Wait),
    }
}

/// What the stream learns when it looks at the listener and the channel
/// together: `listener` is how the listener ended, if it has; `received` is
/// what the channel gave, if it gave anything (`Some(None)` when it is closed
/// and empty). An ended listener wins over an update still in the channel,
/// which is then never given on; with neither, there is nothing to learn yet.
pub fn next_event<U>(listener: Option<ListenerOutcome>, received: Option<Option<U>>) -> (event:
    Option<StreamEvent<U>>)
    ensures
        match (listener, received) {
            (Some(outcome), _) => event == Some(StreamEvent::<U>::ListenerDone(outcome)),
            (None, Some(Some(u))) => event == Some(StreamEvent::<U>::Received(u)),
            (None, Some(None)) => event == Some(StreamEvent::<U>::ChannelClosed),
            (None, None) => event.is_none(),
        },
{
    match (listener, received) {
        (Some(outcome), _) => Some(StreamEvent::ListenerDone(outcome)),
        (None, Some(Some(u))) => Some(StreamEvent::Received(u)),
        (None, Some(None)) => Some(StreamEvent::ChannelClosed),
        (None, None) => None,
    }
}

/// The update stream of a webhook.
pub struct WebhookStreamState<B> {
    webhook: Webhook<B>,
    phase: StreamPhase,
}

impl<B> WebhookStreamState<B> {
    /// Where the stream stands.
    pub closed spec fn phase(&self) -> StreamPhase {
        self.phase
    }

    /// The webhook behind the stream, whose client removes it.
    pub closed spec fn spec_webhook(&self) -> Webhook<B> {
        self.webhook
    }

    /// What the webhook behind the stream holds.
    pub open spec fn config(&self) -> WebhookConfig {
        self.spec_webhook()@
    }

    /// The webhook behind the stream.
    pub fn webhook(&self) -> (hook: &Webhook<B>)
        ensures
            *hook == self.spec_webhook(),
    {
        &self.webhook
    }

    /// Whether the final error has been given.
    pub fn is_finished(&self) -> (done: bool)
        ensures
            done == (self.phase() is Finished),
    {
        match self.phase {
            StreamPhase::Finished => true,
            _ => false,
        }
    }

    /// Whether the listener has ended and the webhook is being removed.
    pub fn is_tearing_down(&self) -> (tearing: bool)
        ensures
            tearing == (self.phase() is TearingDown),
    {
        match self.phase {
            StreamPhase::TearingDown(_) => true,
            _ => false,
        }
    }

    /// The next step of the stream.
    pub fn step<U>(&mut self, event: StreamEvent<U>) -> (action: StreamAction<U>)
        requires
            stream_fits(old(self).phase(), event),
        ensures
            final(self).spec_webhook() == old(self).spec_webhook(),
            old(self).phase() is Forwarding && event is ListenerDone ==> (action matches StreamAction::TearDown(req)
                && req.drop_pending_updates == Some(old(self).config().drop_pending_updates)),
            (final(self).phase(), action) == stream_next(
                old(self).config().drop_pending_updates,
                old(self).phase(),
                event,
            ),
    {
        let mut phase = StreamPhase::Finished;
        std::mem::swap(&mut phase, &mut self.phase);
        match (phase, event) {
            (StreamPhase::Forwarding, StreamEvent::Received(u)) => {
                self.phase = StreamPhase::Forwarding;
                StreamAction::Yield(u)
            },
            (StreamPhase::Forwarding, StreamEvent::ListenerDone(outcome)) => {
                self.phase = StreamPhase::TearingDown(outcome);
                StreamAction::TearDown(self.webhook.teardown_request())
            },
            (StreamPhase::TearingDown(outcome), StreamEvent::TornDown) => {
                let err = match outcome {
                    ListenerOutcome::Stopped => StreamError::ListenerStopped,
                    ListenerOutcome::Failed(why) => StreamError::ListenerFailed(why),
                };
                self.phase = StreamPhase::Finished;
                StreamAction::Fail(err)
            },
            (phase, _) => {
                self.phase = phase;
                StreamAction::Wait
            },
        }
    }
}

impl<B> Webhook<B> {
    /// The stream of this webhook's updates, with its listener running.
    pub fn into_stream(self) -> (stream: WebhookStreamState<B>)
        ensures
            stream.spec_webhook() == self,
            stream.phase() is Forwarding,
    {
        WebhookStreamState { webhook: self, phase: StreamPhase::Forwarding }
    }
}

/// The phase and the actions after a run of `events` from the start.
pub open spec fn stream_run<U>(drop_pending: bool, events: Seq<StreamEvent<U>>) -> (
    StreamPhase,
    Seq<StreamAction<U>>,
)
    decreases events.len(),
{
    if events.len() == 0 {
        (StreamPhase::Forwarding, Seq::empty())
    } else {
        let (phase, actions) = stream_run(drop_pending, events.drop_last());
        let (next, action) = stream_next(drop_pending, phase, events.last());
        (next, actions.push(action))
    }
}

/// Whether every event of the run can happen where it comes.
pub open spec fn stream_run_fits<U>(drop_pending: bool, events: Seq<StreamEvent<U>>) -> bool
    decreases events.len(),
{
    events.len() == 0 || (stream_run_fits(drop_pending, events.drop_last()) && stream_fits(
        stream_run(drop_pending, events.drop_last()).0,
        events.last(),
    ))
}

/// However the listener ended, the stream removes the webhook with the
/// webhook's own choice about pending updates: the removal call is the same
/// for every listener outcome, and it drops pending updates exactly when
/// the webhook was made to.
pub proof fn lemma_teardown_keeps_drop_choice<U>(
    drop_pending: bool,
    first: ListenerOutcome,
    second: ListenerOutcome,
)
    ensures
        stream_next::<U>(drop_pending, StreamPhase::Forwarding, StreamEvent::ListenerDone(first)).1 matches StreamAction::TearDown(req)
            && req.drop_pending_updates == Some(drop_pending),
        stream_next::<U>(drop_pending, StreamPhase::Forwarding, StreamEvent::ListenerDone(first)).1
            == stream_next::<U>(drop_pending, StreamPhase::Forwarding, StreamEvent::ListenerDone(second)).1,
{
}

/// Whether `event` is the end of the listener that `phase` is tearing down for.
pub open spec fn awaits_teardown_of<U>(phase: StreamPhase, event: StreamEvent<U>) -> bool {
    match phase {
        StreamPhase::TearingDown(outcome) => event == StreamEvent::<U>::ListenerDone(outcome),
        _ => false,
    }
}

/// Whether `action` is the error that reports the listener end `event`.
pub open spec fn reports<U>(action: StreamAction<U>, event: StreamEvent<U>) -> bool {
    match (action, event) {
        (StreamAction::Fail(err), StreamEvent::ListenerDone(outcome)) => err == error_for(outcome),
        _ => false,
    }
}

/// Over any run of the stream: every update received while the listener runs
/// is given on, in order and unchanged; the stream gives at most one error,
/// as its last item, and that error comes exactly when the stream is
/// finished; before it, the webhook was removed, and the error reports how
/// the listener ended.
pub proof fn lemma_stream_run<U>(drop_pending: bool, events: Seq<StreamEvent<U>>)
    requires
        stream_run_fits(drop_pending, events),
    ensures
        stream_run(drop_pending, events).1.len() == events.len(),
        forall|i: int|
            0 <= i < events.len() ==> (#[trigger] events[i] matches StreamEvent::Received(u)
                ==> stream_run(drop_pending, events).1[i] == StreamAction::Yield(u)),
        forall|i: int|
            0 <= i < events.len() && #[trigger] stream_run(drop_pending, events).1[i] is Fail
                ==> i == events.len() - 1,
        (stream_run(drop_pending, events).0 is Finished) <==> (events.len() > 0 && stream_run(
            drop_pending,
            events,
        ).1.last() is Fail),
        stream_run(drop_pending, events).0 is TearingDown ==> exists|j: int|
            0 <= j < events.len() && awaits_teardown_of(
                stream_run(drop_pending, events).0,
                #[trigger] events[j],
            ) && stream_run(drop_pending, events).1[j] is TearDown,
        forall|i: int|
            0 <= i < events.len() && #[trigger] stream_run(drop_pending, events).1[i] is Fail
                ==> exists|j: int|
                0 <= j < i && reports(stream_run(drop_pending, events).1[i], #[trigger] events[j])
                    && stream_run(drop_pending, events).1[j] is TearDown,
    decreases events.len(),
{
    if events.len() > 0 {
        let prev = events.drop_last();
        lemma_stream_run(drop_pending, prev);
        let (phase, actions) = stream_run(drop_pending, prev);
        let all = stream_run(drop_pending, events).1;
        assert(all == actions.push(stream_next(drop_pending, phase, events.last()).1));
        assert forall|i: int|
            0 <= i < events.len() && #[trigger] all[i] is Fail implies i == events.len() - 1 by {
            if i < events.len() - 1 {
                assert(all[i] == actions[i]);
                assert(i == prev.len() - 1);
                assert(phase is Finished);
            }
        }
        assert forall|i: int|
            0 <= i < events.len() implies (#[trigger] events[i] matches StreamEvent::Received(u)
                ==> all[i] == StreamAction::Yield(u)) by {
            if i < events.len() - 1 {
                assert(events[i] == prev[i]);
                assert(all[i] == actions[i]);
            }
        }
        let last = events.len() - 1;
        if phase is TearingDown {
            let j = choose|j: int|
                0 <= j < prev.len() && awaits_teardown_of(phase, #[trigger] prev[j])
                    && actions[j] is TearDown;
            assert(events[j] == prev[j]);
            assert(all[j] == actions[j]);
            assert(reports(all[last], events[j]));
        }
        if stream_run(drop_pending, events).0 is TearingDown {
            assert(phase is Forwarding);
            assert(awaits_teardown_of(stream_run(drop_pending, events).0, events[last]));
        }
    }
}

} // verus!
