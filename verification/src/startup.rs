//! Bringing a webhook up: bind the listener, register the webhook, and on a
//! failed registration take everything down again before reporting it.
use vstd::prelude::*;
use crate::webhook::{
    setup_matches, DeleteWebhookRequest, SetWebhookRequest, SocketAddress, Webhook,
    UPDATE_CHANNEL_CAPACITY,
};

verus! {

/// Where bringing a webhook up stands; `E` is the client's error.
pub enum StartupPhase<E> {
    Binding,
    SettingUp,
    TearingDown(E),
    Done,
}

/// What came back from the last action.
pub enum StartupEvent<E> {
    Bound,
    BindFailed(E),
    WebhookSet,
    SetupFailed(E),
    TornDown,
    TeardownFailed(E),
}

/// What to do next.
pub enum StartupAction<'a, E> {
    /// Make the update channel with `channel_capacity` slots and bind the
    /// listener to `addr`.
    Bind { addr: SocketAddress, channel_capacity: usize },
    /// Start the listener, then register the webhook with this call.
    Listen(SetWebhookRequest<'a>),
    /// Stop the listener, then remove the webhook with this call.
    Abandon(DeleteWebhookRequest),
    /// Everything is up: hand the listener over to the update stream.
    Stream,
    /// Give up with this error.
    Fail(E),
}

/// Whether `event` can follow the action taken in `phase`.
pub open spec fn startup_expects<E>(phase: StartupPhase<E>, event: StartupEvent<E>) -> bool {
    match phase {
        StartupPhase::Binding => event is Bound || event is BindFailed,
        StartupPhase::SettingUp => event is WebhookSet || event is SetupFailed,
        StartupPhase::TearingDown(_) => event is TornDown || event is TeardownFailed,
        StartupPhase::Done => false,
    }
}

impl<B> Webhook<B> {
    /// The first step of bringing the webhook up.
    pub fn startup_begin<E>(&self) -> (res: (StartupPhase<E>, StartupAction<'_, E>))
        ensures
            res.0 is Binding,
            res.1 matches StartupAction::Bind { addr, channel_capacity } && addr == self@.addr
                && channel_capacity == UPDATE_CHANNEL_CAPACITY,
    {
        (StartupPhase::Binding, StartupAction::Bind { addr: self.addr(), channel_capacity: UPDATE_CHANNEL_CAPACITY })
    }

    /// The next step of bringing the webhook up. A bind failure is reported
    /// as it is. A failed registration stops the listener and removes the
    /// webhook first; its error is reported unless the removal fails too,
    /// in which case the removal's error is.
    pub fn startup_step<E>(&self, phase: StartupPhase<E>, event: StartupEvent<E>) -> (res: (
        StartupPhase<E>,
        StartupAction<'_, E>,
    ))
        requires
            startup_expects(phase, event),
        ensures
            match (phase, event) {
                (StartupPhase::Binding, StartupEvent::Bound) => res.0 is SettingUp
                    && (res.1 matches StartupAction::Listen(req) && setup_matches(self@, req)),
                (StartupPhase::Binding, StartupEvent::BindFailed(e)) => res.0 is Done
                    && (res.1 matches StartupAction::Fail(x) && x == e),
                (StartupPhase::SettingUp, StartupEvent::WebhookSet) => res.0 is Done
                    && res.1 is Stream,
                (StartupPhase::SettingUp, StartupEvent::SetupFailed(e)) => res.0
                    == StartupPhase::TearingDown(e) && (res.1 matches StartupAction::Abandon(req)
                    && req.drop_pending_updates == Some(self@.drop_pending_updates)),
                (StartupPhase::TearingDown(e), StartupEvent::TornDown) => res.0 is Done
                    && (res.1 matches StartupAction::Fail(x) && x == e),
                (StartupPhase::TearingDown(_), StartupEvent::TeardownFailed(e)) => res.0 is Done
                    && (res.1 matches StartupAction::Fail(x) && x == e),
                _ => false,
            },
    {
        match (phase, event) {
            (StartupPhase::Binding, StartupEvent::Bound) => (
                StartupPhase::SettingUp,
                StartupAction::Listen(self.setup_request()),
            ),
            (StartupPhase::Binding, StartupEvent::BindFailed(e)) => (
                StartupPhase::Done,
                StartupAction::Fail(e),
            ),
            (StartupPhase::SettingUp, StartupEvent::WebhookSet) => (
                StartupPhase::Done,
                StartupAction::Stream,
            ),
            (StartupPhase::SettingUp, StartupEvent::SetupFailed(e)) => (
                StartupPhase::TearingDown(e),
                StartupAction::Abandon(self.teardown_request()),
            ),
            (StartupPhase::TearingDown(e), StartupEvent::TornDown) => (
                StartupPhase::Done,
                StartupAction::Fail(e),
            ),
            (StartupPhase::TearingDown(_), StartupEvent::TeardownFailed(e)) => (
                StartupPhase::Done,
                StartupAction::Fail(e),
            ),
            _ => {
                proof {
                    assert(false);
                }
                (StartupPhase::Done, StartupAction::Stream)
            },
        }
    }
}

} // verus!
