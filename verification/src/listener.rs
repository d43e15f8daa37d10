//! What the webhook listener does with one incoming request: check the secret
//! token, read the body within its limit, decode it, hand the update on, and
//! answer.
use vstd::prelude::*;
use crate::secret::{hyphenated, hyphenated_text};
use crate::webhook::{
    setup_matches, token_accepted, SetWebhookRequest, Webhook, WebhookConfig, MAX_BODY_BYTES,
};

verus! {

/// What the listener learned since its last action on a request.
pub enum RequestEvent {
    /// A request arrived; `token` is its secret-token header as text, if any.
    Arrived { token: Option<String> },
    /// The body was read within the limit.
    BodyRead,
    /// The body could not be read, or was longer than the limit.
    BodyFailed,
    /// The body is an update.
    Decoded,
    /// The body is not an update.
    DecodeFailed,
    /// The update was handed to the stream.
    Forwarded,
    /// The stream is gone.
    ForwardFailed,
}

/// What the listener does next with a request.
#[derive(Clone, Copy, Debug, PartialEq, Eq)]
pub enum RequestAction {
    /// Read at most `limit` bytes of the body.
    ReadBody { limit: usize },
    /// Decode the body as an update.
    Decode,
    /// Hand the decoded update to the stream.
    Forward,
    /// Answer 200 with an empty body.
    RespondOk,
    /// Give up on the connection with an error.
    Abort,
}

/// The text of an optional header value.
pub open spec fn token_text(token: Option<String>) -> Option<Seq<char>> {
    match token {
        Some(t) => Some(t@),
        None => None,
    }
}

/// The listener's reaction to each event, for a webhook whose cookie is `cookie`.
pub open spec fn request_reaction(cookie: Seq<u8>, event: RequestEvent) -> RequestAction {
    match event {
        RequestEvent::Arrived { token } => if token_accepted(cookie, token_text(token)) {
            RequestAction::ReadBody { limit: MAX_BODY_BYTES }
        } else {
            RequestAction::RespondOk
        },
        RequestEvent::BodyRead => RequestAction::Decode,
        RequestEvent::BodyFailed => RequestAction::Abort,
        RequestEvent::Decoded => RequestAction::Forward,
        RequestEvent::DecodeFailed => RequestAction::RespondOk,
        RequestEvent::Forwarded => RequestAction::RespondOk,
        RequestEvent::ForwardFailed => RequestAction::Abort,
    }
}

/// The part of a webhook that the listener needs: it tells Telegram's
/// requests from others by the secret token.
#[derive(Clone, Copy, Debug)]
pub struct ListenerGuard {
    cookie: [u8; 16],
}

impl View for ListenerGuard {
    type V = Seq<u8>;

    closed spec fn view(&self) -> Seq<u8> {
        self.cookie@
    }
}

impl<B> Webhook<B> {
    /// The guard for this webhook's listener.
    pub fn listener_guard(&self) -> (guard: ListenerGuard)
        ensures
            guard@ == self@.cookie,
    {
        ListenerGuard { cookie: self.cookie() }
    }
}

impl ListenerGuard {
    /// Whether a request whose secret-token header reads `token` comes from
    /// Telegram. A header that is missing or not visible ASCII reaches here
    /// as `None` or as text that cannot match.
    pub fn accepts_token(&self, token: Option<&str>) -> (ok: bool)
        ensures
            ok == token_accepted(self@, match token { Some(t) => Some(t@), None => None }),
    {
        match token {
            Some(t) => {
                let secret = hyphenated_text(&self.cookie);
                let given = String::from_str(t);
                given == secret
            },
            None => false,
        }
    }

    /// The next step of the listener on one request. A request without the
    /// webhook's secret token is answered 200 and otherwise ignored; a body
    /// that is not an update is answered 200 too; reading or forwarding
    /// failures abort the connection.
    pub fn on_request_event(&self, event: &RequestEvent) -> (action: RequestAction)
        ensures
            action == request_reaction(self@, *event),
            (action is Forward) <==> (*event is Decoded),
            (action is Decode) <==> (*event is BodyRead),
            (action is Abort) <==> (*event is BodyFailed || *event is ForwardFailed),
    {
        match event {
            RequestEvent::Arrived { token } => {
                let given = match token {
                    Some(t) => Some(t.as_str()),
                    None => None,
                };
                if self.accepts_token(given) {
                    RequestAction::ReadBody { limit: MAX_BODY_BYTES }
                } else {
                    RequestAction::RespondOk
                }
            },
            RequestEvent::BodyRead => RequestAction::Decode,
            RequestEvent::BodyFailed => RequestAction::Abort,
            RequestEvent::Decoded => RequestAction::Forward,
            RequestEvent::DecodeFailed => RequestAction::RespondOk,
            RequestEvent::Forwarded => RequestAction::RespondOk,
            RequestEvent::ForwardFailed => RequestAction::Abort,
        }
    }
}

/// The listener lets in exactly what setup registered: for a webhook holding
/// `cfg`, whose `setWebhook` call is `req`, the guard made from it reads a
/// request's body exactly when the request's token equals the secret token
/// sent in `req`. That token has 36 characters, so a missing header, or one
/// read as empty text, is refused.
pub proof fn lemma_guard_accepts_registered_token(
    cfg: WebhookConfig,
    req: SetWebhookRequest,
    token: Option<String>,
)
    requires
        setup_matches(cfg, req),
    ensures
        request_reaction(cfg.cookie, RequestEvent::Arrived { token }) is ReadBody <==> (
        token matches Some(t) && req.secret_token matches Some(s) && t@ == s@),
        req.secret_token matches Some(s) && s@.len() == 36,
        token_text(token) == Some(Seq::<char>::empty()) ==> request_reaction(
            cfg.cookie,
            RequestEvent::Arrived { token },
        ) == RequestAction::RespondOk,
{
    assert(hyphenated(cfg.cookie).len() == 36);
}

/// The listener's steps after a request is let in do not depend on the
/// webhook: for any two cookies they are the same. A decoded update is
/// always forwarded, and forwarding follows only a decoded update; a body is
/// decoded exactly after it was read; the connection is given up exactly
/// when reading the body or forwarding the update failed; a body is read,
/// within the 10 MiB limit, only for a request carrying the cookie's token;
/// every other request is answered 200.
pub proof fn lemma_request_steps(first: Seq<u8>, second: Seq<u8>, event: RequestEvent)
    ensures
        !(event is Arrived) ==> request_reaction(first, event) == request_reaction(second, event),
        (request_reaction(first, event) is Forward) <==> (event is Decoded),
        (request_reaction(first, event) is Decode) <==> (event is BodyRead),
        (request_reaction(first, event) is Abort) <==> (event is BodyFailed || event is ForwardFailed),
        request_reaction(first, event) matches RequestAction::ReadBody { limit } ==> limit
            == 10 * 1024 * 1024 && (event matches RequestEvent::Arrived { token } && token_accepted(
            first,
            token_text(token),
        )),
        (request_reaction(first, event) is RespondOk) <==> (event is DecodeFailed
            || event is Forwarded || (event matches RequestEvent::Arrived { token } && !token_accepted(
            first,
            token_text(token),
        ))),
{
}

} // verus!
