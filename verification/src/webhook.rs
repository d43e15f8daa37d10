//! Webhooks: what one holds, its secret token, and the calls that register
//! and remove it.
use vstd::prelude::*;
use crate::secret::{fill_random, hyphenated, hyphenated_text};

verus! {

/// Most bytes the listener reads of one request body.
pub const MAX_BODY_BYTES: usize = 1024 * 1024 * 10;

/// How many decoded updates may wait between the listener and the stream.
pub const UPDATE_CHANNEL_CAPACITY: usize = 128;

/// An IP address, version 4 or 6.
#[derive(Clone, Copy, Debug, PartialEq, Eq)]
pub enum IpAddress {
    V4([u8; 4]),
    V6([u16; 8]),
}

/// The local address the listener binds to: an IP address and a port, and
/// for version 6 also the flow label and the scope id.
#[derive(Clone, Copy, Debug, PartialEq, Eq)]
pub enum SocketAddress {
    V4 { ip: [u8; 4], port: u16 },
    V6 { ip: [u16; 8], port: u16, flowinfo: u32, scope_id: u32 },
}

/// Endpoint for webhooks, could be either a raw ip address or a hostname
#[derive(Clone, Debug)]
pub enum BotUrl {
    Address(String, IpAddress),
    Host(String),
}

/// Why a webhook could not be made.
#[derive(Clone, Copy, Debug, PartialEq, Eq)]
pub enum WebhookError {
    /// The operating system gave no random bytes for the secret token; this
    /// is the error it reported. Only the random source produces such an
    /// error, so a webhook is refused only when that source failed.
    NoEntropy(rand::rngs::SysError),
}

/// What a webhook holds, as values.
pub struct WebhookConfig {
    pub url: BotUrl,
    pub drop_pending_updates: bool,
    pub addr: SocketAddress,
    pub cookie: Seq<u8>,
    pub allowed_updates: Option<Seq<Seq<char>>>,
}

/// The arguments of the `setWebhook` call. No certificate is uploaded and no
/// connection limit is set.
pub struct SetWebhookRequest<'a> {
    pub url: &'a str,
    pub ip_address: Option<IpAddress>,
    pub max_connections: Option<i64>,
    pub allowed_updates: Option<&'a Vec<String>>,
    pub drop_pending_updates: Option<bool>,
    pub secret_token: Option<String>,
}

/// The arguments of the `deleteWebhook` call.
#[derive(Clone, Copy, Debug, PartialEq, Eq)]
pub struct DeleteWebhookRequest {
    pub drop_pending_updates: Option<bool>,
}

/// Helper for fetching updates via webhook. This currently requires a reverse
/// proxy as tls is not supported.
pub struct Webhook<B> {
    bot: B,
    url: BotUrl,
    drop_pending_updates: bool,
    addr: SocketAddress,
    cookie: [u8; 16],
    allowed_updates: Option<Vec<String>>,
}

impl<B> View for Webhook<B> {
    type V = WebhookConfig;

    closed spec fn view(&self) -> WebhookConfig {
        WebhookConfig {
            url: self.url,
            drop_pending_updates: self.drop_pending_updates,
            addr: self.addr,
            cookie: self.cookie@,
            allowed_updates: self.allowed_updates.deep_view(),
        }
    }
}

/// The secret token of a webhook whose cookie is `cookie`.
pub open spec fn secret_token_of(cookie: Seq<u8>) -> Seq<char> {
    hyphenated(cookie)
}

/// Whether a request whose secret-token header reads `token` comes from Telegram.
pub open spec fn token_accepted(cookie: Seq<u8>, token: Option<Seq<char>>) -> bool {
    token matches Some(t) && t == secret_token_of(cookie)
}

/// Whether `req` is the `setWebhook` call for a webhook holding `cfg`.
pub open spec fn setup_matches(cfg: WebhookConfig, req: SetWebhookRequest) -> bool {
    &&& match cfg.url {
        BotUrl::Address(a, ip) => req.url@ == a@ && req.ip_address == Some(ip),
        BotUrl::Host(h) => req.url@ == h@ && req.ip_address.is_none(),
    }
    &&& req.max_connections.is_none()
    &&& req.allowed_updates.is_some() == cfg.allowed_updates.is_some()
    &&& (req.allowed_updates matches Some(v) ==> cfg.allowed_updates == Some(v.deep_view()))
    &&& req.drop_pending_updates == Some(cfg.drop_pending_updates)
    &&& (req.secret_token matches Some(t) && t@ == secret_token_of(cfg.cookie))
}

impl<B> Webhook<B> {
    /// The client the webhook was made with.
    pub closed spec fn spec_bot(&self) -> B {
        self.bot
    }

    /// A webhook whose secret token is the UUID made of `cookie`.
    pub fn with_cookie(
        bot: &B,
        url: BotUrl,
        drop_pending_updates: bool,
        addr: SocketAddress,
        allowed_updates: Option<Vec<String>>,
        cookie: [u8; 16],
    ) -> (hook: Self)
        where B: Clone,
        ensures
            hook@.url == url,
            hook@.drop_pending_updates == drop_pending_updates,
            hook@.addr == addr,
            hook@.cookie == cookie@,
            hook@.allowed_updates == allowed_updates.deep_view(),
            cloned::<B>(*bot, hook.spec_bot()),
    {
        Webhook { bot: bot.clone(), url, drop_pending_updates, addr, cookie, allowed_updates }
    }

    /// A webhook with a fresh random secret token. Fails only when the
    /// operating system gives no random bytes.
    pub fn new(
        bot: &B,
        url: BotUrl,
        drop_pending_updates: bool,
        addr: SocketAddress,
        allowed_updates: Option<Vec<String>>,
    ) -> (res: Result<Self, WebhookError>)
        where B: Clone,
        ensures
            res matches Ok(hook) ==> {
                &&& hook@.url == url
                &&& hook@.drop_pending_updates == drop_pending_updates
                &&& hook@.addr == addr
                &&& hook@.cookie.len() == 16
                &&& hook@.allowed_updates == allowed_updates.deep_view()
                &&& cloned::<B>(*bot, hook.spec_bot())
            },
            res matches Err(e) ==> e is NoEntropy,
    {
        let mut bytes: [u8; 16] = [0, 0, 0, 0, 0, 0, 0, 0, 0, 0, 0, 0, 0, 0, 0, 0];
        match fill_random(&mut bytes) {
            Ok(()) => Ok(Self::with_cookie(bot, url, drop_pending_updates, addr, allowed_updates, bytes)),
            Err(err) => Err(WebhookError::NoEntropy(err)),
        }
    }

    /// The client the webhook was made with.
    pub fn bot(&self) -> (bot: &B)
        ensures
            *bot == self.spec_bot(),
    {
        &self.bot
    }

    /// The sixteen bytes the secret token is made of.
    pub(crate) fn cookie(&self) -> (cookie: [u8; 16])
        ensures
            cookie@ == self@.cookie,
    {
        self.cookie
    }

    /// The local address the listener binds to.
    pub fn addr(&self) -> (addr: SocketAddress)
        ensures
            addr == self@.addr,
    {
        self.addr
    }

    /// The secret token Telegram is told to send with every request.
    pub fn secret_token(&self) -> (token: String)
        ensures
            token@ == secret_token_of(self@.cookie),
    {
        hyphenated_text(&self.cookie)
    }

    /// The arguments of `setWebhook`: the url, the ip address when the url
    /// came with one, the update kinds, whether to drop pending updates, and
    /// the secret token.
    pub fn setup_request(&self) -> (req: SetWebhookRequest<'_>)
        ensures
            setup_matches(self@, req),
    {
        let (url, ip) = match &self.url {
            BotUrl::Address(a, ip) => (a.as_str(), Some(*ip)),
            BotUrl::Host(h) => (h.as_str(), None),
        };
        let allowed = match &self.allowed_updates {
            Some(v) => Some(v),
            None => None,
        };
        SetWebhookRequest {
            url,
            ip_address: ip,
            max_connections: None,
            allowed_updates: allowed,
            drop_pending_updates: Some(self.drop_pending_updates),
            secret_token: Some(self.secret_token()),
        }
    }

    /// The arguments of `deleteWebhook`: whether to drop pending updates, as
    /// at setup.
    pub fn teardown_request(&self) -> (req: DeleteWebhookRequest)
        ensures
            req.drop_pending_updates == Some(self@.drop_pending_updates),
    {
        DeleteWebhookRequest { drop_pending_updates: Some(self.drop_pending_updates) }
    }
}

} // verus!
