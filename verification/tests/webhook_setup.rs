use ratma_tg_types::listener::{RequestAction, RequestEvent};
use ratma_tg_types::startup::{StartupAction, StartupEvent, StartupPhase};
use ratma_tg_types::webhook::{
    BotUrl, IpAddress, SocketAddress, Webhook, MAX_BODY_BYTES, UPDATE_CHANNEL_CAPACITY,
};

const COUNTING: [u8; 16] = [0, 1, 2, 3, 4, 5, 6, 7, 8, 9, 10, 11, 12, 13, 14, 15];

fn addr() -> SocketAddress {
    SocketAddress::V4 { ip: [127, 0, 0, 1], port: 8443 }
}

fn hook(url: BotUrl, drop: bool, allowed: Option<Vec<String>>) -> Webhook<()> {
    Webhook::with_cookie(&(), url, drop, addr(), allowed, COUNTING)
}

#[test]
fn secret_token_is_hyphenated_lowercase_uuid() {
    let h = hook(BotUrl::Host("example.com".to_owned()), false, None);
    assert_eq!(h.secret_token(), "00010203-0405-0607-0809-0a0b0c0d0e0f");
    let h2 = Webhook::with_cookie(&(), BotUrl::Host("x".to_owned()), false, addr(), None, [0xab; 16]);
    assert_eq!(h2.secret_token(), "abababab-abab-abab-abab-abababababab");
}

#[test]
fn fresh_webhooks_have_random_tokens() {
    let a = Webhook::new(&(), BotUrl::Host("example.com".to_owned()), false, addr(), None)
        .expect("entropy");
    let b = Webhook::new(&(), BotUrl::Host("example.com".to_owned()), false, addr(), None)
        .expect("entropy");
    assert_eq!(a.secret_token().len(), 36);
    assert_ne!(a.secret_token(), b.secret_token());
    assert_eq!(a.addr(), addr());
}

#[test]
fn setup_request_for_host() {
    let allowed = vec!["message".to_owned(), "callback_query".to_owned()];
    let h = hook(BotUrl::Host("example.com".to_owned()), true, Some(allowed.clone()));
    let req = h.setup_request();
    assert_eq!(req.url, "example.com");
    assert_eq!(req.ip_address, None);
    assert_eq!(req.max_connections, None);
    assert_eq!(req.allowed_updates, Some(&allowed));
    assert_eq!(req.drop_pending_updates, Some(true));
    assert_eq!(req.secret_token.as_deref(), Some("00010203-0405-0607-0809-0a0b0c0d0e0f"));
}

#[test]
fn setup_request_for_address() {
    let ip = IpAddress::V6([0x2001, 0xdb8, 0, 0, 0, 0, 0, 1]);
    let h = hook(BotUrl::Address("https://bot.example.org/hook".to_owned(), ip), false, None);
    let req = h.setup_request();
    assert_eq!(req.url, "https://bot.example.org/hook");
    assert_eq!(req.ip_address, Some(ip));
    assert_eq!(req.allowed_updates, None);
    assert_eq!(req.drop_pending_updates, Some(false));
    assert_eq!(h.teardown_request().drop_pending_updates, Some(false));
}

#[test]
fn registered_token_is_the_accepted_one() {
    let h = hook(BotUrl::Host("example.com".to_owned()), false, None);
    let token = h.setup_request().secret_token.unwrap();
    let guard = h.listener_guard();
    assert!(guard.accepts_token(Some(&token)));
    assert!(!guard.accepts_token(Some("")));
    assert!(!guard.accepts_token(None));
    assert!(!guard.accepts_token(Some("00010203-0405-0607-0809-0A0B0C0D0E0F")));
}

#[test]
fn listener_reads_only_authenticated_requests() {
    let h = hook(BotUrl::Host("example.com".to_owned()), false, None);
    let good = RequestEvent::Arrived { token: Some("00010203-0405-0607-0809-0a0b0c0d0e0f".to_owned()) };
    assert_eq!(h.listener_guard().on_request_event(&good), RequestAction::ReadBody { limit: 10 * 1024 * 1024 });
    assert_eq!(MAX_BODY_BYTES, 10485760);
    let bad = RequestEvent::Arrived { token: Some("nope".to_owned()) };
    assert_eq!(h.listener_guard().on_request_event(&bad), RequestAction::RespondOk);
    let missing = RequestEvent::Arrived { token: None };
    assert_eq!(h.listener_guard().on_request_event(&missing), RequestAction::RespondOk);
}

#[test]
fn listener_request_steps() {
    let h = hook(BotUrl::Host("example.com".to_owned()), false, None);
    assert_eq!(h.listener_guard().on_request_event(&RequestEvent::BodyRead), RequestAction::Decode);
    assert_eq!(h.listener_guard().on_request_event(&RequestEvent::BodyFailed), RequestAction::Abort);
    assert_eq!(h.listener_guard().on_request_event(&RequestEvent::Decoded), RequestAction::Forward);
    assert_eq!(h.listener_guard().on_request_event(&RequestEvent::DecodeFailed), RequestAction::RespondOk);
    assert_eq!(h.listener_guard().on_request_event(&RequestEvent::Forwarded), RequestAction::RespondOk);
    assert_eq!(h.listener_guard().on_request_event(&RequestEvent::ForwardFailed), RequestAction::Abort);
}

#[test]
fn startup_success_path() {
    let h = hook(BotUrl::Host("example.com".to_owned()), false, None);
    let (phase, action) = h.startup_begin::<String>();
    match action {
        StartupAction::Bind { addr: a, channel_capacity } => {
            assert_eq!(a, addr());
            assert_eq!(channel_capacity, 128);
            assert_eq!(UPDATE_CHANNEL_CAPACITY, 128);
        },
        _ => panic!("first bind"),
    }
    let (phase, action) = h.startup_step(phase, StartupEvent::Bound);
    match action {
        StartupAction::Listen(req) => assert_eq!(req.url, "example.com"),
        _ => panic!("then register"),
    }
    let (phase, action) = h.startup_step::<String>(phase, StartupEvent::WebhookSet);
    assert!(matches!(phase, StartupPhase::Done));
    assert!(matches!(action, StartupAction::Stream));
}

#[test]
fn startup_bind_failure_is_reported() {
    let h = hook(BotUrl::Host("example.com".to_owned()), false, None);
    let (phase, _) = h.startup_begin::<String>();
    let (phase, action) = h.startup_step(phase, StartupEvent::BindFailed("address in use".to_owned()));
    assert!(matches!(phase, StartupPhase::Done));
    match action {
        StartupAction::Fail(e) => assert_eq!(e, "address in use"),
        _ => panic!("bind failure must be reported"),
    }
}

#[test]
fn startup_setup_failure_tears_down_then_reports_setup_error() {
    let h = hook(BotUrl::Host("example.com".to_owned()), true, None);
    let (phase, _) = h.startup_begin::<String>();
    let (phase, _) = h.startup_step(phase, StartupEvent::Bound);
    let (phase, action) = h.startup_step(phase, StartupEvent::SetupFailed("bad url".to_owned()));
    match action {
        StartupAction::Abandon(req) => assert_eq!(req.drop_pending_updates, Some(true)),
        _ => panic!("listener must be abandoned"),
    }
    let (phase, action) = h.startup_step(phase, StartupEvent::TornDown);
    assert!(matches!(phase, StartupPhase::Done));
    match action {
        StartupAction::Fail(e) => assert_eq!(e, "bad url"),
        _ => panic!("setup error must be reported"),
    }
}

#[test]
fn startup_teardown_failure_wins() {
    let h = hook(BotUrl::Host("example.com".to_owned()), false, None);
    let (phase, _) = h.startup_begin::<String>();
    let (phase, _) = h.startup_step(phase, StartupEvent::Bound);
    let (phase, _) = h.startup_step(phase, StartupEvent::SetupFailed("bad url".to_owned()));
    let (_, action) = h.startup_step(phase, StartupEvent::TeardownFailed("network down".to_owned()));
    match action {
        StartupAction::Fail(e) => assert_eq!(e, "network down"),
        _ => panic!("teardown error must be reported"),
    }
}

#[test]
fn scoped_v6_address_is_bound_as_given() {
    let scoped = SocketAddress::V6 { ip: [0xfe80, 0, 0, 0, 0, 0, 0, 1], port: 8443, flowinfo: 7, scope_id: 3 };
    let h = Webhook::with_cookie(&(), BotUrl::Host("example.com".to_owned()), false, scoped, None, COUNTING);
    assert_eq!(h.addr(), scoped);
    match h.startup_begin::<String>().1 {
        StartupAction::Bind { addr: a, .. } => assert_eq!(a, scoped),
        _ => panic!("first bind"),
    }
}
