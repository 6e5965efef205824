use api_proxy::embedded::{bakcell_lookup, nar_lookup};
use api_proxy::exchange::{answer_status, success, Action, Event, Exchange, Frontend, Phase, Response, StockParams};
use api_proxy::headers::nar_headers;
use api_proxy::json::Json;
use api_proxy::params::{BakcellParams, NarParams};

fn nar_params(time: u64) -> NarParams {
    NarParams {
        page: 0,
        number: "1234567".to_string(),
        prefix: "070".to_string(),
        size: 1,
        provider_id: 1,
        time,
    }
}

fn bakcell_params() -> BakcellParams {
    BakcellParams {
        page: 0,
        number: "7".to_string(),
        prefix: "55".to_string(),
        size: 6,
        provider_id: 2,
        organization: 1,
        msisdn_type: "E_SIM".to_string(),
        time: 0,
    }
}

fn server_nar(time: u64, max_delay: u64) -> Exchange {
    Exchange::new(Frontend::Server, StockParams::Nar(nar_params(time)), vec!["UA-1".to_string()], max_delay)
}

fn entry(prefix: &str) -> Json {
    Json::Object(vec![("prefix".to_string(), Json::Str(prefix.to_string()))])
}

fn to_send(ex: &mut Exchange) {
    assert_eq!(ex.apply(Event::Begin, 0, String::new()), Action::CreateClient);
    let _ = ex.apply(Event::ClientReady, 0, "UA-1".to_string());
    let _ = ex.apply(Event::CookiesFailed("offline".to_string()), 0, String::new());
}

fn failure(status: Option<u16>, message: &str) -> Action {
    Action::Respond(Response::Failure { status, message: message.to_string() })
}

#[test]
fn server_lookup_full_success() {
    let mut ex = server_nar(0, 0);
    assert_eq!(ex.apply(Event::Begin, 99, String::new()), Action::CreateClient);
    assert_eq!(ex.phase, Phase::AwaitClient);
    let fetch = ex.apply(Event::ClientReady, 0, "UA-1".to_string());
    assert_eq!(
        fetch,
        Action::FetchCookies { url: "https://esim.nar.az".to_string(), headers: nar_headers("UA-1") }
    );
    let send = ex.apply(Event::CookiesReceived(vec![b"s=1".to_vec(), b"t=2".to_vec()]), 0, String::new());
    let mut headers = nar_headers("UA-1");
    headers.push(("Cookie", "s=1; t=2".to_string()));
    assert_eq!(
        send,
        Action::Send {
            url: "https://esim.nar.az/api/number-discovery/stock".to_string(),
            headers,
            query: nar_params(0).query(),
        }
    );
    assert_eq!(ex.apply(Event::Received { status: 200, status_line: "200 OK".to_string() }, 0, String::new()), Action::ReadJson);
    let body = Json::Object(vec![("data".to_string(), Json::Array(vec![entry("070"), entry("050"), entry("070")]))]);
    let answer = ex.apply(Event::JsonBody(body), 0, String::new());
    assert_eq!(
        answer,
        Action::Respond(Response::Page(Json::Object(vec![(
            "data".to_string(),
            Json::Array(vec![entry("070"), entry("070")])
        )])))
    );
    assert_eq!(ex.phase, Phase::Done);
}

#[test]
fn cookie_failure_sends_without_cookie() {
    let mut ex = server_nar(0, 0);
    let _ = ex.apply(Event::Begin, 0, String::new());
    let _ = ex.apply(Event::ClientReady, 0, "UA-1".to_string());
    let send = ex.apply(Event::CookiesFailed("timeout".to_string()), 0, String::new());
    match send {
        Action::Send { headers, .. } => assert_eq!(headers, nar_headers("UA-1")),
        other => panic!("unexpected {:?}", other),
    }
    let mut ex = server_nar(0, 0);
    let _ = ex.apply(Event::Begin, 0, String::new());
    let _ = ex.apply(Event::ClientReady, 0, "UA-1".to_string());
    let send = ex.apply(Event::CookiesReceived(vec![]), 0, String::new());
    match send {
        Action::Send { headers, .. } => assert_eq!(headers, nar_headers("UA-1")),
        other => panic!("unexpected {:?}", other),
    }
}

#[test]
fn server_pauses_before_client() {
    let mut ex = server_nar(250, 1000);
    assert_eq!(ex.apply(Event::Begin, 420, String::new()), Action::Pause(420));
    assert_eq!(ex.phase, Phase::RandomPause);
    assert_eq!(ex.apply(Event::Paused, 0, String::new()), Action::Pause(250));
    assert_eq!(ex.phase, Phase::RequestedPause);
    assert_eq!(ex.apply(Event::Paused, 0, String::new()), Action::CreateClient);
    let mut ex = server_nar(250, 0);
    assert_eq!(ex.apply(Event::Begin, 7, String::new()), Action::Pause(250));
    let mut ex = server_nar(0, 10);
    assert_eq!(ex.apply(Event::Begin, 0, String::new()), Action::Pause(0));
    assert_eq!(ex.apply(Event::Paused, 0, String::new()), Action::CreateClient);
}

#[test]
fn step_draws_pause_within_bound() {
    for _ in 0..20 {
        let mut ex = server_nar(0, 30);
        match ex.step(Event::Begin) {
            Action::Pause(ms) => assert!(ms <= 30),
            other => panic!("unexpected {:?}", other),
        }
    }
}

#[test]
fn step_picks_configured_agent() {
    let agents = vec!["A".to_string(), "B".to_string()];
    let mut ex = Exchange::new(Frontend::Server, StockParams::Nar(nar_params(0)), agents.clone(), 0);
    assert_eq!(ex.step(Event::Begin), Action::CreateClient);
    match ex.step(Event::ClientReady) {
        Action::FetchCookies { headers, .. } => {
            let ua = headers.iter().find(|(n, _)| *n == "User-Agent").unwrap().1.clone();
            assert!(agents.contains(&ua));
        },
        other => panic!("unexpected {:?}", other),
    }
}

#[test]
fn server_client_failure() {
    let mut ex = server_nar(0, 0);
    let _ = ex.apply(Event::Begin, 0, String::new());
    assert_eq!(
        ex.apply(Event::ClientFailed("tls".to_string()), 0, String::new()),
        failure(Some(500), "Müştəri yaradılmadı: tls")
    );
    assert_eq!(ex.phase, Phase::Done);
}

#[test]
fn server_send_failures() {
    let mut ex = server_nar(0, 0);
    to_send(&mut ex);
    assert_eq!(
        ex.apply(Event::SendFailed("refused".to_string()), 0, String::new()),
        failure(Some(500), "Nar API giriş xətası: refused")
    );
    let mut ex = Exchange::new(Frontend::Server, StockParams::Bakcell(bakcell_params()), vec![], 0);
    to_send(&mut ex);
    assert_eq!(
        ex.apply(Event::SendFailed("refused".to_string()), 0, String::new()),
        failure(Some(500), "Bakcell API giriş xətası: refused")
    );
}

#[test]
fn server_json_failure() {
    let mut ex = server_nar(0, 0);
    to_send(&mut ex);
    let _ = ex.apply(Event::Received { status: 204, status_line: "204 No Content".to_string() }, 0, String::new());
    assert_eq!(
        ex.apply(Event::JsonFailed("EOF".to_string()), 0, String::new()),
        failure(Some(500), "JSON parse xətası: EOF")
    );
}

#[test]
fn server_upstream_failure_keeps_status() {
    let mut ex = server_nar(0, 0);
    to_send(&mut ex);
    assert_eq!(
        ex.apply(Event::Received { status: 404, status_line: "404 Not Found".to_string() }, 0, String::new()),
        Action::ReadText
    );
    assert_eq!(ex.phase, Phase::AwaitText(404));
    assert_eq!(
        ex.apply(Event::TextBody("missing".to_string()), 0, String::new()),
        failure(Some(404), "Nar API xətası: missing")
    );
    let mut ex = Exchange::new(Frontend::Server, StockParams::Bakcell(bakcell_params()), vec![], 0);
    to_send(&mut ex);
    let _ = ex.apply(Event::Received { status: 503, status_line: "503".to_string() }, 0, String::new());
    assert_eq!(
        ex.apply(Event::TextFailed("reset".to_string()), 0, String::new()),
        failure(Some(503), "Bakcell API xətası (mətn oxuma uğursuz): reset")
    );
}

#[test]
fn embedded_lookup_success_and_failures() {
    let mut ex = nar_lookup("123".to_string(), "070".to_string());
    assert_eq!(ex.agents, api_proxy::agents::default_user_agents());
    assert_eq!(ex.apply(Event::Begin, 0, String::new()), Action::CreateClient);
    let _ = ex.apply(Event::ClientReady, 0, "UA".to_string());
    let send = ex.apply(Event::CookiesFailed("x".to_string()), 0, String::new());
    match send {
        Action::Send { query, .. } => assert_eq!(query, NarParams::lookup("123".to_string(), "070".to_string()).query()),
        other => panic!("unexpected {:?}", other),
    }
    assert_eq!(
        ex.apply(Event::Received { status: 403, status_line: "403 Forbidden".to_string() }, 0, String::new()),
        failure(None, "Nar API hatası: Status 403 Forbidden")
    );

    let mut ex = bakcell_lookup("1".to_string(), "55".to_string());
    assert_eq!(ex.apply(Event::Begin, 0, String::new()), Action::CreateClient);
    assert_eq!(
        ex.apply(Event::ClientFailed("dns".to_string()), 0, String::new()),
        failure(None, "Client oluşturulamadı: dns")
    );

    let mut ex = bakcell_lookup("1".to_string(), "55".to_string());
    to_send(&mut ex);
    assert_eq!(
        ex.apply(Event::SendFailed("dns".to_string()), 0, String::new()),
        failure(None, "Bakcell API erişim hatası: dns")
    );

    let mut ex = nar_lookup("1".to_string(), "070".to_string());
    to_send(&mut ex);
    let _ = ex.apply(Event::Received { status: 200, status_line: "200 OK".to_string() }, 0, String::new());
    assert_eq!(
        ex.apply(Event::JsonFailed("bad".to_string()), 0, String::new()),
        failure(None, "JSON parse hatası: bad")
    );
}

#[test]
fn status_helpers() {
    assert!(success(200));
    assert!(success(299));
    assert!(!success(199));
    assert!(!success(300));
    assert_eq!(answer_status(404), 404);
    assert_eq!(answer_status(100), 100);
    assert_eq!(answer_status(999), 999);
    assert_eq!(answer_status(99), 502);
    assert_eq!(answer_status(1000), 502);
}
