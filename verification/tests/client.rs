use verge_tui::client::{
    mixed_port_patch, mode_patch, on_stream_event, retries_socket,
    runtime_mixed_port, socket_failure, tun_patch, ws_scheme, ClientError, Method, MihomoClient,
    StreamAction, StreamEvent, StreamTarget,
};
use verge_tui::json::Json;

fn http(secret: Option<&str>) -> MihomoClient {
    MihomoClient::new("http://127.0.0.1:9097", secret).expect("client")
}

fn socket() -> MihomoClient {
    MihomoClient::new_local_socket(" /tmp/verge/verge-mihomo.sock ").expect("client")
}

#[test]
fn endpoints_are_labelled() {
    assert_eq!(http(None).endpoint_label(), "http://127.0.0.1:9097/");
    assert_eq!(socket().endpoint_label(), "local:///tmp/verge/verge-mihomo.sock");
    assert!(socket().is_local_socket());
    assert!(!http(None).is_local_socket());
}

#[test]
fn clients_need_a_url_a_secret_and_a_path() {
    let err = MihomoClient::new("not a url", None).unwrap_err();
    assert!(matches!(err, ClientError::InvalidUrl(_)));
    assert_eq!(err.message(), "invalid controller URL: not a url");
    let err = MihomoClient::new("http://a", Some("a\nb")).unwrap_err();
    assert!(matches!(err, ClientError::InvalidAuthorization));
    for secret in ["a\u{7f}", "\u{0}", "a\u{1f}b"] {
        let made = MihomoClient::new("http://127.0.0.1:9097", Some(secret));
        assert!(matches!(made, Err(ClientError::InvalidAuthorization)));
    }
    for secret in ["a\tb", "a b", "\u{e9}", "\u{80}", "~"] {
        assert!(MihomoClient::new("http://127.0.0.1:9097", Some(secret)).is_ok());
    }
    assert_eq!(err.message(), "invalid authorization header");
    let err = MihomoClient::new_local_socket("  ").unwrap_err();
    assert!(matches!(err, ClientError::EmptySocketPath));
    assert_eq!(err.message(), "empty socket path");
}

#[test]
fn secrets_are_sent() {
    assert_eq!(http(Some("s3")).authorization(), Some("Bearer s3".to_string()));
    assert_eq!(http(Some("")).authorization(), None);
    assert_eq!(http(None).authorization(), None);
    assert_eq!(http(Some("tab\tand \u{e9}")).authorization(), Some("Bearer tab\tand \u{e9}".to_string()));
}

#[test]
fn version_is_asked_for() {
    let r = http(None).get_version().expect("request");
    assert_eq!(r.method, Method::Get);
    assert_eq!(r.url, "http://127.0.0.1:9097/version");
    assert_eq!(r.send_failure, "GET /version failed");
    assert!(r.accepts(200));
    assert!(r.accepts(304));
    assert!(!r.accepts(401));
    assert!(!r.accepts(503));
    assert_eq!(r.refusal("401 Unauthorized", "x"), "GET /version returned error status");
    assert_eq!(r.decode_failure.as_deref(), Some("decode response failed: /version"));
}

#[test]
fn sockets_are_asked_at_localhost() {
    let r = socket().get_proxies().expect("request");
    assert_eq!(r.url, "http://localhost/proxies");
    let r = socket().get_base_config().expect("request");
    assert_eq!(r.url, "http://localhost/configs");
}

#[test]
fn reload_patches_the_path_with_force() {
    let r = http(None).reload_config_from_path("/a/b.yaml", true).expect("request");
    assert_eq!(r.method, Method::Patch);
    assert_eq!(r.url, "http://127.0.0.1:9097/configs");
    assert_eq!(r.force, Some(true));
    match &r.body {
        Some(Json::Object(fields)) => {
            assert_eq!(fields.len(), 1);
            assert_eq!(fields[0].0, "path");
            assert!(matches!(&fields[0].1, Json::Text(p) if p == "/a/b.yaml"));
        }
        other => panic!("{other:?}"),
    }
    assert!(!r.accepts(304));
    assert_eq!(
        r.refusal("400 Bad Request", "SAFE_PATHS"),
        "reload config failed with path: /a/b.yaml, status: 400 Bad Request, body: SAFE_PATHS"
    );
}

#[test]
fn nodes_are_chosen_by_encoded_name() {
    let r = http(None).select_node_for_group("飞鸟 a/b", "n 1").expect("request");
    assert_eq!(r.method, Method::Put);
    assert_eq!(
        r.url,
        "http://127.0.0.1:9097/proxies/%E9%A3%9E%E9%B8%9F%20a%2Fb"
    );
    assert_eq!(r.send_failure, "switch proxy failed: 飞鸟 a/b -> n 1");
}

#[test]
fn delays_are_asked_for() {
    let r = http(None)
        .delay_proxy_by_name("a~b", "http://cp.cloudflare.com", 5000)
        .expect("request");
    assert_eq!(
        r.url,
        "http://127.0.0.1:9097/proxies/a~b/delay?url=http%3A%2F%2Fcp.cloudflare.com&timeout=5000"
    );
}

#[test]
fn paths_that_cannot_be_joined_are_refused() {
    let client = MihomoClient::new("mailto:a@b", None).expect("client");
    let err = client.get_version().unwrap_err();
    assert!(matches!(err, ClientError::JoinPath(_)));
    assert_eq!(err.message(), "failed to join path: /version");
    let err = client.ws_url("/traffic").unwrap_err();
    assert!(matches!(err, ClientError::JoinStreamPath(_)));
    assert_eq!(err.message(), "failed to join websocket path: /traffic");
}

#[test]
fn streams_are_addressed() {
    assert_eq!(ws_scheme("http"), Some("ws"));
    assert_eq!(ws_scheme("https"), Some("wss"));
    assert_eq!(ws_scheme("ftp"), None);
    assert_eq!(http(None).ws_url("/traffic").expect("url"), "ws://127.0.0.1:9097/traffic");
    assert_eq!(
        http(Some("a b")).ws_url("/traffic").expect("url"),
        "ws://127.0.0.1:9097/traffic?token=a+b"
    );
    let secure = MihomoClient::new("https://h/", None).expect("client");
    assert_eq!(secure.ws_url("/connections").expect("url"), "wss://h/connections");
    let other = MihomoClient::new("ftp://h/", None).expect("client");
    let err = other.ws_url("/traffic").unwrap_err();
    assert!(matches!(err, ClientError::UnsupportedScheme(_)));
    assert_eq!(err.message(), "unsupported scheme for websocket: ftp");
    let err = socket().ws_url("/traffic").unwrap_err();
    assert!(matches!(err, ClientError::StreamNeedsHttp));
    assert_eq!(err.message(), "ws_url is only for http endpoint");
}

#[test]
fn streams_of_sockets_are_read_at_localhost() {
    match socket().subscribe_traffic().expect("target") {
        StreamTarget::Socket { socket_path, url } => {
            assert_eq!(socket_path, "/tmp/verge/verge-mihomo.sock");
            assert_eq!(url, "ws://localhost/traffic");
        }
        other => panic!("{other:?}"),
    }
    match http(Some("k")).subscribe_connections().expect("target") {
        StreamTarget::Remote { url } => {
            assert_eq!(url, "ws://127.0.0.1:9097/connections?token=k")
        }
        other => panic!("{other:?}"),
    }
}

#[test]
fn streams_deliver_the_values_before_their_end() {
    let events = [
        StreamEvent::Value,
        StreamEvent::NotText,
        StreamEvent::Value,
        StreamEvent::Undecodable,
        StreamEvent::Broken,
        StreamEvent::Value,
    ];
    let mut delivered = Vec::new();
    for (i, event) in events.iter().enumerate() {
        match on_stream_event(*event) {
            StreamAction::Stop => break,
            StreamAction::Skip => {}
            StreamAction::Deliver => delivered.push(i),
        }
    }
    assert_eq!(delivered, vec![0, 2]);
}

#[test]
fn streams_end_or_go_on() {
    assert_eq!(on_stream_event(StreamEvent::Ended), StreamAction::Stop);
    assert_eq!(on_stream_event(StreamEvent::Broken), StreamAction::Stop);
    assert_eq!(on_stream_event(StreamEvent::NotText), StreamAction::Skip);
    assert_eq!(on_stream_event(StreamEvent::Undecodable), StreamAction::Skip);
    assert_eq!(on_stream_event(StreamEvent::Value), StreamAction::Deliver);
    assert!(retries_socket(2));
    assert!(!retries_socket(3));
    assert_eq!(
        socket_failure("/a.sock"),
        "failed to connect unix socket after retries: /a.sock"
    );
    assert_eq!(ClientError::SetScheme.message(), "failed to set websocket scheme");
}

#[test]
fn patches_hold_what_they_set() {
    let port = mixed_port_patch(7897);
    assert_eq!(runtime_mixed_port(&port), Some(7897));
    assert_eq!(runtime_mixed_port(&mode_patch("rule")), None);
    let large = verge_tui::json::single("mixed-port", Json::Number(70_000));
    assert_eq!(runtime_mixed_port(&large), None);
    let on = tun_patch(true);
    let tun = on.get("tun").expect("tun");
    assert!(matches!(tun.get("enable"), Some(Json::Bool(true))));
    assert!(matches!(tun.get("device"), Some(Json::Text(d)) if d == "vergetui0"));
    assert!(matches!(tun.get("strict-route"), Some(Json::Bool(false))));
    assert!(matches!(tun.get("dns-hijack"), Some(Json::Array(items)) if items.len() == 1));
    let dns = on.get("dns").expect("dns");
    assert!(matches!(dns.get("enhanced-mode"), Some(Json::Text(m)) if m == "fake-ip"));
    let off = tun_patch(false);
    assert!(off.get("dns").is_none());
    assert!(matches!(off.get("tun").and_then(|t| t.get("enable")), Some(Json::Bool(false))));
}
