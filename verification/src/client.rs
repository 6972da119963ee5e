//! The controller's interface: where it is reached, what is asked and what it answers.

use crate::json;
use crate::json::Json;
use crate::number;
use crate::text;
use crate::weburl;
use vstd::prelude::*;

verus! {

/// Where the controller is reached.
#[derive(Debug)]
pub enum Endpoint {
    /// Over HTTP: the URL as it was given, and in its normal form.
    Http { base_url: String, label: String },
    /// Over a local socket.
    LocalSocket { socket_path: String },
}

impl Clone for Endpoint {
    fn clone(&self) -> (r: Self)
        ensures
            r == *self,
    {
        match self {
            Endpoint::Http { base_url, label } => Endpoint::Http {
                base_url: base_url.clone(),
                label: label.clone(),
            },
            Endpoint::LocalSocket { socket_path } => Endpoint::LocalSocket {
                socket_path: socket_path.clone(),
            },
        }
    }
}

#[derive(Debug)]
pub struct MihomoClient {
    pub endpoint: Endpoint,
    pub secret: Option<String>,
}

impl Clone for MihomoClient {
    fn clone(&self) -> (r: Self)
        ensures
            r == *self,
    {
        MihomoClient {
            endpoint: self.endpoint.clone(),
            secret: match &self.secret {
                Some(s) => Some(s.clone()),
                None => None,
            },
        }
    }
}

/// Why the controller cannot be asked.
#[derive(Debug)]
pub enum ClientError {
    InvalidUrl(String),
    InvalidAuthorization,
    EmptySocketPath,
    JoinPath(String),
    JoinStreamPath(String),
    StreamNeedsHttp,
    UnsupportedScheme(String),
    SetScheme,
}

impl ClientError {
    pub open spec fn spec_message(self) -> Seq<char> {
        match self {
            ClientError::InvalidUrl(url) => "invalid controller URL: "@ + url@,
            ClientError::InvalidAuthorization => "invalid authorization header"@,
            ClientError::EmptySocketPath => "empty socket path"@,
            ClientError::JoinPath(path) => "failed to join path: "@ + path@,
            ClientError::JoinStreamPath(path) => "failed to join websocket path: "@ + path@,
            ClientError::StreamNeedsHttp => "ws_url is only for http endpoint"@,
            ClientError::UnsupportedScheme(s) => "unsupported scheme for websocket: "@ + s@,
            ClientError::SetScheme => "failed to set websocket scheme"@,
        }
    }

    pub fn message(&self) -> (r: String)
        ensures
            r@ == self.spec_message(),
    {
        match self {
            ClientError::InvalidUrl(url) => text::cat2("invalid controller URL: ", url.as_str()),
            ClientError::InvalidAuthorization => "invalid authorization header".to_owned(),
            ClientError::EmptySocketPath => "empty socket path".to_owned(),
            ClientError::JoinPath(path) => text::cat2("failed to join path: ", path.as_str()),
            ClientError::JoinStreamPath(path) => text::cat2(
                "failed to join websocket path: ",
                path.as_str(),
            ),
            ClientError::StreamNeedsHttp => "ws_url is only for http endpoint".to_owned(),
            ClientError::UnsupportedScheme(s) => text::cat2(
                "unsupported scheme for websocket: ",
                s.as_str(),
            ),
            ClientError::SetScheme => "failed to set websocket scheme".to_owned(),
        }
    }
}

#[derive(Debug, Clone, Copy, PartialEq, Eq, Structural)]
pub enum Method {
    Get,
    Put,
    Patch,
}

/// A request to the controller, and what is said when it fails.
#[derive(Debug)]
pub struct ApiRequest {
    pub method: Method,
    pub url: String,
    /// The query parameter `force`.
    pub force: Option<bool>,
    pub body: Option<Json>,
    /// Said when nothing comes back.
    pub send_failure: String,
    /// Said when the answer tells an error.
    pub status_failure: String,
    /// Whether anything but success is an error, told with the status and the body.
    pub strict: bool,
    /// Said when the answer cannot be read, where it is read.
    pub decode_failure: Option<String>,
}

impl ApiRequest {
    /// Whether an answer with the given status is accepted.
    pub fn accepts(&self, status: u16) -> (r: bool)
        ensures
            r == if self.strict {
                200 <= status < 300
            } else {
                !(400 <= status < 600)
            },
    {
        if self.strict {
            200 <= status && status < 300
        } else {
            !(400 <= status && status < 600)
        }
    }

    /// What is said of an answer that is not accepted.
    pub fn refusal(&self, status: &str, body: &str) -> (r: String)
        ensures
            r@ == if self.strict {
                self.status_failure@ + ", status: "@ + status@ + ", body: "@ + body@
            } else {
                self.status_failure@
            },
    {
        if self.strict {
            text::cat5(self.status_failure.as_str(), ", status: ", status, ", body: ", body)
        } else {
            self.status_failure.clone()
        }
    }
}

/// The value of the authorization header for a secret.
pub open spec fn bearer(secret: Seq<char>) -> Seq<char> {
    "Bearer "@ + secret
}

/// Whether a text can be a header's value.
pub open spec fn is_header(value: Seq<char>) -> bool {
    forall|i: int| 0 <= i < value.len() ==> weburl::header_char(#[trigger] value[i])
}

/// The secret that counts: an empty one is none.
pub open spec fn effective_secret(secret: Option<&str>) -> Option<Seq<char>> {
    if secret is Some && secret->0@.len() > 0 {
        Some(secret->0@)
    } else {
        None
    }
}

/// Whether a client can be made for the controller at `url` with a secret.
pub open spec fn can_connect(url: Seq<char>, secret: Seq<char>) -> bool {
    weburl::url_parsed(url) is Some && (secret.len() == 0 || is_header(bearer(secret)))
}

/// Whether `c` is the client for the controller at `url` with a secret; an empty one is none.
pub open spec fn connects(url: Seq<char>, secret: Seq<char>, c: MihomoClient) -> bool {
    &&& can_connect(url, secret)
    &&& c.endpoint is Http
    &&& c.endpoint->base_url@ == url
    &&& Some(c.endpoint->label@) == weburl::url_parsed(url)
    &&& text::opt_text(c.secret) == if secret.len() > 0 {
        Some(secret)
    } else {
        None
    }
}

/// The URL of `path` at an endpoint.
pub open spec fn url_at(endpoint: Endpoint, path: Seq<char>) -> Option<Seq<char>> {
    match endpoint {
        Endpoint::Http { base_url, .. } => weburl::url_joined(base_url@, path),
        Endpoint::LocalSocket { .. } => Some(
            "http://localhost/"@ + text::without_leading(path, '/'),
        ),
    }
}

/// The scheme of the stream that belongs to a scheme.
pub open spec fn stream_scheme(scheme: Seq<char>) -> Option<Seq<char>> {
    if scheme == "http"@ {
        Some("ws"@)
    } else if scheme == "https"@ {
        Some("wss"@)
    } else {
        None
    }
}

pub fn ws_scheme(scheme: &str) -> (r: Option<&'static str>)
    ensures
        match r {
            Some(s) => stream_scheme(scheme@) == Some(s@),
            None => stream_scheme(scheme@) is None,
        },
{
    if text::same(scheme, "http") {
        Some("ws")
    } else if text::same(scheme, "https") {
        Some("wss")
    } else {
        None
    }
}

/// Where a stream is read from.
#[derive(Debug)]
pub enum StreamTarget {
    Remote { url: String },
    Socket { socket_path: String, url: String },
}

impl MihomoClient {
    /// A client of the controller at a URL. An empty secret is none.
    pub fn new(base_url: &str, secret: Option<&str>) -> (r: Result<MihomoClient, ClientError>)
        ensures
            match weburl::url_parsed(base_url@) {
                None => r is Err && r->Err_0 is InvalidUrl && r->Err_0->InvalidUrl_0@ == base_url@,
                Some(label) => if effective_secret(secret) is Some && !is_header(
                    bearer(effective_secret(secret)->0),
                ) {
                    r == Err::<MihomoClient, ClientError>(ClientError::InvalidAuthorization)
                } else {
                    &&& r is Ok
                    &&& r->Ok_0.endpoint is Http
                    &&& r->Ok_0.endpoint->base_url@ == base_url@
                    &&& r->Ok_0.endpoint->label@ == label
                    &&& text::opt_text(r->Ok_0.secret) == effective_secret(secret)
                },
            },
    {
        let label = match weburl::parse(base_url) {
            Err(_) => {
                return Err(ClientError::InvalidUrl(base_url.to_owned()));
            },
            Ok(label) => label,
        };
        let mut kept: Option<String> = None;
        if let Some(s) = secret {
            if !s.is_empty() {
                if !weburl::is_header_value(text::cat2("Bearer ", s).as_str()) {
                    return Err(ClientError::InvalidAuthorization);
                }
                kept = Some(s.to_owned());
            }
        }
        Ok(
            MihomoClient {
                endpoint: Endpoint::Http { base_url: base_url.to_owned(), label },
                secret: kept,
            },
        )
    }

    /// A client of the controller at a local socket.
    pub fn new_local_socket(socket_path: &str) -> (r: Result<MihomoClient, ClientError>)
        ensures
            ({
                let path = text::trimmed(socket_path@);
                if path.len() == 0 {
                    r == Err::<MihomoClient, ClientError>(ClientError::EmptySocketPath)
                } else {
                    &&& r is Ok
                    &&& r->Ok_0.endpoint is LocalSocket
                    &&& r->Ok_0.endpoint->socket_path@ == path
                    &&& r->Ok_0.secret is None
                }
            }),
    {
        let path = text::trim(socket_path);
        if path.as_str().is_empty() {
            return Err(ClientError::EmptySocketPath);
        }
        Ok(MihomoClient { endpoint: Endpoint::LocalSocket { socket_path: path }, secret: None })
    }

    pub open spec fn spec_label(self) -> Seq<char> {
        match self.endpoint {
            Endpoint::Http { label, .. } => label@,
            Endpoint::LocalSocket { socket_path } => "local://"@ + socket_path@,
        }
    }

    pub fn endpoint_label(&self) -> (r: String)
        ensures
            r@ == self.spec_label(),
    {
        match &self.endpoint {
            Endpoint::Http { label, .. } => label.clone(),
            Endpoint::LocalSocket { socket_path } => text::cat2("local://", socket_path.as_str()),
        }
    }

    pub fn is_local_socket(&self) -> (r: bool)
        ensures
            r == self.endpoint is LocalSocket,
    {
        match &self.endpoint {
            Endpoint::Http { .. } => false,
            Endpoint::LocalSocket { .. } => true,
        }
    }

    /// The authorization header that goes with every request.
    pub fn authorization(&self) -> (r: Option<String>)
        ensures
            match self.secret {
                Some(s) => r is Some && r->0@ == bearer(s@),
                None => r is None,
            },
    {
        match &self.secret {
            Some(s) => Some(text::cat2("Bearer ", s.as_str())),
            None => None,
        }
    }

    /// The URL of a path of the controller.
    pub fn request_url(&self, path: &str) -> (r: Result<String, ClientError>)
        ensures
            match url_at(self.endpoint, path@) {
                Some(url) => r is Ok && r->Ok_0@ == url,
                None => r is Err && r->Err_0 is JoinPath && r->Err_0->JoinPath_0@ == path@,
            },
    {
        match &self.endpoint {
            Endpoint::Http { base_url, .. } => match weburl::join(base_url.as_str(), path) {
                Ok(url) => Ok(url),
                Err(_) => Err(ClientError::JoinPath(path.to_owned())),
            },
            Endpoint::LocalSocket { .. } => Ok(
                text::cat2("http://localhost/", text::trim_leading(path, '/').as_str()),
            ),
        }
    }

    /// The request `GET path`.
    pub fn get_json(&self, path: &str) -> (r: Result<ApiRequest, ClientError>)
        ensures
            self.asks(path@, r),
    {
        match self.request_url(path) {
            Err(e) => Err(e),
            Ok(url) => Ok(
                ApiRequest {
                    method: Method::Get,
                    url,
                    force: None,
                    body: None,
                    send_failure: text::cat3("GET ", path, " failed"),
                    status_failure: text::cat3("GET ", path, " returned error status"),
                    strict: false,
                    decode_failure: Some(text::cat2("decode response failed: ", path)),
                },
            ),
        }
    }

    /// Whether `r` is the request `GET path` of this client, or says that there is no such URL.
    pub open spec fn asks(self, path: Seq<char>, r: Result<ApiRequest, ClientError>) -> bool {
        match url_at(self.endpoint, path) {
            Some(url) => {
                &&& r is Ok
                &&& r->Ok_0.method == Method::Get
                &&& r->Ok_0.url@ == url
                &&& r->Ok_0.force is None
                &&& r->Ok_0.body is None
                &&& r->Ok_0.send_failure@ == "GET "@ + path + " failed"@
                &&& r->Ok_0.status_failure@ == "GET "@ + path + " returned error status"@
                &&& !r->Ok_0.strict
                &&& text::opt_text(r->Ok_0.decode_failure) == Some(
                    "decode response failed: "@ + path,
                )
            },
            None => r is Err && r->Err_0 is JoinPath && r->Err_0->JoinPath_0@ == path,
        }
    }

    pub fn get_version(&self) -> (r: Result<ApiRequest, ClientError>)
        ensures
            self.asks("/version"@, r),
    {
        self.get_json("/version")
    }

    pub fn get_base_config(&self) -> (r: Result<ApiRequest, ClientError>)
        ensures
            self.asks("/configs"@, r),
    {
        self.get_json("/configs")
    }

    pub fn get_proxies(&self) -> (r: Result<ApiRequest, ClientError>)
        ensures
            self.asks("/proxies"@, r),
    {
        self.get_json("/proxies")
    }

    /// Changes some of the controller's settings.
    pub fn patch_base_config(&self, patch: Json) -> (r: Result<ApiRequest, ClientError>)
        ensures
            match url_at(self.endpoint, "/configs"@) {
                Some(url) => {
                    &&& r is Ok
                    &&& r->Ok_0.method == Method::Patch
                    &&& r->Ok_0.url@ == url
                    &&& r->Ok_0.force is None
                    &&& r->Ok_0.body == Some(patch)
                    &&& r->Ok_0.send_failure@ == "patch /configs failed"@
                    &&& r->Ok_0.status_failure@ == "patch /configs returned error status"@
                    &&& !r->Ok_0.strict
                    &&& r->Ok_0.decode_failure is None
                },
                None => r is Err && r->Err_0 is JoinPath && r->Err_0->JoinPath_0@ == "/configs"@,
            },
    {
        match self.request_url("/configs") {
            Err(e) => Err(e),
            Ok(url) => Ok(
                ApiRequest {
                    method: Method::Patch,
                    url,
                    force: None,
                    body: Some(patch),
                    send_failure: "patch /configs failed".to_owned(),
                    status_failure: "patch /configs returned error status".to_owned(),
                    strict: false,
                    decode_failure: None,
                },
            ),
        }
    }

    /// Has the controller read its configuration from a file: `PATCH /configs` with the `path`
    /// and with `force`.
    pub fn reload_config_from_path(&self, path: &str, force: bool) -> (r: Result<
        ApiRequest,
        ClientError,
    >)
        ensures
            match url_at(self.endpoint, "/configs"@) {
                Some(url) => {
                    &&& r is Ok
                    &&& r->Ok_0.method == Method::Patch
                    &&& r->Ok_0.url@ == url
                    &&& r->Ok_0.force == Some(force)
                    &&& r->Ok_0.body is Some
                    &&& r->Ok_0.body->0@ == json::JsonModel::Object(
                        seq![("path"@, json::JsonModel::Text(path@))],
                    )
                    &&& r->Ok_0.send_failure@ == "reload /configs failed"@
                    &&& r->Ok_0.status_failure@ == "reload config failed with path: "@ + path@
                    &&& r->Ok_0.strict
                    &&& r->Ok_0.decode_failure is None
                },
                None => r is Err && r->Err_0 is JoinPath && r->Err_0->JoinPath_0@ == "/configs"@,
            },
    {
        match self.request_url("/configs") {
            Err(e) => Err(e),
            Ok(url) => Ok(
                ApiRequest {
                    method: Method::Patch,
                    url,
                    force: Some(force),
                    body: Some(json::single("path", json::text_value(path))),
                    send_failure: "reload /configs failed".to_owned(),
                    status_failure: text::cat2("reload config failed with path: ", path),
                    strict: true,
                    decode_failure: None,
                },
            ),
        }
    }

    /// Has a group use one of its proxies.
    pub fn select_node_for_group(&self, group_name: &str, proxy_name: &str) -> (r: Result<
        ApiRequest,
        ClientError,
    >)
        ensures
            ({
                let path = "/proxies/"@ + weburl::percent_encoded(
                    vstd::utf8::encode_utf8(group_name@),
                );
                let change = group_name@ + " -> "@ + proxy_name@;
                match url_at(self.endpoint, path) {
                    Some(url) => {
                        &&& r is Ok
                        &&& r->Ok_0.method == Method::Put
                        &&& r->Ok_0.url@ == url
                        &&& r->Ok_0.force is None
                        &&& r->Ok_0.body is Some
                        &&& r->Ok_0.body->0@ == json::JsonModel::Object(
                            seq![("name"@, json::JsonModel::Text(proxy_name@))],
                        )
                        &&& r->Ok_0.send_failure@ == "switch proxy failed: "@ + change
                        &&& r->Ok_0.status_failure@ == "switch proxy status error: "@ + change
                        &&& !r->Ok_0.strict
                        &&& r->Ok_0.decode_failure is None
                    },
                    None => r is Err && r->Err_0 is JoinPath && r->Err_0->JoinPath_0@ == path,
                }
            }),
    {
        let path = text::cat2("/proxies/", weburl::percent_encode(group_name).as_str());
        let change = text::cat3(group_name, " -> ", proxy_name);
        match self.request_url(path.as_str()) {
            Err(e) => Err(e),
            Ok(url) => Ok(
                ApiRequest {
                    method: Method::Put,
                    url,
                    force: None,
                    body: Some(json::single("name", json::text_value(proxy_name))),
                    send_failure: text::cat2("switch proxy failed: ", change.as_str()),
                    status_failure: text::cat2("switch proxy status error: ", change.as_str()),
                    strict: false,
                    decode_failure: None,
                },
            ),
        }
    }

    /// The path of a delay test.
    pub open spec fn delay_path(proxy: Seq<char>, url: Seq<char>, timeout_ms: u64) -> Seq<char> {
        "/proxies/"@ + weburl::percent_encoded(vstd::utf8::encode_utf8(proxy)) + "/delay?url="@
            + weburl::percent_encoded(vstd::utf8::encode_utf8(url)) + "&timeout="@ + number::dec(
            timeout_ms as nat,
        )
    }

    /// Has the controller measure the delay of a proxy.
    pub fn delay_proxy_by_name(&self, proxy_name: &str, url: &str, timeout_ms: u64) -> (r: Result<
        ApiRequest,
        ClientError,
    >)
        ensures
            self.asks(Self::delay_path(proxy_name@, url@, timeout_ms), r),
    {
        let path = text::cat3(
            text::cat4(
                "/proxies/",
                weburl::percent_encode(proxy_name).as_str(),
                "/delay?url=",
                weburl::percent_encode(url).as_str(),
            ).as_str(),
            "&timeout=",
            number::to_dec(timeout_ms).as_str(),
        );
        self.get_json(path.as_str())
    }

    /// The URL of a stream of an HTTP endpoint, before the secret is added.
    pub open spec fn plain_stream_url(self, path: Seq<char>) -> Option<Seq<char>> {
        match self.endpoint {
            Endpoint::LocalSocket { .. } => None,
            Endpoint::Http { base_url, .. } => match weburl::url_joined(base_url@, path) {
                None => None,
                Some(url) => match weburl::url_scheme(url) {
                    None => None,
                    Some(scheme) => match stream_scheme(scheme) {
                        None => None,
                        Some(ws) => weburl::url_with_scheme(url, ws),
                    },
                },
            },
        }
    }

    /// Whether `r` is the URL of the stream at `path`, or says why there is none: the scheme is
    /// `ws` or `wss`, and the secret, where there is one, is the query parameter `token`.
    pub open spec fn streams(self, path: Seq<char>, r: Result<String, ClientError>) -> bool {
        match self.plain_stream_url(path) {
            Some(url) => match self.secret {
                Some(s) => if s@.len() > 0 {
                    match weburl::url_with_pair(url, "token"@, s@) {
                        Some(full) => r is Ok && r->Ok_0@ == full,
                        None => r == Err::<String, ClientError>(ClientError::SetScheme),
                    }
                } else {
                    r is Ok && r->Ok_0@ == url
                },
                None => r is Ok && r->Ok_0@ == url,
            },
            None => r is Err && match self.endpoint {
                Endpoint::LocalSocket { .. } => r->Err_0 is StreamNeedsHttp,
                Endpoint::Http { base_url, .. } => match weburl::url_joined(base_url@, path) {
                    None => r->Err_0 is JoinStreamPath && r->Err_0->JoinStreamPath_0@ == path,
                    Some(url) => match weburl::url_scheme(url) {
                        None => r->Err_0 is SetScheme,
                        Some(scheme) => if stream_scheme(scheme) is None {
                            r->Err_0 is UnsupportedScheme && r->Err_0->UnsupportedScheme_0@ == scheme
                        } else {
                            r->Err_0 is SetScheme
                        },
                    },
                },
            },
        }
    }

    /// The URL of a stream of an HTTP endpoint.
    pub fn ws_url(&self, path: &str) -> (r: Result<String, ClientError>)
        ensures
            self.streams(path@, r),
    {
        let url = match &self.endpoint {
            Endpoint::LocalSocket { .. } => {
                return Err(ClientError::StreamNeedsHttp);
            },
            Endpoint::Http { base_url, .. } => match weburl::join(base_url.as_str(), path) {
                Err(_) => {
                    return Err(ClientError::JoinStreamPath(path.to_owned()));
                },
                Ok(url) => url,
            },
        };
        let scheme = match weburl::scheme(url.as_str()) {
            None => {
                return Err(ClientError::SetScheme);
            },
            Some(s) => s,
        };
        let ws = match ws_scheme(scheme.as_str()) {
            None => {
                return Err(ClientError::UnsupportedScheme(scheme));
            },
            Some(s) => s,
        };
        let plain = match weburl::with_scheme(url.as_str(), ws) {
            None => {
                return Err(ClientError::SetScheme);
            },
            Some(u) => u,
        };
        if let Some(s) = &self.secret {
            if !s.as_str().is_empty() {
                return match weburl::with_pair(plain.as_str(), "token", s.as_str()) {
                    Some(u) => Ok(u),
                    None => Err(ClientError::SetScheme),
                };
            }
        }
        Ok(plain)
    }

    /// Whether `r` tells where the stream at `path` is read from: at a local socket its URL names
    /// the host `localhost`.
    pub open spec fn reads(self, path: Seq<char>, r: Result<StreamTarget, ClientError>) -> bool {
        match self.endpoint {
            Endpoint::LocalSocket { socket_path } => {
                &&& r is Ok
                &&& r->Ok_0 is Socket
                &&& r->Ok_0->socket_path@ == socket_path@
                &&& r->Ok_0->Socket_url@ == "ws://localhost/"@ + text::without_leading(path, '/')
            },
            Endpoint::Http { .. } => match r {
                Ok(StreamTarget::Remote { url }) => self.streams(path, Ok(url)),
                Ok(_) => false,
                Err(e) => self.streams(path, Err(e)),
            },
        }
    }

    pub fn subscribe_json_ws(&self, path: &str) -> (r: Result<StreamTarget, ClientError>)
        ensures
            self.reads(path@, r),
    {
        match &self.endpoint {
            Endpoint::LocalSocket { socket_path } => Ok(
                StreamTarget::Socket {
                    socket_path: socket_path.clone(),
                    url: text::cat2("ws://localhost/", text::trim_leading(path, '/').as_str()),
                },
            ),
            Endpoint::Http { .. } => match self.ws_url(path) {
                Ok(url) => Ok(StreamTarget::Remote { url }),
                Err(e) => Err(e),
            },
        }
    }

    pub fn subscribe_traffic(&self) -> (r: Result<StreamTarget, ClientError>)
        ensures
            self.reads("/traffic"@, r),
    {
        self.subscribe_json_ws("/traffic")
    }

    pub fn subscribe_connections(&self) -> (r: Result<StreamTarget, ClientError>)
        ensures
            self.reads("/connections"@, r),
    {
        self.subscribe_json_ws("/connections")
    }
}

/// What was read from a stream.
#[derive(Debug, Clone, Copy, PartialEq, Eq, Structural)]
pub enum StreamEvent {
    /// The stream has ended.
    Ended,
    /// The stream could not be read.
    Broken,
    /// A frame that is not text.
    NotText,
    /// Text that does not decode.
    Undecodable,
    /// A value.
    Value,
}

#[derive(Debug, Clone, Copy, PartialEq, Eq, Structural)]
pub enum StreamAction {
    Stop,
    Skip,
    Deliver,
}

/// Whether nothing more is read after an event.
pub open spec fn ends_stream(event: StreamEvent) -> bool {
    event == StreamEvent::Ended || event == StreamEvent::Broken
}

pub open spec fn stream_action(event: StreamEvent) -> StreamAction {
    if ends_stream(event) {
        StreamAction::Stop
    } else if event == StreamEvent::Value {
        StreamAction::Deliver
    } else {
        StreamAction::Skip
    }
}

/// A stream is read until it ends or breaks; what does not decode is passed over.
pub fn on_stream_event(event: StreamEvent) -> (r: StreamAction)
    ensures
        r == stream_action(event),
{
    match event {
        StreamEvent::Ended => StreamAction::Stop,
        StreamEvent::Broken => StreamAction::Stop,
        StreamEvent::NotText => StreamAction::Skip,
        StreamEvent::Undecodable => StreamAction::Skip,
        StreamEvent::Value => StreamAction::Deliver,
    }
}

/// The places, from `at` on, of the events that are delivered when each event is acted on in turn.
pub open spec fn delivered_from(events: Seq<StreamEvent>, at: int) -> Seq<int>
    decreases events.len() - at,
{
    if at >= events.len() {
        seq![]
    } else {
        match stream_action(events[at]) {
            StreamAction::Stop => seq![],
            StreamAction::Skip => delivered_from(events, at + 1),
            StreamAction::Deliver => seq![at] + delivered_from(events, at + 1),
        }
    }
}

/// Whether the event at `i` is a value before which nothing, from `at` on, ends the stream.
pub open spec fn is_delivered(events: Seq<StreamEvent>, at: int, i: int) -> bool {
    &&& at <= i < events.len()
    &&& events[i] == StreamEvent::Value
    &&& forall|j: int| at <= j < i ==> !ends_stream(#[trigger] events[j])
}

proof fn lemma_delivered(events: Seq<StreamEvent>, at: int)
    requires
        0 <= at,
    ensures
        forall|i: int| #[trigger]
            delivered_from(events, at).contains(i) <==> is_delivered(events, at, i),
        forall|a: int, b: int|
            0 <= a < b < delivered_from(events, at).len() ==> #[trigger] delivered_from(
                events,
                at,
            )[a] < #[trigger] delivered_from(events, at)[b],
    decreases events.len() - at,
{
    let d = delivered_from(events, at);
    if at < events.len() {
        lemma_delivered(events, at + 1);
        let rest = delivered_from(events, at + 1);
        let action = stream_action(events[at]);
        assert forall|i: int| #[trigger] d.contains(i) <==> is_delivered(events, at, i) by {
            assert(rest.contains(i) <==> is_delivered(events, at + 1, i));
            if action == StreamAction::Deliver {
                assert(d[0] == at);
                if rest.contains(i) {
                    let k = rest.index_of(i);
                    assert(d[k + 1] == i);
                }
                if d.contains(i) && i != at {
                    let k = d.index_of(i);
                    assert(rest[k - 1] == i);
                }
            }
            if is_delivered(events, at, i) && i != at {
                assert(!ends_stream(events[at]));
            }
        }
        if action == StreamAction::Deliver {
            assert forall|a: int, b: int| 0 <= a < b < d.len() implies #[trigger] d[a]
                < #[trigger] d[b] by {
                assert(d[b] == rest[b - 1]);
                assert(rest.contains(rest[b - 1]));
                if a > 0 {
                    assert(d[a] == rest[a - 1]);
                }
            }
        }
    }
}

/// Of a whole stream exactly the values before its first end or break are delivered, in order.
pub proof fn law_stream_delivers_values(events: Seq<StreamEvent>)
    ensures
        forall|i: int| #[trigger]
            delivered_from(events, 0).contains(i) <==> 0 <= i < events.len() && events[i]
                == StreamEvent::Value && (forall|j: int|
                0 <= j < i ==> !ends_stream(#[trigger] events[j])),
        forall|a: int, b: int|
            0 <= a < b < delivered_from(events, 0).len() ==> #[trigger] delivered_from(
                events,
                0,
            )[a] < #[trigger] delivered_from(events, 0)[b],
{
    lemma_delivered(events, 0);
    assert forall|i: int| #[trigger]
        delivered_from(events, 0).contains(i) <==> 0 <= i < events.len() && events[i]
            == StreamEvent::Value && (forall|j: int|
            0 <= j < i ==> !ends_stream(#[trigger] events[j])) by {
        assert(delivered_from(events, 0).contains(i) <==> is_delivered(events, 0, i));
    }
}

/// Whether a local socket is tried again after so many failures: three tries are made.
pub fn retries_socket(failures: u8) -> (r: bool)
    ensures
        r == (failures < 3),
{
    failures < 3
}

/// What is said when a local socket cannot be reached.
pub fn socket_failure(socket_path: &str) -> (r: String)
    ensures
        r@ == "failed to connect unix socket after retries: "@ + socket_path@,
{
    text::cat2("failed to connect unix socket after retries: ", socket_path)
}

#[derive(Debug)]
pub struct VersionResp {
    pub version: String,
    pub meta: Option<bool>,
}

#[derive(Debug, Clone, Copy, PartialEq, Eq, Structural)]
pub struct ProxyDelayResp {
    pub delay: u64,
}

/// The proxies that the controller knows, each under its name.
#[derive(Debug)]
pub struct ProxiesResp {
    pub proxies: Vec<(String, ProxyNode)>,
}

/// A proxy, or a group of proxies: then `all` names what it chooses from and `now` its choice.
#[derive(Debug)]
pub struct ProxyNode {
    pub name: String,
    pub kind: String,
    pub now: Option<String>,
    pub all: Option<Vec<String>>,
    pub history: Option<Vec<ProxyHistory>>,
}

#[derive(Debug, Clone, Copy, PartialEq, Eq, Structural)]
pub struct ProxyHistory {
    pub delay: u64,
}

#[derive(Debug, Clone, Copy, PartialEq, Eq, Structural)]
pub struct TrafficResp {
    pub up: u64,
    pub down: u64,
}

#[derive(Debug, Clone, Copy, PartialEq, Eq, Structural)]
pub struct ConnectionsResp {
    pub upload_total: u64,
    pub download_total: u64,
}

/// The mixed port that the controller's settings name.
pub open spec fn core_mixed_port(config: json::JsonModel) -> Option<u16> {
    match json::as_number_of(json::member(config, "mixed-port"@)) {
        Some(n) => if n <= 65535 {
            Some(n as u16)
        } else {
            None
        },
        None => None,
    }
}

pub fn runtime_mixed_port(config: &Json) -> (r: Option<u16>)
    ensures
        r == core_mixed_port(config@),
{
    match json::as_u64(config.get("mixed-port")) {
        Some(n) => if n <= 65535 {
            Some(n as u16)
        } else {
            None
        },
        None => None,
    }
}

/// The patch that sets the mixed port.
pub fn mixed_port_patch(port: u16) -> (r: Json)
    ensures
        r@ == json::JsonModel::Object(
            seq![("mixed-port"@, json::JsonModel::Number(port as u64))],
        ),
{
    json::single("mixed-port", Json::Number(port as u64))
}

/// The patch that sets the mode.
pub fn mode_patch(mode: &str) -> (r: Json)
    ensures
        r@ == json::JsonModel::Object(seq![("mode"@, json::JsonModel::Text(mode@))]),
{
    json::single("mode", json::text_value(mode))
}

/// The device that carries the tunnel.
pub open spec fn tun_device() -> Seq<char> {
    "vergetui0"@
}

/// The patch that turns the tunnel on or off; turning it on sets up its device, its routes and
/// the name service too.
pub open spec fn tun_patch_model(enabled: bool) -> json::JsonModel {
    if enabled {
        json::JsonModel::Object(
            seq![
                (
                    "tun"@,
                    json::JsonModel::Object(
                        seq![
                            ("enable"@, json::JsonModel::Bool(true)),
                            ("device"@, json::JsonModel::Text(tun_device())),
                            ("stack"@, json::JsonModel::Text("gvisor"@)),
                            ("auto-route"@, json::JsonModel::Bool(true)),
                            ("strict-route"@, json::JsonModel::Bool(false)),
                            ("auto-detect-interface"@, json::JsonModel::Bool(true)),
                            (
                                "dns-hijack"@,
                                json::JsonModel::Array(seq![json::JsonModel::Text("any:53"@)]),
                            ),
                        ],
                    ),
                ),
                (
                    "dns"@,
                    json::JsonModel::Object(
                        seq![
                            ("enable"@, json::JsonModel::Bool(true)),
                            ("enhanced-mode"@, json::JsonModel::Text("fake-ip"@)),
                            ("fake-ip-range"@, json::JsonModel::Text("198.18.0.1/16"@)),
                        ],
                    ),
                ),
            ],
        )
    } else {
        json::JsonModel::Object(
            seq![
                (
                    "tun"@,
                    json::JsonModel::Object(seq![("enable"@, json::JsonModel::Bool(false))]),
                ),
            ],
        )
    }
}

pub fn tun_patch(enabled: bool) -> (r: Json)
    ensures
        r@ == tun_patch_model(enabled),
{
    if !enabled {
        return json::single("tun", json::single("enable", Json::Bool(false)));
    }
    let mut tun: Vec<(String, Json)> = Vec::new();
    assert(json::fields_model(tun@) =~= seq![]);
    json::put(&mut tun, "enable", Json::Bool(true));
    json::put(&mut tun, "device", json::text_value("vergetui0"));
    json::put(&mut tun, "stack", json::text_value("gvisor"));
    json::put(&mut tun, "auto-route", Json::Bool(true));
    json::put(&mut tun, "strict-route", Json::Bool(false));
    json::put(&mut tun, "auto-detect-interface", Json::Bool(true));
    json::put(&mut tun, "dns-hijack", json::texts_of_one("any:53"));
    let mut dns: Vec<(String, Json)> = Vec::new();
    assert(json::fields_model(dns@) =~= seq![]);
    json::put(&mut dns, "enable", Json::Bool(true));
    json::put(&mut dns, "enhanced-mode", json::text_value("fake-ip"));
    json::put(&mut dns, "fake-ip-range", json::text_value("198.18.0.1/16"));
    let mut all: Vec<(String, Json)> = Vec::new();
    assert(json::fields_model(all@) =~= seq![]);
    let ghost model = tun_patch_model(true)->Object_0;
    assert(json::fields_model(tun@) =~= model[0].1->Object_0);
    assert(json::fields_model(dns@) =~= model[1].1->Object_0);
    json::put(&mut all, "tun", json::object(tun));
    json::put(&mut all, "dns", json::object(dns));
    assert(json::fields_model(all@) =~= model);
    json::object(all)
}

} // verus!
