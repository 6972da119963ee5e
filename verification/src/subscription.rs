//! Subscriptions: how one is asked for, and what the reply is turned into.

use crate::config::VergeConfig;
use crate::number;
use crate::profile::ProfileExtra;
use crate::text;
use crate::weburl;
use crate::yaml;
use serde_yaml_ng::Mapping;
use vstd::prelude::*;

verus! {

#[derive(Debug)]
pub struct ImportOptions {
    pub with_proxy: bool,
    pub self_proxy: bool,
    pub timeout_seconds: u64,
    pub danger_accept_invalid_certs: bool,
    pub user_agent: Option<String>,
}

impl Default for ImportOptions {
    fn default() -> (r: Self)
        ensures
            r == (ImportOptions {
                with_proxy: false,
                self_proxy: false,
                timeout_seconds: 0,
                danger_accept_invalid_certs: false,
                user_agent: None,
            }),
    {
        ImportOptions {
            with_proxy: false,
            self_proxy: false,
            timeout_seconds: 0,
            danger_accept_invalid_certs: false,
            user_agent: None,
        }
    }
}

/// A subscription that was fetched and accepted.
#[derive(Debug)]
pub struct ImportResult {
    pub name: String,
    pub yaml: String,
    pub extra: Option<ProfileExtra>,
}

/// The ways in which a subscription is asked for, one after the other.
#[derive(Debug, Clone, Copy, PartialEq, Eq, Structural)]
pub enum FetchMode {
    Direct,
    SelfProxy,
    SystemProxy,
}

impl FetchMode {
    pub open spec fn spec_label(self) -> Seq<char> {
        match self {
            FetchMode::Direct => "direct"@,
            FetchMode::SelfProxy => "self_proxy"@,
            FetchMode::SystemProxy => "system_proxy"@,
        }
    }

    pub fn label(self) -> (r: &'static str)
        ensures
            r@ == self.spec_label(),
    {
        match self {
            FetchMode::Direct => "direct",
            FetchMode::SelfProxy => "self_proxy",
            FetchMode::SystemProxy => "system_proxy",
        }
    }

    /// Twenty seconds, and the proxy that the mode names.
    pub fn options(self) -> (r: ImportOptions)
        ensures
            r == (ImportOptions {
                with_proxy: self == FetchMode::SystemProxy,
                self_proxy: self == FetchMode::SelfProxy,
                timeout_seconds: 20,
                danger_accept_invalid_certs: false,
                user_agent: None,
            }),
    {
        ImportOptions {
            with_proxy: self == FetchMode::SystemProxy,
            self_proxy: self == FetchMode::SelfProxy,
            timeout_seconds: 20,
            danger_accept_invalid_certs: false,
            user_agent: None,
        }
    }

    pub open spec fn spec_next(self) -> Option<FetchMode> {
        match self {
            FetchMode::Direct => Some(FetchMode::SelfProxy),
            FetchMode::SelfProxy => Some(FetchMode::SystemProxy),
            FetchMode::SystemProxy => None,
        }
    }

    /// What is tried after this mode has failed.
    pub fn next(self) -> (r: Option<FetchMode>)
        ensures
            r == self.spec_next(),
    {
        match self {
            FetchMode::Direct => Some(FetchMode::SelfProxy),
            FetchMode::SelfProxy => Some(FetchMode::SystemProxy),
            FetchMode::SystemProxy => None,
        }
    }
}

/// Three modes are tried: directly, through the managed core, through the system's proxy.
pub proof fn law_three_fetch_modes()
    ensures
        FetchMode::Direct.spec_next() == Some(FetchMode::SelfProxy),
        FetchMode::SelfProxy.spec_next() == Some(FetchMode::SystemProxy),
        FetchMode::SystemProxy.spec_next() is None,
{
}

/// The proxy that a request goes through.
#[derive(Debug)]
pub enum ProxyChoice {
    /// None, whatever the system says.
    Bypass,
    /// What the system says.
    System,
    /// The one at the given URL.
    Through(String),
}

/// How a subscription is asked for.
#[derive(Debug)]
pub struct FetchPlan {
    pub timeout_seconds: u64,
    pub redirects: usize,
    pub proxy: ProxyChoice,
    pub accept_invalid_certs: bool,
    pub user_agent: String,
}

/// The request that the options stand for; the managed core's proxy wins over the system's.
pub fn import_request(options: &ImportOptions, verge: &VergeConfig) -> (r: FetchPlan)
    ensures
        r.timeout_seconds == if options.timeout_seconds == 0 {
            20
        } else {
            options.timeout_seconds
        },
        r.redirects == 10,
        match r.proxy {
            ProxyChoice::Through(p) => options.self_proxy && p@ == "http://127.0.0.1:"@
                + number::dec(verge.mixed_port as nat),
            ProxyChoice::System => !options.self_proxy && options.with_proxy,
            ProxyChoice::Bypass => !options.self_proxy && !options.with_proxy,
        },
        r.accept_invalid_certs == options.danger_accept_invalid_certs,
        r.user_agent@ == match options.user_agent {
            Some(ua) => ua@,
            None => "verge-tui/0.1.0"@,
        },
{
    FetchPlan {
        timeout_seconds: if options.timeout_seconds == 0 {
            20
        } else {
            options.timeout_seconds
        },
        redirects: 10,
        proxy: if options.self_proxy {
            ProxyChoice::Through(
                text::cat2("http://127.0.0.1:", number::to_dec(verge.mixed_port as u64).as_str()),
            )
        } else if options.with_proxy {
            ProxyChoice::System
        } else {
            ProxyChoice::Bypass
        },
        accept_invalid_certs: options.danger_accept_invalid_certs,
        user_agent: match &options.user_agent {
            Some(ua) => ua.clone(),
            None => "verge-tui/0.1.0".to_owned(),
        },
    }
}

/// A header of a reply; its value is missing where it is not plain text.
#[derive(Debug)]
pub struct Header {
    pub name: String,
    pub value: Option<String>,
}

/// The reply to the request for a subscription.
#[derive(Debug)]
pub struct Reply {
    pub status: u16,
    pub status_text: String,
    pub headers: Vec<Header>,
    pub body: String,
}

/// Why a reply is no subscription.
#[derive(Debug)]
pub enum ImportError {
    Status(String),
    InvalidYaml,
    NoProxies,
}

impl ImportError {
    pub open spec fn spec_message(self) -> Seq<char> {
        match self {
            ImportError::Status(s) => "subscription request failed with status "@ + s@,
            ImportError::InvalidYaml => "invalid YAML subscription"@,
            ImportError::NoProxies => "subscription does not contain proxies or proxy-providers"@,
        }
    }

    pub fn message(&self) -> (r: String)
        ensures
            r@ == self.spec_message(),
    {
        match self {
            ImportError::Status(s) => text::cat2(
                "subscription request failed with status ",
                s.as_str(),
            ),
            ImportError::InvalidYaml => "invalid YAML subscription".to_owned(),
            ImportError::NoProxies => "subscription does not contain proxies or proxy-providers".to_owned(),
        }
    }
}

/// Whether the entries of a document name proxies, or where to get them.
pub open spec fn names_proxies(entries: Seq<(yaml::Yaml, yaml::Yaml)>) -> bool {
    yaml::lookup(entries, "proxies"@) is Some || yaml::lookup(entries, "proxy-providers"@) is Some
}

pub fn has_proxies(m: &Mapping) -> (r: bool)
    ensures
        r == names_proxies(yaml::yaml_entries(*m)),
{
    yaml::get(m, "proxies").is_some() || yaml::get(m, "proxy-providers").is_some()
}

/// Accepts a text that is a YAML mapping with proxies or proxy providers.
pub fn validate_yaml(content: &str) -> (r: Result<(), ImportError>)
    ensures
        r == match yaml::yaml_parsed(content@) {
            None => Err::<(), ImportError>(ImportError::InvalidYaml),
            Some(entries) => if names_proxies(entries) {
                Ok(())
            } else {
                Err(ImportError::NoProxies)
            },
        },
{
    match yaml::parse_mapping(content) {
        Err(_) => Err(ImportError::InvalidYaml),
        Ok(m) => if has_proxies(&m) {
            Ok(())
        } else {
            Err(ImportError::NoProxies)
        },
    }
}

/// The file name that the segments of a `Content-Disposition` value give: the first segment
/// `filename=`, without its quotes, or `filename*=`, decoded, where it can be decoded.
pub open spec fn disposition_name(segments: Seq<Seq<char>>) -> Option<Seq<char>>
    decreases segments.len(),
{
    if segments.len() == 0 {
        None
    } else {
        let s = text::trimmed(segments[0]);
        let plain = text::after_prefix(s, "filename="@);
        let coded = text::after_prefix(s, "filename*="@);
        if plain is Some {
            Some(text::without_trailing(text::without_leading(plain->0, '"'), '"'))
        } else if coded is Some && weburl::percent_decoded(text::after_last(coded->0, "''"@)) is Some {
            weburl::percent_decoded(text::after_last(coded->0, "''"@))
        } else {
            disposition_name(segments.skip(1))
        }
    }
}

/// The file name in a `Content-Disposition` value.
pub fn file_name(disposition: &str) -> (r: Option<String>)
    ensures
        text::opt_text(r) == disposition_name(text::parts_of(disposition@, ';')),
{
    let segments = text::split_on(disposition, ';');
    let ghost all = text::parts_of(disposition@, ';');
    let mut i: usize = 0;
    assert(all.skip(0) == all);
    while i < segments.len()
        invariant
            i <= segments@.len(),
            all == text::parts_of(disposition@, ';'),
            text::texts(segments@) == all,
            disposition_name(all) == disposition_name(all.skip(i as int)),
        decreases segments@.len() - i,
    {
        let ghost rest = all.skip(i as int);
        assert(rest[0] == segments@[i as int]@);
        assert(rest.skip(1) == all.skip(i + 1));
        let s = text::trim(segments[i].as_str());
        if let Some(name) = text::strip_prefix(s.as_str(), "filename=") {
            return Some(text::trim_trailing(text::trim_leading(name.as_str(), '"').as_str(), '"'));
        }
        if let Some(coded) = text::strip_prefix(s.as_str(), "filename*=") {
            let last = text::rest_after_last(coded.as_str(), "''");
            if let Some(name) = weburl::percent_decode(last.as_str()) {
                return Some(name);
            }
        }
        i = i + 1;
    }
    assert(all.skip(i as int).len() == 0);
    None
}

/// Index of the first header with the given name; the number of headers when there is none.
pub open spec fn header_index(headers: Seq<Header>, name: Seq<char>) -> int
    decreases headers.len(),
{
    if headers.len() == 0 || text::lowered(headers[0].name@) == name {
        0
    } else {
        1 + header_index(headers.skip(1), name)
    }
}

/// The text of the first header with the given name in lower case.
pub open spec fn header_text(headers: Seq<Header>, name: Seq<char>) -> Option<Seq<char>> {
    let i = header_index(headers, name);
    if i < headers.len() {
        text::opt_text(headers[i].value)
    } else {
        None
    }
}

fn find_header(headers: &Vec<Header>, name: &str) -> (r: Option<String>)
    ensures
        text::opt_text(r) == header_text(headers@, name@),
{
    let mut i: usize = 0;
    assert(headers@.skip(0) == headers@);
    while i < headers.len()
        invariant
            i <= headers@.len(),
            header_index(headers@, name@) == i + header_index(headers@.skip(i as int), name@),
        decreases headers@.len() - i,
    {
        assert(headers@.skip(i as int)[0] == headers@[i as int]);
        assert(headers@.skip(i as int).skip(1) == headers@.skip(i + 1));
        if text::same(text::to_lower(headers[i].name.as_str()).as_str(), name) {
            return headers[i].value.clone();
        }
        i = i + 1;
    }
    assert(headers@.skip(i as int).len() == 0);
    None
}

/// The name that a fetched profile gets when the reply names no file: the last segment of the
/// path, unless it is empty.
pub open spec fn segment_name(segment: Option<Seq<char>>) -> Seq<char> {
    if segment is Some && segment->0.len() > 0 {
        segment->0
    } else {
        "Remote Profile"@
    }
}

pub fn name_or_default(segment: Option<String>) -> (r: String)
    ensures
        r@ == segment_name(text::opt_text(segment)),
{
    if let Some(s) = segment {
        if !s.as_str().is_empty() {
            return s;
        }
    }
    "Remote Profile".to_owned()
}

/// The name that a fetched profile gets.
pub open spec fn profile_name(url: Seq<char>, headers: Seq<Header>) -> Seq<char> {
    match header_text(headers, "content-disposition"@) {
        Some(value) => match disposition_name(text::parts_of(value, ';')) {
            Some(name) => name,
            None => segment_name(weburl::url_last_segment(url)),
        },
        None => segment_name(weburl::url_last_segment(url)),
    }
}

pub fn parse_name(url: &str, headers: &Vec<Header>) -> (r: String)
    ensures
        r@ == profile_name(url@, headers@),
{
    if let Some(value) = find_header(headers, "content-disposition") {
        if let Some(name) = file_name(value.as_str()) {
            return name;
        }
    }
    name_or_default(weburl::last_segment(url))
}

/// The number that the first fitting part `key = number` gives.
pub open spec fn kv_number(parts: Seq<Seq<char>>, key: Seq<char>) -> Option<nat>
    decreases parts.len(),
{
    if parts.len() == 0 {
        None
    } else {
        let p = parts[0];
        let n = text::find_char(p, '=') as int;
        let value = number::number_of(text::trimmed(p.skip(n + 1)), u64::MAX as nat);
        if n < p.len() && text::trimmed(p.take(n)) == key && value is Some {
            value
        } else {
            kv_number(parts.skip(1), key)
        }
    }
}

/// The number under `key` in a list such as `upload=1; download=2`.
pub fn parse_kv_u64(input: &str, key: &str) -> (r: Option<u64>)
    ensures
        match r {
            Some(n) => kv_number(text::parts_of(input@, ';'), key@) == Some(n as nat),
            None => kv_number(text::parts_of(input@, ';'), key@) is None,
        },
{
    let parts = text::split_on(input, ';');
    let ghost all = text::parts_of(input@, ';');
    let mut i: usize = 0;
    assert(all.skip(0) == all);
    while i < parts.len()
        invariant
            i <= parts@.len(),
            all == text::parts_of(input@, ';'),
            text::texts(parts@) == all,
            kv_number(all, key@) == kv_number(all.skip(i as int), key@),
        decreases parts@.len() - i,
    {
        let ghost rest = all.skip(i as int);
        assert(rest[0] == parts@[i as int]@);
        assert(rest.skip(1) == all.skip(i + 1));
        if let Some((k, v)) = text::split_once(parts[i].as_str(), '=') {
            if text::same(text::trim(k.as_str()).as_str(), key) {
                if let Some(n) = number::parse_u64(text::trim(v.as_str()).as_str()) {
                    return Some(n);
                }
            }
        }
        i = i + 1;
    }
    assert(all.skip(i as int).len() == 0);
    None
}

/// Whether a header tells how much of a subscription is used.
pub open spec fn is_userinfo(h: Header) -> bool {
    text::has_suffix(text::lowered(h.name@), "subscription-userinfo"@) && h.value is Some
}

/// The value of the first header that tells how much of a subscription is used.
pub open spec fn userinfo(headers: Seq<Header>) -> Option<Seq<char>>
    decreases headers.len(),
{
    if headers.len() == 0 {
        None
    } else if is_userinfo(headers[0]) {
        text::opt_text(headers[0].value)
    } else {
        userinfo(headers.skip(1))
    }
}

/// The number under `key`; 0 when there is none.
pub open spec fn kv_or_zero(value: Seq<char>, key: Seq<char>) -> nat {
    match kv_number(text::parts_of(value, ';'), key) {
        Some(n) => n,
        None => 0,
    }
}

/// Whether `extra` is what `value` says.
pub open spec fn extra_of(extra: ProfileExtra, value: Seq<char>) -> bool {
    &&& extra.upload == kv_or_zero(value, "upload"@)
    &&& extra.download == kv_or_zero(value, "download"@)
    &&& extra.total == kv_or_zero(value, "total"@)
    &&& extra.expire == kv_or_zero(value, "expire"@)
}

fn number_or_zero(value: &str, key: &str) -> (r: u64)
    ensures
        r == kv_or_zero(value@, key@),
{
    match parse_kv_u64(value, key) {
        Some(n) => n,
        None => 0,
    }
}

/// How much of the subscription is used, where a header tells it.
pub fn parse_subscription_userinfo(headers: &Vec<Header>) -> (r: Option<ProfileExtra>)
    ensures
        match r {
            Some(extra) => userinfo(headers@) is Some && extra_of(extra, userinfo(headers@)->0),
            None => userinfo(headers@) is None,
        },
{
    let mut i: usize = 0;
    assert(headers@.skip(0) == headers@);
    while i < headers.len()
        invariant
            i <= headers@.len(),
            userinfo(headers@) == userinfo(headers@.skip(i as int)),
        decreases headers@.len() - i,
    {
        assert(headers@.skip(i as int)[0] == headers@[i as int]);
        assert(headers@.skip(i as int).skip(1) == headers@.skip(i + 1));
        let name = text::to_lower(headers[i].name.as_str());
        if text::ends_with(name.as_str(), "subscription-userinfo") {
            if let Some(value) = &headers[i].value {
                return Some(
                    ProfileExtra {
                        upload: number_or_zero(value.as_str(), "upload"),
                        download: number_or_zero(value.as_str(), "download"),
                        total: number_or_zero(value.as_str(), "total"),
                        expire: number_or_zero(value.as_str(), "expire"),
                    },
                );
            }
        }
        i = i + 1;
    }
    assert(headers@.skip(i as int).len() == 0);
    None
}

/// The byte order mark.
pub open spec fn bom() -> char {
    '\u{feff}'
}

/// The document in a reply: its body without leading byte order marks.
pub open spec fn document(body: Seq<char>) -> Seq<char> {
    text::without_leading(body, bom())
}

/// Turns a reply into a subscription: the status has to tell success and the document has to be
/// valid.
pub fn import_subscription(url: &str, reply: &Reply) -> (r: Result<ImportResult, ImportError>)
    ensures
        !(200 <= reply.status < 300) ==> r == Err::<ImportResult, ImportError>(
            ImportError::Status(reply.status_text),
        ),
        200 <= reply.status < 300 ==> match yaml::yaml_parsed(document(reply.body@)) {
            None => r == Err::<ImportResult, ImportError>(ImportError::InvalidYaml),
            Some(entries) => if !names_proxies(entries) {
                r == Err::<ImportResult, ImportError>(ImportError::NoProxies)
            } else {
                &&& r is Ok
                &&& r->Ok_0.name@ == profile_name(url@, reply.headers@)
                &&& r->Ok_0.yaml@ == document(reply.body@)
                &&& match r->Ok_0.extra {
                    Some(extra) => userinfo(reply.headers@) is Some && extra_of(
                        extra,
                        userinfo(reply.headers@)->0,
                    ),
                    None => userinfo(reply.headers@) is None,
                }
            },
        },
{
    if !(200 <= reply.status && reply.status < 300) {
        return Err(ImportError::Status(reply.status_text.clone()));
    }
    let body = text::trim_leading(reply.body.as_str(), '\u{feff}');
    match validate_yaml(body.as_str()) {
        Err(e) => Err(e),
        Ok(()) => Ok(
            ImportResult {
                name: parse_name(url, &reply.headers),
                yaml: body,
                extra: parse_subscription_userinfo(&reply.headers),
            },
        ),
    }
}

/// The links in a file of subscriptions: the lines that are `http` or `https` URLs.
pub open spec fn links_of(lines: Seq<Seq<char>>) -> Seq<Seq<char>>
    decreases lines.len(),
{
    if lines.len() == 0 {
        seq![]
    } else {
        let t = text::trimmed(lines.last());
        if text::has_prefix(t, "http://"@) || text::has_prefix(t, "https://"@) {
            links_of(lines.drop_last()).push(t)
        } else {
            links_of(lines.drop_last())
        }
    }
}

/// Nothing but web links comes out of a file.
pub proof fn law_links_are_web(lines: Seq<Seq<char>>)
    ensures
        links_of(lines).len() <= lines.len(),
        forall|i: int|
            0 <= i < links_of(lines).len() ==> text::has_prefix(
                #[trigger] links_of(lines)[i],
                "http://"@,
            ) || text::has_prefix(links_of(lines)[i], "https://"@),
    decreases lines.len(),
{
    if lines.len() > 0 {
        law_links_are_web(lines.drop_last());
    }
}

/// What is imported for an argument: the links in the file that it names, line by line, or the
/// argument itself when it names no file.
pub fn import_sources(argument: &str, file: Option<&str>) -> (r: Vec<String>)
    ensures
        text::texts(r@) == match file {
            Some(content) => links_of(text::lines_of(content@)),
            None => seq![argument@],
        },
{
    let mut r: Vec<String> = Vec::new();
    match file {
        None => {
            r.push(argument.to_owned());
            assert(text::texts(r@) =~= seq![argument@]);
        },
        Some(content) => {
            let lines = text::lines(content);
            let ghost all = text::lines_of(content@);
            let mut i: usize = 0;
            assert(text::texts(r@) =~= links_of(all.take(0)));
            while i < lines.len()
                invariant
                    i <= lines@.len(),
                    text::texts(lines@) == all,
                    text::texts(r@) == links_of(all.take(i as int)),
                decreases lines@.len() - i,
            {
                let ghost before = text::texts(r@);
                let t = text::trim(lines[i].as_str());
                assert(all.take(i + 1).drop_last() == all.take(i as int));
                assert(all.take(i + 1).last() == lines@[i as int]@);
                if text::starts_with(t.as_str(), "http://") || text::starts_with(
                    t.as_str(),
                    "https://",
                ) {
                    r.push(t);
                    assert(text::texts(r@) =~= before.push(t@));
                }
                i = i + 1;
            }
            assert(all.take(i as int) == all);
        },
    }
    r
}

} // verus!
