//! Finding a core that answers.

use crate::client;
use crate::client::MihomoClient;
use crate::client::VersionResp;
use crate::config::Platform;
use crate::config::VergeConfig;
use crate::hint;
use crate::hint::ClashVergeApiHint;
use crate::notes::Notes;
use crate::order;
use crate::text;
use crate::weburl;
use vstd::prelude::*;

verus! {

/// What is told of a core that was asked for its version.
pub open spec fn health_note(endpoint: Seq<char>, version: Result<Seq<char>, Seq<char>>) -> Seq<
    char,
> {
    match version {
        Ok(v) => "mihomo controller online ("@ + endpoint + "): "@ + v,
        Err(err) => "mihomo controller unreachable ("@ + endpoint + "): "@ + err
            + ". check core process, external-controller, secret, or local socket path"@,
    }
}

/// The version in a reply, or the error.
pub open spec fn version_of(reply: Result<VersionResp, String>) -> Result<Seq<char>, Seq<char>> {
    match reply {
        Ok(v) => Ok(v.version@),
        Err(e) => Err(e@),
    }
}

/// Whether the core is healthy, and what is told about it.
pub fn check_mihomo_health(client: &MihomoClient, reply: Result<VersionResp, String>) -> (r: (
    bool,
    Notes,
))
    ensures
        r.0 == reply is Ok,
        r.1@ == seq![health_note(client.spec_label(), version_of(reply))],
{
    let endpoint = client.endpoint_label();
    match reply {
        Ok(v) => (
            true,
            Notes::one(
                text::cat4(
                    "mihomo controller online (",
                    endpoint.as_str(),
                    "): ",
                    v.version.as_str(),
                ),
            ),
        ),
        Err(err) => (
            false,
            Notes::one(
                text::cat5(
                    "mihomo controller unreachable (",
                    endpoint.as_str(),
                    "): ",
                    err.as_str(),
                    ". check core process, external-controller, secret, or local socket path",
                ),
            ),
        ),
    }
}

/// The steps on the way to a core that answers.
#[derive(Debug, Clone, Copy, PartialEq, Eq, Structural)]
pub enum ReadyStep {
    Done(bool),
    /// Take over a core that listens on a known socket.
    AdoptSocket,
    /// Does the core that was taken over answer?
    CheckAdopted,
    /// Does the core answer that the panel is connected to?
    CheckConnected,
    /// Start a core of our own.
    Start,
    /// Look for Clash Verge's controller, since no core could be started.
    AdoptInstead,
    /// Does the core answer now?
    CheckStarted,
    /// Look for Clash Verge's controller, since no core answers.
    AdoptController,
    /// Does Clash Verge's core answer?
    CheckController,
}

impl ReadyStep {
    /// Whether the step asks a core whether it answers.
    pub open spec fn is_check(self) -> bool {
        self is CheckAdopted || self is CheckConnected || self is CheckStarted
            || self is CheckController
    }

    /// How many steps are ahead at most.
    pub open spec fn rank(self) -> nat {
        match self {
            ReadyStep::Done(_) => 0,
            ReadyStep::CheckAdopted => 1,
            ReadyStep::CheckController => 1,
            ReadyStep::AdoptController => 2,
            ReadyStep::CheckStarted => 3,
            ReadyStep::AdoptInstead => 4,
            ReadyStep::Start => 5,
            ReadyStep::CheckConnected => 6,
            ReadyStep::AdoptSocket => 7,
        }
    }
}

/// Whether a core that is reached over HTTP is left alone.
pub open spec fn skips_connected(independent: bool, local: bool) -> bool {
    independent && !local
}

/// The step after a step that went well or not. A panel that wants a core of its own asks the core
/// that it is connected to only over a local socket, and never looks for another controller.
pub open spec fn ready_after(step: ReadyStep, ok: bool, independent: bool, local: bool) -> ReadyStep {
    match step {
        ReadyStep::Done(r) => ReadyStep::Done(r),
        ReadyStep::AdoptSocket => if ok {
            ReadyStep::CheckAdopted
        } else if skips_connected(independent, local) {
            ReadyStep::Start
        } else {
            ReadyStep::CheckConnected
        },
        ReadyStep::CheckAdopted => ReadyStep::Done(ok),
        ReadyStep::CheckConnected => if ok {
            ReadyStep::Done(true)
        } else {
            ReadyStep::Start
        },
        ReadyStep::Start => if ok || independent {
            ReadyStep::CheckStarted
        } else {
            ReadyStep::AdoptInstead
        },
        ReadyStep::AdoptInstead => ReadyStep::CheckStarted,
        ReadyStep::CheckStarted => if ok {
            ReadyStep::Done(true)
        } else if independent {
            ReadyStep::Done(false)
        } else {
            ReadyStep::AdoptController
        },
        ReadyStep::AdoptController => ReadyStep::CheckController,
        ReadyStep::CheckController => ReadyStep::Done(ok),
    }
}

/// What is told at a step.
pub open spec fn ready_notes(
    step: ReadyStep,
    result: Result<bool, Seq<char>>,
    independent: bool,
    local: bool,
) -> Seq<Seq<char>> {
    if step == ReadyStep::AdoptSocket && result != Ok::<bool, Seq<char>>(true) && skips_connected(
        independent,
        local,
    ) {
        seq!["independent mode enabled: skip adopting external HTTP controller"@]
    } else if step == ReadyStep::Start && result is Err {
        seq!["start managed mihomo failed: "@ + result->Err_0]
    } else {
        seq![]
    }
}

/// The first step.
pub fn ensure_mihomo_ready() -> (r: ReadyStep)
    ensures
        r == ReadyStep::AdoptSocket,
{
    ReadyStep::AdoptSocket
}

pub open spec fn plain_flag(r: Result<bool, String>) -> Result<bool, Seq<char>> {
    match r {
        Ok(b) => Ok(b),
        Err(e) => Err(e@),
    }
}

pub fn ready_next(step: ReadyStep, result: Result<bool, String>, independent: bool, local: bool) -> (r:
    (ReadyStep, Notes))
    ensures
        r.0 == ready_after(
            step,
            result == Ok::<bool, String>(true),
            independent,
            local,
        ),
        r.1@ == ready_notes(step, plain_flag(result), independent, local),
        step is Done || r.0.rank() < step.rank(),
{
    let mut notes = Notes::none();
    let mut ok = false;
    match result {
        Ok(b) => {
            ok = b;
        },
        Err(err) => {
            if step == ReadyStep::Start {
                notes.add(text::cat2("start managed mihomo failed: ", err.as_str()));
                assert(notes@ =~= seq!["start managed mihomo failed: "@ + err@]);
            }
        },
    }
    let next = match step {
        ReadyStep::Done(done) => ReadyStep::Done(done),
        ReadyStep::AdoptSocket => {
            if ok {
                ReadyStep::CheckAdopted
            } else if independent && !local {
                notes.add(
                    "independent mode enabled: skip adopting external HTTP controller".to_owned(),
                );
                assert(notes@ =~= seq![
                    "independent mode enabled: skip adopting external HTTP controller"@,
                ]);
                ReadyStep::Start
            } else {
                ReadyStep::CheckConnected
            }
        },
        ReadyStep::CheckAdopted => ReadyStep::Done(ok),
        ReadyStep::CheckConnected => {
            if ok {
                ReadyStep::Done(true)
            } else {
                ReadyStep::Start
            }
        },
        ReadyStep::Start => {
            if ok || independent {
                ReadyStep::CheckStarted
            } else {
                ReadyStep::AdoptInstead
            }
        },
        ReadyStep::AdoptInstead => ReadyStep::CheckStarted,
        ReadyStep::CheckStarted => {
            if ok {
                ReadyStep::Done(true)
            } else if independent {
                ReadyStep::Done(false)
            } else {
                ReadyStep::AdoptController
            }
        },
        ReadyStep::AdoptController => ReadyStep::CheckController,
        ReadyStep::CheckController => ReadyStep::Done(ok),
    };
    (next, notes)
}

/// The core counts as ready only when it has just answered. A panel that wants a core of its own
/// never looks for another controller.
pub proof fn law_ready_means_answered(step: ReadyStep, ok: bool, independent: bool, local: bool)
    requires
        !(step is Done),
    ensures
        ready_after(step, ok, independent, local) == ReadyStep::Done(true) ==> ok
            && step.is_check(),
        ready_after(step, ok, independent, local) is Done ==> step.is_check(),
        independent && !(step is AdoptController) ==> !(ready_after(
            step,
            ok,
            independent,
            local,
        ) is AdoptController) && !(ready_after(step, ok, independent, local) is AdoptInstead),
{
}

/// A running core is looked for first, then one of our own is started.
pub proof fn law_direct_core_first(independent: bool, local: bool)
    ensures
        ready_after(ReadyStep::AdoptSocket, true, independent, local) == ReadyStep::CheckAdopted,
        skips_connected(independent, local) ==> ready_after(
            ReadyStep::AdoptSocket,
            false,
            independent,
            local,
        ) == ReadyStep::Start,
        !skips_connected(independent, local) ==> ready_after(
            ready_after(ReadyStep::AdoptSocket, false, independent, local),
            false,
            independent,
            local,
        ) == ReadyStep::Start,
{
}

/// Whether sockets come before the controller: Clash Verge keeps its controller off, or names
/// none.
pub open spec fn sockets_first(h: ClashVergeApiHint) -> bool {
    h.enable_external_controller == Some(false) || h.controller_url is None
}

/// The sockets at which Clash Verge's core is looked for, and what is told first.
pub fn begin_adopt(platform: Platform, found: Option<&ClashVergeApiHint>) -> (r: (Vec<String>, Notes))
    ensures
        match found {
            None => r.0@.len() == 0 && r.1@
                == seq!["no clash-verge config.yaml found for controller auto-detect"@],
            Some(h) => {
                &&& r.1@ == seq!["detected clash-verge config: "@ + h.source_config@]
                &&& if sockets_first(*h) {
                    &&& order::increasing(text::texts(r.0@))
                    &&& forall|path: Seq<char>| #[trigger]
                        text::texts(r.0@).contains(path) <==> hint::is_local_socket(platform, *h, path)
                } else {
                    r.0@.len() == 0
                }
            },
        },
{
    match found {
        None => (
            Vec::new(),
            Notes::say("no clash-verge config.yaml found for controller auto-detect"),
        ),
        Some(h) => {
            let notes = Notes::one(
                text::cat2("detected clash-verge config: ", h.source_config.as_str()),
            );
            let off = match h.enable_external_controller {
                Some(on) => !on,
                None => false,
            };
            if off || h.controller_url.is_none() {
                (hint::local_socket_candidates(platform, h), notes)
            } else {
                (Vec::new(), notes)
            }
        },
    }
}

/// What came of a socket.
#[derive(Debug)]
pub enum SocketReply {
    /// There is none.
    Missing,
    /// The path cannot be used.
    Unusable(String),
    /// Nothing answers.
    Unreachable(String),
    /// A core of this version answers.
    Version(VersionResp),
}

/// Whether a core was found on a socket: it answers, and the socket has a path.
pub open spec fn found_on(socket: Seq<char>, reply: SocketReply) -> bool {
    reply is Version && text::trimmed(socket).len() > 0
}

/// Whether `client` is connected to a socket.
pub open spec fn is_connected_to(client: MihomoClient, socket: Seq<char>) -> bool {
    &&& client.endpoint is LocalSocket
    &&& client.endpoint->socket_path@ == text::trimmed(socket)
    &&& client.secret is None
}

/// What is told of a socket in the search for a running core: only that it was taken over, unless
/// the panel was connected to it already.
pub open spec fn existing_notes(label: Seq<char>, socket: Seq<char>, reply: SocketReply) -> Seq<
    Seq<char>,
> {
    if found_on(socket, reply) && label != "local://"@ + socket {
        seq![
            "adopted existing mihomo socket => "@ + socket + " (mihomo "@
                + reply->Version_0.version@ + ")"@,
        ]
    } else {
        seq![]
    }
}

/// What is told of a socket in the search for Clash Verge's core.
pub open spec fn adopt_notes(socket: Seq<char>, reply: SocketReply) -> Seq<Seq<char>> {
    match reply {
        SocketReply::Missing => seq![],
        SocketReply::Unusable(err) => seq![
            "adopt local socket failed: "@ + socket + " ("@ + err@ + ")"@,
        ],
        SocketReply::Unreachable(err) => seq![
            "socket candidate unreachable: "@ + socket + " ("@ + err@ + ")"@,
        ],
        SocketReply::Version(version) => if text::trimmed(socket).len() > 0 {
            seq!["adopted local socket => "@ + socket + " (mihomo "@ + version.version@ + ")"@]
        } else {
            seq!["adopt local socket failed: "@ + socket + " ("@ + "empty socket path"@ + ")"@]
        },
    }
}

/// A search for a core on one socket after the other.
#[derive(Debug)]
pub struct SocketSearch {
    pub sockets: Vec<String>,
    pub at: usize,
}

#[derive(Debug)]
pub enum SearchStep {
    /// Ask on this socket.
    Ask(String),
    /// Whether a core was taken over.
    Done(bool),
}

impl SocketSearch {
    /// The next step where nothing was found so far.
    pub open spec fn is_step(self, step: SearchStep) -> bool {
        if self.at < self.sockets@.len() {
            step is Ask && step->Ask_0@ == self.sockets@[self.at as int]@
        } else {
            step == SearchStep::Done(false)
        }
    }

    /// The search after a reply: over with the first core that answers, which is taken over.
    pub open spec fn goes_on(
        self,
        after: SocketSearch,
        before: MihomoClient,
        mihomo: MihomoClient,
        reply: SocketReply,
        step: SearchStep,
    ) -> bool {
        let socket = self.sockets@[self.at as int]@;
        &&& after.sockets == self.sockets
        &&& if found_on(socket, reply) {
            &&& is_connected_to(mihomo, socket)
            &&& after.at == self.at
            &&& step == SearchStep::Done(true)
        } else {
            &&& mihomo == before
            &&& after.at == self.at + 1
            &&& after.is_step(step)
        }
    }

    pub fn new(sockets: Vec<String>) -> (r: SocketSearch)
        ensures
            r.sockets == sockets,
            r.at == 0,
    {
        SocketSearch { sockets, at: 0 }
    }

    pub fn step(&self) -> (r: SearchStep)
        ensures
            self.is_step(r),
    {
        if self.at < self.sockets.len() {
            SearchStep::Ask(self.sockets[self.at].clone())
        } else {
            SearchStep::Done(false)
        }
    }

    fn proceed(&mut self, mihomo: &mut MihomoClient, found: Option<MihomoClient>) -> (r: SearchStep)
        requires
            old(self).at < old(self).sockets@.len(),
        ensures
            final(self).sockets == old(self).sockets,
            match found {
                Some(client) => *final(mihomo) == client && final(self).at == old(self).at && r
                    == SearchStep::Done(true),
                None => *final(mihomo) == *old(mihomo) && final(self).at == old(self).at + 1
                    && final(self).is_step(r),
            },
    {
        match found {
            Some(client) => {
                *mihomo = client;
                SearchStep::Done(true)
            },
            None => {
                assert(self.at < self.sockets.len());
                self.at = self.at + 1;
                self.step()
            },
        }
    }

    /// Takes in what came of a socket in the search for a running core.
    pub fn adopt_existing_local_socket(&mut self, mihomo: &mut MihomoClient, reply: SocketReply) -> (r:
        (SearchStep, Notes))
        requires
            old(self).at < old(self).sockets@.len(),
        ensures
            old(self).goes_on(*final(self), *old(mihomo), *final(mihomo), reply, r.0),
            r.1@ == existing_notes(
                old(mihomo).spec_label(),
                old(self).sockets@[old(self).at as int]@,
                reply,
            ),
    {
        let socket = self.sockets[self.at].clone();
        if let SocketReply::Version(version) = reply {
            if let Ok(client) = MihomoClient::new_local_socket(socket.as_str()) {
                let current = mihomo.endpoint_label();
                let target = text::cat2("local://", socket.as_str());
                let notes = if text::same(current.as_str(), target.as_str()) {
                    Notes::none()
                } else {
                    Notes::one(
                        text::cat5(
                            "adopted existing mihomo socket => ",
                            socket.as_str(),
                            " (mihomo ",
                            version.version.as_str(),
                            ")",
                        ),
                    )
                };
                return (self.proceed(mihomo, Some(client)), notes);
            }
        }
        (self.proceed(mihomo, None), Notes::none())
    }

    /// Takes in what came of a socket in the search for Clash Verge's core.
    pub fn adopt_clash_verge_socket(&mut self, mihomo: &mut MihomoClient, reply: SocketReply) -> (r: (
        SearchStep,
        Notes,
    ))
        requires
            old(self).at < old(self).sockets@.len(),
        ensures
            old(self).goes_on(*final(self), *old(mihomo), *final(mihomo), reply, r.0),
            r.1@ == adopt_notes(old(self).sockets@[old(self).at as int]@, reply),
    {
        let socket = self.sockets[self.at].clone();
        let socket = socket.as_str();
        match reply {
            SocketReply::Missing => (self.proceed(mihomo, None), Notes::none()),
            SocketReply::Unusable(err) => (
                self.proceed(mihomo, None),
                Notes::one(
                    text::cat5("adopt local socket failed: ", socket, " (", err.as_str(), ")"),
                ),
            ),
            SocketReply::Unreachable(err) => (
                self.proceed(mihomo, None),
                Notes::one(
                    text::cat5(
                        "socket candidate unreachable: ",
                        socket,
                        " (",
                        err.as_str(),
                        ")",
                    ),
                ),
            ),
            SocketReply::Version(version) => match MihomoClient::new_local_socket(socket) {
                Ok(client) => (
                    self.proceed(mihomo, Some(client)),
                    Notes::one(
                        text::cat5(
                            "adopted local socket => ",
                            socket,
                            " (mihomo ",
                            version.version.as_str(),
                            ")",
                        ),
                    ),
                ),
                Err(err) => (
                    self.proceed(mihomo, None),
                    Notes::one(
                        text::cat5(
                            "adopt local socket failed: ",
                            socket,
                            " (",
                            err.message().as_str(),
                            ")",
                        ),
                    ),
                ),
            },
        }
    }
}

/// The settings with the controller that was found: its address, and its secret and mixed port
/// where they are known.
pub open spec fn adopts(h: ClashVergeApiHint, before: VergeConfig, after: VergeConfig) -> bool {
    &&& h.controller_url is Some
    &&& after == (VergeConfig {
        controller_url: h.controller_url->0,
        secret: match h.secret {
            Some(secret) => secret,
            None => before.secret,
        },
        mixed_port: match h.mixed_port {
            Some(port) => port,
            None => before.mixed_port,
        },
        ..before
    })
}

/// Whether two settings name the same controller.
pub open spec fn same_controller(a: VergeConfig, b: VergeConfig) -> bool {
    a.controller_url@ == b.controller_url@ && a.secret@ == b.secret@ && a.mixed_port
        == b.mixed_port
}

/// Takes over the address of the controller that was found. Gives whether the state is to be
/// saved, since something changed.
pub fn adopt_controller(verge: &mut VergeConfig, h: &ClashVergeApiHint) -> (r: (bool, Notes))
    ensures
        match h.controller_url {
            None => {
                &&& !r.0
                &&& *final(verge) == *old(verge)
                &&& r.1@ == if h.enable_external_controller == Some(false) {
                    seq![
                        "clash-verge external-controller is disabled, and no local socket path was reachable"@,
                    ]
                } else {
                    seq!["clash-verge external-controller is empty; cannot connect by HTTP API"@]
                }
            },
            Some(_) => {
                &&& adopts(*h, *old(verge), *final(verge))
                &&& r.0 == !same_controller(*old(verge), *final(verge))
                &&& r.1@ == if r.0 {
                    seq![]
                } else {
                    seq!["controller auto-detect found same settings; no update"@]
                }
            },
        },
{
    let url = match &h.controller_url {
        Some(url) => url.clone(),
        None => {
            let off = match h.enable_external_controller {
                Some(on) => !on,
                None => false,
            };
            if off {
                return (
                    false,
                    Notes::say(
                        "clash-verge external-controller is disabled, and no local socket path was reachable",
                    ),
                );
            }
            return (
                false,
                Notes::say(
                    "clash-verge external-controller is empty; cannot connect by HTTP API",
                ),
            );
        },
    };
    let mut same = text::same(verge.controller_url.as_str(), url.as_str());
    verge.controller_url = url;
    if let Some(secret) = &h.secret {
        same = same && text::same(verge.secret.as_str(), secret.as_str());
        verge.secret = secret.clone();
    }
    if let Some(port) = h.mixed_port {
        same = same && verge.mixed_port == port;
        verge.mixed_port = port;
    }
    if same {
        (false, Notes::say("controller auto-detect found same settings; no update"))
    } else {
        (true, Notes::none())
    }
}

/// Connects to the controller that was taken over, once the state is saved.
pub fn after_adopt_save(
    mihomo: &mut MihomoClient,
    verge: &VergeConfig,
    saved: Result<(), String>,
) -> (r: Notes)
    ensures
        match saved {
            Err(err) => *final(mihomo) == *old(mihomo) && r@ == seq![
                "save auto-detected controller failed: "@ + err@,
            ],
            Ok(_) => if weburl::url_parsed(verge.controller_url@) is None {
                &&& *final(mihomo) == *old(mihomo)
                &&& r@ == seq![
                    "build detected controller client failed: "@ + ("invalid controller URL: "@
                        + verge.controller_url@),
                ]
            } else if verge.secret@.len() > 0 && !client::is_header(
                client::bearer(verge.secret@),
            ) {
                &&& *final(mihomo) == *old(mihomo)
                &&& r@ == seq![
                    "build detected controller client failed: "@ + "invalid authorization header"@,
                ]
            } else {
                &&& client::connects(verge.controller_url@, verge.secret@, *final(mihomo))
                &&& r@ == seq!["adopted controller => "@ + verge.controller_url@]
            },
        },
{
    if let Err(err) = saved {
        return Notes::one(text::cat2("save auto-detected controller failed: ", err.as_str()));
    }
    match MihomoClient::new(verge.controller_url.as_str(), Some(verge.secret.as_str())) {
        Ok(client) => {
            *mihomo = client;
            Notes::one(text::cat2("adopted controller => ", verge.controller_url.as_str()))
        },
        Err(err) => Notes::one(
            text::cat2("build detected controller client failed: ", err.message().as_str()),
        ),
    }
}

} // verus!
