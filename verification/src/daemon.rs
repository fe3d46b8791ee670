//! What the command-line client asks of the daemon, and when the daemon
//! attempts a login.

use vstd::prelude::*;

use crate::config::{CheckMethod, Config, ConfigView};

verus! {

/// The bytes of the request that asks for a login check after credentials changed.
pub open spec fn login_request_bytes() -> Seq<u8> {
    seq![76u8, 79u8, 71u8, 73u8, 78u8]
}

/// The bytes of the request that asks for a login check.
pub open spec fn refresh_request_bytes() -> Seq<u8> {
    seq![82u8, 69u8, 70u8, 82u8, 69u8, 83u8, 72u8]
}

/// A request that the client sends over the daemon's socket.
#[derive(Debug, Clone, Copy, PartialEq, Eq, Structural)]
pub enum ClientRequest {
    /// `LOGIN`: credentials were stored; check whether a login is needed.
    Login,
    /// `REFRESH`: check whether a login is needed.
    Refresh,
}

/// The bytes that carry a request.
pub open spec fn request_bytes(r: ClientRequest) -> Seq<u8> {
    match r {
        ClientRequest::Login => login_request_bytes(),
        ClientRequest::Refresh => refresh_request_bytes(),
    }
}

/// The request that a message carries, if it carries one.
pub open spec fn parse_request(msg: Seq<u8>) -> Option<ClientRequest> {
    if msg == login_request_bytes() {
        Some(ClientRequest::Login)
    } else if msg == refresh_request_bytes() {
        Some(ClientRequest::Refresh)
    } else {
        None
    }
}

/// Whether two byte strings are equal.
fn same_bytes(a: &[u8], b: &[u8]) -> (r: bool)
    ensures
        r == (a@ == b@),
{
    if a.len() != b.len() {
        return false;
    }
    let mut i: usize = 0;
    while i < a.len()
        invariant
            a@.len() == b@.len(),
            i <= a@.len(),
            forall|j: int| 0 <= j < i ==> a@[j] == b@[j],
        decreases a@.len() - i,
    {
        if a[i] != b[i] {
            return false;
        }
        i = i + 1;
    }
    assert(a@ =~= b@);
    true
}

impl ClientRequest {
    /// The bytes that carry this request.
    pub fn to_bytes(&self) -> (v: Vec<u8>)
        ensures
            v@ == request_bytes(*self),
    {
        let v = match self {
            ClientRequest::Login => vec![76u8, 79u8, 71u8, 73u8, 78u8],
            ClientRequest::Refresh => vec![82u8, 69u8, 70u8, 82u8, 69u8, 83u8, 72u8],
        };
        assert(v@ =~= request_bytes(*self));
        v
    }

    /// The request that `msg` carries: `LOGIN` or `REFRESH`, byte for byte.
    pub fn parse(msg: &[u8]) -> (r: Option<ClientRequest>)
        ensures
            r == parse_request(msg@),
    {
        let login = ClientRequest::Login.to_bytes();
        let refresh = ClientRequest::Refresh.to_bytes();
        if same_bytes(msg, login.as_slice()) {
            Some(ClientRequest::Login)
        } else if same_bytes(msg, refresh.as_slice()) {
            Some(ClientRequest::Refresh)
        } else {
            None
        }
    }
}

/// Every request is read back as itself.
pub proof fn lemma_request_round_trip(r: ClientRequest)
    ensures
        parse_request(request_bytes(r)) == Some(r),
{
    assert(login_request_bytes() != refresh_request_bytes()) by {
        assert(login_request_bytes().len() != refresh_request_bytes().len());
    }
}

/// A command of the command-line client.
#[derive(Debug, Clone, Copy, PartialEq, Eq, Structural)]
pub enum ClientCommand {
    /// `set`: store the user name and password, then ask for a login check.
    Store,
    /// `login`: ask for a login check.
    Login,
    /// `refresh`: ask for a login check.
    Refresh,
}

impl ClientCommand {
    /// Whether the command first prompts for and stores credentials.
    pub fn stores_credentials(&self) -> (r: bool)
        ensures
            r == (*self == ClientCommand::Store),
    {
        match self {
            ClientCommand::Store => true,
            _ => false,
        }
    }

    /// The request the command sends to the daemon.
    pub fn request(&self) -> (r: ClientRequest)
        ensures
            r == (match *self {
                ClientCommand::Refresh => ClientRequest::Refresh,
                _ => ClientRequest::Login,
            }),
    {
        match self {
            ClientCommand::Refresh => ClientRequest::Refresh,
            _ => ClientRequest::Login,
        }
    }
}

/// Something that happens to the daemon.
#[derive(Debug, Clone)]
pub enum DaemonEvent {
    /// The daemon has just started.
    Started,
    /// A client sent these bytes over the socket.
    Message(Vec<u8>),
    /// A periodic probe of the configured site finished; whether it was reachable.
    PingResult(bool),
    /// NetworkManager's primary connection changed.
    PrimaryConnectionChanged,
}

/// Whether the daemon attempts a login on `event`, with check method `check`:
/// always at start, on every client request, when the probed site is
/// unreachable in `ping` mode, and when the network changes in `nm` mode.
pub open spec fn reacts(check: CheckMethod, event: DaemonEvent) -> bool {
    match event {
        DaemonEvent::Started => true,
        DaemonEvent::Message(m) => parse_request(m@) is Some,
        DaemonEvent::PingResult(reachable) => check == CheckMethod::Ping && !reachable,
        DaemonEvent::PrimaryConnectionChanged => check == CheckMethod::Nm,
    }
}

/// Decides whether the daemon attempts a login on `event`.
pub fn should_log_in(check: CheckMethod, event: &DaemonEvent) -> (r: bool)
    ensures
        r == reacts(check, *event),
{
    match event {
        DaemonEvent::Started => true,
        DaemonEvent::Message(m) => ClientRequest::parse(m.as_slice()).is_some(),
        DaemonEvent::PingResult(reachable) => check == CheckMethod::Ping && !*reachable,
        DaemonEvent::PrimaryConnectionChanged => check == CheckMethod::Nm,
    }
}

/// Whatever the check method, every request a client can send triggers a
/// login attempt, and a reachable site never does.
pub proof fn lemma_client_requests_trigger(check: CheckMethod, r: ClientRequest, v: Vec<u8>)
    requires
        v@ == request_bytes(r),
    ensures
        reacts(check, DaemonEvent::Message(v)),
        !reacts(check, DaemonEvent::PingResult(true)),
{
    lemma_request_round_trip(r);
}

/// How the daemon watches for network changes between client requests.
#[derive(Debug)]
pub enum Monitor {
    /// Listen for changes of NetworkManager's primary connection.
    WatchNetwork,
    /// Send a HEAD request to `site` every `seconds` seconds.
    PingEvery { seconds: u32, site: String },
    /// Do not watch: `ping` mode with a probe interval of zero.
    Off,
}

pub enum MonitorView {
    WatchNetwork,
    PingEvery { seconds: u32, site: Seq<char> },
    Off,
}

impl View for Monitor {
    type V = MonitorView;

    open spec fn view(&self) -> MonitorView {
        match self {
            Monitor::WatchNetwork => MonitorView::WatchNetwork,
            Monitor::PingEvery { seconds, site } => MonitorView::PingEvery {
                seconds: *seconds,
                site: site@,
            },
            Monitor::Off => MonitorView::Off,
        }
    }
}

/// The watch that a configuration asks for: the network in `nm` mode; the
/// configured site at the configured interval in `ping` mode, unless the
/// interval is zero, which leaves nothing to repeat.
pub open spec fn monitor_for(c: ConfigView) -> MonitorView {
    match c.check {
        CheckMethod::Nm => MonitorView::WatchNetwork,
        CheckMethod::Ping => if c.interval == 0 {
            MonitorView::Off
        } else {
            MonitorView::PingEvery { seconds: c.interval, site: c.site }
        },
    }
}

/// `nm` mode always watches NetworkManager; `ping` mode with a positive
/// interval probes the configured site every configured number of seconds;
/// `ping` mode with an interval of zero does not watch. Only `nm` mode
/// watches NetworkManager.
pub proof fn lemma_monitor_follows_check_method(c: ConfigView)
    ensures
        c.check == CheckMethod::Nm ==> monitor_for(c) == MonitorView::WatchNetwork,
        c.check == CheckMethod::Ping && c.interval > 0 ==> monitor_for(c)
            == (MonitorView::PingEvery { seconds: c.interval, site: c.site }),
        c.check == CheckMethod::Ping && c.interval == 0 ==> monitor_for(c) == MonitorView::Off,
        monitor_for(c) == MonitorView::WatchNetwork <==> c.check == CheckMethod::Nm,
{
}

/// Chooses how the daemon watches for network changes.
pub fn monitor(config: &Config) -> (m: Monitor)
    ensures
        m@ == monitor_for(config@),
{
    match config.check {
        CheckMethod::Nm => Monitor::WatchNetwork,
        CheckMethod::Ping => if config.ping.interval == 0 {
            Monitor::Off
        } else {
            Monitor::PingEvery { seconds: config.ping.interval, site: config.ping.site.clone() }
        },
    }
}

/// The daemon attempts a login at start whatever the mode; on a client
/// message exactly when it is the bytes `LOGIN` or `REFRESH`; on a probe
/// result exactly when in `ping` mode the site was unreachable; on a network
/// change exactly when in `nm` mode.
pub proof fn lemma_daemon_reactions(check: CheckMethod, v: Vec<u8>, reachable: bool)
    ensures
        reacts(check, DaemonEvent::Started),
        reacts(check, DaemonEvent::Message(v)) <==> (v@ == seq![76u8, 79u8, 71u8, 73u8, 78u8]
            || v@ == seq![82u8, 69u8, 70u8, 82u8, 69u8, 83u8, 72u8]),
        reacts(check, DaemonEvent::PingResult(reachable)) <==> (check == CheckMethod::Ping
            && !reachable),
        reacts(check, DaemonEvent::PrimaryConnectionChanged) <==> check == CheckMethod::Nm,
        request_bytes(ClientRequest::Login) == seq![76u8, 79u8, 71u8, 73u8, 78u8],
        request_bytes(ClientRequest::Refresh) == seq![82u8, 69u8, 70u8, 82u8, 69u8, 83u8, 72u8],
{
}

} // verus!

