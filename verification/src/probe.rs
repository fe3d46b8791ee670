//! Whether the active connection is a campus connection that still needs a
//! login.
//!
//! The answer needs a few questions to NetworkManager, and which question
//! comes next depends on the answers so far. The decisions are a state
//! machine: [`ProbeState::step`] takes the answer to the last question and
//! gives the next state and what to do next, a question or the verdict.

use vstd::prelude::*;

use crate::error::{Error, ErrorView};
use crate::nm::{connectivity_code, Code, ConnectivityState};
use crate::text::{join2, join3, same_text, starts_with};

verus! {

/// The connection type that NetworkManager gives a wired connection.
pub open spec fn ethernet_kind() -> Seq<char> {
    "802-3-ethernet"@
}

/// The connection type that NetworkManager gives a wireless connection.
pub open spec fn wireless_kind() -> Seq<char> {
    "802-11-wireless"@
}

/// Addresses of the campus wired network begin with this text.
pub open spec fn campus_prefix() -> Seq<char> {
    "114.214."@
}

/// The name of the campus wireless network.
pub open spec fn campus_ssid() -> Seq<char> {
    "ustcnet"@
}

/// The text of the error for a primary connection without a device.
pub open spec fn no_device_message(primary: Seq<char>) -> Seq<char> {
    "连接 "@ + primary + " 无设备"@
}

/// The text of the error for a device without IPv4 address data.
pub open spec fn no_address_message() -> Seq<char> {
    "无可用 IP 信息"@
}

/// The text of the error for address data without an `address` entry.
pub open spec fn missing_field_message() -> Seq<char> {
    "IP 地址数据缺失"@
}

/// The text of the error for an `address` entry that is not text.
pub open spec fn not_text_message(detail: Seq<char>) -> Seq<char> {
    "IP 地址类型转换失败："@ + detail
}

/// The text of the error for a connection that is neither wired nor wireless.
pub open spec fn unknown_kind_message() -> Seq<char> {
    "未知的连接类型"@
}

/// What the first IPv4 address entry of the device holds.
#[derive(Debug)]
pub enum AddressReport {
    /// The device has no IPv4 address data at all.
    NoAddress,
    /// The first address entry has no `address` field.
    MissingField,
    /// The `address` field is not text; the description of the conversion error.
    NotText(String),
    /// The address, as text.
    Text(String),
}

/// An answer from NetworkManager to the question the machine asked last.
#[derive(Debug)]
pub enum ProbeEvent {
    /// The primary connection: its object path, its type, and whether it has a device.
    Connection { primary: String, kind: String, has_device: bool },
    /// The IPv4 connectivity code of the connection's first device.
    Connectivity(u32),
    /// What the device's IPv4 configuration holds.
    Address(AddressReport),
    /// The name of the wireless connection.
    WirelessId(String),
    /// The question could not be answered.
    Failed(Error),
}

/// What to do next.
#[derive(Debug)]
pub enum ProbeAction {
    /// Ask for the primary connection, its type and its devices.
    QueryConnection,
    /// Ask for the IPv4 connectivity of the first device.
    QueryConnectivity,
    /// Ask for the first IPv4 address of the first device.
    QueryAddress,
    /// Ask for the name of the connection.
    QueryWirelessId,
    /// Stop: whether a login is needed, or why this could not be told.
    Finish(Result<bool, Error>),
}

/// Where the machine stands.
#[derive(Debug)]
pub enum ProbeState {
    /// Waiting for the primary connection.
    AwaitConnection,
    /// Waiting for the connectivity of the connection of type `kind`.
    AwaitConnectivity { kind: String },
    /// Waiting for the address of a wired connection.
    AwaitAddress,
    /// Waiting for the name of a wireless connection.
    AwaitWirelessId,
    /// The verdict has been given.
    Finished,
}

pub enum AddressReportView {
    NoAddress,
    MissingField,
    NotText(Seq<char>),
    Text(Seq<char>),
}

pub enum ProbeEventView {
    Connection { primary: Seq<char>, kind: Seq<char>, has_device: bool },
    Connectivity(u32),
    Address(AddressReportView),
    WirelessId(Seq<char>),
    Failed(ErrorView),
}

pub enum ProbeActionView {
    QueryConnection,
    QueryConnectivity,
    QueryAddress,
    QueryWirelessId,
    Finish(Result<bool, ErrorView>),
}

pub enum ProbeStateView {
    AwaitConnection,
    AwaitConnectivity { kind: Seq<char> },
    AwaitAddress,
    AwaitWirelessId,
    Finished,
}

impl View for AddressReport {
    type V = AddressReportView;

    open spec fn view(&self) -> AddressReportView {
        match self {
            AddressReport::NoAddress => AddressReportView::NoAddress,
            AddressReport::MissingField => AddressReportView::MissingField,
            AddressReport::NotText(d) => AddressReportView::NotText(d@),
            AddressReport::Text(a) => AddressReportView::Text(a@),
        }
    }
}

impl View for ProbeEvent {
    type V = ProbeEventView;

    open spec fn view(&self) -> ProbeEventView {
        match self {
            ProbeEvent::Connection { primary, kind, has_device } => ProbeEventView::Connection {
                primary: primary@,
                kind: kind@,
                has_device: *has_device,
            },
            ProbeEvent::Connectivity(c) => ProbeEventView::Connectivity(*c),
            ProbeEvent::Address(r) => ProbeEventView::Address(r@),
            ProbeEvent::WirelessId(id) => ProbeEventView::WirelessId(id@),
            ProbeEvent::Failed(e) => ProbeEventView::Failed(e@),
        }
    }
}

impl View for ProbeAction {
    type V = ProbeActionView;

    open spec fn view(&self) -> ProbeActionView {
        match self {
            ProbeAction::QueryConnection => ProbeActionView::QueryConnection,
            ProbeAction::QueryConnectivity => ProbeActionView::QueryConnectivity,
            ProbeAction::QueryAddress => ProbeActionView::QueryAddress,
            ProbeAction::QueryWirelessId => ProbeActionView::QueryWirelessId,
            ProbeAction::Finish(r) => ProbeActionView::Finish(
                match r {
                    Ok(b) => Ok(*b),
                    Err(e) => Err(e@),
                },
            ),
        }
    }
}

impl View for ProbeState {
    type V = ProbeStateView;

    open spec fn view(&self) -> ProbeStateView {
        match self {
            ProbeState::AwaitConnection => ProbeStateView::AwaitConnection,
            ProbeState::AwaitConnectivity { kind } => ProbeStateView::AwaitConnectivity {
                kind: kind@,
            },
            ProbeState::AwaitAddress => ProbeStateView::AwaitAddress,
            ProbeState::AwaitWirelessId => ProbeStateView::AwaitWirelessId,
            ProbeState::Finished => ProbeStateView::Finished,
        }
    }
}

/// The verdict that the address of a wired connection gives.
pub open spec fn address_verdict(r: AddressReportView) -> Result<bool, ErrorView> {
    match r {
        AddressReportView::NoAddress => Err(ErrorView::Other(no_address_message())),
        AddressReportView::MissingField => Err(ErrorView::Other(missing_field_message())),
        AddressReportView::NotText(d) => Err(ErrorView::Other(not_text_message(d))),
        AddressReportView::Text(ip) => Ok(campus_prefix().is_prefix_of(ip)),
    }
}

impl ProbeStateView {
    /// The answers the machine can take in this state: the answer to the
    /// question it asked, or the report that the question failed.
    pub open spec fn accepts(self, e: ProbeEventView) -> bool {
        match (self, e) {
            (ProbeStateView::Finished, _) => false,
            (_, ProbeEventView::Failed(_)) => true,
            (ProbeStateView::AwaitConnection, ProbeEventView::Connection { .. }) => true,
            (ProbeStateView::AwaitConnectivity { .. }, ProbeEventView::Connectivity(_)) => true,
            (ProbeStateView::AwaitAddress, ProbeEventView::Address(_)) => true,
            (ProbeStateView::AwaitWirelessId, ProbeEventView::WirelessId(_)) => true,
            _ => false,
        }
    }

    /// The next state and action, for an answer that the state accepts.
    pub open spec fn next(self, e: ProbeEventView) -> (ProbeStateView, ProbeActionView) {
        match (self, e) {
            (_, ProbeEventView::Failed(err)) => (
                ProbeStateView::Finished,
                ProbeActionView::Finish(Err(err)),
            ),
            (
                ProbeStateView::AwaitConnection,
                ProbeEventView::Connection { primary, kind, has_device },
            ) => if has_device {
                (ProbeStateView::AwaitConnectivity { kind }, ProbeActionView::QueryConnectivity)
            } else {
                (
                    ProbeStateView::Finished,
                    ProbeActionView::Finish(Err(ErrorView::Other(no_device_message(primary)))),
                )
            },
            (ProbeStateView::AwaitConnectivity { kind }, ProbeEventView::Connectivity(c)) => if c
                == connectivity_code(ConnectivityState::Full) {
                (ProbeStateView::Finished, ProbeActionView::Finish(Ok(false)))
            } else if kind == ethernet_kind() {
                (ProbeStateView::AwaitAddress, ProbeActionView::QueryAddress)
            } else if kind == wireless_kind() {
                (ProbeStateView::AwaitWirelessId, ProbeActionView::QueryWirelessId)
            } else {
                (
                    ProbeStateView::Finished,
                    ProbeActionView::Finish(Err(ErrorView::Other(unknown_kind_message()))),
                )
            },
            (ProbeStateView::AwaitAddress, ProbeEventView::Address(r)) => (
                ProbeStateView::Finished,
                ProbeActionView::Finish(address_verdict(r)),
            ),
            (ProbeStateView::AwaitWirelessId, ProbeEventView::WirelessId(id)) => (
                ProbeStateView::Finished,
                ProbeActionView::Finish(Ok(id == campus_ssid())),
            ),
            _ => (self, ProbeActionView::QueryConnection),
        }
    }
}

/// What NetworkManager reports about the primary connection.
pub struct ConnectionFacts {
    pub primary: Seq<char>,
    pub kind: Seq<char>,
    pub has_device: bool,
}

/// Everything NetworkManager would answer about the current connection: for
/// each question, either the answer or the error with which it failed.
pub struct ProbeFacts {
    pub connection: Result<ConnectionFacts, ErrorView>,
    pub connectivity: Result<u32, ErrorView>,
    pub address: Result<AddressReportView, ErrorView>,
    pub wireless_id: Result<Seq<char>, ErrorView>,
}

impl ProbeFacts {
    /// Whether a login is needed, told from all the facts at once: a
    /// connection with full connectivity needs none; a wired one needs one
    /// when its address is on the campus network; a wireless one when it is
    /// the campus network. A question that fails, among those that are
    /// asked, ends the probe with its error.
    pub open spec fn need_log_in(self) -> Result<bool, ErrorView> {
        match self.connection {
            Err(e) => Err(e),
            Ok(conn) => if !conn.has_device {
                Err(ErrorView::Other(no_device_message(conn.primary)))
            } else {
                match self.connectivity {
                    Err(e) => Err(e),
                    Ok(c) => if c == connectivity_code(ConnectivityState::Full) {
                        Ok(false)
                    } else if conn.kind == ethernet_kind() {
                        match self.address {
                            Err(e) => Err(e),
                            Ok(r) => address_verdict(r),
                        }
                    } else if conn.kind == wireless_kind() {
                        match self.wireless_id {
                            Err(e) => Err(e),
                            Ok(id) => Ok(id == campus_ssid()),
                        }
                    } else {
                        Err(ErrorView::Other(unknown_kind_message()))
                    },
                }
            },
        }
    }

    /// The answer that these facts give to a question.
    pub open spec fn answer(self, a: ProbeActionView) -> ProbeEventView {
        match a {
            ProbeActionView::QueryConnection => match self.connection {
                Ok(conn) => ProbeEventView::Connection {
                    primary: conn.primary,
                    kind: conn.kind,
                    has_device: conn.has_device,
                },
                Err(e) => ProbeEventView::Failed(e),
            },
            ProbeActionView::QueryConnectivity => match self.connectivity {
                Ok(c) => ProbeEventView::Connectivity(c),
                Err(e) => ProbeEventView::Failed(e),
            },
            ProbeActionView::QueryAddress => match self.address {
                Ok(r) => ProbeEventView::Address(r),
                Err(e) => ProbeEventView::Failed(e),
            },
            ProbeActionView::QueryWirelessId => match self.wireless_id {
                Ok(id) => ProbeEventView::WirelessId(id),
                Err(e) => ProbeEventView::Failed(e),
            },
            ProbeActionView::Finish(_) => ProbeEventView::Connectivity(0),
        }
    }
}

/// Runs the machine for at most `fuel` answers drawn from `facts`; the
/// action it stands at then.
pub open spec fn run(
    s: ProbeStateView,
    a: ProbeActionView,
    facts: ProbeFacts,
    fuel: nat,
) -> ProbeActionView
    decreases fuel,
{
    if a is Finish || fuel == 0 {
        a
    } else {
        let (s2, a2) = s.next(facts.answer(a));
        run(s2, a2, facts, (fuel - 1) as nat)
    }
}

/// Whether every answer drawn from `facts` within `fuel` steps is one the
/// machine accepts.
pub open spec fn run_accepted(
    s: ProbeStateView,
    a: ProbeActionView,
    facts: ProbeFacts,
    fuel: nat,
) -> bool
    decreases fuel,
{
    if a is Finish || fuel == 0 {
        true
    } else {
        let (s2, a2) = s.next(facts.answer(a));
        s.accepts(facts.answer(a)) && run_accepted(s2, a2, facts, (fuel - 1) as nat)
    }
}

/// Driven from its start by the answers of NetworkManager, whether each
/// question is answered or fails, the machine accepts every answer and stops,
/// after at most four questions, with the verdict that the facts give.
pub proof fn lemma_probe_reaches_verdict(facts: ProbeFacts)
    ensures
        run_accepted(ProbeStateView::AwaitConnection, ProbeActionView::QueryConnection, facts, 4),
        run(ProbeStateView::AwaitConnection, ProbeActionView::QueryConnection, facts, 4)
            == ProbeActionView::Finish(facts.need_log_in()),
{
    reveal_with_fuel(run, 5);
    reveal_with_fuel(run_accepted, 5);
}

/// A login is judged needed only on a connection without full connectivity
/// that is either wired with a campus address or the campus wireless network.
pub proof fn lemma_login_needed_only_on_campus(facts: ProbeFacts)
    requires
        facts.need_log_in() == Ok::<bool, ErrorView>(true),
    ensures
        facts.connection matches Ok(conn) && conn.has_device && {
            &&& facts.connectivity matches Ok(c) && c != connectivity_code(ConnectivityState::Full)
            &&& (conn.kind == ethernet_kind() && (facts.address matches Ok(AddressReportView::Text(ip))
                && campus_prefix().is_prefix_of(ip))) || (conn.kind == wireless_kind()
                && facts.wireless_id == Ok::<Seq<char>, ErrorView>(campus_ssid()))
        },
{
}

/// A connection with full connectivity never needs a login, whatever it is.
pub proof fn lemma_full_connectivity_needs_no_login(facts: ProbeFacts)
    requires
        facts.connection matches Ok(conn) && conn.has_device,
        facts.connectivity == Ok::<u32, ErrorView>(connectivity_code(ConnectivityState::Full)),
    ensures
        facts.need_log_in() == Ok::<bool, ErrorView>(false),
{
}

/// On a wired connection with a device and without full connectivity
/// (code 4), the probe, run from its start, judges a login needed exactly
/// when the first address is text that begins with `114.214.`.
pub proof fn lemma_wired_campus_detection(facts: ProbeFacts, ip: Seq<char>)
    requires
        facts.connection matches Ok(conn) && conn.has_device && conn.kind == "802-3-ethernet"@,
        facts.connectivity matches Ok(c) && c != 4,
        facts.address == Ok::<AddressReportView, ErrorView>(AddressReportView::Text(ip)),
    ensures
        run(ProbeStateView::AwaitConnection, ProbeActionView::QueryConnection, facts, 4)
            == ProbeActionView::Finish(Ok::<bool, ErrorView>("114.214."@.is_prefix_of(ip))),
{
    reveal_with_fuel(run, 5);
}

/// On a wireless connection with a device and without full connectivity
/// (code 4), the probe judges a login needed exactly when the network is
/// `ustcnet`.
pub proof fn lemma_wireless_campus_detection(facts: ProbeFacts, id: Seq<char>)
    requires
        facts.connection matches Ok(conn) && conn.has_device && conn.kind == "802-11-wireless"@,
        facts.connectivity matches Ok(c) && c != 4,
        facts.wireless_id == Ok::<Seq<char>, ErrorView>(id),
    ensures
        run(ProbeStateView::AwaitConnection, ProbeActionView::QueryConnection, facts, 4)
            == ProbeActionView::Finish(Ok::<bool, ErrorView>(id == "ustcnet"@)),
{
    reveal_strlit("802-3-ethernet");
    reveal_strlit("802-11-wireless");
    assert("802-11-wireless"@ != "802-3-ethernet"@) by {
        assert("802-11-wireless"@.len() != "802-3-ethernet"@.len());
    }
    reveal_with_fuel(run, 5);
}

/// A connection with a device and full connectivity (code 4) needs no login,
/// whatever its type, its address or its name; the probe asks nothing more.
pub proof fn lemma_full_connectivity_ends_probe(facts: ProbeFacts)
    requires
        facts.connection matches Ok(conn) && conn.has_device,
        facts.connectivity == Ok::<u32, ErrorView>(4),
    ensures
        run(ProbeStateView::AwaitConnection, ProbeActionView::QueryConnection, facts, 2)
            == ProbeActionView::Finish(Ok::<bool, ErrorView>(false)),
{
    reveal_with_fuel(run, 3);
}

/// The errors the probe reports, run from its start: a connection without a
/// device names its object path; a connection that is neither wired nor
/// wireless, without full connectivity, is of an unknown type; a wired one
/// whose address data is empty, lacks the `address` entry, or holds it as
/// something other than text gets an error that says so.
pub proof fn lemma_probe_error_texts(facts: ProbeFacts)
    ensures
        facts.connection matches Ok(conn) ==> (!conn.has_device ==> run(
            ProbeStateView::AwaitConnection,
            ProbeActionView::QueryConnection,
            facts,
            4,
        ) == ProbeActionView::Finish(
            Err::<bool, ErrorView>(ErrorView::Other("连接 "@ + conn.primary + " 无设备"@)),
        )),
        facts.connection matches Ok(conn) ==> (conn.has_device && conn.kind != "802-3-ethernet"@
            && conn.kind != "802-11-wireless"@ && (facts.connectivity matches Ok(c) && c != 4)
            ==> run(ProbeStateView::AwaitConnection, ProbeActionView::QueryConnection, facts, 4)
            == ProbeActionView::Finish(
            Err::<bool, ErrorView>(ErrorView::Other("未知的连接类型"@)),
        )),
        facts.connection matches Ok(conn) ==> (conn.has_device && conn.kind == "802-3-ethernet"@
            && (facts.connectivity matches Ok(c) && c != 4) ==> {
            &&& facts.address == Ok::<AddressReportView, ErrorView>(AddressReportView::NoAddress)
                ==> run(ProbeStateView::AwaitConnection, ProbeActionView::QueryConnection, facts, 4)
                == ProbeActionView::Finish(
                Err::<bool, ErrorView>(ErrorView::Other("无可用 IP 信息"@)),
            )
            &&& facts.address == Ok::<AddressReportView, ErrorView>(
                AddressReportView::MissingField,
            ) ==> run(ProbeStateView::AwaitConnection, ProbeActionView::QueryConnection, facts, 4)
                == ProbeActionView::Finish(
                Err::<bool, ErrorView>(ErrorView::Other("IP 地址数据缺失"@)),
            )
            &&& facts.address matches Ok(AddressReportView::NotText(d)) ==> run(
                ProbeStateView::AwaitConnection,
                ProbeActionView::QueryConnection,
                facts,
                4,
            ) == ProbeActionView::Finish(
                Err::<bool, ErrorView>(ErrorView::Other("IP 地址类型转换失败："@ + d)),
            )
        }),
{
    reveal_with_fuel(run, 5);
}

/// The probe asks its questions in order: first the connection, then, for a
/// connection with a device, its connectivity, then, without full
/// connectivity, the address of a wired connection or the name of a
/// wireless one.
pub proof fn lemma_probe_question_order(kind: Seq<char>, c: u32)
    ensures
        (ProbeStateView::AwaitConnectivity { kind }).next(ProbeEventView::Connectivity(c)).1 == (if c
            == 4 {
            ProbeActionView::Finish(Ok::<bool, ErrorView>(false))
        } else if kind == "802-3-ethernet"@ {
            ProbeActionView::QueryAddress
        } else if kind == "802-11-wireless"@ {
            ProbeActionView::QueryWirelessId
        } else {
            ProbeActionView::Finish(Err::<bool, ErrorView>(ErrorView::Other("未知的连接类型"@)))
        }),
{
}

/// In every state that has not finished, a failed question ends the probe
/// with exactly that error.
pub proof fn lemma_probe_failure_is_the_verdict(s: ProbeStateView, e: ErrorView)
    requires
        !(s is Finished),
    ensures
        s.accepts(ProbeEventView::Failed(e)),
        s.next(ProbeEventView::Failed(e)) == (
            ProbeStateView::Finished,
            ProbeActionView::Finish(Err::<bool, ErrorView>(e)),
        ),
{
}

/// The first step of the machine: ask for the primary connection.
pub fn probe_start() -> (r: (ProbeState, ProbeAction))
    ensures
        r.0@ == ProbeStateView::AwaitConnection,
        r.1@ == ProbeActionView::QueryConnection,
{
    (ProbeState::AwaitConnection, ProbeAction::QueryConnection)
}

impl ProbeState {
    /// Whether the machine can take `event` in this state.
    pub fn accepts(&self, event: &ProbeEvent) -> (r: bool)
        ensures
            r == self@.accepts(event@),
    {
        match (self, event) {
            (ProbeState::Finished, _) => false,
            (_, ProbeEvent::Failed(_)) => true,
            (ProbeState::AwaitConnection, ProbeEvent::Connection { .. }) => true,
            (ProbeState::AwaitConnectivity { .. }, ProbeEvent::Connectivity(_)) => true,
            (ProbeState::AwaitAddress, ProbeEvent::Address(_)) => true,
            (ProbeState::AwaitWirelessId, ProbeEvent::WirelessId(_)) => true,
            _ => false,
        }
    }

    /// Takes the answer to the last question and gives the next state and
    /// what to do next.
    pub fn step(self, event: ProbeEvent) -> (r: (ProbeState, ProbeAction))
        requires
            self@.accepts(event@),
        ensures
            (r.0@, r.1@) == self@.next(event@),
    {
        match event {
            ProbeEvent::Failed(err) => (ProbeState::Finished, ProbeAction::Finish(Err(err))),
            ProbeEvent::Connection { primary, kind, has_device } => {
                if has_device {
                    (ProbeState::AwaitConnectivity { kind }, ProbeAction::QueryConnectivity)
                } else {
                    let msg = join3("连接 ", primary.as_str(), " 无设备");
                    (ProbeState::Finished, ProbeAction::Finish(Err(Error::Other(msg))))
                }
            },
            ProbeEvent::Connectivity(c) => {
                let kind = match self {
                    ProbeState::AwaitConnectivity { kind } => kind,
                    _ => String::new(),
                };
                if c == ConnectivityState::Full.code() {
                    (ProbeState::Finished, ProbeAction::Finish(Ok(false)))
                } else if same_text(kind.as_str(), "802-3-ethernet") {
                    (ProbeState::AwaitAddress, ProbeAction::QueryAddress)
                } else if same_text(kind.as_str(), "802-11-wireless") {
                    (ProbeState::AwaitWirelessId, ProbeAction::QueryWirelessId)
                } else {
                    let msg = "未知的连接类型".to_owned();
                    (ProbeState::Finished, ProbeAction::Finish(Err(Error::Other(msg))))
                }
            },
            ProbeEvent::Address(report) => {
                let verdict = match report {
                    AddressReport::NoAddress => Err(Error::Other("无可用 IP 信息".to_owned())),
                    AddressReport::MissingField => Err(Error::Other("IP 地址数据缺失".to_owned())),
                    AddressReport::NotText(detail) => Err(
                        Error::Other(join2("IP 地址类型转换失败：", detail.as_str())),
                    ),
                    AddressReport::Text(ip) => Ok(starts_with(ip.as_str(), "114.214.")),
                };
                (ProbeState::Finished, ProbeAction::Finish(verdict))
            },
            ProbeEvent::WirelessId(id) => {
                let on_campus = same_text(id.as_str(), "ustcnet");
                (ProbeState::Finished, ProbeAction::Finish(Ok(on_campus)))
            },
        }
    }
}

} // verus!
