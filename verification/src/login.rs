//! One login attempt, from the question whether a login is needed to the
//! gateway's answer.
//!
//! Each step needs outside work (running the connection probe, reading the
//! configuration, asking the keyring, sending the form), and what comes next
//! depends on its result. The decisions are a state machine:
//! [`LoginState::step`] takes the result of the last piece of work and gives
//! the next state and the next piece of work, or the outcome.

use vstd::prelude::*;

use crate::config::{Config, ConfigView};
use crate::error::{Error, ErrorView};
use crate::text::{join2, decimal, decimal_string, digits_value, is_digit, lemma_decimal_reads_back};

verus! {

/// The gateway's login endpoint.
pub open spec fn login_url_text() -> Seq<char> {
    "http://wlt.ustc.edu.cn/cgi-bin/ip/"@
}

/// The text of the error when the keyring holds no password for the account.
pub open spec fn no_password_message() -> Seq<char> {
    "未找到已存储的密码"@
}

/// The text of the error when the stored secret is not text.
pub open spec fn blob_secret_message() -> Seq<char> {
    "密码必须以文本格式存储"@
}

/// The text of the error when the gateway does not accept the login.
pub open spec fn rejected_message(description: Seq<char>) -> Seq<char> {
    "登录失败，响应："@ + description
}

/// A list of text pairs taken as a sequence of character-sequence pairs.
pub open spec fn pairs_view(v: Seq<(String, String)>) -> Seq<(Seq<char>, Seq<char>)> {
    v.map_values(|p: (String, String)| (p.0@, p.1@))
}

/// The attributes under which the account's password is kept in the keyring.
pub open spec fn keyring_attributes_text(name: Seq<char>) -> Seq<(Seq<char>, Seq<char>)> {
    seq![("app"@, "wlt-helper"@), ("user"@, name)]
}

/// The form that the gateway's login endpoint takes.
pub open spec fn login_form_text(
    name: Seq<char>,
    password: Seq<char>,
    login_type: u32,
    exp: u32,
) -> Seq<(Seq<char>, Seq<char>)> {
    seq![
        ("cmd"@, "set"@),
        ("go"@, " 开通网络 "@),
        ("name"@, name),
        ("password"@, password),
        ("type"@, decimal(login_type as nat)),
        ("exp"@, decimal(exp as nat)),
    ]
}

/// The login form holds six fields in this order: `cmd=set`, `go`, the
/// account name, the password as given, and the login type and outbound
/// duration written in decimal digits that read back as exactly the given
/// numbers, without leading zeros (so a duration of 0 is sent as `0`).
pub proof fn lemma_login_form_fields(name: Seq<char>, password: Seq<char>, login_type: u32, exp: u32)
    ensures
        ({
            let f = login_form_text(name, password, login_type, exp);
            &&& f.len() == 6
            &&& f[0] == ("cmd"@, "set"@)
            &&& f[1] == ("go"@, " 开通网络 "@)
            &&& f[2] == ("name"@, name)
            &&& f[3] == ("password"@, password)
            &&& f[4].0 == "type"@
            &&& digits_value(f[4].1) == login_type
            &&& f[4].1.len() >= 1
            &&& forall|i: int| 0 <= i < f[4].1.len() ==> is_digit(#[trigger] f[4].1[i])
            &&& f[4].1.len() == 1 || f[4].1[0] != '0'
            &&& f[5].0 == "exp"@
            &&& digits_value(f[5].1) == exp
            &&& f[5].1.len() >= 1
            &&& forall|i: int| 0 <= i < f[5].1.len() ==> is_digit(#[trigger] f[5].1[i])
            &&& f[5].1.len() == 1 || f[5].1[0] != '0'
        }),
{
    lemma_decimal_reads_back(login_type as nat);
    lemma_decimal_reads_back(exp as nat);
}

/// The keyring attributes of the account `name`: the application and the user.
pub fn keyring_attributes(name: &str) -> (v: Vec<(String, String)>)
    ensures
        pairs_view(v@) == keyring_attributes_text(name@),
{
    let v = vec![("app".to_owned(), "wlt-helper".to_owned()), ("user".to_owned(), name.to_owned())];
    assert(pairs_view(v@) =~= keyring_attributes_text(name@));
    v
}

/// The login form: the `set` command, the account and its password, the
/// login type and the outbound duration in decimal.
pub fn login_form(name: &str, password: &str, login_type: u32, exp: u32) -> (v: Vec<
    (String, String),
>)
    ensures
        pairs_view(v@) == login_form_text(name@, password@, login_type, exp),
{
    let v = vec![
        ("cmd".to_owned(), "set".to_owned()),
        ("go".to_owned(), " 开通网络 ".to_owned()),
        ("name".to_owned(), name.to_owned()),
        ("password".to_owned(), password.to_owned()),
        ("type".to_owned(), decimal_string(login_type)),
        ("exp".to_owned(), decimal_string(exp)),
    ];
    assert(pairs_view(v@) =~= login_form_text(name@, password@, login_type, exp));
    v
}

/// The account that a login is made for, as the configuration gives it.
#[derive(Debug)]
pub struct Account {
    pub name: String,
    pub login_type: u32,
    pub exp: u32,
}

/// What the keyring holds under the first matching item.
#[derive(Debug)]
pub enum SecretReport {
    /// A secret stored as text.
    Text(String),
    /// A secret stored as raw bytes.
    Blob,
}

/// The result of the last piece of outside work.
#[derive(Debug)]
pub enum LoginEvent {
    /// The connection probe's verdict.
    ProbeDone(Result<bool, Error>),
    /// The configuration, as read and corrected.
    ConfigLoaded(Config),
    /// How many keyring items match the account's attributes.
    ItemsFound(usize),
    /// The secret of the first matching item.
    Secret(SecretReport),
    /// The gateway's answer: whether it sets a cookie, and a description of it.
    Response { set_cookie: bool, description: String },
    /// The work failed.
    Failed(Error),
}

/// The next piece of outside work, or the outcome.
#[derive(Debug)]
pub enum LoginAction {
    /// Run the connection probe.
    RunProbe,
    /// Read the configuration.
    LoadConfig,
    /// Search the keyring for items with these attributes.
    SearchPassword { attributes: Vec<(String, String)> },
    /// Read the secret of the first item found.
    ReadSecret,
    /// Send this form to this URL.
    Submit { url: String, form: Vec<(String, String)> },
    /// Stop with this outcome.
    Finish(Result<(), Error>),
}

/// Where the attempt stands.
#[derive(Debug)]
pub enum LoginState {
    AwaitProbe,
    AwaitConfig,
    AwaitItems { account: Account },
    AwaitSecret { account: Account },
    AwaitResponse,
    Finished,
}

pub struct AccountView {
    pub name: Seq<char>,
    pub login_type: u32,
    pub exp: u32,
}

pub enum SecretReportView {
    Text(Seq<char>),
    Blob,
}

pub enum LoginEventView {
    ProbeDone(Result<bool, ErrorView>),
    ConfigLoaded(ConfigView),
    ItemsFound(nat),
    Secret(SecretReportView),
    Response { set_cookie: bool, description: Seq<char> },
    Failed(ErrorView),
}

pub enum LoginActionView {
    RunProbe,
    LoadConfig,
    SearchPassword { attributes: Seq<(Seq<char>, Seq<char>)> },
    ReadSecret,
    Submit { url: Seq<char>, form: Seq<(Seq<char>, Seq<char>)> },
    Finish(Result<(), ErrorView>),
}

pub enum LoginStateView {
    AwaitProbe,
    AwaitConfig,
    AwaitItems { account: AccountView },
    AwaitSecret { account: AccountView },
    AwaitResponse,
    Finished,
}

impl View for Account {
    type V = AccountView;

    open spec fn view(&self) -> AccountView {
        AccountView { name: self.name@, login_type: self.login_type, exp: self.exp }
    }
}

impl View for SecretReport {
    type V = SecretReportView;

    open spec fn view(&self) -> SecretReportView {
        match self {
            SecretReport::Text(t) => SecretReportView::Text(t@),
            SecretReport::Blob => SecretReportView::Blob,
        }
    }
}

impl View for LoginEvent {
    type V = LoginEventView;

    open spec fn view(&self) -> LoginEventView {
        match self {
            LoginEvent::ProbeDone(r) => LoginEventView::ProbeDone(
                match r {
                    Ok(b) => Ok(*b),
                    Err(e) => Err(e@),
                },
            ),
            LoginEvent::ConfigLoaded(c) => LoginEventView::ConfigLoaded(c@),
            LoginEvent::ItemsFound(n) => LoginEventView::ItemsFound(*n as nat),
            LoginEvent::Secret(s) => LoginEventView::Secret(s@),
            LoginEvent::Response { set_cookie, description } => LoginEventView::Response {
                set_cookie: *set_cookie,
                description: description@,
            },
            LoginEvent::Failed(e) => LoginEventView::Failed(e@),
        }
    }
}

impl View for LoginAction {
    type V = LoginActionView;

    open spec fn view(&self) -> LoginActionView {
        match self {
            LoginAction::RunProbe => LoginActionView::RunProbe,
            LoginAction::LoadConfig => LoginActionView::LoadConfig,
            LoginAction::SearchPassword { attributes } => LoginActionView::SearchPassword {
                attributes: pairs_view(attributes@),
            },
            LoginAction::ReadSecret => LoginActionView::ReadSecret,
            LoginAction::Submit { url, form } => LoginActionView::Submit {
                url: url@,
                form: pairs_view(form@),
            },
            LoginAction::Finish(r) => LoginActionView::Finish(
                match r {
                    Ok(()) => Ok(()),
                    Err(e) => Err(e@),
                },
            ),
        }
    }
}

impl View for LoginState {
    type V = LoginStateView;

    open spec fn view(&self) -> LoginStateView {
        match self {
            LoginState::AwaitProbe => LoginStateView::AwaitProbe,
            LoginState::AwaitConfig => LoginStateView::AwaitConfig,
            LoginState::AwaitItems { account } => LoginStateView::AwaitItems { account: account@ },
            LoginState::AwaitSecret { account } => LoginStateView::AwaitSecret {
                account: account@,
            },
            LoginState::AwaitResponse => LoginStateView::AwaitResponse,
            LoginState::Finished => LoginStateView::Finished,
        }
    }
}

/// The account that a configuration describes.
pub open spec fn account_of(c: ConfigView) -> AccountView {
    AccountView { name: c.name, login_type: c.login_type, exp: c.exp }
}

impl LoginStateView {
    /// The results the machine can take in this state: the result of the work
    /// it asked for, or the report that the work failed.
    pub open spec fn accepts(self, e: LoginEventView) -> bool {
        match (self, e) {
            (LoginStateView::Finished, _) => false,
            (_, LoginEventView::Failed(_)) => true,
            (LoginStateView::AwaitProbe, LoginEventView::ProbeDone(_)) => true,
            (LoginStateView::AwaitConfig, LoginEventView::ConfigLoaded(_)) => true,
            (LoginStateView::AwaitItems { .. }, LoginEventView::ItemsFound(_)) => true,
            (LoginStateView::AwaitSecret { .. }, LoginEventView::Secret(_)) => true,
            (LoginStateView::AwaitResponse, LoginEventView::Response { .. }) => true,
            _ => false,
        }
    }

    /// The next state and action, for a result that the state accepts.
    pub open spec fn next(self, e: LoginEventView) -> (LoginStateView, LoginActionView) {
        match (self, e) {
            (_, LoginEventView::Failed(err)) => (
                LoginStateView::Finished,
                LoginActionView::Finish(Err(err)),
            ),
            (LoginStateView::AwaitProbe, LoginEventView::ProbeDone(r)) => match r {
                Ok(true) => (LoginStateView::AwaitConfig, LoginActionView::LoadConfig),
                Ok(false) => (LoginStateView::Finished, LoginActionView::Finish(Ok(()))),
                Err(err) => (LoginStateView::Finished, LoginActionView::Finish(Err(err))),
            },
            (LoginStateView::AwaitConfig, LoginEventView::ConfigLoaded(c)) => (
                LoginStateView::AwaitItems { account: account_of(c) },
                LoginActionView::SearchPassword { attributes: keyring_attributes_text(c.name) },
            ),
            (LoginStateView::AwaitItems { account }, LoginEventView::ItemsFound(n)) => if n == 0 {
                (
                    LoginStateView::Finished,
                    LoginActionView::Finish(Err(ErrorView::Other(no_password_message()))),
                )
            } else {
                (LoginStateView::AwaitSecret { account }, LoginActionView::ReadSecret)
            },
            (LoginStateView::AwaitSecret { account }, LoginEventView::Secret(s)) => match s {
                SecretReportView::Text(password) => (
                    LoginStateView::AwaitResponse,
                    LoginActionView::Submit {
                        url: login_url_text(),
                        form: login_form_text(
                            account.name,
                            password,
                            account.login_type,
                            account.exp,
                        ),
                    },
                ),
                SecretReportView::Blob => (
                    LoginStateView::Finished,
                    LoginActionView::Finish(Err(ErrorView::Other(blob_secret_message()))),
                ),
            },
            (LoginStateView::AwaitResponse, LoginEventView::Response { set_cookie, description }) =>
                if set_cookie {
                (LoginStateView::Finished, LoginActionView::Finish(Ok(())))
            } else {
                (
                    LoginStateView::Finished,
                    LoginActionView::Finish(Err(ErrorView::Other(rejected_message(description)))),
                )
            },
            _ => (self, LoginActionView::RunProbe),
        }
    }
}

/// The gateway's answer to the login form.
pub struct ResponseFacts {
    pub set_cookie: bool,
    pub description: Seq<char>,
}

/// Everything the outside world would report during one attempt: for each
/// piece of work, either its result or the error with which it failed.
pub struct LoginFacts {
    pub probe: Result<bool, ErrorView>,
    pub config: Result<ConfigView, ErrorView>,
    pub items: Result<nat, ErrorView>,
    pub secret: Result<SecretReportView, ErrorView>,
    pub response: Result<ResponseFacts, ErrorView>,
}

impl LoginFacts {
    /// The outcome of the attempt, told from all the facts at once: nothing
    /// to do where no login is needed; otherwise the stored text password is
    /// sent, and the login succeeds exactly when the gateway sets a cookie.
    /// A piece of work that fails, among those that are done, ends the attempt
    /// with its error.
    pub open spec fn outcome(self) -> Result<(), ErrorView> {
        match self.probe {
            Err(e) => Err(e),
            Ok(false) => Ok(()),
            Ok(true) => match self.config {
                Err(e) => Err(e),
                Ok(_) => match self.items {
                    Err(e) => Err(e),
                    Ok(n) => if n == 0 {
                        Err(ErrorView::Other(no_password_message()))
                    } else {
                        match self.secret {
                            Err(e) => Err(e),
                            Ok(SecretReportView::Blob) => Err(
                                ErrorView::Other(blob_secret_message()),
                            ),
                            Ok(SecretReportView::Text(_)) => match self.response {
                                Err(e) => Err(e),
                                Ok(r) => if r.set_cookie {
                                    Ok(())
                                } else {
                                    Err(ErrorView::Other(rejected_message(r.description)))
                                },
                            },
                        }
                    },
                },
            },
        }
    }

    /// Whether the attempt sends the login form.
    pub open spec fn submits(self) -> bool {
        &&& self.probe == Ok::<bool, ErrorView>(true)
        &&& self.config is Ok
        &&& self.items matches Ok(n) && n > 0
        &&& self.secret matches Ok(SecretReportView::Text(_))
    }

    /// The result that these facts give to a piece of work.
    pub open spec fn answer(self, a: LoginActionView) -> LoginEventView {
        match a {
            LoginActionView::RunProbe => LoginEventView::ProbeDone(self.probe),
            LoginActionView::LoadConfig => match self.config {
                Ok(c) => LoginEventView::ConfigLoaded(c),
                Err(e) => LoginEventView::Failed(e),
            },
            LoginActionView::SearchPassword { .. } => match self.items {
                Ok(n) => LoginEventView::ItemsFound(n),
                Err(e) => LoginEventView::Failed(e),
            },
            LoginActionView::ReadSecret => match self.secret {
                Ok(s) => LoginEventView::Secret(s),
                Err(e) => LoginEventView::Failed(e),
            },
            LoginActionView::Submit { .. } => match self.response {
                Ok(r) => LoginEventView::Response {
                    set_cookie: r.set_cookie,
                    description: r.description,
                },
                Err(e) => LoginEventView::Failed(e),
            },
            LoginActionView::Finish(_) => LoginEventView::ItemsFound(0),
        }
    }
}

/// The actions the machine takes, from `a` on, for at most `fuel` results
/// drawn from `facts`.
pub open spec fn login_trace(
    s: LoginStateView,
    a: LoginActionView,
    facts: LoginFacts,
    fuel: nat,
) -> Seq<LoginActionView>
    decreases fuel,
{
    if a is Finish || fuel == 0 {
        seq![a]
    } else {
        let (s2, a2) = s.next(facts.answer(a));
        seq![a] + login_trace(s2, a2, facts, (fuel - 1) as nat)
    }
}

/// Whether every result drawn from `facts` within `fuel` steps is one the
/// machine accepts.
pub open spec fn login_accepted(
    s: LoginStateView,
    a: LoginActionView,
    facts: LoginFacts,
    fuel: nat,
) -> bool
    decreases fuel,
{
    if a is Finish || fuel == 0 {
        true
    } else {
        let (s2, a2) = s.next(facts.answer(a));
        s.accepts(facts.answer(a)) && login_accepted(s2, a2, facts, (fuel - 1) as nat)
    }
}

/// Whether a trace holds a submission of the login form.
pub open spec fn trace_submits(t: Seq<LoginActionView>) -> bool {
    exists|i: int| 0 <= i < t.len() && #[trigger] t[i] is Submit
}

/// Driven from its start by the outside world, whether each piece of work
/// succeeds or fails, an attempt accepts every result, stops after at most
/// six pieces of work with the outcome that the facts give, and sends the login form exactly when a login is needed and
/// a text password is stored; the form it sends carries the configured
/// account, the stored password, the login type and the outbound duration.
pub proof fn lemma_login_reaches_outcome(facts: LoginFacts)
    ensures
        login_accepted(LoginStateView::AwaitProbe, LoginActionView::RunProbe, facts, 6),
        login_trace(LoginStateView::AwaitProbe, LoginActionView::RunProbe, facts, 6).last()
            == LoginActionView::Finish(facts.outcome()),
        trace_submits(login_trace(LoginStateView::AwaitProbe, LoginActionView::RunProbe, facts, 6))
            == facts.submits(),
        facts.submits() ==> login_trace(
            LoginStateView::AwaitProbe,
            LoginActionView::RunProbe,
            facts,
            6,
        )[4] == (LoginActionView::Submit {
            url: login_url_text(),
            form: login_form_text(
                facts.config->Ok_0.name,
                facts.secret->Ok_0->Text_0,
                facts.config->Ok_0.login_type,
                facts.config->Ok_0.exp,
            ),
        }),
{
    reveal_with_fuel(login_trace, 7);
    reveal_with_fuel(login_accepted, 7);
    let t = login_trace(LoginStateView::AwaitProbe, LoginActionView::RunProbe, facts, 6);
    if facts.submits() {
        assert(t[4] is Submit);
    } else {
        assert forall|i: int| 0 <= i < t.len() implies !(#[trigger] t[i] is Submit) by {}
    }
}

/// In every state that has not finished, a failed piece of work ends the
/// attempt with exactly that error.
pub proof fn lemma_login_failure_is_the_outcome(s: LoginStateView, e: ErrorView)
    requires
        !(s is Finished),
    ensures
        s.accepts(LoginEventView::Failed(e)),
        s.next(LoginEventView::Failed(e)) == (
            LoginStateView::Finished,
            LoginActionView::Finish(Err::<(), ErrorView>(e)),
        ),
{
}

/// Once the form is sent, the attempt succeeds exactly when the gateway's
/// answer sets a cookie; a rejected answer ends it with an error that carries
/// the answer's description.
pub proof fn lemma_login_success_needs_cookie(set_cookie: bool, description: Seq<char>)
    ensures
        LoginStateView::AwaitResponse.next(
            LoginEventView::Response { set_cookie, description },
        ).1 == (if set_cookie {
            LoginActionView::Finish(Ok::<(), ErrorView>(()))
        } else {
            LoginActionView::Finish(
                Err::<(), ErrorView>(ErrorView::Other("登录失败，响应："@ + description)),
            )
        }),
{
}

/// Over any whole attempt: it ends in success only where no login was needed
/// and nothing was sent, or where the form was sent and the gateway answered
/// and set a cookie; and where a needed login fails at any step, the attempt
/// ends with an error.
pub proof fn lemma_login_success_means_accepted(facts: LoginFacts)
    ensures
        login_trace(LoginStateView::AwaitProbe, LoginActionView::RunProbe, facts, 6).last()
            == LoginActionView::Finish(Ok::<(), ErrorView>(())) ==> {
            ||| facts.probe == Ok::<bool, ErrorView>(false)
            ||| (trace_submits(
                login_trace(LoginStateView::AwaitProbe, LoginActionView::RunProbe, facts, 6),
            ) && (facts.response matches Ok(r) && r.set_cookie))
        },
        facts.probe == Ok::<bool, ErrorView>(true) && (facts.config is Err || facts.items is Err
            || facts.secret is Err || facts.response is Err) ==> login_trace(
            LoginStateView::AwaitProbe,
            LoginActionView::RunProbe,
            facts,
            6,
        ).last() is Finish && login_trace(
            LoginStateView::AwaitProbe,
            LoginActionView::RunProbe,
            facts,
            6,
        ).last()->Finish_0 is Err,
{
    lemma_login_reaches_outcome(facts);
}

/// The course of an attempt, run from its start: where no login is needed
/// it stops at once with success and sends nothing; a failed probe is the
/// outcome; with a login needed it reads the configuration, searches the
/// keyring under `app=wlt-helper` and `user=<name>`, fails when nothing is
/// stored or the secret is not text, and otherwise sends the form to
/// `http://wlt.ustc.edu.cn/cgi-bin/ip/`.
pub proof fn lemma_login_course(facts: LoginFacts)
    ensures
        facts.probe == Ok::<bool, ErrorView>(false) ==> login_trace(
            LoginStateView::AwaitProbe,
            LoginActionView::RunProbe,
            facts,
            6,
        ) == seq![
            LoginActionView::RunProbe,
            LoginActionView::Finish(Ok::<(), ErrorView>(())),
        ],
        facts.probe matches Err(e) ==> login_trace(
            LoginStateView::AwaitProbe,
            LoginActionView::RunProbe,
            facts,
            6,
        ).last() == LoginActionView::Finish(Err::<(), ErrorView>(e)),
        facts.probe == Ok::<bool, ErrorView>(true) ==> (facts.config matches Ok(c) ==> {
            let t = login_trace(LoginStateView::AwaitProbe, LoginActionView::RunProbe, facts, 6);
            &&& t[1] == LoginActionView::LoadConfig
            &&& t[2] == (LoginActionView::SearchPassword {
                attributes: seq![("app"@, "wlt-helper"@), ("user"@, c.name)],
            })
            &&& facts.items == Ok::<nat, ErrorView>(0) ==> t.last() == LoginActionView::Finish(
                Err::<(), ErrorView>(ErrorView::Other("未找到已存储的密码"@)),
            )
            &&& (facts.items matches Ok(n) && n > 0) ==> (t[3] == LoginActionView::ReadSecret
                && (facts.secret == Ok::<SecretReportView, ErrorView>(SecretReportView::Blob)
                ==> t.last() == LoginActionView::Finish(
                Err::<(), ErrorView>(ErrorView::Other("密码必须以文本格式存储"@)),
            )) && (facts.secret matches Ok(SecretReportView::Text(_)) ==> (t[4] is Submit
                && t[4]->url == "http://wlt.ustc.edu.cn/cgi-bin/ip/"@)))
        }),
{
    reveal_with_fuel(login_trace, 7);
}

/// The first step of an attempt: run the connection probe.
pub fn login_start() -> (r: (LoginState, LoginAction))
    ensures
        r.0@ == LoginStateView::AwaitProbe,
        r.1@ == LoginActionView::RunProbe,
{
    (LoginState::AwaitProbe, LoginAction::RunProbe)
}

impl LoginState {
    /// Whether the machine can take `event` in this state.
    pub fn accepts(&self, event: &LoginEvent) -> (r: bool)
        ensures
            r == self@.accepts(event@),
    {
        match (self, event) {
            (LoginState::Finished, _) => false,
            (_, LoginEvent::Failed(_)) => true,
            (LoginState::AwaitProbe, LoginEvent::ProbeDone(_)) => true,
            (LoginState::AwaitConfig, LoginEvent::ConfigLoaded(_)) => true,
            (LoginState::AwaitItems { .. }, LoginEvent::ItemsFound(_)) => true,
            (LoginState::AwaitSecret { .. }, LoginEvent::Secret(_)) => true,
            (LoginState::AwaitResponse, LoginEvent::Response { .. }) => true,
            _ => false,
        }
    }

    /// Takes the result of the last piece of work and gives the next state
    /// and the next piece of work, or the outcome.
    pub fn step(self, event: LoginEvent) -> (r: (LoginState, LoginAction))
        requires
            self@.accepts(event@),
        ensures
            (r.0@, r.1@) == self@.next(event@),
    {
        match event {
            LoginEvent::Failed(err) => (LoginState::Finished, LoginAction::Finish(Err(err))),
            LoginEvent::ProbeDone(r) => match r {
                Ok(true) => (LoginState::AwaitConfig, LoginAction::LoadConfig),
                Ok(false) => (LoginState::Finished, LoginAction::Finish(Ok(()))),
                Err(err) => (LoginState::Finished, LoginAction::Finish(Err(err))),
            },
            LoginEvent::ConfigLoaded(config) => {
                let attributes = keyring_attributes(config.name.as_str());
                let account = Account {
                    name: config.name,
                    login_type: config.login_type,
                    exp: config.exp,
                };
                (LoginState::AwaitItems { account }, LoginAction::SearchPassword { attributes })
            },
            LoginEvent::ItemsFound(n) => {
                let account = match self {
                    LoginState::AwaitItems { account } => account,
                    _ => Account { name: String::new(), login_type: 0, exp: 0 },
                };
                if n == 0 {
                    let msg = "未找到已存储的密码".to_owned();
                    (LoginState::Finished, LoginAction::Finish(Err(Error::Other(msg))))
                } else {
                    (LoginState::AwaitSecret { account }, LoginAction::ReadSecret)
                }
            },
            LoginEvent::Secret(secret) => {
                let account = match self {
                    LoginState::AwaitSecret { account } => account,
                    _ => Account { name: String::new(), login_type: 0, exp: 0 },
                };
                match secret {
                    SecretReport::Text(password) => {
                        let form = login_form(
                            account.name.as_str(),
                            password.as_str(),
                            account.login_type,
                            account.exp,
                        );
                        let url = "http://wlt.ustc.edu.cn/cgi-bin/ip/".to_owned();
                        (LoginState::AwaitResponse, LoginAction::Submit { url, form })
                    },
                    SecretReport::Blob => {
                        let msg = "密码必须以文本格式存储".to_owned();
                        (LoginState::Finished, LoginAction::Finish(Err(Error::Other(msg))))
                    },
                }
            },
            LoginEvent::Response { set_cookie, description } => {
                if set_cookie {
                    (LoginState::Finished, LoginAction::Finish(Ok(())))
                } else {
                    let msg = join2("登录失败，响应：", description.as_str());
                    (LoginState::Finished, LoginAction::Finish(Err(Error::Other(msg))))
                }
            },
        }
    }
}

} // verus!
