use wlt_helper::config::{CheckMethod, Config, PingConfig};
use wlt_helper::error::Error;
use wlt_helper::login::{
    keyring_attributes, login_form, login_start, LoginAction, LoginEvent, LoginState,
    SecretReport,
};

fn pair(a: &str, b: &str) -> (String, String) {
    (a.to_string(), b.to_string())
}

fn config() -> Config {
    Config {
        name: "PB20000001".to_string(),
        login_type: 2,
        exp: 14400,
        check: CheckMethod::Ping,
        ping: PingConfig { interval: 3600, site: "https://www.baidu.com/".to_string() },
    }
}

fn feed(state: LoginState, event: LoginEvent) -> (LoginState, LoginAction) {
    assert!(state.accepts(&event));
    state.step(event)
}

fn outcome(action: LoginAction) -> Result<(), Error> {
    match action {
        LoginAction::Finish(r) => r,
        other => panic!("not finished: {:?}", other),
    }
}

#[test]
fn keyring_attributes_name_the_account() {
    assert_eq!(
        keyring_attributes("bob"),
        vec![pair("app", "wlt-helper"), pair("user", "bob")]
    );
}

#[test]
fn login_form_fields() {
    assert_eq!(
        login_form("bob", "secret", 0, 3600),
        vec![
            pair("cmd", "set"),
            pair("go", " 开通网络 "),
            pair("name", "bob"),
            pair("password", "secret"),
            pair("type", "0"),
            pair("exp", "3600"),
        ]
    );
}

#[test]
fn no_login_when_not_needed() {
    let (s, a) = login_start();
    assert!(matches!(a, LoginAction::RunProbe));
    let (_, a) = feed(s, LoginEvent::ProbeDone(Ok(false)));
    assert!(matches!(outcome(a), Ok(())));
}

#[test]
fn probe_error_is_the_outcome() {
    let (s, _) = login_start();
    let (_, a) = feed(s, LoginEvent::ProbeDone(Err(Error::Other("未知的连接类型".to_string()))));
    match outcome(a) {
        Err(Error::Other(m)) => assert_eq!(m, "未知的连接类型"),
        other => panic!("unexpected {:?}", other),
    }
}

#[test]
fn successful_login() {
    let (s, _) = login_start();
    let (s, a) = feed(s, LoginEvent::ProbeDone(Ok(true)));
    assert!(matches!(a, LoginAction::LoadConfig));
    let (s, a) = feed(s, LoginEvent::ConfigLoaded(config()));
    match a {
        LoginAction::SearchPassword { attributes } => assert_eq!(
            attributes,
            vec![pair("app", "wlt-helper"), pair("user", "PB20000001")]
        ),
        other => panic!("unexpected {:?}", other),
    }
    let (s, a) = feed(s, LoginEvent::ItemsFound(2));
    assert!(matches!(a, LoginAction::ReadSecret));
    let (s, a) = feed(s, LoginEvent::Secret(SecretReport::Text("hunter2".to_string())));
    match a {
        LoginAction::Submit { url, form } => {
            assert_eq!(url, "http://wlt.ustc.edu.cn/cgi-bin/ip/");
            assert_eq!(
                form,
                vec![
                    pair("cmd", "set"),
                    pair("go", " 开通网络 "),
                    pair("name", "PB20000001"),
                    pair("password", "hunter2"),
                    pair("type", "2"),
                    pair("exp", "14400"),
                ]
            );
        }
        other => panic!("unexpected {:?}", other),
    }
    let (s, a) = feed(
        s,
        LoginEvent::Response { set_cookie: true, description: "200 OK".to_string() },
    );
    assert!(matches!(outcome(a), Ok(())));
    assert!(matches!(s, LoginState::Finished));
}

#[test]
fn rejected_login() {
    let (s, _) = login_start();
    let (s, _) = feed(s, LoginEvent::ProbeDone(Ok(true)));
    let (s, _) = feed(s, LoginEvent::ConfigLoaded(config()));
    let (s, _) = feed(s, LoginEvent::ItemsFound(1));
    let (s, _) = feed(s, LoginEvent::Secret(SecretReport::Text("pw".to_string())));
    let (_, a) = feed(
        s,
        LoginEvent::Response { set_cookie: false, description: "Response { status: 200 }".to_string() },
    );
    match outcome(a) {
        Err(Error::Other(m)) => assert_eq!(m, "登录失败，响应：Response { status: 200 }"),
        other => panic!("unexpected {:?}", other),
    }
}

#[test]
fn missing_password() {
    let (s, _) = login_start();
    let (s, _) = feed(s, LoginEvent::ProbeDone(Ok(true)));
    let (s, _) = feed(s, LoginEvent::ConfigLoaded(config()));
    let (_, a) = feed(s, LoginEvent::ItemsFound(0));
    match outcome(a) {
        Err(Error::Other(m)) => assert_eq!(m, "未找到已存储的密码"),
        other => panic!("unexpected {:?}", other),
    }
}

#[test]
fn binary_secret_is_refused() {
    let (s, _) = login_start();
    let (s, _) = feed(s, LoginEvent::ProbeDone(Ok(true)));
    let (s, _) = feed(s, LoginEvent::ConfigLoaded(config()));
    let (s, _) = feed(s, LoginEvent::ItemsFound(1));
    let (_, a) = feed(s, LoginEvent::Secret(SecretReport::Blob));
    match outcome(a) {
        Err(Error::Other(m)) => assert_eq!(m, "密码必须以文本格式存储"),
        other => panic!("unexpected {:?}", other),
    }
}

#[test]
fn outside_failures_end_the_attempt() {
    let (s, _) = login_start();
    let (s, _) = feed(s, LoginEvent::ProbeDone(Ok(true)));
    let (s, a) = feed(s, LoginEvent::Failed(Error::ConfigRead("missing".to_string())));
    assert!(matches!(outcome(a), Err(Error::ConfigRead(_))));
    assert!(!s.accepts(&LoginEvent::ItemsFound(1)));
    let (s, _) = login_start();
    assert!(!s.accepts(&LoginEvent::ItemsFound(1)));
}
