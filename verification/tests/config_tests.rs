use wlt_helper::config::{
    config_path, data_dir, default_check, default_exp, default_interval, default_site,
    default_site_is_valid, default_type, is_valid_exp, CheckMethod, Config, PingConfig,
};
use wlt_helper::error::Error;
use wlt_helper::nm::{Code, ConnectivityState};
use wlt_helper::text::{join2, join3, decimal_string, same_text, starts_with};
use wlt_helper::SOCKET_FILE;

fn sample(login_type: u32, exp: u32, interval: u32, site: &str) -> Config {
    Config {
        name: "alice".to_string(),
        login_type,
        exp,
        check: CheckMethod::Nm,
        ping: PingConfig { interval, site: site.to_string() },
    }
}

#[test]
fn defaults_match_documentation() {
    assert_eq!(default_type(), 0);
    assert_eq!(default_exp(), 3600);
    assert_eq!(default_check(), CheckMethod::Ping);
    assert_eq!(default_interval(), 3600);
    assert_eq!(default_site(), "https://www.baidu.com/");
    let ping = PingConfig::default();
    assert_eq!(ping.interval, 3600);
    assert_eq!(ping.site, "https://www.baidu.com/");
}

#[test]
fn valid_exp_values() {
    for exp in [0u32, 3600, 14400, 39600, 50400] {
        assert!(is_valid_exp(exp));
    }
    for exp in [1u32, 3599, 7200, 50401, u32::MAX] {
        assert!(!is_valid_exp(exp));
    }
}

#[test]
fn valid_config_is_left_unchanged() {
    let mut c = sample(8, 14400, 60, "https://example.net/");
    assert!(!c.correct());
    assert_eq!(c.name, "alice");
    assert_eq!(c.login_type, 8);
    assert_eq!(c.exp, 14400);
    assert_eq!(c.check, CheckMethod::Nm);
    assert_eq!(c.ping.interval, 60);
    assert_eq!(c.ping.site, "https://example.net/");
}

#[test]
fn login_type_above_eight_is_reset() {
    let mut c = sample(9, 0, 60, "https://example.net/");
    assert!(c.correct());
    assert_eq!(c.login_type, 0);
    assert_eq!(c.exp, 0);
    assert_eq!(c.ping.site, "https://example.net/");
}

#[test]
fn unknown_exp_is_reset() {
    let mut c = sample(3, 7200, 60, "https://example.net/");
    assert!(c.correct());
    assert_eq!(c.login_type, 3);
    assert_eq!(c.exp, 3600);
}

#[test]
fn invalid_site_is_reset_to_default() {
    let mut c = sample(0, 0, 60, "not a uri");
    assert!(c.correct());
    assert_eq!(c.ping.site, "https://www.baidu.com/");
    let mut empty = sample(0, 0, 60, "");
    assert!(empty.correct());
    assert_eq!(empty.ping.site, "https://www.baidu.com/");
    let mut relative = sample(0, 0, 60, "/relative/path");
    assert!(relative.correct());
    assert_eq!(relative.ping.site, "https://www.baidu.com/");
}

#[test]
fn zero_interval_is_kept() {
    let mut c = sample(0, 3600, 0, "https://example.net/");
    assert!(!c.correct());
    assert_eq!(c.ping.interval, 0);
}

#[test]
fn default_site_parses() {
    assert!(default_site_is_valid());
}

#[test]
fn correction_is_idempotent() {
    let mut c = sample(42, 1, 0, "::::");
    assert!(c.correct());
    assert!(!c.correct());
    assert_eq!(c.login_type, 0);
    assert_eq!(c.exp, 3600);
    assert_eq!(c.ping.interval, 0);
    assert_eq!(c.ping.site, "https://www.baidu.com/");
    assert_eq!(c.name, "alice");
    assert_eq!(c.check, CheckMethod::Nm);
}

#[test]
fn config_path_follows_xdg() {
    assert_eq!(
        config_path(Some("/xdg"), "/home/bob"),
        "/xdg/wlt-helper/config.toml"
    );
    assert_eq!(
        config_path(None, "/home/bob"),
        "/home/bob/.config/wlt-helper/config.toml"
    );
}

#[test]
fn data_dir_follows_xdg() {
    assert_eq!(data_dir(Some("/data"), "/home/bob"), "/data/wlt-helper");
    assert_eq!(data_dir(None, "/home/bob"), "/home/bob/.local/share/wlt-helper");
    assert_eq!(data_dir(None, ""), "/.local/share/wlt-helper");
}

#[test]
fn socket_path() {
    assert_eq!(SOCKET_FILE, "/tmp/wlt-helper-socket.sock");
}

#[test]
fn error_messages() {
    assert_eq!(Error::ConfigRead("x".to_string()).message(), "读取配置文件失败：x");
    assert_eq!(Error::ConfigParse("x".to_string()).message(), "解析配置文件失败：x");
    assert_eq!(Error::ConfigWrite("x".to_string()).message(), "保存配置文件失败：x");
    assert_eq!(Error::ConfigSerialize("x".to_string()).message(), "序列化配置失败：x");
    assert_eq!(Error::Keyring("x".to_string()).message(), "密钥环操作失败：x");
    assert_eq!(Error::Dbus("x".to_string()).message(), "DBus 操作失败：x");
    assert_eq!(Error::Http("x".to_string()).message(), "网络请求失败：x");
    assert_eq!(Error::Other("x".to_string()).message(), "x");
}

#[test]
fn connectivity_codes() {
    assert_eq!(ConnectivityState::Unkown.code(), 0);
    assert_eq!(ConnectivityState::Disconnected.code(), 1);
    assert_eq!(ConnectivityState::Portal.code(), 2);
    assert_eq!(ConnectivityState::Limited.code(), 3);
    assert_eq!(ConnectivityState::Full.code(), 4);
}

#[test]
fn decimal_writing() {
    assert_eq!(decimal_string(0), "0");
    assert_eq!(decimal_string(7), "7");
    assert_eq!(decimal_string(10), "10");
    assert_eq!(decimal_string(3600), "3600");
    assert_eq!(decimal_string(50400), "50400");
    assert_eq!(decimal_string(u32::MAX), u32::MAX.to_string());
}

#[test]
fn text_helpers() {
    assert!(starts_with("114.214.1.2", "114.214."));
    assert!(!starts_with("114.21", "114.214."));
    assert!(!starts_with("10.114.214.1", "114.214."));
    assert!(starts_with("abc", ""));
    assert!(same_text("ustcnet", "ustcnet"));
    assert!(!same_text("ustcnet", "ustc"));
    assert_eq!(join2("a", "b"), "ab");
    assert_eq!(join3("a", "b", "c"), "abc");
}
