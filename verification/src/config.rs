//! The configuration: its fields, their defaults, how an invalid value is
//! repaired, and where the configuration and data files live.

use vstd::prelude::*;

use crate::text::join2;

verus! {

/// How the daemon notices that a login may be needed.
#[derive(Debug, Clone, Copy, PartialEq, Eq, Structural)]
pub enum CheckMethod {
    /// Watch NetworkManager for changes of the primary connection.
    Nm,
    /// Probe a web site at a fixed interval.
    Ping,
}

/// Settings of the `ping` check method.
#[derive(Debug, Clone)]
pub struct PingConfig {
    /// Seconds between two probes.
    pub interval: u32,
    /// The URI that is probed.
    pub site: String,
}

/// The helper's configuration, as read from `config.toml`.
#[derive(Debug, Clone)]
pub struct Config {
    /// The user name of the campus network account.
    pub name: String,
    /// The login type of the gateway (`type` in the file), 0 to 8.
    pub login_type: u32,
    /// How long the outbound access lasts, in seconds (`exp` in the file).
    pub exp: u32,
    /// How the daemon notices that a login may be needed.
    pub check: CheckMethod,
    /// Settings of the `ping` check method.
    pub ping: PingConfig,
}

/// A [`Config`] with its text fields taken as character sequences.
pub struct ConfigView {
    pub name: Seq<char>,
    pub login_type: u32,
    pub exp: u32,
    pub check: CheckMethod,
    pub interval: u32,
    pub site: Seq<char>,
}

impl View for Config {
    type V = ConfigView;

    open spec fn view(&self) -> ConfigView {
        ConfigView {
            name: self.name@,
            login_type: self.login_type,
            exp: self.exp,
            check: self.check,
            interval: self.ping.interval,
            site: self.ping.site@,
        }
    }
}

/// The site probed when the configuration names none, or names an invalid one.
pub open spec fn default_site_text() -> Seq<char> {
    "https://www.baidu.com/"@
}

/// The largest valid login type.
pub open spec fn max_login_type() -> u32 {
    8
}

/// The outbound durations that the gateway offers, in seconds.
pub open spec fn valid_exp(exp: u32) -> bool {
    exp == 0 || exp == 3600 || exp == 14400 || exp == 39600 || exp == 50400
}

/// Whether `url::Url::parse` accepts `input` as an absolute URL.
pub uninterp spec fn url_parses(input: Seq<char>) -> bool;

/// Calls `url::Url::parse` on `site` and reports whether it returned `Ok`.
/// The contract claims only that this outcome is a function of the text of
/// `site`, named `url_parses`; what that function accepts is the crate's
/// URL grammar and is not restated here.
#[verifier::external_body]
fn site_parses(site: &str) -> (r: bool)
    ensures
        r == url_parses(site@),
{
    url::Url::parse(site).is_ok()
}

impl ConfigView {
    /// Every field holds a value that the helper accepts.
    pub open spec fn is_valid(self) -> bool {
        &&& self.login_type <= max_login_type()
        &&& valid_exp(self.exp)
        &&& url_parses(self.site)
    }

    /// The configuration with each invalid field reset to its default and
    /// every other field kept.
    pub open spec fn corrected(self) -> ConfigView {
        ConfigView {
            name: self.name,
            login_type: if self.login_type <= max_login_type() {
                self.login_type
            } else {
                0
            },
            exp: if valid_exp(self.exp) {
                self.exp
            } else {
                3600
            },
            check: self.check,
            interval: self.interval,
            site: if url_parses(self.site) {
                self.site
            } else {
                default_site_text()
            },
        }
    }
}

/// The default login type.
pub fn default_type() -> (r: u32)
    ensures
        r == 0,
{
    0
}

/// The default outbound duration, one hour.
pub fn default_exp() -> (r: u32)
    ensures
        r == 3600,
{
    3600
}

/// The default check method.
pub fn default_check() -> (r: CheckMethod)
    ensures
        r == CheckMethod::Ping,
{
    CheckMethod::Ping
}

/// The default probe interval, one hour.
pub fn default_interval() -> (r: u32)
    ensures
        r == 3600,
{
    3600
}

/// The default probed site.
pub fn default_site() -> (r: String)
    ensures
        r@ == default_site_text(),
{
    "https://www.baidu.com/".to_owned()
}

impl Default for PingConfig {
    /// The `ping` settings used when the file has no `[ping]` table.
    fn default() -> (r: PingConfig)
        ensures
            r.interval == 3600,
            r.site@ == default_site_text(),
    {
        PingConfig { interval: default_interval(), site: default_site() }
    }
}

/// Whether `exp` is one of the outbound durations that the gateway offers.
pub fn is_valid_exp(exp: u32) -> (r: bool)
    ensures
        r == valid_exp(exp),
{
    exp == 0 || exp == 3600 || exp == 14400 || exp == 39600 || exp == 50400
}

impl Config {
    /// Resets every invalid field to its default: a login type above 8, an
    /// outbound duration the gateway does not offer, a site that is not an
    /// absolute URI. The account name, the check method and the probe
    /// interval are kept as they are. Returns whether anything was reset,
    /// in which case the caller writes the configuration back.
    pub fn correct(&mut self) -> (corrected: bool)
        ensures
            final(self)@ == old(self)@.corrected(),
            corrected == !old(self)@.is_valid(),
    {
        let mut corrected = false;
        if self.login_type > 8 {
            self.login_type = default_type();
            corrected = true;
        }
        if !is_valid_exp(self.exp) {
            self.exp = default_exp();
            corrected = true;
        }
        if !site_parses(self.ping.site.as_str()) {
            self.ping.site = default_site();
            corrected = true;
        }
        corrected
    }
}

/// Correction yields a valid configuration, provided the default site is
/// itself an absolute URI.
pub proof fn lemma_corrected_is_valid(c: ConfigView)
    requires
        url_parses(default_site_text()),
    ensures
        c.corrected().is_valid(),
{
}

/// Tests, through `url::Url::parse`, whether the default site is an
/// absolute URI; where it is, every corrected configuration is valid.
pub fn default_site_is_valid() -> (r: bool)
    ensures
        r == url_parses(default_site_text()),
        r ==> forall|c: ConfigView| #[trigger] c.corrected().is_valid(),
{
    let site = default_site();
    let ok = site_parses(site.as_str());
    if ok {
        proof {
            assert forall|c: ConfigView| #[trigger] c.corrected().is_valid() by {
                lemma_corrected_is_valid(c);
            }
        }
    }
    ok
}

/// Correcting twice gives what correcting once gives.
pub proof fn lemma_correction_idempotent(c: ConfigView)
    ensures
        c.corrected().corrected() == c.corrected(),
{
}

/// A valid configuration is left as it is.
pub proof fn lemma_valid_config_unchanged(c: ConfigView)
    requires
        c.is_valid(),
    ensures
        c.corrected() == c,
{
}

/// Correction never touches the account name, the check method or the probe
/// interval, and keeps every field whose value is valid.
pub proof fn lemma_correction_keeps_valid_fields(c: ConfigView)
    ensures
        c.corrected().name == c.name,
        c.corrected().check == c.check,
        c.corrected().interval == c.interval,
        c.login_type <= max_login_type() ==> c.corrected().login_type == c.login_type,
        valid_exp(c.exp) ==> c.corrected().exp == c.exp,
        url_parses(c.site) ==> c.corrected().site == c.site,
{
}

/// What correction does to each field, in terms of the documented values:
/// a login type above 8 becomes exactly 0; an outbound duration other than
/// 0, 3600, 14400, 39600 and 50400 becomes exactly 3600; a site that
/// `url::Url::parse` refuses becomes exactly `https://www.baidu.com/`; every
/// other field value is kept. A configuration is valid exactly when none of
/// these resets applies, and a valid one is left unchanged.
pub proof fn lemma_correction_resets_to_defaults(c: ConfigView)
    ensures
        c.corrected().login_type == (if c.login_type > 8 {
            0
        } else {
            c.login_type
        }),
        c.corrected().exp == (if c.exp == 0 || c.exp == 3600 || c.exp == 14400 || c.exp == 39600
            || c.exp == 50400 {
            c.exp
        } else {
            3600
        }),
        c.corrected().site == (if url_parses(c.site) {
            c.site
        } else {
            "https://www.baidu.com/"@
        }),
        c.corrected().name == c.name,
        c.corrected().check == c.check,
        c.corrected().interval == c.interval,
        c.is_valid() <==> (c.login_type <= 8 && (c.exp == 0 || c.exp == 3600 || c.exp == 14400
            || c.exp == 39600 || c.exp == 50400) && url_parses(c.site)),
        c.is_valid() ==> c.corrected() == c,
{
}

/// Where the configuration file lives, given the value of
/// `XDG_CONFIG_HOME` (if set) and of `HOME`.
pub open spec fn config_path_text(xdg_config_home: Option<Seq<char>>, home: Seq<char>) -> Seq<char> {
    match xdg_config_home {
        Some(base) => base + "/wlt-helper/config.toml"@,
        None => home + "/.config/wlt-helper/config.toml"@,
    }
}

/// Where the client writes its logs, given the value of `XDG_DATA_HOME`
/// (if set) and of `HOME`.
pub open spec fn data_dir_text(xdg_data_home: Option<Seq<char>>, home: Seq<char>) -> Seq<char> {
    match xdg_data_home {
        Some(base) => base + "/wlt-helper"@,
        None => home + "/.local/share/wlt-helper"@,
    }
}

/// The path of the configuration file:
/// `${XDG_CONFIG_HOME}/wlt-helper/config.toml`, or
/// `${HOME}/.config/wlt-helper/config.toml` where `XDG_CONFIG_HOME` is unset.
pub fn config_path(xdg_config_home: Option<&str>, home: &str) -> (p: String)
    ensures
        p@ == config_path_text(
            match xdg_config_home {
                Some(b) => Some(b@),
                None => None,
            },
            home@,
        ),
{
    match xdg_config_home {
        Some(base) => join2(base, "/wlt-helper/config.toml"),
        None => join2(home, "/.config/wlt-helper/config.toml"),
    }
}

/// The directory of the client's log files: `${XDG_DATA_HOME}/wlt-helper`,
/// or `${HOME}/.local/share/wlt-helper` where `XDG_DATA_HOME` is unset.
pub fn data_dir(xdg_data_home: Option<&str>, home: &str) -> (p: String)
    ensures
        p@ == data_dir_text(
            match xdg_data_home {
                Some(b) => Some(b@),
                None => None,
            },
            home@,
        ),
{
    match xdg_data_home {
        Some(base) => join2(base, "/wlt-helper"),
        None => join2(home, "/.local/share/wlt-helper"),
    }
}

/// Where the files live: the configuration under `$XDG_CONFIG_HOME`, or
/// `$HOME/.config` without it; the logs under `$XDG_DATA_HOME`, or
/// `$HOME/.local/share` without it; `HOME` matters only where the XDG
/// variable is unset. The default probed site is `https://www.baidu.com/`.
pub proof fn lemma_file_locations(xdg: Seq<char>, home: Seq<char>, other_home: Seq<char>)
    ensures
        config_path_text(Some(xdg), home) == xdg + "/wlt-helper/config.toml"@,
        config_path_text(None, home) == home + "/.config/wlt-helper/config.toml"@,
        data_dir_text(Some(xdg), home) == xdg + "/wlt-helper"@,
        data_dir_text(None, home) == home + "/.local/share/wlt-helper"@,
        config_path_text(Some(xdg), home) == config_path_text(Some(xdg), other_home),
        data_dir_text(Some(xdg), home) == data_dir_text(Some(xdg), other_home),
        default_site_text() == "https://www.baidu.com/"@,
{
}

} // verus!
