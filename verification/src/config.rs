//! Connection details, and the rules for changing and showing them.
//!
//! Reading and writing the file (with owner-only permissions on Unix) is the
//! program's business; this module decides what goes into it and what a loaded
//! file must hold.

use vstd::prelude::*;
use crate::text::{copy, decimal, owned, push_decimal, strip_prefixes, strip_suffix_char, trim_end_matches, trim_start_matches, views};

verus! {

broadcast use vstd::string::group_string_axioms;

#[derive(Debug, Clone)]
pub struct Config {
    /// Hostname or IP of the BMC, without scheme.
    pub host: String,
    pub user: String,
    pub password: String,
    /// BMCs ship with self-signed certificates, so verification is off by
    /// default; set it once a real certificate is installed.
    pub verify_tls: bool,
    pub timeout_secs: u64,
}

/// Seconds a request may take when the file does not say.
pub open spec fn spec_default_timeout() -> u64 {
    15
}

/// Seconds a request may take when the file does not say.
pub fn default_timeout() -> (r: u64)
    ensures
        r == spec_default_timeout(),
{
    15
}

impl Default for Config {
    fn default() -> (c: Self)
        ensures
            c.host@ == Seq::<char>::empty(),
            c.user@ == "admin"@,
            c.password@ == Seq::<char>::empty(),
            c.verify_tls == false,
            c.timeout_secs == spec_default_timeout(),
    {
        Config {
            host: String::new(),
            user: owned("admin"),
            password: String::new(),
            verify_tls: false,
            timeout_secs: default_timeout(),
        }
    }
}

/// Why a configuration cannot be used.
#[derive(Debug)]
pub enum ConfigError {
    /// There is no file at `path`.
    Missing { path: String },
    /// The file at `path` is not valid TOML.
    Invalid { path: String },
    /// The file names no host.
    NoHost,
}

/// What the user is told for each error.
pub open spec fn config_error_text(e: ConfigError) -> Seq<char> {
    match e {
        ConfigError::Missing { path } => "no configuration at "@ + path@
            + "\n\nRun `bmctl config set --host <ip>` first."@,
        ConfigError::Invalid { path } => path@ + " is not valid TOML"@,
        ConfigError::NoHost => "no host configured. Run `bmctl config set --host <ip>`."@,
    }
}

impl ConfigError {
    /// The message shown for this error.
    pub fn message(&self) -> (r: String)
        ensures
            r@ == config_error_text(*self),
    {
        match self {
            ConfigError::Missing { path } => {
                let mut r = owned("no configuration at ");
                r.append(path.as_str());
                r.append("\n\nRun `bmctl config set --host <ip>` first.");
                r
            },
            ConfigError::Invalid { path } => {
                let mut r = copy(path);
                r.append(" is not valid TOML");
                r
            },
            ConfigError::NoHost => owned("no host configured. Run `bmctl config set --host <ip>`."),
        }
    }
}

/// A file that was read and parsed is usable only if it names a host.
pub fn check_loaded(cfg: Config) -> (r: Result<Config, ConfigError>)
    ensures
        cfg.host@.len() == 0 ==> r == Err::<Config, ConfigError>(ConfigError::NoHost),
        cfg.host@.len() != 0 ==> r == Ok::<Config, ConfigError>(cfg),
{
    if cfg.host.as_str().is_empty() {
        Err(ConfigError::NoHost)
    } else {
        Ok(cfg)
    }
}

/// A host as typed or pasted, without a leading `https://` or `http://` and
/// without trailing slashes: people copy it out of the browser.
pub open spec fn normalized_host(h: Seq<char>) -> Seq<char> {
    strip_suffix_char(strip_prefixes(strip_prefixes(h, "https://"@), "http://"@), '/')
}

/// Removes the scheme and trailing slashes from a pasted host.
pub fn normalize_host(h: &str) -> (r: String)
    ensures
        r@ == normalized_host(h@),
{
    let a = trim_start_matches(h, "https://");
    let b = trim_start_matches(a.as_str(), "http://");
    trim_end_matches(b.as_str(), '/')
}

/// The settings after `config set`: each option given replaces the stored one,
/// the host after normalisation; the password is handled apart.
pub open spec fn settings_applied(
    cfg: Config,
    host: Option<String>,
    user: Option<String>,
    verify_tls: Option<bool>,
    r: Config,
) -> bool {
    &&& r.host@ == (match host {
        Some(h) => normalized_host(h@),
        None => cfg.host@,
    })
    &&& r.user@ == (match user {
        Some(u) => u@,
        None => cfg.user@,
    })
    &&& r.verify_tls == (match verify_tls {
        Some(v) => v,
        None => cfg.verify_tls,
    })
    &&& r.password@ == cfg.password@
    &&& r.timeout_secs == cfg.timeout_secs
}

/// Applies the options of `config set` to the stored settings.
pub fn apply_settings(
    cfg: Config,
    host: Option<String>,
    user: Option<String>,
    verify_tls: Option<bool>,
) -> (r: Config)
    ensures
        settings_applied(cfg, host, user, verify_tls, r),
{
    let mut c = cfg;
    match host {
        Some(h) => {
            c.host = normalize_host(h.as_str());
        },
        None => {},
    }
    match user {
        Some(u) => {
            c.user = u;
        },
        None => {},
    }
    match verify_tls {
        Some(v) => {
            c.verify_tls = v;
        },
        None => {},
    }
    c
}

/// The password is asked for when the user requested it, or when none is stored.
pub fn needs_password(asked: bool, cfg: &Config) -> (r: bool)
    ensures
        r == (asked || cfg.password@.len() == 0),
{
    asked || cfg.password.as_str().is_empty()
}

/// The prompt shown when reading the password from the terminal.
pub fn password_prompt(cfg: &Config) -> (r: String)
    ensures
        r@ == "Password for "@ + cfg.user@ + "@"@ + cfg.host@ + ": "@,
{
    let mut r = owned("Password for ");
    r.append(cfg.user.as_str());
    r.append("@");
    r.append(cfg.host.as_str());
    r.append(": ");
    r
}

/// What `config set` prints once the file is written to `path`.
pub fn saved_lines(path: &str) -> (r: Vec<String>)
    ensures
        views(r@) == seq!["Saved to "@ + path@, "Check it with `bmctl config test`."@],
{
    let mut first = owned("Saved to ");
    first.append(path);
    let r = vec![first, owned("Check it with `bmctl config test`.")];
    assert(views(r@) =~= seq!["Saved to "@ + path@, "Check it with `bmctl config test`."@]);
    r
}

/// `true` or `false`, as `format!("{b}")` writes a bool.
pub open spec fn bool_text(b: bool) -> Seq<char> {
    if b {
        "true"@
    } else {
        "false"@
    }
}

/// What `config show` prints: the settings, with the password masked, and the
/// file they live in.
pub open spec fn shown_settings(cfg: Config, file: Seq<char>) -> Seq<Seq<char>> {
    seq![
        "  host       "@ + cfg.host@,
        "  user       "@ + cfg.user@,
        "  password   "@ + (if cfg.password@.len() == 0 {
            "(not set)"@
        } else {
            "********"@
        }),
        "  verify_tls "@ + bool_text(cfg.verify_tls),
        "  timeout    "@ + decimal(cfg.timeout_secs as nat) + " s"@,
        "  file       "@ + file,
    ]
}

/// The lines of `config show`.
pub fn show_lines(cfg: &Config, file: &str) -> (r: Vec<String>)
    ensures
        views(r@) == shown_settings(*cfg, file@),
{
    let mut host = owned("  host       ");
    host.append(cfg.host.as_str());
    let mut user = owned("  user       ");
    user.append(cfg.user.as_str());
    let mut password = owned("  password   ");
    if cfg.password.as_str().is_empty() {
        password.append("(not set)");
    } else {
        password.append("********");
    }
    let mut tls = owned("  verify_tls ");
    if cfg.verify_tls {
        tls.append("true");
    } else {
        tls.append("false");
    }
    let mut timeout = owned("  timeout    ");
    push_decimal(&mut timeout, cfg.timeout_secs);
    timeout.append(" s");
    let mut path = owned("  file       ");
    path.append(file);
    let r = vec![host, user, password, tls, timeout, path];
    assert(views(r@) =~= shown_settings(*cfg, file@));
    r
}

} // verus!
