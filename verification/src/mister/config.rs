//! The helper's settings: each one taken from the command line, else the
//! environment, else the configuration file, else its default.
use vstd::prelude::*;
use crate::ini::{IniValues, lookup};
use crate::mister::sources::{InvalidBool, bool_word, parse_bool};
use crate::num::{decimal_text, parse_unsigned, parse_unsigned_exec, u64_text};
use crate::paths::{join_path, path_join};
use crate::text::{
    chars_of, concat2, contains, contains_exec, contains_lit, lower, owned, strip_trail,
    strip_trail_vec, string_of, trim, trim_str,
};

verus! {

/// Settings given on the command line.
#[derive(Debug, Clone, Default)]
pub struct ConfigOverrides {
    pub url: Option<String>,
    pub port: Option<u16>,
    pub email: Option<String>,
    pub app_password: Option<String>,
    pub root: Option<String>,
    pub state_dir: Option<String>,
    pub watch: Option<bool>,
    pub watch_interval: Option<u64>,
    pub force_upload: Option<bool>,
    pub dry_run: Option<bool>,
    pub route_prefix: Option<String>,
}

/// The settings in effect.
#[derive(Debug, Clone)]
pub struct AppConfig {
    pub url: String,
    pub port: u16,
    pub email: String,
    pub app_password: String,
    pub root: String,
    pub state_dir: String,
    pub watch: bool,
    pub watch_interval: u64,
    pub force_upload: bool,
    pub dry_run: bool,
    pub route_prefix: String,
    pub binary_dir: String,
    pub config_path: String,
}

/// The settings and the file they were read from.
#[derive(Debug, Clone)]
pub struct LoadedConfig {
    pub config: AppConfig,
    pub config_path: String,
}

/// Why the settings could not be taken.
#[derive(Debug, Clone, PartialEq, Eq)]
pub enum ConfigError {
    EmptyUrl,
    UrlHasScheme,
    UrlHasPath,
    InvalidU16 { key: String },
    InvalidU64 { key: String },
    InvalidBool { key: String },
    ZeroWatchInterval,
}

impl ConfigError {
    /// The message shown for the error.
    pub fn message(&self) -> (r: String)
        ensures
            r@ == match *self {
                ConfigError::EmptyUrl => "URL mag niet leeg zijn"@,
                ConfigError::UrlHasScheme => "URL moet alleen host/IP bevatten, zonder schema (bijv. 192.168.1.1)"@,
                ConfigError::UrlHasPath => "URL mag geen pad bevatten"@,
                ConfigError::InvalidU16 { key } => key@ + " moet een geldige u16 zijn"@,
                ConfigError::InvalidU64 { key } => key@ + " moet een geldige u64 zijn"@,
                ConfigError::InvalidBool { key } => key@ + " moet true/false, 1/0, yes/no of on/off zijn"@,
                ConfigError::ZeroWatchInterval => "WATCH_INTERVAL moet >= 1 zijn"@,
            },
    {
        match self {
            ConfigError::EmptyUrl => owned("URL mag niet leeg zijn"),
            ConfigError::UrlHasScheme => owned(
                "URL moet alleen host/IP bevatten, zonder schema (bijv. 192.168.1.1)",
            ),
            ConfigError::UrlHasPath => owned("URL mag geen pad bevatten"),
            ConfigError::InvalidU16 { key } => concat2(key.as_str(), " moet een geldige u16 zijn"),
            ConfigError::InvalidU64 { key } => concat2(key.as_str(), " moet een geldige u64 zijn"),
            ConfigError::InvalidBool { key } => concat2(
                key.as_str(),
                " moet true/false, 1/0, yes/no of on/off zijn",
            ),
            ConfigError::ZeroWatchInterval => owned("WATCH_INTERVAL moet >= 1 zijn"),
        }
    }
}

/// The value of `key` from the environment, else from the file.
pub open spec fn env_or_ini(env: IniValues, ini: IniValues, key: Seq<char>) -> Option<Seq<char>> {
    match env.lookup(key) {
        Some(v) => Some(v),
        None => ini.lookup(key),
    }
}

pub open spec fn opt_view(o: Option<String>) -> Option<Seq<char>> {
    match o {
        Some(s) => Some(s@),
        None => None,
    }
}

/// A copy of an optional string.
pub fn clone_opt(o: &Option<String>) -> (r: Option<String>)
    ensures
        opt_view(r) == opt_view(*o),
{
    match o {
        Some(s) => Some(s.clone()),
        None => None,
    }
}

/// A text setting: command line, else environment, else file, else default.
pub open spec fn chosen_text(
    cli: Option<Seq<char>>,
    env: IniValues,
    ini: IniValues,
    key: Seq<char>,
    default: Seq<char>,
) -> Seq<char> {
    match cli {
        Some(v) => v,
        None => match env_or_ini(env, ini, key) {
            Some(v) => v,
            None => default,
        },
    }
}

/// Chooses a text setting.
pub fn choose_string(
    cli: Option<String>,
    env_values: &IniValues,
    ini_values: &IniValues,
    key: &str,
    default: &str,
) -> (r: String)
    ensures
        r@ == chosen_text(opt_view(cli), *env_values, *ini_values, key@, default@),
{
    if let Some(value) = cli {
        return value;
    }
    if let Some(value) = env_values.get(key) {
        return value.clone();
    }
    if let Some(value) = ini_values.get(key) {
        return value.clone();
    }
    owned(default)
}

/// Chooses a path setting; paths are held as text.
pub fn choose_path(
    cli: Option<String>,
    env_values: &IniValues,
    ini_values: &IniValues,
    key: &str,
    default: &str,
) -> (r: String)
    ensures
        r@ == chosen_text(opt_view(cli), *env_values, *ini_values, key@, default@),
{
    choose_string(cli, env_values, ini_values, key, default)
}

/// A number setting: the command line's value, else the environment's or
/// the file's text read as a number (an error where it is not one that
/// fits), else the default.
pub open spec fn chosen_number(
    cli: Option<nat>,
    env: IniValues,
    ini: IniValues,
    key: Seq<char>,
    default: nat,
    max: nat,
) -> Option<nat> {
    match cli {
        Some(v) => Some(v),
        None => match env_or_ini(env, ini, key) {
            Some(t) => parse_unsigned(t, max),
            None => Some(default),
        },
    }
}

/// Chooses a port-sized number setting.
pub fn choose_u16(
    cli: Option<u16>,
    env_values: &IniValues,
    ini_values: &IniValues,
    key: &str,
    default: u16,
) -> (r: Result<u16, ConfigError>)
    ensures
        match r {
            Ok(v) => chosen_number(
                match cli {
                    Some(c) => Some(c as nat),
                    None => None,
                },
                *env_values,
                *ini_values,
                key@,
                default as nat,
                u16::MAX as nat,
            ) == Some(v as nat),
            Err(e) => chosen_number(
                match cli {
                    Some(c) => Some(c as nat),
                    None => None,
                },
                *env_values,
                *ini_values,
                key@,
                default as nat,
                u16::MAX as nat,
            ) is None && (e matches ConfigError::InvalidU16 { key: k } && k@ == key@),
        },
{
    if let Some(value) = cli {
        return Ok(value);
    }
    let found = match env_values.get(key) {
        Some(v) => Some(v),
        None => ini_values.get(key),
    };
    match found {
        Some(text) => match parse_unsigned_exec(text.as_str(), 65535) {
            Some(v) => Ok(v as u16),
            None => Err(ConfigError::InvalidU16 { key: owned(key) }),
        },
        None => Ok(default),
    }
}

/// Chooses a number setting.
pub fn choose_u64(
    cli: Option<u64>,
    env_values: &IniValues,
    ini_values: &IniValues,
    key: &str,
    default: u64,
) -> (r: Result<u64, ConfigError>)
    ensures
        match r {
            Ok(v) => chosen_number(
                match cli {
                    Some(c) => Some(c as nat),
                    None => None,
                },
                *env_values,
                *ini_values,
                key@,
                default as nat,
                u64::MAX as nat,
            ) == Some(v as nat),
            Err(e) => chosen_number(
                match cli {
                    Some(c) => Some(c as nat),
                    None => None,
                },
                *env_values,
                *ini_values,
                key@,
                default as nat,
                u64::MAX as nat,
            ) is None && (e matches ConfigError::InvalidU64 { key: k } && k@ == key@),
        },
{
    if let Some(value) = cli {
        return Ok(value);
    }
    let found = match env_values.get(key) {
        Some(v) => Some(v),
        None => ini_values.get(key),
    };
    match found {
        Some(text) => match parse_unsigned_exec(text.as_str(), u64::MAX) {
            Some(v) => Ok(v),
            None => Err(ConfigError::InvalidU64 { key: owned(key) }),
        },
        None => Ok(default),
    }
}

/// A flag setting: command line, else environment, else file (an error
/// where it is not a flag word), else the default.
pub open spec fn chosen_flag(
    cli: Option<bool>,
    env: IniValues,
    ini: IniValues,
    key: Seq<char>,
    default: bool,
) -> Option<bool> {
    match cli {
        Some(v) => Some(v),
        None => match env_or_ini(env, ini, key) {
            Some(t) => bool_word(lower(trim(t))),
            None => Some(default),
        },
    }
}

/// Chooses a flag setting.
pub fn choose_bool(
    cli: Option<bool>,
    env_values: &IniValues,
    ini_values: &IniValues,
    key: &str,
    default: bool,
) -> (r: Result<bool, ConfigError>)
    ensures
        match r {
            Ok(v) => chosen_flag(cli, *env_values, *ini_values, key@, default) == Some(v),
            Err(e) => chosen_flag(cli, *env_values, *ini_values, key@, default) is None && (e matches ConfigError::InvalidBool { key: k } && k@ == key@),
        },
{
    if let Some(value) = cli {
        return Ok(value);
    }
    let found = match env_values.get(key) {
        Some(v) => Some(v),
        None => ini_values.get(key),
    };
    match found {
        Some(text) => match parse_bool(text.as_str()) {
            Ok(b) => Ok(b),
            Err(_) => Err(ConfigError::InvalidBool { key: owned(key) }),
        },
        None => Ok(default),
    }
}

/// Which host check a URL setting fails, if any.
pub open spec fn host_problem(host: Seq<char>) -> Option<ConfigError> {
    let t = trim(host);
    if t.len() == 0 {
        Some(ConfigError::EmptyUrl)
    } else if contains(t, "://"@) {
        Some(ConfigError::UrlHasScheme)
    } else if contains(t, "/"@) {
        Some(ConfigError::UrlHasPath)
    } else {
        None
    }
}

/// Checks that the URL setting is a bare host or IP: not empty, no scheme,
/// no path.
pub fn validate_host_only(host: &str) -> (r: Result<(), ConfigError>)
    ensures
        match r {
            Ok(()) => host_problem(host@) is None,
            Err(e) => host_problem(host@) == Some(e),
        },
{
    let t = trim_str(host);
    if t.len() == 0 {
        return Err(ConfigError::EmptyUrl);
    }
    if contains_lit(t.as_slice(), "://") {
        return Err(ConfigError::UrlHasScheme);
    }
    if contains_lit(t.as_slice(), "/") {
        return Err(ConfigError::UrlHasPath);
    }
    Ok(())
}

/// The route prefix as used in URLs: trimmed, without trailing slashes,
/// with one leading slash, or empty.
pub open spec fn route_prefix(p: Seq<char>) -> Seq<char> {
    let t = strip_trail(trim(p), '/');
    if t == "/"@ || t.len() == 0 {
        seq![]
    } else if t[0] != '/' {
        seq!['/'] + t
    } else {
        t
    }
}

/// Normalizes a route prefix.
pub fn normalize_route_prefix(prefix: &str) -> (r: String)
    ensures
        r@ == route_prefix(prefix@),
{
    let t = trim_str(prefix);
    let t = strip_trail_vec(t.as_slice(), '/');
    if crate::text::eq_lit(t.as_slice(), "/") || t.len() == 0 {
        let e = String::new();
        return e;
    }
    if t[0] != '/' {
        let mut out: Vec<char> = Vec::new();
        out.push('/');
        let mut i: usize = 0;
        while i < t.len()
            invariant
                0 <= i <= t@.len(),
                out@ == seq!['/'] + t@.subrange(0, i as int),
            decreases t@.len() - i,
        {
            out.push(t[i]);
            i = i + 1;
            assert(out@ =~= seq!['/'] + t@.subrange(0, i as int));
        }
        assert(t@.subrange(0, t@.len() as int) =~= t@);
        return string_of(out.as_slice());
    }
    string_of(t.as_slice())
}

/// What the settings come to, for a given command line, environment, file
/// and helper directory: `Err` with the first problem met.
pub open spec fn config_problem(
    o: ConfigOverrides,
    env: IniValues,
    ini: IniValues,
) -> Option<ConfigError> {
    let url = chosen_text(opt_view(o.url), env, ini, "URL"@, "127.0.0.1"@);
    let port = chosen_number(
        match o.port {
            Some(c) => Some(c as nat),
            None => None,
        },
        env,
        ini,
        "PORT"@,
        3001,
        u16::MAX as nat,
    );
    let watch = chosen_flag(o.watch, env, ini, "WATCH"@, false);
    let interval = chosen_number(
        match o.watch_interval {
            Some(c) => Some(c as nat),
            None => None,
        },
        env,
        ini,
        "WATCH_INTERVAL"@,
        30,
        u64::MAX as nat,
    );
    let force = chosen_flag(o.force_upload, env, ini, "FORCE_UPLOAD"@, false);
    let dry = chosen_flag(o.dry_run, env, ini, "DRY_RUN"@, false);
    if host_problem(url) is Some {
        host_problem(url)
    } else if port is None {
        Some(ConfigError::InvalidU16 { key: arbitrary() })
    } else if watch is None {
        Some(ConfigError::InvalidBool { key: arbitrary() })
    } else if interval is None {
        Some(ConfigError::InvalidU64 { key: arbitrary() })
    } else if force is None || dry is None {
        Some(ConfigError::InvalidBool { key: arbitrary() })
    } else if interval == Some(0nat) {
        Some(ConfigError::ZeroWatchInterval)
    } else {
        None
    }
}

/// The setting a refused number or flag was read from: the key of the
/// first one of `PORT`, `WATCH`, `WATCH_INTERVAL`, `FORCE_UPLOAD` and
/// `DRY_RUN` that does not read, where the URL is accepted; none for other
/// problems.
pub open spec fn problem_key(o: ConfigOverrides, env: IniValues, ini: IniValues) -> Option<Seq<char>> {
    let url = chosen_text(opt_view(o.url), env, ini, "URL"@, "127.0.0.1"@);
    let port = chosen_number(
        match o.port {
            Some(c) => Some(c as nat),
            None => None,
        },
        env,
        ini,
        "PORT"@,
        3001,
        u16::MAX as nat,
    );
    let watch = chosen_flag(o.watch, env, ini, "WATCH"@, false);
    let interval = chosen_number(
        match o.watch_interval {
            Some(c) => Some(c as nat),
            None => None,
        },
        env,
        ini,
        "WATCH_INTERVAL"@,
        30,
        u64::MAX as nat,
    );
    let force = chosen_flag(o.force_upload, env, ini, "FORCE_UPLOAD"@, false);
    if host_problem(url) is Some {
        None
    } else if port is None {
        Some("PORT"@)
    } else if watch is None {
        Some("WATCH"@)
    } else if interval is None {
        Some("WATCH_INTERVAL"@)
    } else if force is None {
        Some("FORCE_UPLOAD"@)
    } else if chosen_flag(o.dry_run, env, ini, "DRY_RUN"@, false) is None {
        Some("DRY_RUN"@)
    } else {
        None
    }
}

/// The key an error names, for the errors that name one.
pub open spec fn error_key(e: ConfigError) -> Option<Seq<char>> {
    match e {
        ConfigError::InvalidU16 { key } => Some(key@),
        ConfigError::InvalidU64 { key } => Some(key@),
        ConfigError::InvalidBool { key } => Some(key@),
        _ => None,
    }
}

/// Where every number and flag reads, the settings are refused exactly for
/// a blank URL, a URL with a scheme or a path, or a zero watch interval;
/// accepted settings hold the URL and watch interval chosen from the command
/// line, else the environment, else the file, else the defaults.
pub proof fn law_settings_refused_exactly(o: ConfigOverrides, env: IniValues, ini: IniValues)
    requires
        chosen_number(
            match o.port {
                Some(c) => Some(c as nat),
                None => None,
            },
            env,
            ini,
            "PORT"@,
            3001,
            u16::MAX as nat,
        ) is Some,
        chosen_flag(o.watch, env, ini, "WATCH"@, false) is Some,
        chosen_number(
            match o.watch_interval {
                Some(c) => Some(c as nat),
                None => None,
            },
            env,
            ini,
            "WATCH_INTERVAL"@,
            30,
            u64::MAX as nat,
        ) is Some,
        chosen_flag(o.force_upload, env, ini, "FORCE_UPLOAD"@, false) is Some,
        chosen_flag(o.dry_run, env, ini, "DRY_RUN"@, false) is Some,
    ensures
        ({
            let u = trim(chosen_text(opt_view(o.url), env, ini, "URL"@, "127.0.0.1"@));
            let w = chosen_number(
                match o.watch_interval {
                    Some(c) => Some(c as nat),
                    None => None,
                },
                env,
                ini,
                "WATCH_INTERVAL"@,
                30,
                u64::MAX as nat,
            );
            config_problem(o, env, ini) is Some <==> (u.len() == 0 || contains(u, "://"@) || contains(u, "/"@)
                || w == Some(0nat))
        }),
        forall|bd: Seq<char>, cp: Seq<char>, c: AppConfig| #[trigger] settings_from(o, env, ini, bd, cp, c) ==> {
            &&& c.url@ == chosen_text(opt_view(o.url), env, ini, "URL"@, "127.0.0.1"@)
            &&& Some(c.watch_interval as nat) == chosen_number(
                match o.watch_interval {
                    Some(v) => Some(v as nat),
                    None => None,
                },
                env,
                ini,
                "WATCH_INTERVAL"@,
                30,
                u64::MAX as nat,
            )
        },
{
}

/// Whether two errors are of the same kind.
pub open spec fn same_error_kind(a: ConfigError, b: ConfigError) -> bool {
    match (a, b) {
        (ConfigError::EmptyUrl, ConfigError::EmptyUrl) => true,
        (ConfigError::UrlHasScheme, ConfigError::UrlHasScheme) => true,
        (ConfigError::UrlHasPath, ConfigError::UrlHasPath) => true,
        (ConfigError::InvalidU16 { .. }, ConfigError::InvalidU16 { .. }) => true,
        (ConfigError::InvalidU64 { .. }, ConfigError::InvalidU64 { .. }) => true,
        (ConfigError::InvalidBool { .. }, ConfigError::InvalidBool { .. }) => true,
        (ConfigError::ZeroWatchInterval, ConfigError::ZeroWatchInterval) => true,
        _ => false,
    }
}

/// `c` holds every setting taken from the command line, else the
/// environment, else the file, else its default, with the helper's folder
/// and configuration file; and no setting is refused.
pub open spec fn settings_from(
    o: ConfigOverrides,
    env: IniValues,
    ini: IniValues,
    binary_dir: Seq<char>,
    config_path: Seq<char>,
    c: AppConfig,
) -> bool {
    &&& config_problem(o, env, ini) is None
    &&& c.url@ == chosen_text(opt_view(o.url), env, ini, "URL"@, "127.0.0.1"@)
    &&& Some(c.port as nat) == chosen_number(
        match o.port {
            Some(p) => Some(p as nat),
            None => None,
        },
        env,
        ini,
        "PORT"@,
        3001,
        u16::MAX as nat,
    )
    &&& c.email@ == chosen_text(opt_view(o.email), env, ini, "EMAIL"@, ""@)
    &&& c.app_password@ == chosen_text(
        opt_view(o.app_password),
        env,
        ini,
        "APP_PASSWORD"@,
        ""@,
    )
    &&& c.root@ == chosen_text(opt_view(o.root), env, ini, "ROOT"@, "/media/fat"@)
    &&& c.state_dir@ == chosen_text(
        opt_view(o.state_dir),
        env,
        ini,
        "STATE_DIR"@,
        "./state"@,
    )
    &&& Some(c.watch) == chosen_flag(o.watch, env, ini, "WATCH"@, false)
    &&& Some(c.watch_interval as nat) == chosen_number(
        match o.watch_interval {
            Some(p) => Some(p as nat),
            None => None,
        },
        env,
        ini,
        "WATCH_INTERVAL"@,
        30,
        u64::MAX as nat,
    )
    &&& Some(c.force_upload) == chosen_flag(
        o.force_upload,
        env,
        ini,
        "FORCE_UPLOAD"@,
        false,
    )
    &&& Some(c.dry_run) == chosen_flag(o.dry_run, env, ini, "DRY_RUN"@, false)
    &&& c.route_prefix@ == route_prefix(
        chosen_text(opt_view(o.route_prefix), env, ini, "ROUTE_PREFIX"@, ""@),
    )
    &&& c.binary_dir@ == binary_dir
    &&& c.config_path@ == config_path
}

impl AppConfig {
    /// Takes every setting from the command line, else the environment,
    /// else the configuration file, else its default, and checks them.
    pub fn from_sources(
        overrides: &ConfigOverrides,
        env_values: &IniValues,
        ini_values: &IniValues,
        binary_dir: String,
        config_path: String,
    ) -> (r: Result<AppConfig, ConfigError>)
        ensures
            match r {
                Ok(c) => settings_from(*overrides, *env_values, *ini_values, binary_dir@, config_path@, c),
                Err(e) => config_problem(*overrides, *env_values, *ini_values) matches Some(p)
                    && same_error_kind(e, p) && error_key(e) == problem_key(*overrides, *env_values, *ini_values),
            },
    {
        let url = choose_string(clone_opt(&overrides.url), env_values, ini_values, "URL", "127.0.0.1");
        match validate_host_only(url.as_str()) {
            Ok(()) => {},
            Err(e) => {
                return Err(e);
            },
        }
        let port = match choose_u16(overrides.port, env_values, ini_values, "PORT", 3001) {
            Ok(p) => p,
            Err(e) => {
                return Err(e);
            },
        };
        let email = choose_string(clone_opt(&overrides.email), env_values, ini_values, "EMAIL", "");
        let app_password = choose_string(
            clone_opt(&overrides.app_password),
            env_values,
            ini_values,
            "APP_PASSWORD",
            "",
        );
        let root = choose_path(clone_opt(&overrides.root), env_values, ini_values, "ROOT", "/media/fat");
        let state_dir = choose_path(
            clone_opt(&overrides.state_dir),
            env_values,
            ini_values,
            "STATE_DIR",
            "./state",
        );
        let watch = match choose_bool(overrides.watch, env_values, ini_values, "WATCH", false) {
            Ok(b) => b,
            Err(e) => {
                return Err(e);
            },
        };
        let watch_interval = match choose_u64(
            overrides.watch_interval,
            env_values,
            ini_values,
            "WATCH_INTERVAL",
            30,
        ) {
            Ok(v) => v,
            Err(e) => {
                return Err(e);
            },
        };
        let force_upload = match choose_bool(
            overrides.force_upload,
            env_values,
            ini_values,
            "FORCE_UPLOAD",
            false,
        ) {
            Ok(b) => b,
            Err(e) => {
                return Err(e);
            },
        };
        let dry_run = match choose_bool(overrides.dry_run, env_values, ini_values, "DRY_RUN", false) {
            Ok(b) => b,
            Err(e) => {
                return Err(e);
            },
        };
        let prefix_text = choose_string(
            clone_opt(&overrides.route_prefix),
            env_values,
            ini_values,
            "ROUTE_PREFIX",
            "",
        );
        let route_prefix = normalize_route_prefix(prefix_text.as_str());
        if watch_interval == 0 {
            return Err(ConfigError::ZeroWatchInterval);
        }
        Ok(
            AppConfig {
                url,
                port,
                email,
                app_password,
                root,
                state_dir,
                watch,
                watch_interval,
                force_upload,
                dry_run,
                route_prefix,
                binary_dir,
                config_path,
            },
        )
    }

    /// The backend's base URL: `http://<url>:<port>`.
    pub fn base_url(&self) -> (r: String)
        ensures
            r@ == "http://"@ + self.url@ + ":"@ + decimal_text(self.port as nat),
    {
        let mut r = owned("http://");
        r.append(self.url.as_str());
        r.append(":");
        let p = u64_text(self.port as u64);
        r.append(p.as_str());
        r
    }

    /// The save root, resolved against the helper's directory.
    pub fn resolved_root(&self) -> (r: String)
        ensures
            r@ == path_join(self.binary_dir@, self.root@),
    {
        join_path(self.binary_dir.as_str(), self.root.as_str())
    }

    /// The state directory, resolved against the helper's directory.
    pub fn resolved_state_dir(&self) -> (r: String)
        ensures
            r@ == path_join(self.binary_dir@, self.state_dir@),
    {
        join_path(self.binary_dir.as_str(), self.state_dir.as_str())
    }
}

/// The configuration file used: the one given, else `config.ini` beside the
/// helper.
pub fn config_path_for(config_path_override: Option<String>, binary_dir: &str) -> (r: String)
    ensures
        r@ == match opt_view(config_path_override) {
            Some(p) => p,
            None => path_join(binary_dir@, "config.ini"@),
        },
{
    match config_path_override {
        Some(p) => p,
        None => join_path(binary_dir, "config.ini"),
    }
}

impl LoadedConfig {
    /// The settings from the command line, the environment and the text of
    /// the configuration file at `config_path`.
    pub fn load(
        config_path: String,
        overrides: &ConfigOverrides,
        env_values: &IniValues,
        ini_values: &IniValues,
        binary_dir: String,
    ) -> (r: Result<LoadedConfig, ConfigError>)
        ensures
            match r {
                Ok(l) => l.config_path@ == config_path@ && settings_from(
                    *overrides,
                    *env_values,
                    *ini_values,
                    binary_dir@,
                    config_path@,
                    l.config,
                ),
                Err(e) => config_problem(*overrides, *env_values, *ini_values) matches Some(p)
                    && same_error_kind(e, p) && error_key(e) == problem_key(*overrides, *env_values, *ini_values),
            },
    {
        let path_copy = config_path.clone();
        match AppConfig::from_sources(overrides, env_values, ini_values, binary_dir, config_path) {
            Ok(config) => Ok(LoadedConfig { config, config_path: path_copy }),
            Err(e) => Err(e),
        }
    }
}

} // verus!
