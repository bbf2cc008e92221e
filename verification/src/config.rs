//! The configuration written by the setup wizard and read on every boot.
use vstd::prelude::*;

verus! {

/// The whole configuration.
pub struct Config {
    pub app: AppConfig,
    pub ha: HaConfig,
    pub auth: AuthConfig,
    pub features: FeaturesConfig,
}

/// The `[app]` table.
pub struct AppConfig {
    /// Display name shown in the UI (e.g. "My Home")
    pub name: String,
    /// Theme: "dark" | "light" | "auto"
    pub theme: String,
    /// Domain used by the reverse proxy for TLS
    pub domain: String,
}

/// The `[ha]` table.
pub struct HaConfig {
    /// Full URL of the HA instance, e.g. http://192.168.1.42:8123
    pub url: String,
    /// Long-lived access token
    pub token: String,
    /// Whether to verify TLS; false for self-signed certificates
    pub verify_ssl: bool,
}

/// The `[auth]` table.
pub struct AuthConfig {
    /// Secret used to sign session tokens; generated on first run
    pub jwt_secret: String,
    /// How many days owner sessions last
    pub session_days: u64,
}

/// The `[features]` table.
pub struct FeaturesConfig {
    pub discovery_enabled: bool,
    pub guest_access: bool,
}

impl Default for FeaturesConfig {
    /// The features of a configuration whose file has no `[features]`
    /// table: both off.
    fn default() -> (f: Self)
        ensures
            !f.discovery_enabled,
            !f.guest_access,
    {
        FeaturesConfig { discovery_enabled: false, guest_access: false }
    }
}

impl Clone for HaConfig {
    fn clone(&self) -> (c: Self)
        ensures
            c.url@ == self.url@,
            c.token@ == self.token@,
            c.verify_ssl == self.verify_ssl,
    {
        HaConfig { url: self.url.clone(), token: self.token.clone(), verify_ssl: self.verify_ssl }
    }
}

/// The configuration file as read, before its rules apply: each key that
/// the file may hold, present or not.
pub struct ConfigFile {
    pub app: Option<AppSection>,
    pub ha: Option<HaSection>,
    pub auth: Option<AuthSection>,
    pub features: Option<FeaturesSection>,
}

/// The keys of an `[app]` table as read.
pub struct AppSection {
    pub name: Option<String>,
    pub theme: Option<String>,
    pub domain: Option<String>,
}

/// The keys of an `[ha]` table as read.
pub struct HaSection {
    pub url: Option<String>,
    pub token: Option<String>,
    pub verify_ssl: Option<bool>,
}

/// The keys of an `[auth]` table as read.
pub struct AuthSection {
    pub jwt_secret: Option<String>,
    pub session_days: Option<u64>,
}

/// The keys of a `[features]` table as read.
pub struct FeaturesSection {
    pub discovery_enabled: Option<bool>,
    pub guest_access: Option<bool>,
}

/// The text of a key if present, else `d`.
pub open spec fn text_or(o: Option<String>, d: Seq<char>) -> Seq<char> {
    match o {
        Some(s) => s@,
        None => d,
    }
}

/// Whether the file holds every key that has no default: `app.name`,
/// `ha.url`, `ha.token` and `auth.jwt_secret`.
pub open spec fn file_complete(f: ConfigFile) -> bool {
    &&& f.app matches Some(a) && a.name is Some
    &&& f.ha matches Some(h) && h.url is Some && h.token is Some
    &&& f.auth matches Some(a) && a.jwt_secret is Some
}

/// Whether `c` is what the rules make of a complete file `f`: every key
/// present is taken as it is; a missing `theme` is "dark", a missing
/// `domain` is empty, a missing `verify_ssl` is false, a missing
/// `session_days` is 30; a missing `[features]` table turns both features
/// off, while a present table turns each feature it does not name on.
pub open spec fn resolves(f: ConfigFile, c: Config) -> bool {
    let app = f.app->0;
    let ha = f.ha->0;
    let auth = f.auth->0;
    &&& c.app.name@ == app.name->0@
    &&& c.app.theme@ == text_or(app.theme, "dark"@)
    &&& c.app.domain@ == text_or(app.domain, Seq::<char>::empty())
    &&& c.ha.url@ == ha.url->0@
    &&& c.ha.token@ == ha.token->0@
    &&& c.ha.verify_ssl == ha.verify_ssl.unwrap_or(false)
    &&& c.auth.jwt_secret@ == auth.jwt_secret->0@
    &&& c.auth.session_days == auth.session_days.unwrap_or(30)
    &&& match f.features {
        None => !c.features.discovery_enabled && !c.features.guest_access,
        Some(fs) => {
            &&& c.features.discovery_enabled == fs.discovery_enabled.unwrap_or(true)
            &&& c.features.guest_access == fs.guest_access.unwrap_or(true)
        },
    }
}

/// The file that writing `c` produces: every key present, with `c`'s value.
pub open spec fn written_file(c: Config) -> ConfigFile {
    ConfigFile {
        app: Some(
            AppSection {
                name: Some(c.app.name),
                theme: Some(c.app.theme),
                domain: Some(c.app.domain),
            },
        ),
        ha: Some(
            HaSection {
                url: Some(c.ha.url),
                token: Some(c.ha.token),
                verify_ssl: Some(c.ha.verify_ssl),
            },
        ),
        auth: Some(
            AuthSection {
                jwt_secret: Some(c.auth.jwt_secret),
                session_days: Some(c.auth.session_days),
            },
        ),
        features: Some(
            FeaturesSection {
                discovery_enabled: Some(c.features.discovery_enabled),
                guest_access: Some(c.features.guest_access),
            },
        ),
    }
}

/// Whether two configurations hold the same values.
pub open spec fn same_config(a: Config, b: Config) -> bool {
    &&& a.app.name@ == b.app.name@
    &&& a.app.theme@ == b.app.theme@
    &&& a.app.domain@ == b.app.domain@
    &&& a.ha.url@ == b.ha.url@
    &&& a.ha.token@ == b.ha.token@
    &&& a.ha.verify_ssl == b.ha.verify_ssl
    &&& a.auth.jwt_secret@ == b.auth.jwt_secret@
    &&& a.auth.session_days == b.auth.session_days
    &&& a.features.discovery_enabled == b.features.discovery_enabled
    &&& a.features.guest_access == b.features.guest_access
}

/// A key's text if present, else `d`.
fn text_or_else(o: Option<String>, d: String) -> (s: String)
    ensures
        s@ == text_or(o, d@),
{
    match o {
        Some(s) => s,
        None => d,
    }
}

impl Config {
    /// Applies the file's rules: `None` when a key without default is
    /// missing (the dashboard then boots into the setup wizard), else the
    /// configuration with every default filled in.
    pub fn from_file(f: ConfigFile) -> (cfg: Option<Config>)
        ensures
            cfg is Some <==> file_complete(f),
            cfg matches Some(c) ==> resolves(f, c),
    {
        let ghost g = f;
        let (app, ha, auth) = match (f.app, f.ha, f.auth) {
            (Some(app), Some(ha), Some(auth)) => (app, ha, auth),
            _ => {
                return None;
            },
        };
        let name = match app.name {
            Some(n) => n,
            None => {
                return None;
            },
        };
        let (url, token) = match (ha.url, ha.token) {
            (Some(u), Some(t)) => (u, t),
            _ => {
                return None;
            },
        };
        let jwt_secret = match auth.jwt_secret {
            Some(s) => s,
            None => {
                return None;
            },
        };
        let features = match f.features {
            None => FeaturesConfig::default(),
            Some(fs) => FeaturesConfig {
                discovery_enabled: match fs.discovery_enabled {
                    Some(b) => b,
                    None => default_true(),
                },
                guest_access: match fs.guest_access {
                    Some(b) => b,
                    None => default_true(),
                },
            },
        };
        let cfg = Config {
            app: AppConfig {
                name,
                theme: text_or_else(app.theme, default_theme()),
                domain: text_or_else(app.domain, String::new()),
            },
            ha: HaConfig {
                url,
                token,
                verify_ssl: match ha.verify_ssl {
                    Some(b) => b,
                    None => default_false(),
                },
            },
            auth: AuthConfig {
                jwt_secret,
                session_days: match auth.session_days {
                    Some(d) => d,
                    None => default_session_days(),
                },
            },
            features,
        };
        Some(cfg)
    }
}

/// Theme used when the file names none.
pub fn default_theme() -> (theme: String)
    ensures
        theme@ == "dark"@,
{
    String::from_str("dark")
}

/// Owner session length, in days, used when the file names none.
pub fn default_session_days() -> (days: u64)
    ensures
        days == 30,
{
    30
}

/// Value of a feature flag that is missing from a present `[features]` table.
pub fn default_true() -> (b: bool)
    ensures
        b,
{
    true
}

/// Value of `verify_ssl` when the file names none.
pub fn default_false() -> (b: bool)
    ensures
        !b,
{
    false
}

} // verus!
