//! The first-run setup wizard: finding HA, testing the connection, and
//! turning the wizard's answers into a configuration and an owner account.
use vstd::prelude::*;
use vstd::string::*;
use crate::config::{AppConfig, AuthConfig, Config, FeaturesConfig, HaConfig};
use crate::auth::{bcrypt_accepts, hash_password, random_source_failure};
use crate::login::{unix_now, User};

verus! {

/// A Home Assistant instance found on the network.
pub struct HaInstance {
    pub name: String,
    pub url: String,
}

/// The instances discovery reports: one, at the usual address.
pub fn discovered_instances() -> (found: Vec<HaInstance>)
    ensures
        found@.len() == 1,
        found@[0].name@ == "Home Assistant"@,
        found@[0].url@ == "http://192.168.1.42:8123"@,
{
    let mut found: Vec<HaInstance> = Vec::new();
    found.push(
        HaInstance {
            name: String::from_str("Home Assistant"),
            url: String::from_str("http://192.168.1.42:8123"),
        },
    );
    found
}

/// The HA API root that the connection test asks.
pub fn api_root_url(url: &str) -> (u: String)
    ensures
        u@ == url@ + "/api/"@,
{
    String::from_str(url).concat("/api/")
}

/// How the connection test went.
pub enum ConnectionOutcome {
    /// HA answered with a success status; `version` is the one its body names.
    Reached { version: Option<String> },
    /// HA answered with another status, given as its code and reason.
    Refused { status: String },
    /// No answer; the text says why.
    Failed { error: String },
}

/// The `version` that a JSON answer body names, if the body is JSON and its
/// `version` field is a string.
pub uninterp spec fn json_version_of(body: Seq<u8>) -> Option<Seq<char>>;

/// Reads the `version` string out of an answer body: the bytes parsed by
/// `serde_json::from_slice` (unreadable JSON counts as `null`), then
/// indexed at `"version"` and read with `as_str`. Claimed: the result is
/// `json_version_of` the body.
#[verifier::external_body]
fn version_in_body(body: &[u8]) -> (v: Option<String>)
    ensures
        match v {
            Some(s) => json_version_of(body@) == Some(s@),
            None => json_version_of(body@) is None,
        },
{
    let value: serde_json::Value = serde_json::from_slice(body).unwrap_or_default();
    value["version"].as_str().map(String::from)
}

/// The outcome when HA answered with a success status and `body`: reached,
/// with the version that the body names.
pub fn reached_outcome(body: &[u8]) -> (o: ConnectionOutcome)
    ensures
        o matches ConnectionOutcome::Reached { version } && match version {
            Some(s) => json_version_of(body@) == Some(s@),
            None => json_version_of(body@) is None,
        },
{
    ConnectionOutcome::Reached { version: version_in_body(body) }
}

/// The answer of the connection test.
pub struct TestConnectionResponse {
    pub ok: bool,
    pub version: Option<String>,
    pub error: Option<String>,
}

/// The answer for each outcome of the connection test.
pub fn connection_reply(outcome: ConnectionOutcome) -> (r: TestConnectionResponse)
    ensures
        r.ok <==> outcome is Reached,
        match outcome {
            ConnectionOutcome::Reached { version } => r.version == version && r.error is None,
            ConnectionOutcome::Refused { status } => r.version is None && (r.error matches Some(
                e,
            ) && e@ == "HA returned status "@ + status@),
            ConnectionOutcome::Failed { error } => r.version is None && r.error == Some(error),
        },
{
    match outcome {
        ConnectionOutcome::Reached { version } => TestConnectionResponse {
            ok: true,
            version,
            error: None,
        },
        ConnectionOutcome::Refused { status } => TestConnectionResponse {
            ok: false,
            version: None,
            error: Some(String::from_str("HA returned status ").concat(status.as_str())),
        },
        ConnectionOutcome::Failed { error } => TestConnectionResponse {
            ok: false,
            version: None,
            error: Some(error),
        },
    }
}

/// Whether `c` is a lower-case hexadecimal digit.
pub open spec fn is_lower_hex(c: char) -> bool {
    ('0' <= c <= '9') || ('a' <= c <= 'f')
}

/// Whether `s` is the hyphenated text of a random (version 4) UUID:
/// 36 characters, hyphens at 8, 13, 18 and 23, lower-case hex elsewhere,
/// the version digit `4` at 14 and a variant digit `8`..`b` at 19.
pub open spec fn is_uuid_v4_text(s: Seq<char>) -> bool {
    &&& s.len() == 36
    &&& forall|i: int|
        0 <= i < 36 ==> if i == 8 || i == 13 || i == 18 || i == 23 {
            #[trigger] s[i] == '-'
        } else {
            is_lower_hex(s[i])
        }
    &&& s[14] == '4'
    &&& (s[19] == '8' || s[19] == '9' || s[19] == 'a' || s[19] == 'b')
}

/// A fresh random UUID as text: `uuid::Uuid::new_v4()` formatted by
/// `to_string()`. Claimed: the text has the hyphenated lower-case form that
/// uuid's `Display` writes, with the version and variant digits that
/// `new_v4` sets. Which UUID comes out is random and left open.
#[verifier::external_body]
fn new_uuid_text() -> (s: String)
    ensures
        is_uuid_v4_text(s@),
{
    uuid::Uuid::new_v4().to_string()
}

/// A fresh id for a user row.
pub fn new_user_id() -> (id: String)
    ensures
        is_uuid_v4_text(id@),
{
    new_uuid_text()
}

/// A fresh secret for signing sessions: two random UUIDs one after the other.
pub fn new_jwt_secret() -> (secret: String)
    ensures
        secret@.len() == 72,
        is_uuid_v4_text(secret@.take(36)),
        is_uuid_v4_text(secret@.skip(36)),
{
    let first = new_uuid_text();
    let second = new_uuid_text();
    let secret = first.concat(second.as_str());
    assert(secret@.take(36) =~= first@);
    assert(secret@.skip(36) =~= second@);
    secret
}

/// What the wizard's last step submits.
pub struct CompleteSetupRequest {
    pub ha_url: String,
    pub ha_token: String,
    pub owner_name: String,
    pub owner_username: String,
    pub owner_password: String,
    pub app_name: String,
    pub theme: String,
}

/// The configuration the wizard writes: the submitted HA address, token,
/// name and theme, no TLS domain, no TLS verification, 30-day sessions
/// signed with `jwt_secret`, and both features off.
pub fn setup_config(req: &CompleteSetupRequest, jwt_secret: String) -> (cfg: Config)
    ensures
        cfg.app.name@ == req.app_name@,
        cfg.app.theme@ == req.theme@,
        cfg.app.domain@ == Seq::<char>::empty(),
        cfg.ha.url@ == req.ha_url@,
        cfg.ha.token@ == req.ha_token@,
        !cfg.ha.verify_ssl,
        cfg.auth.jwt_secret == jwt_secret,
        cfg.auth.session_days == 30,
        !cfg.features.discovery_enabled,
        !cfg.features.guest_access,
{
    Config {
        app: AppConfig { name: req.app_name.clone(), theme: req.theme.clone(), domain: String::new() },
        ha: HaConfig { url: req.ha_url.clone(), token: req.ha_token.clone(), verify_ssl: false },
        auth: AuthConfig { jwt_secret, session_days: 30 },
        features: FeaturesConfig::default(),
    }
}

/// The owner account the wizard creates: enabled, never expiring, with
/// the role "owner".
pub fn owner_user(id: String, req: &CompleteSetupRequest, password_hash: String, now: i64) -> (u:
    User)
    ensures
        u.id == id,
        u.username@ == req.owner_username@,
        u.display_name@ == req.owner_name@,
        u.password_hash == password_hash,
        u.role@ == "owner"@,
        u.enabled,
        u.expires_at is None,
        u.created_at == now,
{
    User {
        id,
        username: req.owner_username.clone(),
        display_name: req.owner_name.clone(),
        password_hash,
        role: String::from_str("owner"),
        enabled: true,
        expires_at: None,
        created_at: now,
    }
}

/// What the step after writing the configuration gives (`r`): a failed
/// write is answered with its error and nothing more is done; otherwise
/// the password is hashed with bcrypt and, unless the system's randomness
/// fails, the owner is the account `owner_user` makes with `id`, the hash
/// and `now`.
pub open spec fn owner_step(
    written: Result<(), String>,
    req: CompleteSetupRequest,
    id: String,
    now: i64,
    r: Result<User, SetupReply>,
) -> bool {
    &&& written matches Err(e) ==> r == Err::<User, SetupReply>(SetupReply::Failed { error: e })
    &&& written is Ok ==> (r is Err ==> (r matches Err(SetupReply::Failed { error })
        && random_source_failure(error@)))
    &&& r matches Ok(u) ==> {
        &&& written is Ok
        &&& u.id == id
        &&& u.username@ == req.owner_username@
        &&& u.display_name@ == req.owner_name@
        &&& bcrypt_accepts(req.owner_password@, u.password_hash@)
        &&& u.role@ == "owner"@
        &&& u.enabled
        &&& u.expires_at is None
        &&& u.created_at == now
    }
}

/// The owner account to insert once the configuration was written, or the
/// reply when a step failed, as `owner_step` describes.
pub fn owner_after_config(
    written: Result<(), String>,
    req: &CompleteSetupRequest,
    id: String,
    now: i64,
) -> (r: Result<User, SetupReply>)
    ensures
        owner_step(written, *req, id, now, r),
        written matches Err(e) ==> r == Err::<User, SetupReply>(SetupReply::Failed { error: e }),
        written is Ok ==> (r is Err ==> r matches Err(SetupReply::Failed { .. })),
        r matches Ok(u) ==> {
            &&& written is Ok
            &&& u.id == id
            &&& u.username@ == req.owner_username@
            &&& u.display_name@ == req.owner_name@
            &&& bcrypt_accepts(req.owner_password@, u.password_hash@)
            &&& u.role@ == "owner"@
            &&& u.enabled
            &&& u.expires_at is None
            &&& u.created_at == now
        },
{
    match written {
        Err(e) => Err(SetupReply::Failed { error: e }),
        Ok(()) => match hash_password(req.owner_password.as_str()) {
            Err(e) => Err(SetupReply::Failed { error: e }),
            Ok(hash) => Ok(owner_user(id, req, hash, now)),
        },
    }
}

/// The owner account once the configuration was written, with a fresh id
/// and the current time.
pub fn owner_after_config_now(written: Result<(), String>, req: &CompleteSetupRequest) -> (r: Result<
    User,
    SetupReply,
>)
    ensures
        written matches Err(e) ==> r == Err::<User, SetupReply>(SetupReply::Failed { error: e }),
        written is Ok ==> (r is Err ==> r matches Err(SetupReply::Failed { .. })),
        written is Ok ==> (r matches Err(SetupReply::Failed { error }) ==> random_source_failure(
            error@,
        )),
        r matches Ok(u) ==> {
            &&& written is Ok
            &&& is_uuid_v4_text(u.id@)
            &&& u.username@ == req.owner_username@
            &&& u.display_name@ == req.owner_name@
            &&& bcrypt_accepts(req.owner_password@, u.password_hash@)
            &&& u.role@ == "owner"@
            &&& u.enabled
            &&& u.expires_at is None
        },
{
    match written {
        Err(e) => Err(SetupReply::Failed { error: e }),
        Ok(()) => {
            let id = new_user_id();
            let now: i64 = unix_now();
            owner_after_config(Ok(()), req, id, now)
        },
    }
}

/// The answer of the wizard's last step.
pub enum SetupReply {
    /// All done; the dashboard must restart to leave setup mode.
    Done { restart_required: bool },
    /// A step failed; the text says why.
    Failed { error: String },
}

impl SetupReply {
    /// The answer after a step: a failure carries the step's error text,
    /// and the success of the last step asks for a restart.
    pub fn after_step(result: Result<(), String>) -> (r: Self)
        ensures
            result is Ok ==> r == (SetupReply::Done { restart_required: true }),
            result matches Err(e) ==> r == (SetupReply::Failed { error: e }),
    {
        match result {
            Ok(()) => SetupReply::Done { restart_required: true },
            Err(e) => SetupReply::Failed { error: e },
        }
    }
}

} // verus!
