//! Which parts of the API are served, and what the entity endpoints answer.
use vstd::prelude::*;
use crate::config::{Config, HaConfig};
use crate::ha::{EntityCache, EntityState};
use crate::text::{parse_u16, parse_u16_spec};

verus! {

/// A group of API routes.
#[derive(PartialEq, Eq, Structural, Clone, Copy, Debug)]
pub enum ApiGroup {
    /// `GET /api/health`
    Health,
    /// The setup wizard: `/api/setup/*`
    Setup,
    /// `POST /api/auth/login`
    Auth,
    /// `/api/entities*`
    Entities,
    /// `GET /api/ws`
    Ws,
}

/// The dashboard boots into setup mode exactly when it has no configuration.
pub fn is_setup_mode(cfg: &Option<Config>) -> (setup: bool)
    ensures
        setup == cfg is None,
{
    cfg.is_none()
}

/// The route groups served: in setup mode only health and the wizard; in
/// normal mode everything but the wizard.
pub open spec fn api_groups_spec(setup_mode: bool) -> Seq<ApiGroup> {
    if setup_mode {
        seq![ApiGroup::Health, ApiGroup::Setup]
    } else {
        seq![ApiGroup::Health, ApiGroup::Auth, ApiGroup::Entities, ApiGroup::Ws]
    }
}

/// The route groups served in the given mode.
pub fn api_groups(setup_mode: bool) -> (groups: Vec<ApiGroup>)
    ensures
        groups@ == api_groups_spec(setup_mode),
{
    let mut groups: Vec<ApiGroup> = Vec::new();
    groups.push(ApiGroup::Health);
    if setup_mode {
        groups.push(ApiGroup::Setup);
    } else {
        groups.push(ApiGroup::Auth);
        groups.push(ApiGroup::Entities);
        groups.push(ApiGroup::Ws);
    }
    assert(groups@ =~= api_groups_spec(setup_mode));
    groups
}

/// The HA connection settings to start a client with: those of the
/// configuration, and none in setup mode.
pub fn ha_config_for(cfg: &Option<Config>) -> (ha: Option<HaConfig>)
    ensures
        ha is Some <==> cfg is Some,
        ha matches Some(h) ==> {
            &&& h.url@ == cfg->0.ha.url@
            &&& h.token@ == cfg->0.ha.token@
            &&& h.verify_ssl == cfg->0.ha.verify_ssl
        },
{
    match cfg {
        Some(c) => Some(c.ha.clone()),
        None => None,
    }
}

/// The port listened on when `PORT` is unset or is no valid port number.
pub const DEFAULT_PORT: u16 = 3000;

/// The port the server listens on, given the `PORT` environment variable:
/// its value when it reads as a `u16`, else 3000.
pub fn listen_port(env: Option<String>) -> (port: u16)
    ensures
        port == match env {
            Some(s) => match parse_u16_spec(s@) {
                Some(p) => p,
                None => 3000,
            },
            None => 3000,
        },
{
    match env {
        Some(s) => match parse_u16(s.as_str()) {
            Some(p) => p,
            None => DEFAULT_PORT,
        },
        None => DEFAULT_PORT,
    }
}

/// Why an entity lookup found nothing.
#[derive(PartialEq, Eq, Structural, Clone, Copy, Debug)]
pub enum LookupError {
    /// No HA client: the dashboard has no configuration.
    NotConnected,
    /// The cache holds no state for the entity.
    NotFound,
}

impl LookupError {
    /// The error text the API answers with.
    pub fn message(&self) -> (m: String)
        ensures
            m@ == match self {
                LookupError::NotConnected => "HA not connected"@,
                LookupError::NotFound => "entity not found"@,
            },
    {
        match self {
            LookupError::NotConnected => String::from_str("HA not connected"),
            LookupError::NotFound => String::from_str("entity not found"),
        }
    }
}

/// `GET /api/entities`: every cached state, each entity once, or none at
/// all when HA is not connected.
pub fn all_states<'a>(ha: Option<&'a EntityCache>) -> (all: Vec<&'a EntityState>)
    ensures
        ha is None ==> all@.len() == 0,
        ha matches Some(c) ==> {
            &&& forall|i: int|
                0 <= i < all@.len() ==> c.view().contains_key(#[trigger] all@[i].entity_id@)
                    && *all@[i] == c.view()[all@[i].entity_id@]
            &&& forall|k: Seq<char>|
                #[trigger] c.view().contains_key(k) ==> exists|i: int|
                    0 <= i < all@.len() && all@[i].entity_id@ == k
            &&& forall|i: int, j: int|
                0 <= i < all@.len() && 0 <= j < all@.len() && i != j ==> all@[i].entity_id@
                    != all@[j].entity_id@
        },
{
    match ha {
        Some(c) => c.values(),
        None => Vec::new(),
    }
}

/// `GET /api/entities/{entity_id}`: the cached state, or why there is none.
pub fn lookup_state<'a>(ha: Option<&'a EntityCache>, entity_id: &String) -> (r: Result<
    &'a EntityState,
    LookupError,
>)
    ensures
        match ha {
            None => r == Err::<&EntityState, LookupError>(LookupError::NotConnected),
            Some(c) => match r {
                Ok(e) => c.view().contains_key(entity_id@) && *e == c.view()[entity_id@],
                Err(err) => err == LookupError::NotFound && !c.view().contains_key(entity_id@),
            },
        },
{
    match ha {
        None => Err(LookupError::NotConnected),
        Some(c) => match c.get(entity_id) {
            Some(e) => Ok(e),
            None => Err(LookupError::NotFound),
        },
    }
}

/// The answer to `POST /api/entities/{domain}/{service}`.
pub enum ServiceReply {
    /// HA accepted the call.
    Done,
    /// The call was not made or failed; the text says why.
    Failed { error: String },
}

impl ServiceReply {
    /// The answer when no HA client exists: the call is not made.
    pub fn not_connected() -> (r: Self)
        ensures
            r matches ServiceReply::Failed { error } && error@ == "HA not connected"@,
    {
        ServiceReply::Failed { error: String::from_str("HA not connected") }
    }

    /// The answer once HA was called: done, or the call's error text.
    pub fn from_call(result: Result<(), String>) -> (r: Self)
        ensures
            result is Ok <==> r is Done,
            result matches Err(e) ==> r matches ServiceReply::Failed { error } && error == e,
    {
        match result {
            Ok(()) => ServiceReply::Done,
            Err(e) => ServiceReply::Failed { error: e },
        }
    }
}

/// An empty JSON object, built as
/// `serde_json::Value::Object(serde_json::Map::new())`. The value is
/// opaque here, so nothing is stated of it.
#[verifier::external_body]
fn empty_json_object() -> serde_json::Value {
    serde_json::Value::Object(serde_json::Map::new())
}

/// The data sent with a service call: the request's `data`, or an empty
/// JSON object when it has none (the contract speaks only of the first
/// case, as a JSON value is opaque here).
pub fn service_payload(data: Option<serde_json::Value>) -> (payload: serde_json::Value)
    ensures
        data matches Some(d) ==> payload == d,
{
    match data {
        Some(d) => d,
        None => empty_json_object(),
    }
}

} // verus!
