//! The browser side's stores: the signed-in user and the entity map.
use std::collections::HashMap;
use vstd::prelude::*;
use vstd::string::*;

verus! {

/// The signed-in user as the browser keeps it.
pub struct AuthUser {
    pub token: String,
    pub role: String,
    pub display_name: String,
}

/// An entity state as the browser keeps it.
pub struct EntityState {
    pub entity_id: String,
    pub state: String,
    pub attributes: serde_json::Value,
}

/// The browser's entity map, keyed by entity id.
pub type EntityMap = HashMap<String, EntityState>;

/// A page of the browser application.
#[derive(PartialEq, Eq, Structural, Clone, Copy, Debug)]
pub enum Page {
    Setup,
    Login,
    Tv,
    Dashboard,
}


/// The page shown at `path`: the setup wizard, the login screen, the TV
/// ambient mode, or the dashboard at the root; no page for other paths.
pub open spec fn page_for_path_spec(path: Seq<char>) -> Option<Page> {
    if path == "/setup"@ {
        Some(Page::Setup)
    } else if path == "/login"@ {
        Some(Page::Login)
    } else if path == "/tv"@ {
        Some(Page::Tv)
    } else if path == "/"@ {
        Some(Page::Dashboard)
    } else {
        None
    }
}

/// The page shown at `path`.
pub fn page_for_path(path: &String) -> (page: Option<Page>)
    ensures
        page == page_for_path_spec(path@),
{
    if *path == String::from_str("/setup") {
        Some(Page::Setup)
    } else if *path == String::from_str("/login") {
        Some(Page::Login)
    } else if *path == String::from_str("/tv") {
        Some(Page::Tv)
    } else if *path == String::from_str("/") {
        Some(Page::Dashboard)
    } else {
        None
    }
}

/// The user remembered from an earlier visit: none is kept yet, so every
/// visit starts signed out.
pub fn load_from_storage() -> (user: Option<AuthUser>)
    ensures
        user is None,
{
    None
}

} // verus!
