//! The Home Assistant side: entity states, the in-memory state cache that
//! the REST endpoints read, and the addresses of the HA API.
use std::collections::HashMap;
use vstd::prelude::*;
use vstd::string::*;
use crate::config::HaConfig;
use crate::text::{replace_all, replace_all_spec};

verus! {

/// The outside type `serde_json::Value`, declared so that entity
/// attributes and service payloads can be carried through the library;
/// nothing inside a value is read here.
#[verifier::external_type_specification]
#[verifier::external_body]
pub struct ExJsonValue(serde_json::Value);

/// A single HA entity state.
pub struct EntityState {
    pub entity_id: String,
    pub state: String,
    pub attributes: HashMap<String, serde_json::Value>,
    pub last_changed: String,
}

/// A state change as relayed to every connected browser.
pub struct StateUpdate {
    pub entity_id: String,
    pub state: String,
    pub attributes: HashMap<String, serde_json::Value>,
}

/// How many state changes the relay channel holds for a slow browser.
pub const STATE_UPDATE_CAPACITY: usize = 256;

impl HaConfig {
    /// Where HA lists the state of every entity.
    pub fn states_url(&self) -> (u: String)
        ensures
            u@ == self.url@ + "/api/states"@,
    {
        self.url.clone().concat("/api/states")
    }

    /// Where HA runs `service` of `domain` (e.g. `light`, `turn_on`).
    pub fn service_url(&self, domain: &str, service: &str) -> (u: String)
        ensures
            u@ == self.url@ + "/api/services/"@ + domain@ + "/"@ + service@,
    {
        self.url.clone().concat("/api/services/").concat(domain).concat("/").concat(service)
    }

    /// HA's WebSocket endpoint: the URL with every `http://` turned into
    /// `ws://` and then every `https://` into `wss://`.
    pub fn websocket_url(&self) -> (u: String)
        ensures
            u@ == replace_all_spec(
                replace_all_spec(self.url@, "http://"@, "ws://"@),
                "https://"@,
                "wss://"@,
            ) + "/api/websocket"@,
    {
        let plain = replace_all(self.url.as_str(), "http://", "ws://");
        let secure = replace_all(plain.as_str(), "https://", "wss://");
        secure.concat("/api/websocket")
    }
}

/// The entity state cache: at most one state per entity id.
pub struct EntityCache {
    entries: Vec<EntityState>,
}

/// The index in `s` of the entry whose id is `k`, if any.
pub open spec fn index_of(s: Seq<EntityState>, k: Seq<char>) -> int {
    choose|i: int| 0 <= i < s.len() && s[i].entity_id@ == k
}

/// No two entries of `s` share an entity id.
pub open spec fn ids_distinct(s: Seq<EntityState>) -> bool {
    forall|i: int, j: int|
        0 <= i < s.len() && 0 <= j < s.len() && i != j ==> s[i].entity_id@ != s[j].entity_id@
}

/// The map from entity id to state that a sequence of distinct entries stands for.
pub open spec fn entries_map(s: Seq<EntityState>) -> Map<Seq<char>, EntityState> {
    Map::new(
        |k: Seq<char>| exists|i: int| 0 <= i < s.len() && s[i].entity_id@ == k,
        |k: Seq<char>| s[index_of(s, k)],
    )
}

/// The cache after inserting the states of `s` one after another: a later
/// state of an entity replaces an earlier one.
pub open spec fn insert_all_spec(m: Map<Seq<char>, EntityState>, s: Seq<EntityState>) -> Map<
    Seq<char>,
    EntityState,
>
    decreases s.len(),
{
    if s.len() == 0 {
        m
    } else {
        insert_all_spec(m, s.drop_last()).insert(s.last().entity_id@, s.last())
    }
}

/// In a sequence of distinct ids, the entry found for an id is the one that has it.
pub proof fn lemma_index_of(s: Seq<EntityState>, i: int)
    requires
        ids_distinct(s),
        0 <= i < s.len(),
    ensures
        index_of(s, s[i].entity_id@) == i,
        entries_map(s).contains_key(s[i].entity_id@),
        entries_map(s)[s[i].entity_id@] == s[i],
{
    let k = s[i].entity_id@;
    assert(exists|j: int| 0 <= j < s.len() && s[j].entity_id@ == k);
    let j: int = index_of(s, k);
    assert(s[j].entity_id@ == k);
}

impl EntityCache {
    #[verifier::type_invariant]
    closed spec fn wf(self) -> bool {
        ids_distinct(self.entries@)
    }

    /// The cache as a map from entity id to its state.
    pub closed spec fn view(&self) -> Map<Seq<char>, EntityState> {
        entries_map(self.entries@)
    }

    /// An empty cache.
    pub fn new() -> (cache: Self)
        ensures
            cache.view() == Map::<Seq<char>, EntityState>::empty(),
    {
        let cache = EntityCache { entries: Vec::new() };
        assert(cache.view() =~= Map::<Seq<char>, EntityState>::empty());
        cache
    }

    /// The state cached for `id`, if any.
    pub fn get(&self, id: &String) -> (found: Option<&EntityState>)
        ensures
            match found {
                Some(e) => self.view().contains_key(id@) && *e == self.view()[id@],
                None => !self.view().contains_key(id@),
            },
    {
        proof {
            use_type_invariant(self);
        }
        match self.find(id) {
            Some(i) => {
                proof {
                    lemma_index_of(self.entries@, i as int);
                }
                Some(&self.entries[i])
            },
            None => None,
        }
    }

    /// Every cached state, each entity once, in no promised order.
    pub fn values(&self) -> (all: Vec<&EntityState>)
        ensures
            forall|i: int|
                0 <= i < all@.len() ==> self.view().contains_key(#[trigger] all@[i].entity_id@)
                    && *all@[i] == self.view()[all@[i].entity_id@],
            forall|k: Seq<char>|
                #[trigger] self.view().contains_key(k) ==> exists|i: int|
                    0 <= i < all@.len() && all@[i].entity_id@ == k,
            forall|i: int, j: int|
                0 <= i < all@.len() && 0 <= j < all@.len() && i != j ==> all@[i].entity_id@
                    != all@[j].entity_id@,
    {
        proof {
            use_type_invariant(self);
        }
        let mut all: Vec<&EntityState> = Vec::new();
        let mut i: usize = 0;
        while i < self.entries.len()
            invariant
                i <= self.entries@.len(),
                all@.len() == i,
                forall|j: int| 0 <= j < i ==> *all@[j] == self.entries@[j],
            decreases self.entries@.len() - i,
        {
            all.push(&self.entries[i]);
            i = i + 1;
        }
        proof {
            assert forall|i: int| 0 <= i < all@.len() implies self.view().contains_key(
                #[trigger] all@[i].entity_id@,
            ) && *all@[i] == self.view()[all@[i].entity_id@] by {
                lemma_index_of(self.entries@, i);
            }
            assert forall|k: Seq<char>| #[trigger] self.view().contains_key(k) implies exists|
                i: int,
            | 0 <= i < all@.len() && all@[i].entity_id@ == k by {
                let i: int = choose|i: int| 0 <= i < self.entries@.len() && self.entries@[i].entity_id@ == k;
                assert(all@[i].entity_id@ == k);
            }
        }
        all
    }

    /// Stores `entity` under its id, replacing any earlier state of it.
    pub fn insert(&mut self, entity: EntityState)
        ensures
            final(self).view() == old(self).view().insert(entity.entity_id@, entity),
    {
        proof {
            use_type_invariant(&*self);
        }
        let ghost old_entries = self.entries@;
        let ghost key = entity.entity_id@;
        let pos = self.find(&entity.entity_id);
        let mut entries: Vec<EntityState> = Vec::new();
        std::mem::swap(&mut entries, &mut self.entries);
        match pos {
            Some(i) => {
                entries.set(i, entity);
            },
            None => {
                entries.push(entity);
            },
        }
        proof {
            let s = entries@;
            assert(ids_distinct(s)) by {
                assert forall|a: int, b: int|
                    0 <= a < s.len() && 0 <= b < s.len() && a != b implies s[a].entity_id@
                    != s[b].entity_id@ by {
                    if a < old_entries.len() && b < old_entries.len() {
                        if pos is Some && (a == pos->0 || b == pos->0) {
                        } else {
                            assert(s[a] == old_entries[a] && s[b] == old_entries[b]);
                        }
                    }
                }
            }
        }
        self.entries = entries;
        proof {
            let new_entries = self.entries@;
            assert(ids_distinct(new_entries));
            let m_old = entries_map(old_entries);
            let m_new = entries_map(new_entries);
            assert forall|k: Seq<char>| #[trigger] m_new.contains_key(k) <==> m_old.insert(key, entity).contains_key(k) by {
                if m_old.contains_key(k) && k != key {
                    let j: int = choose|j: int| 0 <= j < old_entries.len() && old_entries[j].entity_id@ == k;
                    assert(new_entries[j].entity_id@ == k);
                }
                if k == key {
                    let j: int = if new_entries.len() > old_entries.len() { old_entries.len() as int } else {
                        choose|j: int| 0 <= j < old_entries.len() && old_entries[j].entity_id@ == key
                    };
                    assert(new_entries[j].entity_id@ == k);
                }
                if m_new.contains_key(k) && k != key {
                    let j: int = choose|j: int| 0 <= j < new_entries.len() && new_entries[j].entity_id@ == k;
                    assert(old_entries[j].entity_id@ == k);
                }
            }
            assert forall|k: Seq<char>| #[trigger] m_new.contains_key(k) implies m_new[k] == m_old.insert(key, entity)[k] by {
                let j: int = choose|j: int| 0 <= j < new_entries.len() && new_entries[j].entity_id@ == k;
                lemma_index_of(new_entries, j);
                if k != key {
                    lemma_index_of(old_entries, j);
                }
            }
            assert(m_new =~= m_old.insert(key, entity));
        }
    }

    /// Stores each of `entities` in turn, as a refresh from HA does: a
    /// later state of an entity wins, and entities not named keep theirs.
    pub fn insert_all(&mut self, entities: Vec<EntityState>)
        ensures
            final(self).view() == insert_all_spec(old(self).view(), entities@),
    {
        let ghost start = self.view();
        let ghost all = entities@;
        for entity in it: entities.into_iter()
            invariant
                it.seq() == all,
                self.view() == insert_all_spec(start, all.take(it.index() as int)),
        {
            proof {
                assert(all.take(it.index() + 1).drop_last() =~= all.take(it.index() as int));
            }
            self.insert(entity);
        }
        proof {
            assert(all.take(all.len() as int) =~= all);
        }
    }

    /// The position of the entry for `id`, if there is one.
    fn find(&self, id: &String) -> (pos: Option<usize>)
        ensures
            match pos {
                Some(i) => i < self.entries@.len() && self.entries@[i as int].entity_id@ == id@,
                None => forall|i: int|
                    0 <= i < self.entries@.len() ==> self.entries@[i].entity_id@ != id@,
            },
    {
        let mut i: usize = 0;
        while i < self.entries.len()
            invariant
                i <= self.entries@.len(),
                forall|j: int| 0 <= j < i ==> self.entries@[j].entity_id@ != id@,
            decreases self.entries@.len() - i,
        {
            if self.entries[i].entity_id == *id {
                return Some(i);
            }
            i = i + 1;
        }
        None
    }
}

} // verus!
