//! The per-entity data cache: for each entity id (a player, a session) a map
//! of string keys to string values, kept until the entity is cleared.

use vstd::prelude::*;
use crate::table::StringTable;
use std::time::Instant;

verus! {

/// The monotonic clock reading type of std, carried through opaquely.
#[verifier::external_type_specification]
#[verifier::external_body]
pub struct ExInstant(std::time::Instant);

/// Relies on `std::time::Instant::now`: it returns the current reading of the
/// monotonic clock; nothing is claimed of its value.
pub assume_specification[ std::time::Instant::now ]() -> std::time::Instant;

/// The model of a cache: entity id to its key/value map.
pub type CacheModel = Map<Seq<char>, Map<Seq<char>, Seq<char>>>;

/// The model after storing `value` under `key` for `entity`; the entity's map
/// is created when absent.
pub open spec fn cache_set(m: CacheModel, entity: Seq<char>, key: Seq<char>, value: Seq<char>) -> CacheModel {
    let data = if m.contains_key(entity) { m[entity] } else { Map::empty() };
    m.insert(entity, data.insert(key, value))
}

/// What a lookup of `key` for `entity` yields in model `m`.
pub open spec fn cache_get(m: CacheModel, entity: Seq<char>, key: Seq<char>) -> Option<Seq<char>> {
    if m.contains_key(entity) && m[entity].contains_key(key) {
        Some(m[entity][key])
    } else {
        None
    }
}

/// The model after dropping everything stored for `entity`.
pub open spec fn cache_clear(m: CacheModel, entity: Seq<char>) -> CacheModel {
    m.remove(entity)
}

/// The data held for one entity, with the time it was last written.
pub struct PlayerData {
    data_map: StringTable<String>,
    last_accessed: Instant,
}

impl View for PlayerData {
    type V = Map<Seq<char>, Seq<char>>;

    closed spec fn view(&self) -> Map<Seq<char>, Seq<char>> {
        self.data_map@.map_values(|s: String| s@)
    }
}

impl PlayerData {
    pub closed spec fn wf(&self) -> bool {
        self.data_map.wf()
    }

    pub fn new() -> (r: Self)
        ensures
            r.wf(),
            r@ == Map::<Seq<char>, Seq<char>>::empty(),
    {
        let r = PlayerData { data_map: StringTable::new(), last_accessed: Instant::now() };
        assert(r@ =~= Map::<Seq<char>, Seq<char>>::empty());
        r
    }

    /// Stores `value` under `key` and refreshes the access time.
    pub fn set_data(&mut self, key: &str, value: &str)
        requires
            old(self).wf(),
        ensures
            final(self).wf(),
            final(self)@ == old(self)@.insert(key@, value@),
    {
        self.data_map.insert(key.to_owned(), value.to_owned());
        self.last_accessed = Instant::now();
        assert(self@ =~= old(self)@.insert(key@, value@));
    }

    pub fn get_data(&self, key: &str) -> (r: Option<String>)
        requires
            self.wf(),
        ensures
            match r {
                Some(v) => self@.contains_key(key@) && v@ == self@[key@],
                None => !self@.contains_key(key@),
            },
    {
        match self.data_map.get(key) {
            Some(v) => Some(v.clone()),
            None => None,
        }
    }
}

/// Entity id to the entity's data; entries stay until cleared.
pub struct EntityCache {
    entries: StringTable<PlayerData>,
}

impl View for EntityCache {
    type V = CacheModel;

    closed spec fn view(&self) -> CacheModel {
        self.entries@.map_values(|d: PlayerData| d@)
    }
}

impl EntityCache {
    pub closed spec fn wf(&self) -> bool {
        &&& self.entries.wf()
        &&& forall|e: Seq<char>| #[trigger] self.entries@.contains_key(e) ==> self.entries@[e].wf()
    }

    pub fn new() -> (r: Self)
        ensures
            r.wf(),
            r@ == CacheModel::empty(),
    {
        let r = EntityCache { entries: StringTable::new() };
        assert(r@ =~= CacheModel::empty());
        r
    }

    /// Stores `value` under `key` for `entity`, creating the entity's entry
    /// when absent.
    pub fn set(&mut self, entity: &str, key: &str, value: &str)
        requires
            old(self).wf(),
        ensures
            final(self).wf(),
            final(self)@ == cache_set(old(self)@, entity@, key@, value@),
    {
        let mut data = match self.entries.remove(entity) {
            Some(d) => d,
            None => PlayerData::new(),
        };
        data.set_data(key, value);
        self.entries.insert(entity.to_owned(), data);
        assert(self@ =~= cache_set(old(self)@, entity@, key@, value@));
    }

    /// The value stored under `key` for `entity`; never creates an entry.
    pub fn get(&self, entity: &str, key: &str) -> (r: Option<String>)
        requires
            self.wf(),
        ensures
            r.is_some() == cache_get(self@, entity@, key@).is_some(),
            r.is_some() ==> r.unwrap()@ == cache_get(self@, entity@, key@).unwrap(),
    {
        match self.entries.get(entity) {
            Some(d) => d.get_data(key),
            None => None,
        }
    }

    /// Drops everything stored for `entity`; a no-op when it has nothing.
    pub fn clear(&mut self, entity: &str)
        requires
            old(self).wf(),
        ensures
            final(self).wf(),
            final(self)@ == cache_clear(old(self)@, entity@),
    {
        let _ = self.entries.remove(entity);
        assert(self@ =~= cache_clear(old(self)@, entity@));
    }

    /// Drops the data of every entity.
    pub fn clear_all(&mut self)
        requires
            old(self).wf(),
        ensures
            final(self).wf(),
            final(self)@ == CacheModel::empty(),
    {
        self.entries.clear();
        assert(self@ =~= CacheModel::empty());
    }
}

/// Once an entity is cleared, no key of it is found, whatever was stored for
/// it before, including a value just set under that very key.
pub proof fn lemma_get_after_clear(m: CacheModel, entity: Seq<char>, key: Seq<char>, value: Seq<char>)
    ensures
        cache_get(cache_clear(m, entity), entity, key) is None,
        cache_get(cache_clear(cache_set(m, entity, key, value), entity), entity, key) is None,
{
}

/// Two writes to distinct keys of one entity are both visible afterwards, in
/// whichever order the lock admitted them, and neither touches other entities.
pub proof fn lemma_writes_to_one_entity_both_visible(
    m: CacheModel,
    entity: Seq<char>,
    k1: Seq<char>,
    v1: Seq<char>,
    k2: Seq<char>,
    v2: Seq<char>,
)
    requires
        k1 != k2,
    ensures
        cache_get(cache_set(cache_set(m, entity, k1, v1), entity, k2, v2), entity, k1) == Some(v1),
        cache_get(cache_set(cache_set(m, entity, k1, v1), entity, k2, v2), entity, k2) == Some(v2),
        cache_get(cache_set(cache_set(m, entity, k2, v2), entity, k1, v1), entity, k1) == Some(v1),
        cache_get(cache_set(cache_set(m, entity, k2, v2), entity, k1, v1), entity, k2) == Some(v2),
        forall|other: Seq<char>, k: Seq<char>| other != entity ==>
            #[trigger] cache_get(cache_set(cache_set(m, entity, k1, v1), entity, k2, v2), other, k)
                == cache_get(m, other, k),
{
}

} // verus!
