//! The concurrent map that holds the category entries, kept behind a few
//! trusted items that state what each of its calls does to the contents.
use vstd::prelude::*;
use std::collections::hash_map::RandomState;
use dashmap::DashMap;
use crate::channel::{ChannelView, OSLog};
use crate::level::LevelFilter;

verus! {

#[verifier::external_type_specification]
#[verifier::external_body]
#[verifier::reject_recursive_types(K)]
#[verifier::reject_recursive_types(V)]
#[verifier::reject_recursive_types(S)]
pub struct ExDashMap<K, V, S>(DashMap<K, V, S>);

/// What a registry keeps for one category: its threshold override, if one
/// was set, and the handle of its channel.
pub struct CategoryEntry {
    pub level: Option<LevelFilter>,
    pub log: OSLog,
}

pub type CategoryMap = DashMap<String, CategoryEntry, RandomState>;

/// The contents of a category map: for each category name, the entry's
/// override and the channel of its handle.
pub uninterp spec fn map_entries(m: CategoryMap) -> Map<Seq<char>, (Option<LevelFilter>, ChannelView)>;

pub open spec fn empty_entries() -> Map<Seq<char>, (Option<LevelFilter>, ChannelView)> {
    Map::empty()
}

/// Relies on dashmap's `DashMap::new`: a new map is empty.
#[verifier::external_body]
pub(crate) fn empty_map() -> (r: CategoryMap)
    ensures
        map_entries(r) == empty_entries(),
{
    DashMap::new()
}

/// Relies on dashmap's `DashMap::get`: the entry stored under `category`,
/// of which the override is read.
#[verifier::external_body]
pub(crate) fn stored_level(m: &CategoryMap, category: &str) -> (r: Option<Option<LevelFilter>>)
    ensures
        map_entries(*m).contains_key(category@) ==> r == Some(map_entries(*m)[category@].0),
        !map_entries(*m).contains_key(category@) ==> r is None,
{
    m.get(category).map(|e| e.level)
}

/// Relies on dashmap's `DashMap::entry`, `Entry::and_modify` and
/// `Entry::or_insert`: an entry already stored under `category` gets
/// `level` as its override and keeps its handle; otherwise `fresh` is stored
/// with that override.
#[verifier::external_body]
pub(crate) fn set_level_or_insert(m: &mut CategoryMap, category: String, level: LevelFilter, fresh: OSLog)
    ensures
        map_entries(*final(m)) == map_entries(*old(m)).insert(
            category@,
            (
                Some(level),
                if map_entries(*old(m)).contains_key(category@) {
                    map_entries(*old(m))[category@].1
                } else {
                    fresh@
                },
            ),
        ),
{
    m.entry(category).and_modify(|e| e.level = Some(level)).or_insert(
        CategoryEntry { level: Some(level), log: fresh },
    );
}

/// Relies on dashmap's `DashMap::entry` and `Entry::or_insert`: `fresh` is
/// stored under `category` unless an entry is there already; the result is a
/// copy of the channel of the entry stored afterwards.
#[verifier::external_body]
pub(crate) fn channel_or_insert(m: &mut CategoryMap, category: String, fresh: CategoryEntry) -> (r:
    crate::channel::Channel)
    ensures
        map_entries(*final(m)) == if map_entries(*old(m)).contains_key(category@) {
            map_entries(*old(m))
        } else {
            map_entries(*old(m)).insert(category@, (fresh.level, fresh.log@))
        },
        r@ == map_entries(*final(m))[category@].1,
{
    m.entry(category).or_insert(fresh).log.channel.clone()
}

} // verus!
