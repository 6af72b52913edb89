//! Excel config rows, and tables of them keyed by id.
//!
//! Reading the rows from their JSON files is done by the program around
//! the library; the library indexes the rows it is given.
use std::collections::HashMap;
use vstd::prelude::*;

verus! {

broadcast use vstd::std_specs::hash::group_hash_axioms;

/// One anecdote: its id and the quests it belongs to.
#[derive(Debug, Clone)]
pub struct AnecdoteExcelConfig {
    pub anecdote_id: u32,
    pub parent_quest_id_list: Vec<u32>,
}

/// Anecdote configs by key.
pub trait AnecdoteExcelConfigKeyed<K> {
    /// The key of this config.
    fn key(&self) -> K;

    /// The configs of `list` by key, a later config replacing an earlier
    /// one with the same key.
    fn index(list: Vec<AnecdoteExcelConfig>) -> HashMap<K, AnecdoteExcelConfig>;
}

/// The anecdotes of `list` by id, later ones replacing earlier ones.
pub open spec fn anecdotes_by_id(list: Seq<AnecdoteExcelConfig>) -> Map<u32, AnecdoteExcelConfig>
    decreases list.len(),
{
    if list.len() == 0 {
        Map::empty()
    } else {
        anecdotes_by_id(list.drop_last()).insert(list.last().anecdote_id, list.last())
    }
}

impl AnecdoteExcelConfigKeyed<u32> for AnecdoteExcelConfig {
    fn key(&self) -> (r: u32)
        ensures
            r == self.anecdote_id,
    {
        self.anecdote_id
    }

    fn index(list: Vec<AnecdoteExcelConfig>) -> (r: HashMap<u32, AnecdoteExcelConfig>)
        ensures
            r@ == anecdotes_by_id(list@),
    {
        let ghost l = list@;
        let mut data: HashMap<u32, AnecdoteExcelConfig> = HashMap::new();
        assert(l.take(0) =~= seq![]);
        for item in it: list
            invariant
                l == it.seq(),
                data@ == anecdotes_by_id(l.take(it.index() as int)),
        {
            assert(l.take(it.index() + 1).drop_last() =~= l.take(it.index() as int));
            let key = item.key();
            data.insert(key, item);
        }
        assert(l.take(l.len() as int) =~= l);
        data
    }
}

/// One flycloak (glider): its id and the text hashes of its description and name.
#[derive(Debug, Clone)]
pub struct AvatarFlycloakExcelConfig {
    pub flycloak_id: u32,
    pub desc_text_map_hash: u64,
    pub name_text_map_hash: u64,
}

/// Flycloak configs by key.
pub trait AvatarFlycloakExcelConfigKeyed<K> {
    /// The key of this config.
    fn key(&self) -> K;

    /// The configs of `list` by key, a later config replacing an earlier
    /// one with the same key.
    fn index(list: Vec<AvatarFlycloakExcelConfig>) -> HashMap<K, AvatarFlycloakExcelConfig>;
}

/// The flycloaks of `list` by id, later ones replacing earlier ones.
pub open spec fn flycloaks_by_id(list: Seq<AvatarFlycloakExcelConfig>) -> Map<
    u32,
    AvatarFlycloakExcelConfig,
>
    decreases list.len(),
{
    if list.len() == 0 {
        Map::empty()
    } else {
        flycloaks_by_id(list.drop_last()).insert(list.last().flycloak_id, list.last())
    }
}

impl AvatarFlycloakExcelConfigKeyed<u32> for AvatarFlycloakExcelConfig {
    fn key(&self) -> (r: u32)
        ensures
            r == self.flycloak_id,
    {
        self.flycloak_id
    }

    fn index(list: Vec<AvatarFlycloakExcelConfig>) -> (r: HashMap<u32, AvatarFlycloakExcelConfig>)
        ensures
            r@ == flycloaks_by_id(list@),
    {
        let ghost l = list@;
        let mut data: HashMap<u32, AvatarFlycloakExcelConfig> = HashMap::new();
        assert(l.take(0) =~= seq![]);
        for item in it: list
            invariant
                l == it.seq(),
                data@ == flycloaks_by_id(l.take(it.index() as int)),
        {
            assert(l.take(it.index() + 1).drop_last() =~= l.take(it.index() as int));
            let key = item.key();
            data.insert(key, item);
        }
        assert(l.take(l.len() as int) =~= l);
        data
    }
}

/// One daily dungeon entry: its id and the dungeons open on each weekday.
#[derive(Debug, Clone)]
pub struct DailyDungeonConfig {
    pub id: u32,
    pub monday: Vec<u32>,
    pub tuesday: Vec<u32>,
    pub wednesday: Vec<u32>,
    pub thursday: Vec<u32>,
    pub friday: Vec<u32>,
    pub saturday: Vec<u32>,
    pub sunday: Vec<u32>,
}

/// Daily dungeon configs by key.
pub trait DailyDungeonConfigKeyed<K> {
    /// The key of this config.
    fn key(&self) -> K;

    /// The configs of `list` by key, a later config replacing an earlier
    /// one with the same key.
    fn index(list: Vec<DailyDungeonConfig>) -> HashMap<K, DailyDungeonConfig>;
}

/// The daily dungeon entries of `list` by id, later ones replacing earlier ones.
pub open spec fn daily_dungeons_by_id(list: Seq<DailyDungeonConfig>) -> Map<u32, DailyDungeonConfig>
    decreases list.len(),
{
    if list.len() == 0 {
        Map::empty()
    } else {
        daily_dungeons_by_id(list.drop_last()).insert(list.last().id, list.last())
    }
}

impl DailyDungeonConfigKeyed<u32> for DailyDungeonConfig {
    fn key(&self) -> (r: u32)
        ensures
            r == self.id,
    {
        self.id
    }

    fn index(list: Vec<DailyDungeonConfig>) -> (r: HashMap<u32, DailyDungeonConfig>)
        ensures
            r@ == daily_dungeons_by_id(list@),
    {
        let ghost l = list@;
        let mut data: HashMap<u32, DailyDungeonConfig> = HashMap::new();
        assert(l.take(0) =~= seq![]);
        for item in it: list
            invariant
                l == it.seq(),
                data@ == daily_dungeons_by_id(l.take(it.index() as int)),
        {
            assert(l.take(it.index() + 1).drop_last() =~= l.take(it.index() as int));
            let key = item.key();
            data.insert(key, item);
        }
        assert(l.take(l.len() as int) =~= l);
        data
    }
}

} // verus!
