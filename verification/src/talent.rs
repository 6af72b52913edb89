//! Avatar talents: the open configs of talents and proud skills, and the
//! table of talent actions by config name.
use std::collections::hash_map::Iter;
use std::collections::HashMap;
use std::sync::Arc;
use vstd::prelude::*;

verus! {

broadcast use vstd::std_specs::hash::group_hash_axioms;

/// An interned name, held by its index in the interner.
#[derive(Clone, Copy, Debug, PartialEq, Eq, Hash)]
pub struct InternString(pub u32);

/// The part of a talent's excel config that talent processing reads.
#[derive(Clone, Copy, Debug)]
pub struct AvatarTalentExcelConfig {
    pub talent_id: u32,
    /// The name of the config that the talent opens.
    pub open_config: InternString,
}

/// The part of a proud skill's excel config that talent processing reads.
#[derive(Clone, Copy, Debug)]
pub struct ProudSkillExcelConfig {
    pub proud_skill_id: u32,
    /// The name of the config that the proud skill opens.
    pub open_config: InternString,
}

/// The open configs of the talents `ids` that `m` knows, in the order of `ids`.
pub open spec fn talent_open_configs(ids: Seq<u32>, m: Map<u32, AvatarTalentExcelConfig>) -> Seq<
    InternString,
>
    decreases ids.len(),
{
    if ids.len() == 0 {
        seq![]
    } else {
        let rest = talent_open_configs(ids.drop_last(), m);
        if m.contains_key(ids.last()) {
            rest.push(m[ids.last()].open_config)
        } else {
            rest
        }
    }
}

/// The open configs of the proud skills `ids` that `m` knows, in the order of `ids`.
pub open spec fn proud_skill_open_configs(ids: Seq<u32>, m: Map<u32, ProudSkillExcelConfig>) -> Seq<
    InternString,
>
    decreases ids.len(),
{
    if ids.len() == 0 {
        seq![]
    } else {
        let rest = proud_skill_open_configs(ids.drop_last(), m);
        if m.contains_key(ids.last()) {
            rest.push(m[ids.last()].open_config)
        } else {
            rest
        }
    }
}

/// The open configs of the talents in `talent_id_list`, skipping the ids
/// that the collection does not hold.
pub fn process_talent_ids(
    talent_id_list: &[u32],
    avatar_talent_collection: &Arc<HashMap<u32, AvatarTalentExcelConfig>>,
) -> (r: Vec<InternString>)
    ensures
        r@ == talent_open_configs(talent_id_list@, (**avatar_talent_collection)@),
{
    let collection: &HashMap<u32, AvatarTalentExcelConfig> = avatar_talent_collection;
    let mut open_configs: Vec<InternString> = Vec::new();
    let mut i: usize = 0;
    assert(talent_id_list@.take(0) =~= seq![]);
    while i < talent_id_list.len()
        invariant
            i <= talent_id_list@.len(),
            collection@ == (**avatar_talent_collection)@,
            open_configs@ == talent_open_configs(talent_id_list@.take(i as int), collection@),
        decreases talent_id_list@.len() - i,
    {
        let id = talent_id_list[i];
        assert(talent_id_list@.take(i + 1).drop_last() =~= talent_id_list@.take(i as int));
        assert(talent_id_list@.take(i + 1).last() == id);
        if let Some(talent_config) = collection.get(&id) {
            open_configs.push(talent_config.open_config);
        }
        i = i + 1;
    }
    assert(talent_id_list@.take(talent_id_list@.len() as int) =~= talent_id_list@);
    open_configs
}

/// The open configs of the proud skills in `inherent_proud_skill_list`,
/// skipping the ids that the collection does not hold.
pub fn process_inherent_proud_skills(
    inherent_proud_skill_list: &[u32],
    proud_skill_collection: &Arc<HashMap<u32, ProudSkillExcelConfig>>,
) -> (r: Vec<InternString>)
    ensures
        r@ == proud_skill_open_configs(inherent_proud_skill_list@, (**proud_skill_collection)@),
{
    let collection: &HashMap<u32, ProudSkillExcelConfig> = proud_skill_collection;
    let ids = inherent_proud_skill_list;
    let mut open_configs: Vec<InternString> = Vec::new();
    let mut i: usize = 0;
    assert(ids@.take(0) =~= seq![]);
    while i < ids.len()
        invariant
            i <= ids@.len(),
            collection@ == (**proud_skill_collection)@,
            open_configs@ == proud_skill_open_configs(ids@.take(i as int), collection@),
        decreases ids@.len() - i,
    {
        let id = ids[i];
        assert(ids@.take(i + 1).drop_last() =~= ids@.take(i as int));
        assert(ids@.take(i + 1).last() == id);
        if let Some(config) = collection.get(&id) {
            open_configs.push(config.open_config);
        }
        i = i + 1;
    }
    assert(ids@.take(ids@.len() as int) =~= ids@);
    open_configs
}

/// Talent actions by the index of their config name; `A` is the type of
/// one action.
pub struct AvatarTalentConfigMap<A> {
    talents: HashMap<u32, Vec<A>>,
}

impl<A> View for AvatarTalentConfigMap<A> {
    type V = Map<u32, Vec<A>>;

    closed spec fn view(&self) -> Map<u32, Vec<A>> {
        self.talents@
    }
}

/// `m` with the talents `t` added in order, each replacing any earlier
/// entry of the same name.
pub open spec fn with_talents<A>(m: Map<u32, Vec<A>>, t: Seq<(InternString, Vec<A>)>) -> Map<
    u32,
    Vec<A>,
>
    decreases t.len(),
{
    if t.len() == 0 {
        m
    } else {
        with_talents(m, t.drop_last()).insert(t.last().0.0, t.last().1)
    }
}

/// `m` with the talents of each config file in `files` added in order;
/// a file that could not be read (`None`) adds nothing.
pub open spec fn with_talent_files<A>(
    m: Map<u32, Vec<A>>,
    files: Seq<Option<Seq<(InternString, Vec<A>)>>>,
) -> Map<u32, Vec<A>>
    decreases files.len(),
{
    if files.len() == 0 {
        m
    } else {
        let before = with_talent_files(m, files.drop_last());
        match files.last() {
            Some(t) => with_talents(before, t),
            None => before,
        }
    }
}

/// The view of a list of config files, each read or not.
pub open spec fn files_view<A>(files: Seq<Option<Vec<(InternString, Vec<A>)>>>) -> Seq<
    Option<Seq<(InternString, Vec<A>)>>,
> {
    Seq::new(
        files.len(),
        |i: int|
            match files[i] {
                Some(t) => Some(t@),
                None => None,
            },
    )
}

impl<A> AvatarTalentConfigMap<A> {
    /// A table with no talents.
    pub fn new() -> (r: Self)
        ensures
            r@ == Map::<u32, Vec<A>>::empty(),
    {
        AvatarTalentConfigMap { talents: HashMap::new() }
    }

    /// Adds the talents of one config file, each replacing any earlier
    /// entry of the same name.
    pub fn extend(&mut self, talents: Vec<(InternString, Vec<A>)>)
        ensures
            final(self)@ == with_talents(old(self)@, talents@),
    {
        let ghost t = talents@;
        let ghost start = self@;
        assert(t.take(0) =~= seq![]);
        for item in it: talents
            invariant
                t == it.seq(),
                self@ == with_talents(start, t.take(it.index() as int)),
        {
            let (name, actions) = item;
            assert(t.take(it.index() + 1).drop_last() =~= t.take(it.index() as int));
            self.talents.insert(name.0, actions);
        }
        assert(t.take(t.len() as int) =~= t);
    }
}

/// Builds the talent table from the config files in the order in which
/// they were read; a file that could not be read or parsed (`None`) is
/// skipped, and a later file replaces the entries of an earlier one.
pub fn load_avatar_talent_configs<A>(files: Vec<Option<Vec<(InternString, Vec<A>)>>>) -> (r:
    AvatarTalentConfigMap<A>)
    ensures
        r@ == with_talent_files(Map::empty(), files_view(files@)),
{
    let ghost fv = files_view(files@);
    let mut map = AvatarTalentConfigMap::new();
    assert(fv.take(0) =~= seq![]);
    for file in it: files
        invariant
            fv.len() == it.seq().len(),
            forall|i: int|
                0 <= i < fv.len() ==> #[trigger] fv[i] == match it.seq()[i] {
                    Some(t) => Some(t@),
                    None => None,
                },
            map@ == with_talent_files(Map::empty(), fv.take(it.index() as int)),
    {
        assert(fv.take(it.index() + 1).drop_last() =~= fv.take(it.index() as int));
        assert(fv[it.index() as int] == match file {
            Some(t) => Some(t@),
            None => None,
        });
        match file {
            Some(talents) => map.extend(talents),
            None => {},
        }
    }
    assert(fv.take(fv.len() as int) =~= fv);
    map
}

/// The talent actions of the config `name`, if the table holds it.
pub fn get_avatar_talent_config<'a, A>(
    configs: &'a AvatarTalentConfigMap<A>,
    name: &InternString,
) -> (r: Option<&'a Vec<A>>)
    ensures
        match r {
            Some(v) => configs@.contains_key(name.0) && *v == configs@[name.0],
            None => !configs@.contains_key(name.0),
        },
{
    configs.talents.get(&name.0)
}

/// Walks the talent table: every entry, each once, in no fixed order.
pub fn iter_avatar_talent_config_map<'a, A>(configs: &'a AvatarTalentConfigMap<A>) -> (r: Iter<
    'a,
    u32,
    Vec<A>,
>)
    ensures
        vstd::std_specs::iter::IteratorSpec::remaining(&r).no_duplicates(),
        vstd::std_specs::iter::IteratorSpec::remaining(&r).unref().to_set()
            == configs@.kv_pairs(),
{
    configs.talents.iter()
}

} // verus!
