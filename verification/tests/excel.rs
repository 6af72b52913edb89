use nod_krai_gi::excel::{
    AnecdoteExcelConfig, AnecdoteExcelConfigKeyed, AvatarFlycloakExcelConfig,
    AvatarFlycloakExcelConfigKeyed, DailyDungeonConfig, DailyDungeonConfigKeyed,
};

#[test]
fn anecdotes_are_indexed_by_id_and_later_rows_win() {
    let list = vec![
        AnecdoteExcelConfig { anecdote_id: 100001, parent_quest_id_list: vec![1] },
        AnecdoteExcelConfig { anecdote_id: 100002, parent_quest_id_list: vec![] },
        AnecdoteExcelConfig { anecdote_id: 100001, parent_quest_id_list: vec![2, 3] },
    ];
    assert_eq!(AnecdoteExcelConfigKeyed::<u32>::key(&list[1]), 100002);
    let m = <AnecdoteExcelConfig as AnecdoteExcelConfigKeyed<u32>>::index(list);
    assert_eq!(m.len(), 2);
    assert_eq!(m[&100001].parent_quest_id_list, vec![2, 3]);
    assert!(m[&100002].parent_quest_id_list.is_empty());
}

#[test]
fn flycloaks_are_indexed_by_id() {
    let list = vec![
        AvatarFlycloakExcelConfig { flycloak_id: 140001, desc_text_map_hash: 1, name_text_map_hash: 2 },
        AvatarFlycloakExcelConfig { flycloak_id: 140002, desc_text_map_hash: 3, name_text_map_hash: 4 },
    ];
    assert_eq!(AvatarFlycloakExcelConfigKeyed::<u32>::key(&list[0]), 140001);
    let m = <AvatarFlycloakExcelConfig as AvatarFlycloakExcelConfigKeyed<u32>>::index(list);
    assert_eq!(m.len(), 2);
    assert_eq!(m[&140002].name_text_map_hash, 4);
}

#[test]
fn daily_dungeons_are_indexed_by_id() {
    let row = |id: u32, monday: Vec<u32>| DailyDungeonConfig {
        id,
        monday,
        tuesday: vec![],
        wednesday: vec![],
        thursday: vec![],
        friday: vec![],
        saturday: vec![],
        sunday: vec![],
    };
    let list = vec![row(1, vec![5]), row(2, vec![]), row(1, vec![6])];
    let m = <DailyDungeonConfig as DailyDungeonConfigKeyed<u32>>::index(list);
    assert_eq!(m.len(), 2);
    assert_eq!(m[&1].monday, vec![6]);
    assert!(<DailyDungeonConfig as DailyDungeonConfigKeyed<u32>>::index(vec![]).is_empty());
}
