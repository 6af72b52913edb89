use nod_krai_gi::talent::{
    get_avatar_talent_config, iter_avatar_talent_config_map, load_avatar_talent_configs,
    process_inherent_proud_skills, process_talent_ids, AvatarTalentExcelConfig, InternString,
    ProudSkillExcelConfig,
};
use std::collections::HashMap;
use std::sync::Arc;

#[test]
fn talent_ids_map_to_open_configs_in_order() {
    let mut m = HashMap::new();
    m.insert(1, AvatarTalentExcelConfig { talent_id: 1, open_config: InternString(10) });
    m.insert(2, AvatarTalentExcelConfig { talent_id: 2, open_config: InternString(20) });
    let m = Arc::new(m);
    assert_eq!(process_talent_ids(&[2, 3, 1, 2], &m), vec![InternString(20), InternString(10), InternString(20)]);
    assert!(process_talent_ids(&[], &m).is_empty());
}

#[test]
fn proud_skills_map_to_open_configs_in_order() {
    let mut m = HashMap::new();
    m.insert(7, ProudSkillExcelConfig { proud_skill_id: 7, open_config: InternString(70) });
    let m = Arc::new(m);
    assert_eq!(process_inherent_proud_skills(&[8, 7], &m), vec![InternString(70)]);
}

#[test]
fn unreadable_files_are_skipped_and_later_files_win() {
    let files = vec![
        Some(vec![(InternString(1), vec!["a"]), (InternString(2), vec!["b"])]),
        None,
        Some(vec![(InternString(2), vec!["c", "d"])]),
    ];
    let table = load_avatar_talent_configs(files);
    assert_eq!(get_avatar_talent_config(&table, &InternString(1)), Some(&vec!["a"]));
    assert_eq!(get_avatar_talent_config(&table, &InternString(2)), Some(&vec!["c", "d"]));
    assert_eq!(get_avatar_talent_config(&table, &InternString(3)), None);
    let mut keys: Vec<u32> = iter_avatar_talent_config_map(&table).map(|(k, _)| *k).collect();
    keys.sort();
    assert_eq!(keys, vec![1, 2]);
}

#[test]
fn skipping_a_bad_file_is_the_same_as_leaving_it_out() {
    let with_bad = load_avatar_talent_configs(vec![Some(vec![(InternString(1), vec![1u8])]), None]);
    let without = load_avatar_talent_configs(vec![Some(vec![(InternString(1), vec![1u8])])]);
    assert_eq!(get_avatar_talent_config(&with_bad, &InternString(1)), get_avatar_talent_config(&without, &InternString(1)));
    assert_eq!(iter_avatar_talent_config_map(&with_bad).count(), iter_avatar_talent_config_map(&without).count());
}
