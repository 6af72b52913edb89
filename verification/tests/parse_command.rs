use nod_krai_gi::command::{
    AvatarAction, BuffAction, Command, GachaAction, GadgetAction, GroupAction, ItemAction,
    QuestAction, TpAction, WeaponAction,
};
use nod_krai_gi::parse::parse_command;

fn err(input: &str) -> String {
    match parse_command(input) {
        Err(e) => e,
        Ok(c) => panic!("expected an error for {:?}, got {:?}", input, c),
    }
}

fn ok(input: &str) -> Command {
    match parse_command(input) {
        Ok(c) => c,
        Err(e) => panic!("expected a command for {:?}, got {:?}", input, e),
    }
}

#[test]
fn empty_input_is_refused() {
    assert_eq!(err(""), "命令不能为空");
    assert_eq!(err("   \t "), "命令不能为空");
    assert_eq!(err("/"), "命令不能为空");
}

#[test]
fn unknown_commands_name_their_words() {
    assert_eq!(err("foo"), "unknown command: foo");
    assert_eq!(err("avatar"), "unknown command: avatar");
    assert_eq!(err("foo bar baz"), "unknown command: foo bar");
    assert_eq!(err("avatar fly 1"), "unknown command: avatar fly");
    assert_eq!(err("//help"), "unknown command: /help");
}

#[test]
fn single_word_commands() {
    assert!(matches!(ok("pos"), Command::Pos));
    assert!(matches!(ok("pos extra words"), Command::Pos));
    assert!(matches!(ok("dun"), Command::Dun(None)));
    assert!(matches!(ok("dun 42"), Command::Dun(Some(42))));
    assert_eq!(err("dun abc"), "副本 ID 无效: \"abc\"\n用法: dun [id]");
    assert!(matches!(ok("weather 3"), Command::Weather(3)));
    assert!(matches!(ok("climate 2"), Command::Climate(2)));
    assert_eq!(err("weather"), "缺少参数: weather_id\n用法: weather <weather_id>");
    assert_eq!(err("climate x"), "参数 climate_type 的值无效: \"x\"\n用法: climate <climate_type>");
    match ok("prop key value") {
        Command::Prop(k, v) => {
            assert_eq!(k, "key");
            assert_eq!(v, "value");
        },
        other => panic!("{:?}", other),
    }
    assert_eq!(err("prop key"), "参数错误\n用法: prop <key> <value>");
    match ok("send_packet abc") {
        Command::SendPacket(k) => assert_eq!(k, "abc"),
        other => panic!("{:?}", other),
    }
    assert_eq!(err("send_packet"), "参数错误\n用法: send_packet <key>");
}

#[test]
fn whitespace_and_slash_are_ignored_around_the_command() {
    assert!(matches!(ok("  /avatar   add\t10000089  "), Command::Avatar(AvatarAction::Add { id: 10000089 })));
    assert!(matches!(ok("\u{3000}avatar\u{3000}add\u{3000}7"), Command::Avatar(AvatarAction::Add { id: 7 })));
    assert!(matches!(ok("/ avatar add 7"), Command::Avatar(AvatarAction::Add { id: 7 })));
    assert_eq!(format!("{:?}", parse_command("/quest state 1 2")), format!("{:?}", parse_command("quest state 1 2")));
}

#[test]
fn avatar_commands() {
    assert!(matches!(ok("avatar remove 5"), Command::Avatar(AvatarAction::Remove { id: 5 })));
    assert!(matches!(ok("avatar level 90"), Command::Avatar(AvatarAction::Level { level: 90 })));
    assert!(matches!(ok("avatar break 6"), Command::Avatar(AvatarAction::Break { break_level: 6 })));
    assert!(matches!(ok("avatar add_talent 11"), Command::Avatar(AvatarAction::AddTalent { talent_id: 11 })));
    assert!(matches!(ok("avatar skill 3 10"), Command::Avatar(AvatarAction::Skill { skill_id: 3, level: 10 })));
    assert!(matches!(ok("avatar elem 2"), Command::Avatar(AvatarAction::Elem { element_type: 2 })));
    match ok("avatar rename 5 新名字") {
        Command::Avatar(AvatarAction::Rename { id, name }) => {
            assert_eq!(id, 5);
            assert_eq!(name, "新名字");
        },
        other => panic!("{:?}", other),
    }
    match ok("avatar fight_prop 2000 1.5") {
        Command::Avatar(AvatarAction::FightProp { key, value }) => {
            assert_eq!(key, "2000");
            assert_eq!(value, "1.5");
        },
        other => panic!("{:?}", other),
    }
    assert_eq!(err("avatar add"), "缺少参数: avatar_id\n用法: avatar add <avatar_id>");
    assert_eq!(err("avatar add x"), "参数 avatar_id 的值无效: \"x\"\n用法: avatar add <avatar_id>");
    assert_eq!(err("avatar add 1 level"), "参数 level 缺少值\n用法: avatar add <avatar_id>");
    assert_eq!(err("avatar skill 3"), "缺少参数: level\n用法: avatar skill <skill_id> <level>");
    assert_eq!(err("avatar rename 5"), "参数错误\n用法: avatar rename <avatar_id> <new_name>");
    assert_eq!(err("avatar fight_prop k"), "参数错误\n用法: avatar fight_prop <key> <value>");
    assert_eq!(err("avatar fight_prop k abc"), "value err: avatar fight_prop <key> <value>");
    assert_eq!(err("avatar fight_prop k 1.5.2"), "value err: avatar fight_prop <key> <value>");
    assert!(matches!(ok("avatar fight_prop k -INF"), Command::Avatar(AvatarAction::FightProp { .. })));
}

#[test]
fn named_parameter_given_twice_takes_the_last_value() {
    assert!(matches!(ok("avatar add 1 avatar_id 7"), Command::Avatar(AvatarAction::Add { id: 7 })));
    assert!(matches!(ok("buff add 9 level 1 level 2"), Command::Buff(BuffAction::Add { id: 9, level: Some(2) })));
}

#[test]
fn buff_commands() {
    assert!(matches!(ok("buff add 9"), Command::Buff(BuffAction::Add { id: 9, level: None })));
    assert!(matches!(ok("buff add 9 level x"), Command::Buff(BuffAction::Add { id: 9, level: None })));
    assert!(matches!(ok("buff clear"), Command::Buff(BuffAction::Clear)));
    assert!(matches!(ok("buff list"), Command::Buff(BuffAction::List)));
    assert_eq!(err("buff add"), "缺少参数: buff_id\n用法: buff add <buff_id> [level <num>]");
}

#[test]
fn item_commands() {
    match ok("item add 104003 n 10 lv 20 r 5 m 3 p 1,2;3,4") {
        Command::Item(ItemAction::Add { id, num, level, refinement, main_prop_id, append_prop_id_list }) => {
            assert_eq!(id, 104003);
            assert_eq!(num, Some(10));
            assert_eq!(level, Some(20));
            assert_eq!(refinement, Some(5));
            assert_eq!(main_prop_id, Some(3));
            assert_eq!(append_prop_id_list.len(), 2);
            assert_eq!(append_prop_id_list.get(&1), Some(&2));
            assert_eq!(append_prop_id_list.get(&3), Some(&4));
        },
        other => panic!("{:?}", other),
    }
    match ok("item add 7 p 1,2;1,5") {
        Command::Item(ItemAction::Add { append_prop_id_list, num, .. }) => {
            assert_eq!(num, None);
            assert_eq!(append_prop_id_list.len(), 1);
            assert_eq!(append_prop_id_list.get(&1), Some(&5));
        },
        other => panic!("{:?}", other),
    }
    let help = "\n用法: item add <item_id> [n <num>] [lv <num>] [r <num>] [m <num>] [p k,v;k,v]";
    assert_eq!(err("item add 7 p 1"), format!("参数 p 第 1 组缺少 value{}", help));
    assert_eq!(err("item add 7 p 1,2;x,3"), format!("参数 p 第 2 组的 key 无效: \"x\"{}", help));
    assert_eq!(err("item add 7 p 1,y"), format!("参数 p 第 1 组的 value 无效: \"y\"{}", help));
    assert_eq!(err("item add 7 p 1,2;"), format!("参数 p 第 2 组缺少 value{}", help));
    assert_eq!(err("item add"), format!("缺少参数: item_id{}", help));
    assert!(matches!(ok("item add material"), Command::Item(ItemAction::AddMaterial { max_count: None })));
    assert!(matches!(ok("item add material 100"), Command::Item(ItemAction::AddMaterial { max_count: Some(100) })));
    assert!(matches!(ok("item add furniture x"), Command::Item(ItemAction::AddFurniture { max_count: None })));
    assert!(matches!(ok("item add weapon"), Command::Item(ItemAction::AddWeapon)));
    match ok("item clear weapon") {
        Command::Item(ItemAction::Clear { target }) => assert_eq!(target.as_deref(), Some("weapon")),
        other => panic!("{:?}", other),
    }
    assert!(matches!(ok("item clear"), Command::Item(ItemAction::Clear { target: None })));
    assert!(matches!(ok("item drop 5"), Command::Item(ItemAction::Drop { id: 5 })));
}

#[test]
fn weapon_quest_group_gacha_commands() {
    assert!(matches!(ok("weapon level 90"), Command::Weapon(WeaponAction::Level { level: 90 })));
    assert!(matches!(ok("weapon break 6"), Command::Weapon(WeaponAction::Break { break_level: 6 })));
    assert!(matches!(ok("weapon promote 5"), Command::Weapon(WeaponAction::Promote { promote_level: 5 })));
    assert!(matches!(ok("quest accept 1"), Command::Quest(QuestAction::Accept { id: 1 })));
    assert!(matches!(ok("quest finish 1"), Command::Quest(QuestAction::Finish { id: 1 })));
    assert!(matches!(ok("quest cancel 1"), Command::Quest(QuestAction::Cancel { id: 1 })));
    assert!(matches!(ok("quest restart 1"), Command::Quest(QuestAction::Restart { id: 1 })));
    assert!(matches!(ok("quest restart_all"), Command::Quest(QuestAction::RestartAll)));
    assert!(matches!(ok("quest clear"), Command::Quest(QuestAction::Clear { id: None })));
    assert!(matches!(ok("quest clear 3"), Command::Quest(QuestAction::Clear { id: Some(3) })));
    assert!(matches!(ok("quest state 1 2"), Command::Quest(QuestAction::State { id: 1, state: 2 })));
    assert!(matches!(
        ok("quest var 10 2"),
        Command::Quest(QuestAction::Var { parent_id: 10, index: Some(2), value: None })
    ));
    assert!(matches!(
        ok("quest var 10 x 5"),
        Command::Quest(QuestAction::Var { parent_id: 10, index: None, value: Some(5) })
    ));
    assert_eq!(err("quest var"), "缺少参数: parent_id\n用法: quest var <parent_id> [index] [value]");
    assert!(matches!(ok("group refresh 1"), Command::Group(GroupAction::Refresh { id: 1 })));
    assert!(matches!(ok("group unload 1"), Command::Group(GroupAction::Unload { id: 1 })));
    assert!(matches!(ok("group reload 1"), Command::Group(GroupAction::Reload { id: 1 })));
    assert!(matches!(ok("group clear 1"), Command::Group(GroupAction::Clear { id: 1 })));
    assert!(matches!(ok("group_suite add_extra 1 2"), Command::Group(GroupAction::SuiteAddExtra { id: 1, suite_id: 2 })));
    assert!(matches!(ok("group_suite remove_extra 1 2"), Command::Group(GroupAction::SuiteRemoveExtra { id: 1, suite_id: 2 })));
    assert!(matches!(ok("group_suite kill_extra 1 2"), Command::Group(GroupAction::SuiteKillExtra { id: 1, suite_id: 2 })));
    assert!(matches!(ok("group_suite goto 1 2"), Command::Group(GroupAction::SuiteGoto { id: 1, suite_id: 2 })));
    assert_eq!(
        err("group_suite goto 1 x"),
        "参数 suite_id 的值无效: \"x\"\n用法: group_suite goto <group_id> <suite_id>"
    );
    assert!(matches!(ok("gacha add 3"), Command::Gacha(GachaAction::Add { id: 3 })));
    assert!(matches!(ok("gacha clear"), Command::Gacha(GachaAction::Clear {})));
}

#[test]
fn gadget_and_tp_commands_keep_coordinate_text() {
    match ok("gadget create 70 num 2 level 3 x 1.5 z -2") {
        Command::Gadget(GadgetAction::Create { id, num, drop_id, level, interact_id, x, y, z }) => {
            assert_eq!(id, 70);
            assert_eq!(num, Some(2));
            assert_eq!(drop_id, None);
            assert_eq!(level, Some(3));
            assert_eq!(interact_id, None);
            assert_eq!(x.as_deref(), Some("1.5"));
            assert_eq!(y, None);
            assert_eq!(z.as_deref(), Some("-2"));
        },
        other => panic!("{:?}", other),
    }
    assert!(matches!(ok("gadget remove 70"), Command::Gadget(GadgetAction::Remove { id: 70 })));
    assert!(matches!(ok("gadget state 70 1"), Command::Gadget(GadgetAction::State { id: 70, state: 1 })));
    assert!(matches!(
        ok("gadget set_state_by_entity_id 5 1"),
        Command::Gadget(GadgetAction::SetStateByEntityId { entity_id: 5, state: 1 })
    ));
    match ok("tp a 3 x 10 y 20") {
        Command::Tp(TpAction::A { id, x, y, z }) => {
            assert_eq!(id, 3);
            assert_eq!(x.as_deref(), Some("10"));
            assert_eq!(y.as_deref(), Some("20"));
            assert_eq!(z, None);
        },
        other => panic!("{:?}", other),
    }
    assert!(matches!(ok("tp r 3"), Command::Tp(TpAction::R { id: 3, x: None, y: None, z: None })));
    match ok("tp r 3 x abc y .5e3") {
        Command::Tp(TpAction::R { x, y, .. }) => {
            assert_eq!(x, None);
            assert_eq!(y.as_deref(), Some(".5e3"));
        },
        other => panic!("{:?}", other),
    }
    assert_eq!(err("tp a x"), "参数 id 的值无效: \"x\"\n用法: tp a <id> [x <num>] [y <num>] [z <num>]");
}

#[test]
fn numbers_are_read_as_u32() {
    assert!(matches!(ok("weather +5"), Command::Weather(5)));
    assert!(matches!(ok("weather 007"), Command::Weather(7)));
    assert!(matches!(ok("weather 4294967295"), Command::Weather(4294967295)));
    assert_eq!(err("weather 4294967296"), "参数 weather_id 的值无效: \"4294967296\"\n用法: weather <weather_id>");
    assert_eq!(err("weather -1"), "参数 weather_id 的值无效: \"-1\"\n用法: weather <weather_id>");
    assert_eq!(err("weather +"), "参数 weather_id 的值无效: \"+\"\n用法: weather <weather_id>");
    assert_eq!(err("weather １"), "参数 weather_id 的值无效: \"１\"\n用法: weather <weather_id>");
}
