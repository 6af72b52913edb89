use nod_krai_gi::help::{command_help, render_help_index, render_help_topic};

#[test]
fn help_index_text_is_exact() {
    assert_eq!(
        render_help_index(),
        "可用命令（共 52 条）：\navatar  buff  item  weapon  quest  gadget  group  group_suite  tp  gacha  weather  climate  dun  pos  prop  send_packet  help\n\n用 help <命令> 查看具体用法，例如 help avatar"
    );
}

#[test]
fn help_index_lists_each_group_once() {
    let out = render_help_index();
    let line = out.lines().nth(1).unwrap();
    let groups: Vec<&str> = line.split("  ").collect();
    let mut seen = Vec::new();
    for h in command_help() {
        if !seen.contains(&h.group) {
            seen.push(h.group);
        }
    }
    assert_eq!(groups, seen);
}

#[test]
fn help_topic_text_is_exact() {
    assert_eq!(render_help_topic("gacha"), "gacha add <gacha_id>\n    添加卡池\ngacha clear\n    清空卡池");
    assert_eq!(render_help_topic("  //gacha  "), render_help_topic("gacha"));
    assert_eq!(render_help_topic("pos"), "pos\n    显示当前坐标与场景 id");
}

#[test]
fn help_topic_does_not_mix_groups() {
    let out = render_help_topic("group");
    assert_eq!(out.lines().filter(|l| l.starts_with("group ")).count(), 4);
    assert!(!out.contains("group_suite"));
}

#[test]
fn help_topic_suggestions() {
    assert_eq!(render_help_topic("zzzz"), "没有名为 \"zzzz\" 的命令，用 help 查看全部");
    assert_eq!(render_help_topic("grou"), "没有名为 \"grou\" 的命令，你是否想找：group  group_suite");
    assert_eq!(render_help_topic("avatars"), "没有名为 \"avatars\" 的命令，你是否想找：avatar");
    assert!(render_help_topic("").starts_with("没有名为 \"\" 的命令，你是否想找：avatar  buff"));
}

#[test]
fn help_table_size() {
    assert_eq!(command_help().len(), 52);
}

#[test]
fn accepted_commands_begin_with_a_help_entry() {
    let inputs = ["avatar add 1", "/item add material 5", "tp r 3 x 1", "pos", "dun", "quest restart_all now"];
    for input in inputs {
        assert!(nod_krai_gi::parse::parse_command(input).is_ok(), "{}", input);
        let words: Vec<&str> = input.trim().trim_start_matches('/').split_whitespace().collect();
        let listed = command_help().iter().any(|h| {
            let path: Vec<&str> = h
                .usage
                .split_whitespace()
                .take_while(|w| !w.starts_with('<') && !w.starts_with('['))
                .collect();
            words.starts_with(&path)
        });
        assert!(listed, "{}", input);
    }
}

#[test]
fn help_on_the_first_usage_word_finds_the_entry() {
    for h in command_help() {
        let w = h.usage.split_whitespace().next().unwrap();
        assert!(render_help_topic(w).contains(&format!("{}\n    {}", h.usage, h.desc)), "{}", h.usage);
    }
}
