use nod_krai_gi::command::Command;
use nod_krai_gi::help::{command_help, render_help_index, render_help_topic};
use nod_krai_gi::parse::parse_command;

/// The command path of a usage line: its words before the first `<..>` or `[..]`.
fn command_path(usage: &str) -> String {
    usage
        .split_whitespace()
        .take_while(|w| !w.starts_with('<') && !w.starts_with('['))
        .collect::<Vec<_>>()
        .join(" ")
}

#[test]
fn help_entries_are_all_parseable() {
    let mut bad = Vec::new();
    for h in command_help() {
        let path = command_path(h.usage);
        if let Err(e) = parse_command(&path) {
            if e.starts_with("unknown command") {
                bad.push(format!("{}  ->  {}", h.usage, e));
            }
        }
    }
    assert!(bad.is_empty(), "帮助表里有解析不了的命令:\n{}", bad.join("\n"));
}

#[test]
fn help_group_matches_usage_prefix() {
    for h in command_help() {
        let first = h.usage.split_whitespace().next().unwrap_or("");
        assert_eq!(h.group, first, "group 与 usage 首词不一致: {:?}", h.usage);
    }
}

#[test]
fn help_index_lists_every_group() {
    let out = render_help_index();
    for h in command_help() {
        assert!(out.contains(h.group), "help 索引里缺少 {}", h.group);
    }
}

#[test]
fn help_topic_lists_all_entries_of_that_group() {
    let out = render_help_topic("avatar");
    let n = command_help().iter().filter(|h| h.group == "avatar").count();
    assert_eq!(out.lines().filter(|l| l.starts_with("avatar ")).count(), n);
}

#[test]
fn help_topic_suggests_on_typo() {
    let out = render_help_topic("ava");
    assert!(out.contains("avatar"), "应提示相近命令，实际: {}", out);
    let out = render_help_topic("zzzz");
    assert!(out.contains("help"), "应提示用 help 查看全部，实际: {}", out);
}

#[test]
fn help_parses_with_and_without_topic() {
    assert!(matches!(parse_command("help"), Ok(Command::Help(None))));
    assert!(matches!(parse_command("/help"), Ok(Command::Help(None))));
    match parse_command("help avatar") {
        Ok(Command::Help(Some(t))) => assert_eq!(t, "avatar"),
        other => panic!("解析结果不对: {:?}", other),
    }
}
