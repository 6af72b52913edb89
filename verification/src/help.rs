//! The help table of the GM commands, and the `help` output built from it.
use crate::text::{
    chars_of, decimal, join, join_strings, push_decimal, substring, text_eq, trim, trim_bounds,
    trim_end, trim_start_char, views,
};
use vstd::prelude::*;

verus! {

/// How one command is used, and what it does.
///
/// The help table is what `help` shows; each of its entries corresponds to
/// one branch of `parse_command`.
#[derive(Clone, Copy)]
pub struct CommandHelp {
    /// The first word of the command, such as "avatar".
    pub group: &'static str,
    /// The full usage, such as "avatar add <avatar_id>".
    pub usage: &'static str,
    /// What the command does, in one sentence.
    pub desc: &'static str,
}

/// The help table, in the order in which `help` lists it.
pub open spec fn help_table() -> Seq<CommandHelp> {
    seq![
        CommandHelp { group: "avatar", usage: "avatar add <avatar_id>", desc: "添加角色" },
        CommandHelp { group: "avatar", usage: "avatar remove <avatar_id>", desc: "移除角色" },
        CommandHelp { group: "avatar", usage: "avatar rename <avatar_id> <new_name>", desc: "重命名角色" },
        CommandHelp { group: "avatar", usage: "avatar level <level>", desc: "设置当前角色等级" },
        CommandHelp { group: "avatar", usage: "avatar break <break_level>", desc: "设置突破等级" },
        CommandHelp { group: "avatar", usage: "avatar add_talent <talent_id>", desc: "添加命座" },
        CommandHelp { group: "avatar", usage: "avatar skill <skill_id> <level>", desc: "设置技能等级" },
        CommandHelp { group: "avatar", usage: "avatar elem <element_type>", desc: "设置元素类型" },
        CommandHelp { group: "avatar", usage: "avatar fight_prop <key> <value>", desc: "设置战斗属性" },
        CommandHelp { group: "buff", usage: "buff add <buff_id> [level <num>]", desc: "添加 buff" },
        CommandHelp { group: "buff", usage: "buff clear", desc: "清空 buff" },
        CommandHelp { group: "buff", usage: "buff list", desc: "列出当前 buff" },
        CommandHelp { group: "item", usage: "item add <item_id> [n <num>] [lv <num>] [r <num>] [m <num>] [p k,v;k,v]", desc: "添加物品；n 数量 lv 等级 r 精炼 m 主词条 p 副词条" },
        CommandHelp { group: "item", usage: "item add material [max_count]", desc: "添加全部材料" },
        CommandHelp { group: "item", usage: "item add furniture [max_count]", desc: "添加全部家具" },
        CommandHelp { group: "item", usage: "item add weapon", desc: "添加全部武器" },
        CommandHelp { group: "item", usage: "item clear [target]", desc: "清空背包，可指定类别" },
        CommandHelp { group: "item", usage: "item drop <item_id>", desc: "在脚下掉落物品" },
        CommandHelp { group: "weapon", usage: "weapon level <level>", desc: "设置武器等级" },
        CommandHelp { group: "weapon", usage: "weapon break <break_level>", desc: "设置武器突破" },
        CommandHelp { group: "weapon", usage: "weapon promote <promote_level>", desc: "设置武器精炼" },
        CommandHelp { group: "quest", usage: "quest accept <quest_id>", desc: "接受任务" },
        CommandHelp { group: "quest", usage: "quest cancel <quest_id>", desc: "取消任务" },
        CommandHelp { group: "quest", usage: "quest finish <quest_id>", desc: "完成任务" },
        CommandHelp { group: "quest", usage: "quest restart <quest_id>", desc: "重置任务" },
        CommandHelp { group: "quest", usage: "quest restart_all", desc: "重置全部任务" },
        CommandHelp { group: "quest", usage: "quest clear", desc: "清空任务" },
        CommandHelp { group: "quest", usage: "quest state <quest_id> <state>", desc: "设置任务状态" },
        CommandHelp { group: "quest", usage: "quest var <parent_id> [index] [value]", desc: "查看/设置任务变量" },
        CommandHelp { group: "gadget", usage: "gadget create <gadget_id> [num <n>] [drop_id <id>] [level <n>] [interact_id <id>] [x <n>] [y <n>] [z <n>]", desc: "生成装置" },
        CommandHelp { group: "gadget", usage: "gadget remove <gadget_id>", desc: "移除装置" },
        CommandHelp { group: "gadget", usage: "gadget state <gadget_id> <state>", desc: "按 gadget_id 设置状态" },
        CommandHelp { group: "gadget", usage: "gadget set_state_by_entity_id <entity_id> <state>", desc: "按 entity_id 设置状态" },
        CommandHelp { group: "group", usage: "group refresh <group_id>", desc: "刷新群组" },
        CommandHelp { group: "group", usage: "group reload <group_id>", desc: "重载群组" },
        CommandHelp { group: "group", usage: "group unload <group_id>", desc: "卸载群组" },
        CommandHelp { group: "group", usage: "group clear <group_id>", desc: "清空群组" },
        CommandHelp { group: "group_suite", usage: "group_suite goto <group_id> <suite_id>", desc: "切换到指定 suite" },
        CommandHelp { group: "group_suite", usage: "group_suite add_extra <group_id> <suite_id>", desc: "追加 suite" },
        CommandHelp { group: "group_suite", usage: "group_suite remove_extra <group_id> <suite_id>", desc: "移除追加的 suite" },
        CommandHelp { group: "group_suite", usage: "group_suite kill_extra <group_id> <suite_id>", desc: "清掉追加 suite 的实体" },
        CommandHelp { group: "tp", usage: "tp a <scene_id> [x <num>] [y <num>] [z <num>]", desc: "传送到绝对坐标" },
        CommandHelp { group: "tp", usage: "tp r <scene_id> [x <num>] [y <num>] [z <num>]", desc: "相对当前位置传送" },
        CommandHelp { group: "gacha", usage: "gacha add <gacha_id>", desc: "添加卡池" },
        CommandHelp { group: "gacha", usage: "gacha clear", desc: "清空卡池" },
        CommandHelp { group: "weather", usage: "weather <weather_id>", desc: "设置天气" },
        CommandHelp { group: "climate", usage: "climate <climate_type>", desc: "设置气候" },
        CommandHelp { group: "dun", usage: "dun [id]", desc: "进入副本，省略 id 则退出" },
        CommandHelp { group: "pos", usage: "pos", desc: "显示当前坐标与场景 id" },
        CommandHelp { group: "prop", usage: "prop <key> <value>", desc: "设置玩家属性" },
        CommandHelp { group: "send_packet", usage: "send_packet <key>", desc: "发送调试包" },
        CommandHelp { group: "help", usage: "help [命令]", desc: "列出命令，或查看某条命令的用法" }
    ]
}

/// The help table.
pub fn command_help() -> (r: Vec<CommandHelp>)
    ensures
        r@ == help_table(),
{
    vec![
        CommandHelp { group: "avatar", usage: "avatar add <avatar_id>", desc: "添加角色" },
        CommandHelp { group: "avatar", usage: "avatar remove <avatar_id>", desc: "移除角色" },
        CommandHelp { group: "avatar", usage: "avatar rename <avatar_id> <new_name>", desc: "重命名角色" },
        CommandHelp { group: "avatar", usage: "avatar level <level>", desc: "设置当前角色等级" },
        CommandHelp { group: "avatar", usage: "avatar break <break_level>", desc: "设置突破等级" },
        CommandHelp { group: "avatar", usage: "avatar add_talent <talent_id>", desc: "添加命座" },
        CommandHelp { group: "avatar", usage: "avatar skill <skill_id> <level>", desc: "设置技能等级" },
        CommandHelp { group: "avatar", usage: "avatar elem <element_type>", desc: "设置元素类型" },
        CommandHelp { group: "avatar", usage: "avatar fight_prop <key> <value>", desc: "设置战斗属性" },
        CommandHelp { group: "buff", usage: "buff add <buff_id> [level <num>]", desc: "添加 buff" },
        CommandHelp { group: "buff", usage: "buff clear", desc: "清空 buff" },
        CommandHelp { group: "buff", usage: "buff list", desc: "列出当前 buff" },
        CommandHelp { group: "item", usage: "item add <item_id> [n <num>] [lv <num>] [r <num>] [m <num>] [p k,v;k,v]", desc: "添加物品；n 数量 lv 等级 r 精炼 m 主词条 p 副词条" },
        CommandHelp { group: "item", usage: "item add material [max_count]", desc: "添加全部材料" },
        CommandHelp { group: "item", usage: "item add furniture [max_count]", desc: "添加全部家具" },
        CommandHelp { group: "item", usage: "item add weapon", desc: "添加全部武器" },
        CommandHelp { group: "item", usage: "item clear [target]", desc: "清空背包，可指定类别" },
        CommandHelp { group: "item", usage: "item drop <item_id>", desc: "在脚下掉落物品" },
        CommandHelp { group: "weapon", usage: "weapon level <level>", desc: "设置武器等级" },
        CommandHelp { group: "weapon", usage: "weapon break <break_level>", desc: "设置武器突破" },
        CommandHelp { group: "weapon", usage: "weapon promote <promote_level>", desc: "设置武器精炼" },
        CommandHelp { group: "quest", usage: "quest accept <quest_id>", desc: "接受任务" },
        CommandHelp { group: "quest", usage: "quest cancel <quest_id>", desc: "取消任务" },
        CommandHelp { group: "quest", usage: "quest finish <quest_id>", desc: "完成任务" },
        CommandHelp { group: "quest", usage: "quest restart <quest_id>", desc: "重置任务" },
        CommandHelp { group: "quest", usage: "quest restart_all", desc: "重置全部任务" },
        CommandHelp { group: "quest", usage: "quest clear", desc: "清空任务" },
        CommandHelp { group: "quest", usage: "quest state <quest_id> <state>", desc: "设置任务状态" },
        CommandHelp { group: "quest", usage: "quest var <parent_id> [index] [value]", desc: "查看/设置任务变量" },
        CommandHelp { group: "gadget", usage: "gadget create <gadget_id> [num <n>] [drop_id <id>] [level <n>] [interact_id <id>] [x <n>] [y <n>] [z <n>]", desc: "生成装置" },
        CommandHelp { group: "gadget", usage: "gadget remove <gadget_id>", desc: "移除装置" },
        CommandHelp { group: "gadget", usage: "gadget state <gadget_id> <state>", desc: "按 gadget_id 设置状态" },
        CommandHelp { group: "gadget", usage: "gadget set_state_by_entity_id <entity_id> <state>", desc: "按 entity_id 设置状态" },
        CommandHelp { group: "group", usage: "group refresh <group_id>", desc: "刷新群组" },
        CommandHelp { group: "group", usage: "group reload <group_id>", desc: "重载群组" },
        CommandHelp { group: "group", usage: "group unload <group_id>", desc: "卸载群组" },
        CommandHelp { group: "group", usage: "group clear <group_id>", desc: "清空群组" },
        CommandHelp { group: "group_suite", usage: "group_suite goto <group_id> <suite_id>", desc: "切换到指定 suite" },
        CommandHelp { group: "group_suite", usage: "group_suite add_extra <group_id> <suite_id>", desc: "追加 suite" },
        CommandHelp { group: "group_suite", usage: "group_suite remove_extra <group_id> <suite_id>", desc: "移除追加的 suite" },
        CommandHelp { group: "group_suite", usage: "group_suite kill_extra <group_id> <suite_id>", desc: "清掉追加 suite 的实体" },
        CommandHelp { group: "tp", usage: "tp a <scene_id> [x <num>] [y <num>] [z <num>]", desc: "传送到绝对坐标" },
        CommandHelp { group: "tp", usage: "tp r <scene_id> [x <num>] [y <num>] [z <num>]", desc: "相对当前位置传送" },
        CommandHelp { group: "gacha", usage: "gacha add <gacha_id>", desc: "添加卡池" },
        CommandHelp { group: "gacha", usage: "gacha clear", desc: "清空卡池" },
        CommandHelp { group: "weather", usage: "weather <weather_id>", desc: "设置天气" },
        CommandHelp { group: "climate", usage: "climate <climate_type>", desc: "设置气候" },
        CommandHelp { group: "dun", usage: "dun [id]", desc: "进入副本，省略 id 则退出" },
        CommandHelp { group: "pos", usage: "pos", desc: "显示当前坐标与场景 id" },
        CommandHelp { group: "prop", usage: "prop <key> <value>", desc: "设置玩家属性" },
        CommandHelp { group: "send_packet", usage: "send_packet <key>", desc: "发送调试包" },
        CommandHelp { group: "help", usage: "help [命令]", desc: "列出命令，或查看某条命令的用法" }
    ]
}

/// The groups of `t` in the order in which they first occur, each once.
pub open spec fn distinct_groups(t: Seq<CommandHelp>) -> Seq<Seq<char>>
    decreases t.len(),
{
    if t.len() == 0 {
        seq![]
    } else {
        let g = distinct_groups(t.drop_last());
        if g.contains(t.last().group@) {
            g
        } else {
            g.push(t.last().group@)
        }
    }
}

/// What `help` without a topic shows for the table `t`.
pub open spec fn help_index_text(t: Seq<CommandHelp>) -> Seq<char> {
    "可用命令（共 "@ + decimal(t.len()) + " 条）：\n"@ + join(distinct_groups(t), "  "@)
        + "\n\n用 help <命令> 查看具体用法，例如 help avatar"@
}

/// Whether `v` holds a string equal to `s`.
fn contains_text(v: &Vec<String>, s: &str) -> (r: bool)
    ensures
        r == views(v@).contains(s@),
{
    let mut i: usize = 0;
    while i < v.len()
        invariant
            i <= v.len(),
            forall|j: int| 0 <= j < i ==> views(v@)[j] != s@,
        decreases v.len() - i,
    {
        if text_eq(v[i].as_str(), s) {
            assert(views(v@)[i as int] == s@);
            return true;
        }
        i = i + 1;
    }
    false
}

/// The output of `help` without a topic: the number of commands and
/// their groups.
pub fn render_help_index() -> (r: String)
    ensures
        r@ == help_index_text(help_table()),
{
    let table = command_help();
    let mut groups: Vec<String> = Vec::new();
    let mut i: usize = 0;
    assert(table@.take(0) =~= seq![]);
    assert(views(groups@) =~= seq![]);
    while i < table.len()
        invariant
            table@ == help_table(),
            i <= table.len(),
            views(groups@) == distinct_groups(table@.take(i as int)),
        decreases table.len() - i,
    {
        let h = table[i];
        assert(table@.take(i + 1).drop_last() =~= table@.take(i as int));
        assert(table@.take(i + 1).last() == h);
        if !contains_text(&groups, h.group) {
            let ghost before = groups@;
            groups.push(h.group.to_owned());
            assert(views(groups@) =~= views(before).push(h.group@));
        }
        i = i + 1;
    }
    assert(table@.take(table.len() as int) =~= table@);
    let mut out: String = "可用命令（共 ".to_owned();
    push_decimal(&mut out, table.len());
    out.append(" 条）：\n");
    let joined = join_strings(&groups, "  ");
    out.append(joined.as_str());
    out.append("\n\n用 help <命令> 查看具体用法，例如 help avatar");
    out
}

/// The topic that `help <topic>` looks up: trimmed, without leading `/`.
pub open spec fn topic_key(topic: Seq<char>) -> Seq<char> {
    trim_start_char(trim(topic), '/')
}

/// Whether some entry of `t` belongs to the group `key`.
pub open spec fn has_group(t: Seq<CommandHelp>, key: Seq<char>) -> bool {
    exists|i: int| 0 <= i < t.len() && #[trigger] t[i].group@ == key
}

/// The usage and description of each entry of `t` in the group `key`.
pub open spec fn topic_lines(t: Seq<CommandHelp>, key: Seq<char>) -> Seq<char>
    decreases t.len(),
{
    if t.len() == 0 {
        seq![]
    } else {
        let h = t.last();
        topic_lines(t.drop_last(), key) + if h.group@ == key {
            h.usage@ + "\n    "@ + h.desc@ + "\n"@
        } else {
            seq![]
        }
    }
}

/// Whether one of `a` and `b` begins with the other.
pub open spec fn near(a: Seq<char>, b: Seq<char>) -> bool {
    a.is_prefix_of(b) || b.is_prefix_of(a)
}

/// The groups of `t` near `key`, in the order in which they first occur,
/// each once.
pub open spec fn near_groups(t: Seq<CommandHelp>, key: Seq<char>) -> Seq<Seq<char>>
    decreases t.len(),
{
    if t.len() == 0 {
        seq![]
    } else {
        let g = near_groups(t.drop_last(), key);
        let h = t.last().group@;
        if near(h, key) && !g.contains(h) {
            g.push(h)
        } else {
            g
        }
    }
}

/// What `help <topic>` shows for the table `t`: every entry of the topic's
/// group, or else the groups whose names are near it.
pub open spec fn help_topic_text(t: Seq<CommandHelp>, topic: Seq<char>) -> Seq<char> {
    let key = topic_key(topic);
    if has_group(t, key) {
        trim_end(topic_lines(t, key))
    } else if near_groups(t, key).len() == 0 {
        "没有名为 \""@ + key + "\" 的命令，用 help 查看全部"@
    } else {
        "没有名为 \""@ + key + "\" 的命令，你是否想找："@ + join(near_groups(t, key), "  "@)
    }
}

/// Whether `a` begins with `b`.
fn starts_with_text(a: &str, b: &str) -> (r: bool)
    ensures
        r == b@.is_prefix_of(a@),
{
    let x = chars_of(a);
    let y = chars_of(b);
    if y.len() > x.len() {
        return false;
    }
    let mut i: usize = 0;
    while i < y.len()
        invariant
            x@ == a@,
            y@ == b@,
            y@.len() <= x@.len(),
            i <= y@.len(),
            forall|j: int| 0 <= j < i ==> y@[j] == x@[j],
        decreases y.len() - i,
    {
        if x[i] != y[i] {
            return false;
        }
        i = i + 1;
    }
    true
}

/// `s` without its trailing whitespace.
fn trim_end_text(s: &str) -> (r: String)
    ensures
        r@ == trim_end(s@),
{
    let chars = chars_of(s);
    let mut e: usize = chars.len();
    assert(s@.take(s@.len() as int) =~= s@);
    while e > 0 && crate::text::is_whitespace(chars[e - 1])
        invariant
            chars@ == s@,
            e <= s@.len(),
            trim_end(s@) == trim_end(s@.take(e as int)),
        decreases e,
    {
        assert(s@.take(e as int).drop_last() =~= s@.take(e - 1));
        e = e - 1;
    }
    assert(s@.take(e as int) =~= s@.subrange(0, e as int));
    substring(s, 0, e)
}

/// The output of `help <topic>`: the usage of every command of that group,
/// or, when there is no such group, the groups whose names are near it.
pub fn render_help_topic(topic: &str) -> (r: String)
    ensures
        r@ == help_topic_text(help_table(), topic@),
{
    let chars = chars_of(topic);
    let (k, e) = trim_bounds(&chars);
    let mut b: usize = k;
    assert(topic@.subrange(k as int, e as int) =~= topic@.subrange(b as int, e as int));
    while b < e && chars[b] == '/'
        invariant
            chars@ == topic@,
            k <= b <= e <= chars@.len(),
            trim_start_char(topic@.subrange(k as int, e as int), '/') == trim_start_char(
                topic@.subrange(b as int, e as int),
                '/',
            ),
        decreases e - b,
    {
        assert(topic@.subrange(b as int, e as int).drop_first() =~= topic@.subrange(
            b + 1,
            e as int,
        ));
        b = b + 1;
    }
    let key = substring(topic, b, e);
    assert(key@ == topic_key(topic@));
    let table = command_help();
    let mut found = false;
    let mut lines = String::new();
    let mut close: Vec<String> = Vec::new();
    let mut i: usize = 0;
    assert(table@.take(0) =~= seq![]);
    assert(views(close@) =~= seq![]);
    while i < table.len()
        invariant
            table@ == help_table(),
            i <= table.len(),
            found == has_group(table@.take(i as int), key@),
            lines@ == topic_lines(table@.take(i as int), key@),
            views(close@) == near_groups(table@.take(i as int), key@),
        decreases table.len() - i,
    {
        let h = table[i];
        let ghost pre = table@.take(i as int);
        let ghost cur = table@.take(i + 1);
        assert(cur.drop_last() =~= pre);
        assert(cur.last() == h);
        if text_eq(h.group, key.as_str()) {
            found = true;
            lines.append(h.usage);
            lines.append("\n    ");
            lines.append(h.desc);
            lines.append("\n");
            assert(cur[i as int].group@ == key@);
        } else {
            assert(topic_lines(pre, key@) + seq![] =~= topic_lines(pre, key@));
            assert(has_group(cur, key@) ==> has_group(pre, key@)) by {
                if has_group(cur, key@) {
                    let j = choose|j: int| 0 <= j < cur.len() && #[trigger] cur[j].group@ == key@;
                    assert(pre[j] == cur[j]);
                }
            }
        }
        if (starts_with_text(h.group, key.as_str()) || starts_with_text(key.as_str(), h.group))
            && !contains_text(&close, h.group) {
            let ghost before = close@;
            close.push(h.group.to_owned());
            assert(views(close@) =~= views(before).push(h.group@));
        }
        assert(has_group(pre, key@) ==> has_group(cur, key@)) by {
            if has_group(pre, key@) {
                let j = choose|j: int| 0 <= j < pre.len() && #[trigger] pre[j].group@ == key@;
                assert(cur[j] == pre[j]);
            }
        }
        i = i + 1;
    }
    assert(table@.take(table.len() as int) =~= table@);
    if found {
        trim_end_text(lines.as_str())
    } else if close.len() == 0 {
        let mut out: String = "没有名为 \"".to_owned();
        out.append(key.as_str());
        out.append("\" 的命令，用 help 查看全部");
        out
    } else {
        let mut out: String = "没有名为 \"".to_owned();
        out.append(key.as_str());
        out.append("\" 的命令，你是否想找：");
        let joined = join_strings(&close, "  ");
        out.append(joined.as_str());
        out
    }
}

} // verus!
