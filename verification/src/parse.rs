//! `parse_command`: reading a GM command line into a `Command`.
use crate::args::{
    opt_u32, opt_u32_spec, opt_word, opt_word_spec, parse_single, parse_single_u32, parse_struct,
    parse_struct_u32, parse_two_u32, single_spec, single_u32_spec, struct_spec, struct_u32_spec,
    two_u32_spec, with_usage, push_usage, word_is,
};
use crate::command::{
    outcome_view, AvatarAction, AvatarActionView, BuffAction, Command, CommandView, GachaAction,
    GadgetAction, GadgetActionView, GroupAction, ItemAction, ItemActionView, QuestAction, TpAction,
    TpActionView, WeaponAction,
};
use crate::field_map::{
    result_view, take_map_spec, take_opt_spec, take_opt_float_spec, take_spec,
};
use crate::text::{chars_of, float_text, is_float_text, trim, trim_bounds, views, words, words_between};
use vstd::prelude::*;

verus! {

/// `r` with the usage line for `help` added to its message, if it is an error.
pub open spec fn usage_on_err<T>(r: Result<T, Seq<char>>, help: Seq<char>) -> Result<T, Seq<char>> {
    match r {
        Ok(v) => Ok(v),
        Err(e) => Err(with_usage(e, help)),
    }
}

/// Adds the usage line for `help` to the message of `r`, if it is an error.
fn with_usage_err<T>(r: Result<T, String>, help: &str) -> (out: Result<T, String>)
    ensures
        result_view(out) == usage_on_err(result_view(r), help@),
{
    match r {
        Ok(v) => Ok(v),
        Err(e) => {
            let mut e = e;
            push_usage(&mut e, help);
            Err(e)
        },
    }
}

/// The error for a two-word command that is not known.
pub open spec fn unknown_pair(w: Seq<Seq<char>>) -> Result<CommandView, Seq<char>> {
    Err("unknown command: "@ + w[0] + " "@ + w[1])
}

/// The message for a two-word command that is not known.
fn unknown_pair_error(w: &Vec<String>) -> (r: String)
    requires
        w@.len() >= 2,
    ensures
        Err::<CommandView, Seq<char>>(r@) == unknown_pair(views(w@)),
{
    let mut e: String = "unknown command: ".to_owned();
    e.append(w[0].as_str());
    e.append(" ");
    e.append(w[1].as_str());
    e
}

/// `item add ...`: all materials, all furniture, all weapons, or one item
/// with its optional count, level, refinement, main property and extra
/// properties.
pub open spec fn item_add_spec(w: Seq<Seq<char>>) -> Result<CommandView, Seq<char>> {
    let help = "item add <item_id> [n <num>] [lv <num>] [r <num>] [m <num>] [p k,v;k,v]"@;
    if w.len() > 2 && w[2] == "material"@ {
        Ok(CommandView::Item(ItemActionView::AddMaterial { max_count: opt_u32_spec(w, 3) }))
    } else if w.len() > 2 && w[2] == "furniture"@ {
        Ok(CommandView::Item(ItemActionView::AddFurniture { max_count: opt_u32_spec(w, 3) }))
    } else if w.len() > 2 && w[2] == "weapon"@ {
        Ok(CommandView::Item(ItemActionView::AddWeapon))
    } else {
        match struct_spec(w, 2, "item_id"@, help) {
            Err(e) => Err(e),
            Ok(m) => match take_spec(m, "item_id"@) {
                Err(e) => Err(with_usage(e, help)),
                Ok(id) => {
                    let m1 = m.remove("item_id"@);
                    let m2 = m1.remove("n"@);
                    let m3 = m2.remove("lv"@);
                    let m4 = m3.remove("r"@);
                    let m5 = m4.remove("m"@);
                    match take_map_spec(m5, "p"@) {
                        Err(e) => Err(with_usage(e, help)),
                        Ok(p) => Ok(
                            CommandView::Item(
                                ItemActionView::Add {
                                    id,
                                    num: take_opt_spec(m1, "n"@),
                                    level: take_opt_spec(m2, "lv"@),
                                    refinement: take_opt_spec(m3, "r"@),
                                    main_prop_id: take_opt_spec(m4, "m"@),
                                    append_prop_id_list: p,
                                },
                            ),
                        ),
                    }
                },
            },
        }
    }
}

/// Parses `item add ...`.
fn parse_item_add(w: &Vec<String>) -> (r: Result<Command, String>)
    requires
        w@.len() >= 2,
    ensures
        outcome_view(r) == item_add_spec(views(w@)),
{
    let help = "item add <item_id> [n <num>] [lv <num>] [r <num>] [m <num>] [p k,v;k,v]";
    if w.len() > 2 && word_is(w, 2, "material") {
        let max_count = opt_u32(w, 3);
        return Ok(Command::Item(ItemAction::AddMaterial { max_count }));
    }
    if w.len() > 2 && word_is(w, 2, "furniture") {
        let max_count = opt_u32(w, 3);
        return Ok(Command::Item(ItemAction::AddFurniture { max_count }));
    }
    if w.len() > 2 && word_is(w, 2, "weapon") {
        return Ok(Command::Item(ItemAction::AddWeapon));
    }
    let mut map = parse_struct(w, 2, "item_id", help)?;
    let id = with_usage_err(map.take("item_id"), help)?;
    let num = map.take_opt("n");
    let level = map.take_opt("lv");
    let refinement = map.take_opt("r");
    let main_prop_id = map.take_opt("m");
    let append_prop_id_list = match map.take_map_u32("p") {
        Ok(p) => p,
        Err(e) => {
            let mut e = e;
            push_usage(&mut e, help);
            return Err(e);
        },
    };
    Ok(
        Command::Item(
            ItemAction::Add { id, num, level, refinement, main_prop_id, append_prop_id_list },
        ),
    )
}

/// `gadget create ...`: a gadget with optional count, drop, level,
/// interaction and coordinates.
pub open spec fn gadget_create_spec(w: Seq<Seq<char>>) -> Result<CommandView, Seq<char>> {
    let help =
        "gadget create <gadget_id> [num <n>] [drop_id <id>] [level <n>] [interact_id <id>] [x <n>] [y <n>] [z <n>]"@;
    match struct_spec(w, 2, "gadget_id"@, help) {
        Err(e) => Err(e),
        Ok(m) => match take_spec(m, "gadget_id"@) {
            Err(e) => Err(with_usage(e, help)),
            Ok(id) => {
                let m1 = m.remove("gadget_id"@);
                let m2 = m1.remove("num"@);
                let m3 = m2.remove("drop_id"@);
                let m4 = m3.remove("level"@);
                let m5 = m4.remove("interact_id"@);
                let m6 = m5.remove("x"@);
                let m7 = m6.remove("y"@);
                Ok(
                    CommandView::Gadget(
                        GadgetActionView::Create {
                            id,
                            num: take_opt_spec(m1, "num"@),
                            drop_id: take_opt_spec(m2, "drop_id"@),
                            level: take_opt_spec(m3, "level"@),
                            interact_id: take_opt_spec(m4, "interact_id"@),
                            x: take_opt_float_spec(m5, "x"@),
                            y: take_opt_float_spec(m6, "y"@),
                            z: take_opt_float_spec(m7, "z"@),
                        },
                    ),
                )
            },
        },
    }
}

/// Parses `gadget create ...`.
fn parse_gadget_create(w: &Vec<String>) -> (r: Result<Command, String>)
    requires
        w@.len() >= 2,
    ensures
        outcome_view(r) == gadget_create_spec(views(w@)),
{
    let help =
        "gadget create <gadget_id> [num <n>] [drop_id <id>] [level <n>] [interact_id <id>] [x <n>] [y <n>] [z <n>]";
    let mut map = parse_struct(w, 2, "gadget_id", help)?;
    let id = with_usage_err(map.take("gadget_id"), help)?;
    let num = map.take_opt("num");
    let drop_id = map.take_opt("drop_id");
    let level = map.take_opt("level");
    let interact_id = map.take_opt("interact_id");
    let x = map.take_opt_float("x");
    let y = map.take_opt_float("y");
    let z = map.take_opt_float("z");
    Ok(Command::Gadget(GadgetAction::Create { id, num, drop_id, level, interact_id, x, y, z }))
}

/// The usage line of `tp a` (`absolute`) or `tp r`.
pub open spec fn tp_help(absolute: bool) -> Seq<char> {
    if absolute {
        "tp a <id> [x <num>] [y <num>] [z <num>]"@
    } else {
        "tp r <id> [x <num>] [y <num>] [z <num>]"@
    }
}

/// `tp a ...` (`absolute`) or `tp r ...`: a scene and optional coordinates.
pub open spec fn tp_spec(w: Seq<Seq<char>>, absolute: bool) -> Result<CommandView, Seq<char>> {
    let help = tp_help(absolute);
    match struct_spec(w, 2, "id"@, help) {
        Err(e) => Err(e),
        Ok(m) => match take_spec(m, "id"@) {
            Err(e) => Err(with_usage(e, help)),
            Ok(id) => {
                let m1 = m.remove("id"@);
                let m2 = m1.remove("x"@);
                let m3 = m2.remove("y"@);
                let x = take_opt_float_spec(m1, "x"@);
                let y = take_opt_float_spec(m2, "y"@);
                let z = take_opt_float_spec(m3, "z"@);
                Ok(
                    CommandView::Tp(
                        if absolute {
                            TpActionView::A { id, x, y, z }
                        } else {
                            TpActionView::R { id, x, y, z }
                        },
                    ),
                )
            },
        },
    }
}

/// Parses `tp a ...` (`absolute`) or `tp r ...`.
fn parse_tp(w: &Vec<String>, absolute: bool) -> (r: Result<Command, String>)
    requires
        w@.len() >= 2,
    ensures
        outcome_view(r) == tp_spec(views(w@), absolute),
{
    let help = if absolute {
        "tp a <id> [x <num>] [y <num>] [z <num>]"
    } else {
        "tp r <id> [x <num>] [y <num>] [z <num>]"
    };
    assert(help@ == tp_help(absolute));
    let mut map = parse_struct(w, 2, "id", help)?;
    let id = with_usage_err(map.take("id"), help)?;
    let x = map.take_opt_float("x");
    let y = map.take_opt_float("y");
    let z = map.take_opt_float("z");
    if absolute {
        Ok(Command::Tp(TpAction::A { id, x, y, z }))
    } else {
        Ok(Command::Tp(TpAction::R { id, x, y, z }))
    }
}

/// The `avatar ...` commands, selected by word 1.
pub open spec fn avatar_spec(w: Seq<Seq<char>>) -> Result<CommandView, Seq<char>> {
    if w[1] == "add"@ {
        match struct_u32_spec(w, 2, "avatar_id"@, "avatar add <avatar_id>"@) {
            Ok(v) => Ok(CommandView::Avatar(AvatarActionView::Add { id: v })),
            Err(e) => Err(e),
        }
    } else if w[1] == "remove"@ {
        match struct_u32_spec(w, 2, "avatar_id"@, "avatar remove <avatar_id>"@) {
            Ok(v) => Ok(CommandView::Avatar(AvatarActionView::Remove { id: v })),
            Err(e) => Err(e),
        }
    } else if w[1] == "rename"@ {
        match single_u32_spec(w, 2, "avatar_id"@, "avatar rename <avatar_id> <new_name>"@) {
            Err(e) => Err(e),
            Ok(id) => match single_spec(w, 3, "avatar rename <avatar_id> <new_name>"@) {
                Err(e) => Err(e),
                Ok(name) => Ok(CommandView::Avatar(AvatarActionView::Rename { id, name })),
            },
        }
    } else if w[1] == "level"@ {
        match struct_u32_spec(w, 2, "level"@, "avatar level <level>"@) {
            Ok(v) => Ok(CommandView::Avatar(AvatarActionView::Level { level: v })),
            Err(e) => Err(e),
        }
    } else if w[1] == "break"@ {
        match struct_u32_spec(w, 2, "break_level"@, "avatar break <break_level>"@) {
            Ok(v) => Ok(CommandView::Avatar(AvatarActionView::Break { break_level: v })),
            Err(e) => Err(e),
        }
    } else if w[1] == "add_talent"@ {
        match struct_u32_spec(w, 2, "talent_id"@, "avatar add_talent <talent_id>"@) {
            Ok(v) => Ok(CommandView::Avatar(AvatarActionView::AddTalent { talent_id: v })),
            Err(e) => Err(e),
        }
    } else if w[1] == "skill"@ {
        match two_u32_spec(w, "skill_id"@, "level"@, "avatar skill <skill_id> <level>"@) {
            Ok(p) => Ok(CommandView::Avatar(AvatarActionView::Skill { skill_id: p.0, level: p.1 })),
            Err(e) => Err(e),
        }
    } else if w[1] == "elem"@ {
        match struct_u32_spec(w, 2, "element_type"@, "avatar elem <element_type>"@) {
            Ok(v) => Ok(CommandView::Avatar(AvatarActionView::Elem { element_type: v })),
            Err(e) => Err(e),
        }
    } else if w[1] == "fight_prop"@ {
        match single_spec(w, 2, "avatar fight_prop <key> <value>"@) {
            Err(e) => Err(e),
            Ok(key) => match single_spec(w, 3, "avatar fight_prop <key> <value>"@) {
                Err(e) => Err(e),
                Ok(value) => if float_text(value) {
                    Ok(CommandView::Avatar(AvatarActionView::FightProp { key, value }))
                } else {
                    Err("value err: "@ + "avatar fight_prop <key> <value>"@)
                },
            },
        }
    } else {
        unknown_pair(w)
    }
}

/// Parses the `avatar ...` commands.
fn parse_avatar(w: &Vec<String>) -> (r: Result<Command, String>)
    requires
        w@.len() >= 2,
    ensures
        outcome_view(r) == avatar_spec(views(w@)),
{
    if word_is(w, 1, "add") {
        let v = parse_struct_u32(w, 2, "avatar_id", "avatar add <avatar_id>")?;
        return Ok(Command::Avatar(AvatarAction::Add { id: v }));
    }
    if word_is(w, 1, "remove") {
        let v = parse_struct_u32(w, 2, "avatar_id", "avatar remove <avatar_id>")?;
        return Ok(Command::Avatar(AvatarAction::Remove { id: v }));
    }
    if word_is(w, 1, "rename") {
        let help = "avatar rename <avatar_id> <new_name>";
        let id = parse_single_u32(w, 2, "avatar_id", help)?;
        let name = parse_single(w, 3, help)?;
        return Ok(Command::Avatar(AvatarAction::Rename { id, name }));
    }
    if word_is(w, 1, "level") {
        let v = parse_struct_u32(w, 2, "level", "avatar level <level>")?;
        return Ok(Command::Avatar(AvatarAction::Level { level: v }));
    }
    if word_is(w, 1, "break") {
        let v = parse_struct_u32(w, 2, "break_level", "avatar break <break_level>")?;
        return Ok(Command::Avatar(AvatarAction::Break { break_level: v }));
    }
    if word_is(w, 1, "add_talent") {
        let v = parse_struct_u32(w, 2, "talent_id", "avatar add_talent <talent_id>")?;
        return Ok(Command::Avatar(AvatarAction::AddTalent { talent_id: v }));
    }
    if word_is(w, 1, "skill") {
        let (a, b) = parse_two_u32(w, "skill_id", "level", "avatar skill <skill_id> <level>")?;
        return Ok(Command::Avatar(AvatarAction::Skill { skill_id: a, level: b }));
    }
    if word_is(w, 1, "elem") {
        let v = parse_struct_u32(w, 2, "element_type", "avatar elem <element_type>")?;
        return Ok(Command::Avatar(AvatarAction::Elem { element_type: v }));
    }
    if word_is(w, 1, "fight_prop") {
        let help = "avatar fight_prop <key> <value>";
        let key = parse_single(w, 2, help)?;
        let value = parse_single(w, 3, help)?;
        if !is_float_text(value.as_str()) {
            let mut e: String = "value err: ".to_owned();
            e.append(help);
            return Err(e);
        }
        return Ok(Command::Avatar(AvatarAction::FightProp { key, value }));
    }
    Err(unknown_pair_error(w))
}

/// The `buff ...` commands, selected by word 1.
pub open spec fn buff_spec(w: Seq<Seq<char>>) -> Result<CommandView, Seq<char>> {
    if w[1] == "add"@ {
        match struct_spec(w, 2, "buff_id"@, "buff add <buff_id> [level <num>]"@) {
            Err(e) => Err(e),
            Ok(m) => match take_spec(m, "buff_id"@) {
                Err(e) => Err(with_usage(e, "buff add <buff_id> [level <num>]"@)),
                Ok(id) => Ok(
                    CommandView::Buff(
                        BuffAction::Add { id, level: take_opt_spec(m.remove("buff_id"@), "level"@) },
                    ),
                ),
            },
        }
    } else if w[1] == "clear"@ {
        Ok(CommandView::Buff(BuffAction::Clear))
    } else if w[1] == "list"@ {
        Ok(CommandView::Buff(BuffAction::List))
    } else {
        unknown_pair(w)
    }
}

/// Parses the `buff ...` commands.
fn parse_buff(w: &Vec<String>) -> (r: Result<Command, String>)
    requires
        w@.len() >= 2,
    ensures
        outcome_view(r) == buff_spec(views(w@)),
{
    if word_is(w, 1, "add") {
        let help = "buff add <buff_id> [level <num>]";
        let mut map = parse_struct(w, 2, "buff_id", help)?;
        let id = with_usage_err(map.take("buff_id"), help)?;
        let level = map.take_opt("level");
        return Ok(Command::Buff(BuffAction::Add { id, level }));
    }
    if word_is(w, 1, "clear") {
        return Ok(Command::Buff(BuffAction::Clear));
    }
    if word_is(w, 1, "list") {
        return Ok(Command::Buff(BuffAction::List));
    }
    Err(unknown_pair_error(w))
}

/// The `item ...` commands, selected by word 1.
pub open spec fn item_spec(w: Seq<Seq<char>>) -> Result<CommandView, Seq<char>> {
    if w[1] == "add"@ {
        item_add_spec(w)
    } else if w[1] == "clear"@ {
        Ok(CommandView::Item(ItemActionView::Clear { target: opt_word_spec(w, 2) }))
    } else if w[1] == "drop"@ {
        match struct_u32_spec(w, 2, "item_id"@, "item drop <item_id>"@) {
            Ok(v) => Ok(CommandView::Item(ItemActionView::Drop { id: v })),
            Err(e) => Err(e),
        }
    } else {
        unknown_pair(w)
    }
}

/// Parses the `item ...` commands.
fn parse_item(w: &Vec<String>) -> (r: Result<Command, String>)
    requires
        w@.len() >= 2,
    ensures
        outcome_view(r) == item_spec(views(w@)),
{
    if word_is(w, 1, "add") {
        return parse_item_add(w);
    }
    if word_is(w, 1, "clear") {
        let target = opt_word(w, 2);
        return Ok(Command::Item(ItemAction::Clear { target }));
    }
    if word_is(w, 1, "drop") {
        let v = parse_struct_u32(w, 2, "item_id", "item drop <item_id>")?;
        return Ok(Command::Item(ItemAction::Drop { id: v }));
    }
    Err(unknown_pair_error(w))
}

/// The `weapon ...` commands, selected by word 1.
pub open spec fn weapon_spec(w: Seq<Seq<char>>) -> Result<CommandView, Seq<char>> {
    if w[1] == "level"@ {
        match struct_u32_spec(w, 2, "level"@, "weapon level <level>"@) {
            Ok(v) => Ok(CommandView::Weapon(WeaponAction::Level { level: v })),
            Err(e) => Err(e),
        }
    } else if w[1] == "break"@ {
        match struct_u32_spec(w, 2, "break_level"@, "weapon break <break_level>"@) {
            Ok(v) => Ok(CommandView::Weapon(WeaponAction::Break { break_level: v })),
            Err(e) => Err(e),
        }
    } else if w[1] == "promote"@ {
        match struct_u32_spec(w, 2, "promote_level"@, "weapon promote <promote_level>"@) {
            Ok(v) => Ok(CommandView::Weapon(WeaponAction::Promote { promote_level: v })),
            Err(e) => Err(e),
        }
    } else {
        unknown_pair(w)
    }
}

/// Parses the `weapon ...` commands.
fn parse_weapon(w: &Vec<String>) -> (r: Result<Command, String>)
    requires
        w@.len() >= 2,
    ensures
        outcome_view(r) == weapon_spec(views(w@)),
{
    if word_is(w, 1, "level") {
        let v = parse_struct_u32(w, 2, "level", "weapon level <level>")?;
        return Ok(Command::Weapon(WeaponAction::Level { level: v }));
    }
    if word_is(w, 1, "break") {
        let v = parse_struct_u32(w, 2, "break_level", "weapon break <break_level>")?;
        return Ok(Command::Weapon(WeaponAction::Break { break_level: v }));
    }
    if word_is(w, 1, "promote") {
        let v = parse_struct_u32(w, 2, "promote_level", "weapon promote <promote_level>")?;
        return Ok(Command::Weapon(WeaponAction::Promote { promote_level: v }));
    }
    Err(unknown_pair_error(w))
}

/// The `quest ...` commands, selected by word 1.
pub open spec fn quest_spec(w: Seq<Seq<char>>) -> Result<CommandView, Seq<char>> {
    if w[1] == "accept"@ {
        match struct_u32_spec(w, 2, "quest_id"@, "quest accept <quest_id>"@) {
            Ok(v) => Ok(CommandView::Quest(QuestAction::Accept { id: v })),
            Err(e) => Err(e),
        }
    } else if w[1] == "finish"@ {
        match struct_u32_spec(w, 2, "quest_id"@, "quest finish <quest_id>"@) {
            Ok(v) => Ok(CommandView::Quest(QuestAction::Finish { id: v })),
            Err(e) => Err(e),
        }
    } else if w[1] == "cancel"@ {
        match struct_u32_spec(w, 2, "quest_id"@, "quest cancel <quest_id>"@) {
            Ok(v) => Ok(CommandView::Quest(QuestAction::Cancel { id: v })),
            Err(e) => Err(e),
        }
    } else if w[1] == "clear"@ {
        Ok(CommandView::Quest(QuestAction::Clear { id: opt_u32_spec(w, 2) }))
    } else if w[1] == "state"@ {
        match two_u32_spec(w, "quest_id"@, "state"@, "quest state <quest_id> <state>"@) {
            Ok(p) => Ok(CommandView::Quest(QuestAction::State { id: p.0, state: p.1 })),
            Err(e) => Err(e),
        }
    } else if w[1] == "restart"@ {
        match struct_u32_spec(w, 2, "quest_id"@, "quest restart <quest_id>"@) {
            Ok(v) => Ok(CommandView::Quest(QuestAction::Restart { id: v })),
            Err(e) => Err(e),
        }
    } else if w[1] == "restart_all"@ {
        Ok(CommandView::Quest(QuestAction::RestartAll))
    } else if w[1] == "var"@ {
        match single_u32_spec(w, 2, "parent_id"@, "quest var <parent_id> [index] [value]"@) {
            Err(e) => Err(e),
            Ok(parent_id) => Ok(
                CommandView::Quest(
                    QuestAction::Var {
                        parent_id,
                        index: opt_u32_spec(w, 3),
                        value: opt_u32_spec(w, 4),
                    },
                ),
            ),
        }
    } else {
        unknown_pair(w)
    }
}

/// Parses the `quest ...` commands.
fn parse_quest(w: &Vec<String>) -> (r: Result<Command, String>)
    requires
        w@.len() >= 2,
    ensures
        outcome_view(r) == quest_spec(views(w@)),
{
    if word_is(w, 1, "accept") {
        let v = parse_struct_u32(w, 2, "quest_id", "quest accept <quest_id>")?;
        return Ok(Command::Quest(QuestAction::Accept { id: v }));
    }
    if word_is(w, 1, "finish") {
        let v = parse_struct_u32(w, 2, "quest_id", "quest finish <quest_id>")?;
        return Ok(Command::Quest(QuestAction::Finish { id: v }));
    }
    if word_is(w, 1, "cancel") {
        let v = parse_struct_u32(w, 2, "quest_id", "quest cancel <quest_id>")?;
        return Ok(Command::Quest(QuestAction::Cancel { id: v }));
    }
    if word_is(w, 1, "clear") {
        let id = opt_u32(w, 2);
        return Ok(Command::Quest(QuestAction::Clear { id }));
    }
    if word_is(w, 1, "state") {
        let (a, b) = parse_two_u32(w, "quest_id", "state", "quest state <quest_id> <state>")?;
        return Ok(Command::Quest(QuestAction::State { id: a, state: b }));
    }
    if word_is(w, 1, "restart") {
        let v = parse_struct_u32(w, 2, "quest_id", "quest restart <quest_id>")?;
        return Ok(Command::Quest(QuestAction::Restart { id: v }));
    }
    if word_is(w, 1, "restart_all") {
        return Ok(Command::Quest(QuestAction::RestartAll));
    }
    if word_is(w, 1, "var") {
        let help = "quest var <parent_id> [index] [value]";
        let parent_id = parse_single_u32(w, 2, "parent_id", help)?;
        let index = opt_u32(w, 3);
        let value = opt_u32(w, 4);
        return Ok(Command::Quest(QuestAction::Var { parent_id, index, value }));
    }
    Err(unknown_pair_error(w))
}

/// The `gadget ...` commands, selected by word 1.
pub open spec fn gadget_spec(w: Seq<Seq<char>>) -> Result<CommandView, Seq<char>> {
    if w[1] == "create"@ {
        gadget_create_spec(w)
    } else if w[1] == "remove"@ {
        match struct_u32_spec(w, 2, "gadget_id"@, "gadget remove <gadget_id>"@) {
            Ok(v) => Ok(CommandView::Gadget(GadgetActionView::Remove { id: v })),
            Err(e) => Err(e),
        }
    } else if w[1] == "state"@ {
        match two_u32_spec(w, "gadget_id"@, "state"@, "gadget state <gadget_id> <state>"@) {
            Ok(p) => Ok(CommandView::Gadget(GadgetActionView::State { id: p.0, state: p.1 })),
            Err(e) => Err(e),
        }
    } else if w[1] == "set_state_by_entity_id"@ {
        match two_u32_spec(w, "entity_id"@, "state"@, "gadget set_state_by_entity_id <entity_id> <state>"@) {
            Ok(p) => Ok(CommandView::Gadget(GadgetActionView::SetStateByEntityId { entity_id: p.0, state: p.1 })),
            Err(e) => Err(e),
        }
    } else {
        unknown_pair(w)
    }
}

/// Parses the `gadget ...` commands.
fn parse_gadget(w: &Vec<String>) -> (r: Result<Command, String>)
    requires
        w@.len() >= 2,
    ensures
        outcome_view(r) == gadget_spec(views(w@)),
{
    if word_is(w, 1, "create") {
        return parse_gadget_create(w);
    }
    if word_is(w, 1, "remove") {
        let v = parse_struct_u32(w, 2, "gadget_id", "gadget remove <gadget_id>")?;
        return Ok(Command::Gadget(GadgetAction::Remove { id: v }));
    }
    if word_is(w, 1, "state") {
        let (a, b) = parse_two_u32(w, "gadget_id", "state", "gadget state <gadget_id> <state>")?;
        return Ok(Command::Gadget(GadgetAction::State { id: a, state: b }));
    }
    if word_is(w, 1, "set_state_by_entity_id") {
        let (a, b) = parse_two_u32(w, "entity_id", "state", "gadget set_state_by_entity_id <entity_id> <state>")?;
        return Ok(Command::Gadget(GadgetAction::SetStateByEntityId { entity_id: a, state: b }));
    }
    Err(unknown_pair_error(w))
}

/// The `group ...` commands, selected by word 1.
pub open spec fn group_spec(w: Seq<Seq<char>>) -> Result<CommandView, Seq<char>> {
    if w[1] == "refresh"@ {
        match struct_u32_spec(w, 2, "group_id"@, "group refresh <group_id>"@) {
            Ok(v) => Ok(CommandView::Group(GroupAction::Refresh { id: v })),
            Err(e) => Err(e),
        }
    } else if w[1] == "unload"@ {
        match struct_u32_spec(w, 2, "group_id"@, "group unload <group_id>"@) {
            Ok(v) => Ok(CommandView::Group(GroupAction::Unload { id: v })),
            Err(e) => Err(e),
        }
    } else if w[1] == "reload"@ {
        match struct_u32_spec(w, 2, "group_id"@, "group reload <group_id>"@) {
            Ok(v) => Ok(CommandView::Group(GroupAction::Reload { id: v })),
            Err(e) => Err(e),
        }
    } else if w[1] == "clear"@ {
        match struct_u32_spec(w, 2, "group_id"@, "group clear <group_id>"@) {
            Ok(v) => Ok(CommandView::Group(GroupAction::Clear { id: v })),
            Err(e) => Err(e),
        }
    } else {
        unknown_pair(w)
    }
}

/// Parses the `group ...` commands.
fn parse_group(w: &Vec<String>) -> (r: Result<Command, String>)
    requires
        w@.len() >= 2,
    ensures
        outcome_view(r) == group_spec(views(w@)),
{
    if word_is(w, 1, "refresh") {
        let v = parse_struct_u32(w, 2, "group_id", "group refresh <group_id>")?;
        return Ok(Command::Group(GroupAction::Refresh { id: v }));
    }
    if word_is(w, 1, "unload") {
        let v = parse_struct_u32(w, 2, "group_id", "group unload <group_id>")?;
        return Ok(Command::Group(GroupAction::Unload { id: v }));
    }
    if word_is(w, 1, "reload") {
        let v = parse_struct_u32(w, 2, "group_id", "group reload <group_id>")?;
        return Ok(Command::Group(GroupAction::Reload { id: v }));
    }
    if word_is(w, 1, "clear") {
        let v = parse_struct_u32(w, 2, "group_id", "group clear <group_id>")?;
        return Ok(Command::Group(GroupAction::Clear { id: v }));
    }
    Err(unknown_pair_error(w))
}

/// The `group_suite ...` commands, selected by word 1.
pub open spec fn group_suite_spec(w: Seq<Seq<char>>) -> Result<CommandView, Seq<char>> {
    if w[1] == "add_extra"@ {
        match two_u32_spec(w, "group_id"@, "suite_id"@, "group_suite add_extra <group_id> <suite_id>"@) {
            Ok(p) => Ok(CommandView::Group(GroupAction::SuiteAddExtra { id: p.0, suite_id: p.1 })),
            Err(e) => Err(e),
        }
    } else if w[1] == "remove_extra"@ {
        match two_u32_spec(w, "group_id"@, "suite_id"@, "group_suite remove_extra <group_id> <suite_id>"@) {
            Ok(p) => Ok(CommandView::Group(GroupAction::SuiteRemoveExtra { id: p.0, suite_id: p.1 })),
            Err(e) => Err(e),
        }
    } else if w[1] == "kill_extra"@ {
        match two_u32_spec(w, "group_id"@, "suite_id"@, "group_suite kill_extra <group_id> <suite_id>"@) {
            Ok(p) => Ok(CommandView::Group(GroupAction::SuiteKillExtra { id: p.0, suite_id: p.1 })),
            Err(e) => Err(e),
        }
    } else if w[1] == "goto"@ {
        match two_u32_spec(w, "group_id"@, "suite_id"@, "group_suite goto <group_id> <suite_id>"@) {
            Ok(p) => Ok(CommandView::Group(GroupAction::SuiteGoto { id: p.0, suite_id: p.1 })),
            Err(e) => Err(e),
        }
    } else {
        unknown_pair(w)
    }
}

/// Parses the `group_suite ...` commands.
fn parse_group_suite(w: &Vec<String>) -> (r: Result<Command, String>)
    requires
        w@.len() >= 2,
    ensures
        outcome_view(r) == group_suite_spec(views(w@)),
{
    if word_is(w, 1, "add_extra") {
        let (a, b) = parse_two_u32(w, "group_id", "suite_id", "group_suite add_extra <group_id> <suite_id>")?;
        return Ok(Command::Group(GroupAction::SuiteAddExtra { id: a, suite_id: b }));
    }
    if word_is(w, 1, "remove_extra") {
        let (a, b) = parse_two_u32(w, "group_id", "suite_id", "group_suite remove_extra <group_id> <suite_id>")?;
        return Ok(Command::Group(GroupAction::SuiteRemoveExtra { id: a, suite_id: b }));
    }
    if word_is(w, 1, "kill_extra") {
        let (a, b) = parse_two_u32(w, "group_id", "suite_id", "group_suite kill_extra <group_id> <suite_id>")?;
        return Ok(Command::Group(GroupAction::SuiteKillExtra { id: a, suite_id: b }));
    }
    if word_is(w, 1, "goto") {
        let (a, b) = parse_two_u32(w, "group_id", "suite_id", "group_suite goto <group_id> <suite_id>")?;
        return Ok(Command::Group(GroupAction::SuiteGoto { id: a, suite_id: b }));
    }
    Err(unknown_pair_error(w))
}

/// The `tp ...` commands, selected by word 1.
pub open spec fn tp_pair_spec(w: Seq<Seq<char>>) -> Result<CommandView, Seq<char>> {
    if w[1] == "a"@ {
        tp_spec(w, true)
    } else if w[1] == "r"@ {
        tp_spec(w, false)
    } else {
        unknown_pair(w)
    }
}

/// Parses the `tp ...` commands.
fn parse_tp_pair(w: &Vec<String>) -> (r: Result<Command, String>)
    requires
        w@.len() >= 2,
    ensures
        outcome_view(r) == tp_pair_spec(views(w@)),
{
    if word_is(w, 1, "a") {
        return parse_tp(w, true);
    }
    if word_is(w, 1, "r") {
        return parse_tp(w, false);
    }
    Err(unknown_pair_error(w))
}

/// The `gacha ...` commands, selected by word 1.
pub open spec fn gacha_spec(w: Seq<Seq<char>>) -> Result<CommandView, Seq<char>> {
    if w[1] == "add"@ {
        match struct_u32_spec(w, 2, "gacha_id"@, "gacha add <gacha_id>"@) {
            Ok(v) => Ok(CommandView::Gacha(GachaAction::Add { id: v })),
            Err(e) => Err(e),
        }
    } else if w[1] == "clear"@ {
        Ok(CommandView::Gacha(GachaAction::Clear {}))
    } else {
        unknown_pair(w)
    }
}

/// Parses the `gacha ...` commands.
fn parse_gacha(w: &Vec<String>) -> (r: Result<Command, String>)
    requires
        w@.len() >= 2,
    ensures
        outcome_view(r) == gacha_spec(views(w@)),
{
    if word_is(w, 1, "add") {
        let v = parse_struct_u32(w, 2, "gacha_id", "gacha add <gacha_id>")?;
        return Ok(Command::Gacha(GachaAction::Add { id: v }));
    }
    if word_is(w, 1, "clear") {
        return Ok(Command::Gacha(GachaAction::Clear {}));
    }
    Err(unknown_pair_error(w))
}
/// The command that the words `w` make up, or the message that refuses them.
pub open spec fn parse_words_spec(w: Seq<Seq<char>>) -> Result<CommandView, Seq<char>> {
    if w.len() == 0 {
        Err("命令不能为空"@)
    } else if w[0] == "prop"@ {
        match single_spec(w, 1, "prop <key> <value>"@) {
            Err(e) => Err(e),
            Ok(k) => match single_spec(w, 2, "prop <key> <value>"@) {
                Err(e) => Err(e),
                Ok(v) => Ok(CommandView::Prop(k, v)),
            },
        }
    } else if w[0] == "send_packet"@ {
        match single_spec(w, 1, "send_packet <key>"@) {
            Err(e) => Err(e),
            Ok(k) => Ok(CommandView::SendPacket(k)),
        }
    } else if w[0] == "dun"@ {
        if w.len() < 2 {
            Ok(CommandView::Dun(None))
        } else {
            match crate::text::parse_u32(w[1]) {
                Some(id) => Ok(CommandView::Dun(Some(id))),
                None => Err("副本 ID 无效: \""@ + w[1] + "\"\n用法: dun [id]"@),
            }
        }
    } else if w[0] == "pos"@ {
        Ok(CommandView::Pos)
    } else if w[0] == "help"@ {
        Ok(CommandView::Help(opt_word_spec(w, 1)))
    } else if w[0] == "weather"@ {
        match single_u32_spec(w, 1, "weather_id"@, "weather <weather_id>"@) {
            Err(e) => Err(e),
            Ok(id) => Ok(CommandView::Weather(id)),
        }
    } else if w[0] == "climate"@ {
        match single_u32_spec(w, 1, "climate_type"@, "climate <climate_type>"@) {
            Err(e) => Err(e),
            Ok(t) => Ok(CommandView::Climate(t)),
        }
    } else if w.len() < 2 {
        Err("unknown command: "@ + w[0])
    } else if w[0] == "avatar"@ {
        avatar_spec(w)
    } else if w[0] == "buff"@ {
        buff_spec(w)
    } else if w[0] == "item"@ {
        item_spec(w)
    } else if w[0] == "weapon"@ {
        weapon_spec(w)
    } else if w[0] == "quest"@ {
        quest_spec(w)
    } else if w[0] == "gadget"@ {
        gadget_spec(w)
    } else if w[0] == "group"@ {
        group_spec(w)
    } else if w[0] == "group_suite"@ {
        group_suite_spec(w)
    } else if w[0] == "tp"@ {
        tp_pair_spec(w)
    } else if w[0] == "gacha"@ {
        gacha_spec(w)
    } else {
        unknown_pair(w)
    }
}

/// Parses the words of a command.
fn parse_words(w: &Vec<String>) -> (r: Result<Command, String>)
    ensures
        outcome_view(r) == parse_words_spec(views(w@)),
{
    if w.len() == 0 {
        return Err("命令不能为空".to_owned());
    }
    if word_is(w, 0, "prop") {
        let help = "prop <key> <value>";
        let k = parse_single(w, 1, help)?;
        let v = parse_single(w, 2, help)?;
        return Ok(Command::Prop(k, v));
    }
    if word_is(w, 0, "send_packet") {
        let k = parse_single(w, 1, "send_packet <key>")?;
        return Ok(Command::SendPacket(k));
    }
    if word_is(w, 0, "dun") {
        if w.len() < 2 {
            return Ok(Command::Dun(None));
        }
        return match crate::text::parse_u32_text(w[1].as_str()) {
            Some(id) => Ok(Command::Dun(Some(id))),
            None => {
                let mut e: String = "副本 ID 无效: \"".to_owned();
                e.append(w[1].as_str());
                e.append("\"\n用法: dun [id]");
                Err(e)
            },
        };
    }
    if word_is(w, 0, "pos") {
        return Ok(Command::Pos);
    }
    if word_is(w, 0, "help") {
        return Ok(Command::Help(opt_word(w, 1)));
    }
    if word_is(w, 0, "weather") {
        let id = parse_single_u32(w, 1, "weather_id", "weather <weather_id>")?;
        return Ok(Command::Weather(id));
    }
    if word_is(w, 0, "climate") {
        let climate_type = parse_single_u32(w, 1, "climate_type", "climate <climate_type>")?;
        return Ok(Command::Climate(climate_type));
    }
    if w.len() < 2 {
        let mut e: String = "unknown command: ".to_owned();
        e.append(w[0].as_str());
        return Err(e);
    }
    if word_is(w, 0, "avatar") {
        return parse_avatar(w);
    }
    if word_is(w, 0, "buff") {
        return parse_buff(w);
    }
    if word_is(w, 0, "item") {
        return parse_item(w);
    }
    if word_is(w, 0, "weapon") {
        return parse_weapon(w);
    }
    if word_is(w, 0, "quest") {
        return parse_quest(w);
    }
    if word_is(w, 0, "gadget") {
        return parse_gadget(w);
    }
    if word_is(w, 0, "group") {
        return parse_group(w);
    }
    if word_is(w, 0, "group_suite") {
        return parse_group_suite(w);
    }
    if word_is(w, 0, "tp") {
        return parse_tp_pair(w);
    }
    if word_is(w, 0, "gacha") {
        return parse_gacha(w);
    }
    Err(unknown_pair_error(w))
}

/// `s` without one leading `/`.
pub open spec fn strip_slash(s: Seq<char>) -> Seq<char> {
    if s.len() > 0 && s[0] == '/' {
        s.drop_first()
    } else {
        s
    }
}

/// The words of a command line: it is trimmed, one leading `/` is
/// dropped, and the rest is split at whitespace.
pub open spec fn command_words(input: Seq<char>) -> Seq<Seq<char>> {
    words(strip_slash(trim(input)))
}

/// What `parse_command` gives for the command line `input`.
pub open spec fn parse_command_spec(input: Seq<char>) -> Result<CommandView, Seq<char>> {
    parse_words_spec(command_words(input))
}

/// Parses a GM command line such as `avatar add 10000089` or
/// `/item add 104003 n 10`, or gives the message that says what is wrong
/// with it and how the command is used.
pub fn parse_command(input: &str) -> (r: Result<Command, String>)
    ensures
        outcome_view(r) == parse_command_spec(input@),
{
    let chars = chars_of(input);
    let (k, e) = trim_bounds(&chars);
    let from = if k < e && chars[k] == '/' {
        k + 1
    } else {
        k
    };
    assert(strip_slash(trim(input@)) =~= input@.subrange(from as int, e as int));
    let w = words_between(input, &chars, from, e);
    parse_words(&w)
}

} // verus!
