//! What `parse_command` reads from the words of a command: each argument
//! comes from the word that its usage line puts it in, each named option
//! from the value given after its own key, the last such value winning.
use crate::args::{pairs_spec, struct_spec};
use crate::command::{
    AvatarActionView, BuffAction, CommandView, GachaAction, GadgetActionView, GroupAction,
    ItemActionView, QuestAction, TpActionView, WeaponAction,
};
use crate::field_map::{prop_pairs, take_map_spec};
use crate::help_laws::{lemma_dispatch_words, lemma_param_words, lemma_words_single, no_ws};
use crate::parse::{
    command_words, gadget_create_spec, item_add_spec, parse_command_spec, parse_words_spec,
    tp_help, tp_pair_spec, tp_spec,
};
use crate::text::{float_text, is_ws, join, parse_u32, split, trim_end, trim_start, words};
use crate::text_laws::{lacks, lemma_split_cons, lemma_split_none, lemma_split_nonempty};
use vstd::prelude::*;

verus! {

/// The value that the `key value` pairs of `w`, from word `j` on, give to
/// `key`: the one after its last occurrence as a key.
pub open spec fn pair_value(w: Seq<Seq<char>>, j: nat, key: Seq<char>) -> Option<Seq<char>>
    decreases w.len() - j,
{
    if j + 1 >= w.len() {
        None
    } else {
        match pair_value(w, j + 2, key) {
            Some(v) => Some(v),
            None => if w[j as int] == key {
                Some(w[j + 1 as int])
            } else {
                None
            },
        }
    }
}

/// The value that a command `w` whose first argument (word 2) is named
/// `first` gives to `key`: the last `key value` pair after word 2, or else
/// word 2 itself when `key` is `first`.
pub open spec fn named_value(w: Seq<Seq<char>>, first: Seq<char>, key: Seq<char>) -> Option<
    Seq<char>,
> {
    match pair_value(w, 3, key) {
        Some(v) => Some(v),
        None => if key == first && w.len() > 2 {
            Some(w[2])
        } else {
            None
        },
    }
}

/// The value given to `key`, read as a `u32`; `None` when it is missing
/// or does not read as one.
pub open spec fn named_u32(w: Seq<Seq<char>>, first: Seq<char>, key: Seq<char>) -> Option<u32> {
    match named_value(w, first, key) {
        Some(t) => parse_u32(t),
        None => None,
    }
}

/// The text given to `key`, if it reads as a floating-point number.
pub open spec fn named_float(w: Seq<Seq<char>>, first: Seq<char>, key: Seq<char>) -> Option<
    Seq<char>,
> {
    match named_value(w, first, key) {
        Some(t) => if float_text(t) {
            Some(t)
        } else {
            None
        },
        None => None,
    }
}

/// Whether after its first argument the command `w` is made of whole
/// `key value` pairs.
pub open spec fn well_paired(w: Seq<Seq<char>>) -> bool {
    w.len() >= 3 && (w.len() - 3) % 2 == 0
}

/// Reading pairs succeeds exactly when they are whole, and leaves `key`
/// with the value of its last pair, or its value in `m`.
proof fn lemma_pairs_value(
    w: Seq<Seq<char>>,
    j: nat,
    m: Map<Seq<char>, Seq<char>>,
    help: Seq<char>,
    key: Seq<char>,
)
    requires
        j <= w.len(),
    ensures
        pairs_spec(w, j, m, help) is Ok <==> (w.len() - j) % 2 == 0,
        pairs_spec(w, j, m, help) matches Ok(mf) ==> {
            &&& mf.contains_key(key) == (pair_value(w, j, key) is Some || m.contains_key(key))
            &&& mf.contains_key(key) ==> mf[key] == match pair_value(w, j, key) {
                Some(v) => v,
                None => m[key],
            }
        },
    decreases w.len() - j,
{
    if j + 1 < w.len() {
        lemma_pairs_value(w, j + 2, m.insert(w[j as int], w[j + 1 as int]), help, key);
    }
}

/// The named parameters of a command are read exactly when its words
/// after the first argument are whole pairs, and each key then holds its
/// `named_value`.
proof fn lemma_struct_value(w: Seq<Seq<char>>, first: Seq<char>, help: Seq<char>, key: Seq<char>)
    ensures
        struct_spec(w, 2, first, help) is Ok <==> well_paired(w),
        struct_spec(w, 2, first, help) matches Ok(m) ==> {
            &&& m.contains_key(key) == named_value(w, first, key) is Some
            &&& m.contains_key(key) ==> m[key] == named_value(w, first, key)->Some_0
        },
{
    if w.len() > 2 {
        lemma_pairs_value(w, 3, Map::empty().insert(first, w[2]), help, key);
    }
}

/// `gadget create` reads each option from the value given after its own
/// key: the command is accepted exactly when its words after the gadget id
/// are whole `key value` pairs and the gadget id (word 2, or the value of
/// a later `gadget_id` pair) reads as a `u32`; `num`, `drop_id`, `level`
/// and `interact_id` are then the values of those keys read as `u32`s, and
/// `x`, `y` and `z` the values of those keys that read as floats, each
/// `None` where its key is not given.
pub proof fn law_gadget_create_reads_named_options(input: Seq<char>)
    requires
        command_words(input).len() >= 2,
        command_words(input)[0] == "gadget"@,
        command_words(input)[1] == "create"@,
    ensures
        ({
            let w = command_words(input);
            let gid = "gadget_id"@;
            &&& parse_command_spec(input) is Ok <==> (well_paired(w) && named_u32(w, gid, gid) is Some)
            &&& parse_command_spec(input) is Ok ==> parse_command_spec(input) == Ok::<CommandView, Seq<char>>(
                CommandView::Gadget(
                    GadgetActionView::Create {
                        id: named_u32(w, gid, gid)->Some_0,
                        num: named_u32(w, gid, "num"@),
                        drop_id: named_u32(w, gid, "drop_id"@),
                        level: named_u32(w, gid, "level"@),
                        interact_id: named_u32(w, gid, "interact_id"@),
                        x: named_float(w, gid, "x"@),
                        y: named_float(w, gid, "y"@),
                        z: named_float(w, gid, "z"@),
                    },
                ),
            )
        }),
{
    let w = command_words(input);
    let gid = "gadget_id"@;
    let help =
        "gadget create <gadget_id> [num <n>] [drop_id <id>] [level <n>] [interact_id <id>] [x <n>] [y <n>] [z <n>]"@;
    lemma_dispatch_words();
    lemma_param_words();
    assert(parse_words_spec(w) == gadget_create_spec(w));
    lemma_struct_value(w, gid, help, gid);
    lemma_struct_value(w, gid, help, "num"@);
    lemma_struct_value(w, gid, help, "drop_id"@);
    lemma_struct_value(w, gid, help, "level"@);
    lemma_struct_value(w, gid, help, "interact_id"@);
    lemma_struct_value(w, gid, help, "x"@);
    lemma_struct_value(w, gid, help, "y"@);
    lemma_struct_value(w, gid, help, "z"@);
}

/// `tp a` and `tp r` read the coordinates from the values given after
/// their own keys: the command is accepted exactly when its words after
/// the scene id are whole `key value` pairs and the scene id reads as a
/// `u32`; `x`, `y` and `z` are then the values of those keys that read as
/// floats, each `None` where its key is not given.
pub proof fn law_tp_reads_named_coordinates(input: Seq<char>)
    requires
        command_words(input).len() >= 2,
        command_words(input)[0] == "tp"@,
        command_words(input)[1] == "a"@ || command_words(input)[1] == "r"@,
    ensures
        ({
            let w = command_words(input);
            let id = "id"@;
            let x = named_float(w, id, "x"@);
            let y = named_float(w, id, "y"@);
            let z = named_float(w, id, "z"@);
            &&& parse_command_spec(input) is Ok <==> (well_paired(w) && named_u32(w, id, id) is Some)
            &&& parse_command_spec(input) is Ok ==> parse_command_spec(input) == Ok::<CommandView, Seq<char>>(
                CommandView::Tp(
                    if w[1] == "a"@ {
                        TpActionView::A { id: named_u32(w, id, id)->Some_0, x, y, z }
                    } else {
                        TpActionView::R { id: named_u32(w, id, id)->Some_0, x, y, z }
                    },
                ),
            )
        }),
{
    let w = command_words(input);
    let id = "id"@;
    lemma_dispatch_words();
    lemma_param_words();
    assert(parse_words_spec(w) == tp_pair_spec(w));
    let help = tp_help(w[1] == "a"@);
    assert(tp_pair_spec(w) == tp_spec(w, w[1] == "a"@));
    lemma_struct_value(w, id, help, id);
    lemma_struct_value(w, id, help, "x"@);
    lemma_struct_value(w, id, help, "y"@);
    lemma_struct_value(w, id, help, "z"@);
}

/// The bulk forms of `item add` read the word after `material` or
/// `furniture` as the largest count, `None` where there is no such word or
/// it does not read as a `u32`, and ignore what follows; `item add weapon`
/// takes nothing more.
pub proof fn law_item_add_bulk_forms(input: Seq<char>)
    requires
        command_words(input).len() >= 3,
        command_words(input)[0] == "item"@,
        command_words(input)[1] == "add"@,
    ensures
        ({
            let w = command_words(input);
            let max_count = if w.len() > 3 {
                parse_u32(w[3])
            } else {
                None
            };
            &&& w[2] == "material"@ ==> parse_command_spec(input) == Ok::<CommandView, Seq<char>>(
                CommandView::Item(ItemActionView::AddMaterial { max_count }),
            )
            &&& w[2] == "furniture"@ ==> parse_command_spec(input) == Ok::<CommandView, Seq<char>>(
                CommandView::Item(ItemActionView::AddFurniture { max_count }),
            )
            &&& w[2] == "weapon"@ ==> parse_command_spec(input) == Ok::<CommandView, Seq<char>>(
                CommandView::Item(ItemActionView::AddWeapon),
            )
        }),
{
    let w = command_words(input);
    lemma_dispatch_words();
    assert(parse_words_spec(w) == item_add_spec(w));
}

/// `item add` of one item reads each option from the value given after its
/// own key: the command is accepted exactly when its words after the item
/// id are whole `key value` pairs, the item id reads as a `u32` and the
/// list given after `p`, if any, is read; `n`, `lv`, `r` and `m` are then
/// the values of those keys read as `u32`s, each `None` where its key is
/// not given, and the extra properties are those of the `p` list, none
/// where it is not given.
pub proof fn law_item_add_reads_named_options(input: Seq<char>)
    requires
        command_words(input).len() >= 3,
        command_words(input)[0] == "item"@,
        command_words(input)[1] == "add"@,
        command_words(input)[2] != "material"@,
        command_words(input)[2] != "furniture"@,
        command_words(input)[2] != "weapon"@,
    ensures
        ({
            let w = command_words(input);
            let iid = "item_id"@;
            let props = match named_value(w, iid, "p"@) {
                Some(t) => prop_list(t),
                None => Ok(Map::empty()),
            };
            &&& parse_command_spec(input) is Ok <==> (well_paired(w) && named_u32(w, iid, iid) is Some
                && props is Ok)
            &&& parse_command_spec(input) is Ok ==> parse_command_spec(input) == Ok::<CommandView, Seq<char>>(
                CommandView::Item(
                    ItemActionView::Add {
                        id: named_u32(w, iid, iid)->Some_0,
                        num: named_u32(w, iid, "n"@),
                        level: named_u32(w, iid, "lv"@),
                        refinement: named_u32(w, iid, "r"@),
                        main_prop_id: named_u32(w, iid, "m"@),
                        append_prop_id_list: props->Ok_0,
                    },
                ),
            )
        }),
{
    let w = command_words(input);
    let iid = "item_id"@;
    let help = "item add <item_id> [n <num>] [lv <num>] [r <num>] [m <num>] [p k,v;k,v]"@;
    lemma_dispatch_words();
    lemma_param_words();
    assert(parse_words_spec(w) == item_add_spec(w));
    lemma_struct_value(w, iid, help, iid);
    lemma_struct_value(w, iid, help, "n"@);
    lemma_struct_value(w, iid, help, "lv"@);
    lemma_struct_value(w, iid, help, "r"@);
    lemma_struct_value(w, iid, help, "m"@);
    lemma_struct_value(w, iid, help, "p"@);
    if let Some(t) = named_value(w, iid, "p"@) {
        assert(Map::empty().insert("p"@, t).contains_key("p"@));
        assert(Map::empty().insert("p"@, t)["p"@] == t);
    }
}

/// Whether the command `w` gives its first argument `p` as a `u32`: its
/// words after word 2 are whole `key value` pairs and the value of `p`
/// reads as a `u32`.
pub open spec fn id_given(w: Seq<Seq<char>>, p: Seq<char>) -> bool {
    well_paired(w) && named_u32(w, p, p) is Some
}

/// The `u32` that the command `w` gives as its first argument `p`.
pub open spec fn given_id(w: Seq<Seq<char>>, p: Seq<char>) -> u32 {
    named_u32(w, p, p)->Some_0
}

/// `r` accepts the command `w` exactly when it gives its first argument
/// `p`, and is then `c`.
pub open spec fn accepts_id_as(
    r: Result<CommandView, Seq<char>>,
    w: Seq<Seq<char>>,
    p: Seq<char>,
    c: CommandView,
) -> bool {
    &&& r is Ok <==> id_given(w, p)
    &&& r is Ok ==> r == Ok::<CommandView, Seq<char>>(c)
}

/// Whether words 2 and 3 of `w` are there and read as `u32`s.
pub open spec fn two_given(w: Seq<Seq<char>>) -> bool {
    w.len() >= 4 && parse_u32(w[2]) is Some && parse_u32(w[3]) is Some
}

/// Word `i` of `w` read as a `u32`.
pub open spec fn word_u32(w: Seq<Seq<char>>, i: int) -> u32 {
    parse_u32(w[i])->Some_0
}

/// `r` accepts the command `w` exactly when words 2 and 3 read as `u32`s,
/// and is then `c`.
pub open spec fn accepts_two_as(r: Result<CommandView, Seq<char>>, w: Seq<Seq<char>>, c: CommandView) -> bool {
    &&& r is Ok <==> two_given(w)
    &&& r is Ok ==> r == Ok::<CommandView, Seq<char>>(c)
}

/// The `avatar` commands read their arguments where their usage lines put them: one
/// that names an id takes it from word 2 (or a later pair that names it
/// again) and accepts the command exactly when it is given and reads as a
/// `u32`; one that takes two numbers reads them, in that order, from words
/// 2 and 3.
pub proof fn law_avatar_commands_read_their_arguments(input: Seq<char>)
    requires
        command_words(input).len() >= 2,
        command_words(input)[0] == "avatar"@,
    ensures
        ({
            let w = command_words(input);
            let r = parse_command_spec(input);
            &&& w[1] == "add"@ ==> accepts_id_as(r, w, "avatar_id"@, CommandView::Avatar(AvatarActionView::Add { id: given_id(w, "avatar_id"@) }))
            &&& w[1] == "remove"@ ==> accepts_id_as(r, w, "avatar_id"@, CommandView::Avatar(AvatarActionView::Remove { id: given_id(w, "avatar_id"@) }))
            &&& w[1] == "level"@ ==> accepts_id_as(r, w, "level"@, CommandView::Avatar(AvatarActionView::Level { level: given_id(w, "level"@) }))
            &&& w[1] == "break"@ ==> accepts_id_as(r, w, "break_level"@, CommandView::Avatar(AvatarActionView::Break { break_level: given_id(w, "break_level"@) }))
            &&& w[1] == "add_talent"@ ==> accepts_id_as(r, w, "talent_id"@, CommandView::Avatar(AvatarActionView::AddTalent { talent_id: given_id(w, "talent_id"@) }))
            &&& w[1] == "elem"@ ==> accepts_id_as(r, w, "element_type"@, CommandView::Avatar(AvatarActionView::Elem { element_type: given_id(w, "element_type"@) }))
            &&& w[1] == "skill"@ ==> accepts_two_as(r, w, CommandView::Avatar(AvatarActionView::Skill { skill_id: word_u32(w, 2), level: word_u32(w, 3) }))
        }),
{
    let w = command_words(input);
    lemma_dispatch_words();
    lemma_struct_value(w, "avatar_id"@, "avatar add <avatar_id>"@, "avatar_id"@);
    lemma_struct_value(w, "avatar_id"@, "avatar remove <avatar_id>"@, "avatar_id"@);
    lemma_struct_value(w, "level"@, "avatar level <level>"@, "level"@);
    lemma_struct_value(w, "break_level"@, "avatar break <break_level>"@, "break_level"@);
    lemma_struct_value(w, "talent_id"@, "avatar add_talent <talent_id>"@, "talent_id"@);
    lemma_struct_value(w, "element_type"@, "avatar elem <element_type>"@, "element_type"@);
}

/// The `weapon` commands read their arguments where their usage lines put them: one
/// that names an id takes it from word 2 (or a later pair that names it
/// again) and accepts the command exactly when it is given and reads as a
/// `u32`; one that takes two numbers reads them, in that order, from words
/// 2 and 3.
pub proof fn law_weapon_commands_read_their_arguments(input: Seq<char>)
    requires
        command_words(input).len() >= 2,
        command_words(input)[0] == "weapon"@,
    ensures
        ({
            let w = command_words(input);
            let r = parse_command_spec(input);
            &&& w[1] == "level"@ ==> accepts_id_as(r, w, "level"@, CommandView::Weapon(WeaponAction::Level { level: given_id(w, "level"@) }))
            &&& w[1] == "break"@ ==> accepts_id_as(r, w, "break_level"@, CommandView::Weapon(WeaponAction::Break { break_level: given_id(w, "break_level"@) }))
            &&& w[1] == "promote"@ ==> accepts_id_as(r, w, "promote_level"@, CommandView::Weapon(WeaponAction::Promote { promote_level: given_id(w, "promote_level"@) }))
        }),
{
    let w = command_words(input);
    lemma_dispatch_words();
    lemma_struct_value(w, "level"@, "weapon level <level>"@, "level"@);
    lemma_struct_value(w, "break_level"@, "weapon break <break_level>"@, "break_level"@);
    lemma_struct_value(w, "promote_level"@, "weapon promote <promote_level>"@, "promote_level"@);
}

/// The `quest` commands read their arguments where their usage lines put them: one
/// that names an id takes it from word 2 (or a later pair that names it
/// again) and accepts the command exactly when it is given and reads as a
/// `u32`; one that takes two numbers reads them, in that order, from words
/// 2 and 3.
pub proof fn law_quest_commands_read_their_arguments(input: Seq<char>)
    requires
        command_words(input).len() >= 2,
        command_words(input)[0] == "quest"@,
    ensures
        ({
            let w = command_words(input);
            let r = parse_command_spec(input);
            &&& w[1] == "accept"@ ==> accepts_id_as(r, w, "quest_id"@, CommandView::Quest(QuestAction::Accept { id: given_id(w, "quest_id"@) }))
            &&& w[1] == "finish"@ ==> accepts_id_as(r, w, "quest_id"@, CommandView::Quest(QuestAction::Finish { id: given_id(w, "quest_id"@) }))
            &&& w[1] == "cancel"@ ==> accepts_id_as(r, w, "quest_id"@, CommandView::Quest(QuestAction::Cancel { id: given_id(w, "quest_id"@) }))
            &&& w[1] == "restart"@ ==> accepts_id_as(r, w, "quest_id"@, CommandView::Quest(QuestAction::Restart { id: given_id(w, "quest_id"@) }))
            &&& w[1] == "state"@ ==> accepts_two_as(r, w, CommandView::Quest(QuestAction::State { id: word_u32(w, 2), state: word_u32(w, 3) }))
        }),
{
    let w = command_words(input);
    lemma_dispatch_words();
    lemma_struct_value(w, "quest_id"@, "quest accept <quest_id>"@, "quest_id"@);
    lemma_struct_value(w, "quest_id"@, "quest finish <quest_id>"@, "quest_id"@);
    lemma_struct_value(w, "quest_id"@, "quest cancel <quest_id>"@, "quest_id"@);
    lemma_struct_value(w, "quest_id"@, "quest restart <quest_id>"@, "quest_id"@);
}

/// The `group` commands read their arguments where their usage lines put them: one
/// that names an id takes it from word 2 (or a later pair that names it
/// again) and accepts the command exactly when it is given and reads as a
/// `u32`; one that takes two numbers reads them, in that order, from words
/// 2 and 3.
pub proof fn law_group_commands_read_their_arguments(input: Seq<char>)
    requires
        command_words(input).len() >= 2,
        command_words(input)[0] == "group"@,
    ensures
        ({
            let w = command_words(input);
            let r = parse_command_spec(input);
            &&& w[1] == "refresh"@ ==> accepts_id_as(r, w, "group_id"@, CommandView::Group(GroupAction::Refresh { id: given_id(w, "group_id"@) }))
            &&& w[1] == "unload"@ ==> accepts_id_as(r, w, "group_id"@, CommandView::Group(GroupAction::Unload { id: given_id(w, "group_id"@) }))
            &&& w[1] == "reload"@ ==> accepts_id_as(r, w, "group_id"@, CommandView::Group(GroupAction::Reload { id: given_id(w, "group_id"@) }))
            &&& w[1] == "clear"@ ==> accepts_id_as(r, w, "group_id"@, CommandView::Group(GroupAction::Clear { id: given_id(w, "group_id"@) }))
        }),
{
    let w = command_words(input);
    lemma_dispatch_words();
    lemma_struct_value(w, "group_id"@, "group refresh <group_id>"@, "group_id"@);
    lemma_struct_value(w, "group_id"@, "group unload <group_id>"@, "group_id"@);
    lemma_struct_value(w, "group_id"@, "group reload <group_id>"@, "group_id"@);
    lemma_struct_value(w, "group_id"@, "group clear <group_id>"@, "group_id"@);
}

/// The `group_suite` commands read their arguments where their usage lines put them: one
/// that names an id takes it from word 2 (or a later pair that names it
/// again) and accepts the command exactly when it is given and reads as a
/// `u32`; one that takes two numbers reads them, in that order, from words
/// 2 and 3.
pub proof fn law_group_suite_commands_read_their_arguments(input: Seq<char>)
    requires
        command_words(input).len() >= 2,
        command_words(input)[0] == "group_suite"@,
    ensures
        ({
            let w = command_words(input);
            let r = parse_command_spec(input);
            &&& w[1] == "add_extra"@ ==> accepts_two_as(r, w, CommandView::Group(GroupAction::SuiteAddExtra { id: word_u32(w, 2), suite_id: word_u32(w, 3) }))
            &&& w[1] == "remove_extra"@ ==> accepts_two_as(r, w, CommandView::Group(GroupAction::SuiteRemoveExtra { id: word_u32(w, 2), suite_id: word_u32(w, 3) }))
            &&& w[1] == "kill_extra"@ ==> accepts_two_as(r, w, CommandView::Group(GroupAction::SuiteKillExtra { id: word_u32(w, 2), suite_id: word_u32(w, 3) }))
            &&& w[1] == "goto"@ ==> accepts_two_as(r, w, CommandView::Group(GroupAction::SuiteGoto { id: word_u32(w, 2), suite_id: word_u32(w, 3) }))
        }),
{
    let w = command_words(input);
    lemma_dispatch_words();
}

/// The `gacha` commands read their arguments where their usage lines put them: one
/// that names an id takes it from word 2 (or a later pair that names it
/// again) and accepts the command exactly when it is given and reads as a
/// `u32`; one that takes two numbers reads them, in that order, from words
/// 2 and 3.
pub proof fn law_gacha_commands_read_their_arguments(input: Seq<char>)
    requires
        command_words(input).len() >= 2,
        command_words(input)[0] == "gacha"@,
    ensures
        ({
            let w = command_words(input);
            let r = parse_command_spec(input);
            &&& w[1] == "add"@ ==> accepts_id_as(r, w, "gacha_id"@, CommandView::Gacha(GachaAction::Add { id: given_id(w, "gacha_id"@) }))
        }),
{
    let w = command_words(input);
    lemma_dispatch_words();
    lemma_struct_value(w, "gacha_id"@, "gacha add <gacha_id>"@, "gacha_id"@);
}

/// The `gadget` commands other than `create` read their arguments where their usage lines put them: one
/// that names an id takes it from word 2 (or a later pair that names it
/// again) and accepts the command exactly when it is given and reads as a
/// `u32`; one that takes two numbers reads them, in that order, from words
/// 2 and 3.
pub proof fn law_gadget_commands_read_their_arguments(input: Seq<char>)
    requires
        command_words(input).len() >= 2,
        command_words(input)[0] == "gadget"@,
    ensures
        ({
            let w = command_words(input);
            let r = parse_command_spec(input);
            &&& w[1] == "remove"@ ==> accepts_id_as(r, w, "gadget_id"@, CommandView::Gadget(GadgetActionView::Remove { id: given_id(w, "gadget_id"@) }))
            &&& w[1] == "state"@ ==> accepts_two_as(r, w, CommandView::Gadget(GadgetActionView::State { id: word_u32(w, 2), state: word_u32(w, 3) }))
            &&& w[1] == "set_state_by_entity_id"@ ==> accepts_two_as(r, w, CommandView::Gadget(GadgetActionView::SetStateByEntityId { entity_id: word_u32(w, 2), state: word_u32(w, 3) }))
        }),
{
    let w = command_words(input);
    lemma_dispatch_words();
    lemma_struct_value(w, "gadget_id"@, "gadget remove <gadget_id>"@, "gadget_id"@);
}

/// `item drop` read their arguments where their usage lines put them: one
/// that names an id takes it from word 2 (or a later pair that names it
/// again) and accepts the command exactly when it is given and reads as a
/// `u32`; one that takes two numbers reads them, in that order, from words
/// 2 and 3.
pub proof fn law_item_commands_read_their_arguments(input: Seq<char>)
    requires
        command_words(input).len() >= 2,
        command_words(input)[0] == "item"@,
    ensures
        ({
            let w = command_words(input);
            let r = parse_command_spec(input);
            &&& w[1] == "drop"@ ==> accepts_id_as(r, w, "item_id"@, CommandView::Item(ItemActionView::Drop { id: given_id(w, "item_id"@) }))
        }),
{
    let w = command_words(input);
    lemma_dispatch_words();
    lemma_struct_value(w, "item_id"@, "item drop <item_id>"@, "item_id"@);
}

/// Word `i` of `w` read as a `u32`, `None` where there is no such word or
/// it does not read as one.
pub open spec fn word_read(w: Seq<Seq<char>>, i: int) -> Option<u32> {
    if i < w.len() {
        parse_u32(w[i])
    } else {
        None
    }
}

/// Word `i` of `w`, if there is one.
pub open spec fn word_at(w: Seq<Seq<char>>, i: int) -> Option<Seq<char>> {
    if i < w.len() {
        Some(w[i])
    } else {
        None
    }
}

/// `buff add` takes the buff id from word 2 and its level from the value
/// given after `level`, and accepts the command exactly when the buff id is
/// given and reads as a `u32`; `buff clear` and `buff list` take nothing
/// more.
pub proof fn law_buff_commands_read_their_arguments(input: Seq<char>)
    requires
        command_words(input).len() >= 2,
        command_words(input)[0] == "buff"@,
    ensures
        ({
            let w = command_words(input);
            let r = parse_command_spec(input);
            let bid = "buff_id"@;
            &&& w[1] == "add"@ ==> accepts_id_as(
                r,
                w,
                bid,
                CommandView::Buff(BuffAction::Add { id: given_id(w, bid), level: named_u32(w, bid, "level"@) }),
            )
            &&& w[1] == "clear"@ ==> r == Ok::<CommandView, Seq<char>>(CommandView::Buff(BuffAction::Clear))
            &&& w[1] == "list"@ ==> r == Ok::<CommandView, Seq<char>>(CommandView::Buff(BuffAction::List))
        }),
{
    let w = command_words(input);
    let bid = "buff_id"@;
    let help = "buff add <buff_id> [level <num>]"@;
    lemma_dispatch_words();
    lemma_param_words();
    lemma_struct_value(w, bid, help, bid);
    lemma_struct_value(w, bid, help, "level"@);
}

/// `quest clear` takes an optional quest id from word 2; `quest var` takes
/// the parent id from word 2, which must read as a `u32`, and an optional
/// index and value from words 3 and 4; `quest restart_all` takes nothing.
pub proof fn law_quest_clear_and_var_read_their_words(input: Seq<char>)
    requires
        command_words(input).len() >= 2,
        command_words(input)[0] == "quest"@,
    ensures
        ({
            let w = command_words(input);
            let r = parse_command_spec(input);
            &&& w[1] == "clear"@ ==> r == Ok::<CommandView, Seq<char>>(
                CommandView::Quest(QuestAction::Clear { id: word_read(w, 2) }),
            )
            &&& w[1] == "restart_all"@ ==> r == Ok::<CommandView, Seq<char>>(
                CommandView::Quest(QuestAction::RestartAll),
            )
            &&& w[1] == "var"@ ==> (r is Ok <==> word_read(w, 2) is Some)
            &&& w[1] == "var"@ && r is Ok ==> r == Ok::<CommandView, Seq<char>>(
                CommandView::Quest(
                    QuestAction::Var {
                        parent_id: word_u32(w, 2),
                        index: word_read(w, 3),
                        value: word_read(w, 4),
                    },
                ),
            )
        }),
{
    lemma_dispatch_words();
}

/// `avatar rename` takes the avatar id from word 2, which must read as a
/// `u32`, and the new name from word 3; `avatar fight_prop` takes the key
/// from word 2 and the value from word 3, which must read as a float.
pub proof fn law_avatar_rename_and_fight_prop_read_their_words(input: Seq<char>)
    requires
        command_words(input).len() >= 2,
        command_words(input)[0] == "avatar"@,
    ensures
        ({
            let w = command_words(input);
            let r = parse_command_spec(input);
            &&& w[1] == "rename"@ ==> (r is Ok <==> (w.len() >= 4 && word_read(w, 2) is Some))
            &&& w[1] == "rename"@ && r is Ok ==> r == Ok::<CommandView, Seq<char>>(
                CommandView::Avatar(AvatarActionView::Rename { id: word_u32(w, 2), name: w[3] }),
            )
            &&& w[1] == "fight_prop"@ ==> (r is Ok <==> (w.len() >= 4 && float_text(w[3])))
            &&& w[1] == "fight_prop"@ && r is Ok ==> r == Ok::<CommandView, Seq<char>>(
                CommandView::Avatar(AvatarActionView::FightProp { key: w[2], value: w[3] }),
            )
        }),
{
    lemma_dispatch_words();
}

/// `item clear` takes an optional target from word 2, and `gacha clear`
/// takes nothing.
pub proof fn law_clear_commands_read_their_words(input: Seq<char>)
    requires
        command_words(input).len() >= 2,
        command_words(input)[1] == "clear"@,
    ensures
        ({
            let w = command_words(input);
            let r = parse_command_spec(input);
            &&& w[0] == "item"@ ==> r == Ok::<CommandView, Seq<char>>(
                CommandView::Item(ItemActionView::Clear { target: word_at(w, 2) }),
            )
            &&& w[0] == "gacha"@ ==> r == Ok::<CommandView, Seq<char>>(
                CommandView::Gacha(GachaAction::Clear {  }),
            )
        }),
{
    lemma_dispatch_words();
}

/// The commands named by one word read their arguments from the words
/// after it: `prop` a key and a value, `send_packet` a key, `dun` an
/// optional dungeon id, `help` an optional topic, and `weather` and
/// `climate` one `u32` each; each is refused exactly when a word it needs
/// is missing or does not read as a `u32`.
pub proof fn law_one_word_commands_read_their_words(input: Seq<char>)
    requires
        command_words(input).len() >= 1,
    ensures
        ({
            let w = command_words(input);
            let r = parse_command_spec(input);
            &&& w[0] == "prop"@ ==> (r is Ok <==> w.len() >= 3)
            &&& w[0] == "prop"@ && r is Ok ==> r == Ok::<CommandView, Seq<char>>(CommandView::Prop(w[1], w[2]))
            &&& w[0] == "send_packet"@ ==> (r is Ok <==> w.len() >= 2)
            &&& w[0] == "send_packet"@ && r is Ok ==> r == Ok::<CommandView, Seq<char>>(CommandView::SendPacket(w[1]))
            &&& w[0] == "dun"@ ==> (r is Ok <==> (w.len() < 2 || word_read(w, 1) is Some))
            &&& w[0] == "dun"@ && r is Ok ==> r == Ok::<CommandView, Seq<char>>(CommandView::Dun(word_read(w, 1)))
            &&& w[0] == "pos"@ ==> r == Ok::<CommandView, Seq<char>>(CommandView::Pos)
            &&& w[0] == "help"@ ==> r == Ok::<CommandView, Seq<char>>(CommandView::Help(word_at(w, 1)))
            &&& w[0] == "weather"@ ==> (r is Ok <==> word_read(w, 1) is Some)
            &&& w[0] == "weather"@ && r is Ok ==> r == Ok::<CommandView, Seq<char>>(CommandView::Weather(word_u32(w, 1)))
            &&& w[0] == "climate"@ ==> (r is Ok <==> word_read(w, 1) is Some)
            &&& w[0] == "climate"@ && r is Ok ==> r == Ok::<CommandView, Seq<char>>(CommandView::Climate(word_u32(w, 1)))
        }),
{
    lemma_dispatch_words();
}

/// Whether each of `ws` is a nonempty word without whitespace.
pub open spec fn plain_words(ws: Seq<Seq<char>>) -> bool {
    forall|i: int| 0 <= i < ws.len() ==> #[trigger] ws[i].len() > 0 && no_ws(ws[i])
}

/// A space and a word after a string add that word after its words.
proof fn lemma_words_snoc(s: Seq<char>, g: Seq<char>)
    requires
        g.len() > 0,
        no_ws(g),
    ensures
        words(s + seq![' '] + g) == words(s).push(g),
    decreases g.len(),
{
    let t = s + seq![' '] + g;
    assert(!is_ws(g.last()));
    assert(t.last() == g.last());
    if g.len() == 1 {
        assert(t.drop_last() =~= s + seq![' ']);
        assert((s + seq![' ']).drop_last() =~= s);
        assert((s + seq![' ']).last() == ' ');
        assert(is_ws(' '));
        assert(words(s + seq![' ']) == words(s));
        assert(seq![g.last()] =~= g);
        assert(words(t) == words(s + seq![' ']).push(seq![g.last()]));
    } else {
        let q = g.drop_last();
        assert forall|i: int| 0 <= i < q.len() implies !is_ws(#[trigger] q[i]) by {
            assert(q[i] == g[i]);
        }
        lemma_words_snoc(s, q);
        assert(t.drop_last() =~= s + seq![' '] + q);
        assert((s + seq![' '] + q).last() == q.last());
        assert(!is_ws(q.last()));
        assert(words(s).push(q).drop_last() =~= words(s));
        assert(words(s).push(q).last() == q);
        assert(q.push(g.last()) =~= g);
        assert(words(t) == words(s).push(q).drop_last().push(q.push(g.last())));
    }
}

/// The words of plain words joined by spaces are those words, and the
/// joined text begins with the first of them.
proof fn lemma_words_of_join(ws: Seq<Seq<char>>)
    requires
        ws.len() > 0,
        plain_words(ws),
    ensures
        words(join(ws, " "@)) == ws,
        join(ws, " "@).len() > 0,
        join(ws, " "@)[0] == ws[0][0],
        join(ws, " "@).last() == ws.last().last(),
    decreases ws.len(),
{
    assert(" "@ =~= seq![' ']) by {
        reveal_strlit(" ");
    }
    assert(ws[0].len() > 0 && no_ws(ws[0]));
    if ws.len() == 1 {
        lemma_words_single(ws[0]);
    } else {
        let p = ws.drop_last();
        assert forall|i: int| 0 <= i < p.len() implies #[trigger] p[i].len() > 0 && no_ws(p[i]) by {
            assert(p[i] == ws[i]);
        }
        lemma_words_of_join(p);
        assert(ws.last() == ws[ws.len() - 1]);
        lemma_words_snoc(join(p, " "@), ws.last());
        assert(p.push(ws.last()) =~= ws);
        let j = join(p, " "@) + " "@ + ws.last();
        assert(j[0] == join(p, " "@)[0]);
        assert(p[0] == ws[0]);
    }
}

/// A command line made of plain words with single spaces between them, the
/// first not beginning with `/`, is read as exactly those words, so that
/// the laws on the words of a command speak of such lines.
pub proof fn law_spaced_words_are_the_command_words(ws: Seq<Seq<char>>)
    requires
        ws.len() > 0,
        plain_words(ws),
        ws[0][0] != '/',
    ensures
        command_words(join(ws, " "@)) == ws,
{
    lemma_words_of_join(ws);
    let s = join(ws, " "@);
    assert(ws.last() == ws[ws.len() - 1]);
    assert(no_ws(ws[0]) && no_ws(ws.last()));
    assert(!is_ws(ws[0][0]));
    assert(!is_ws(ws.last()[ws.last().len() - 1]));
    assert(!is_ws(s[0]));
    assert(!is_ws(s.last()));
    assert(trim_start(s) == s);
    assert(trim_end(s) == s);
}

/// The extra properties that the text `t` given after `p` in `item add`
/// stands for, or the message that refuses it.
pub open spec fn prop_list(t: Seq<char>) -> Result<Map<u32, u32>, Seq<char>> {
    take_map_spec(Map::empty().insert("p"@, t), "p"@)
}

/// Reading groups into `acc` gives `acc` overridden by what reading them
/// into an empty map gives, and succeeds exactly when that does.
proof fn lemma_prop_pairs_acc(key: Seq<char>, q: Seq<Seq<char>>, i: nat, acc: Map<u32, u32>)
    ensures
        prop_pairs(key, q, i, acc) is Ok <==> prop_pairs(key, q, i, Map::empty()) is Ok,
        prop_pairs(key, q, i, acc) is Ok ==> prop_pairs(key, q, i, acc)->Ok_0
            == acc.union_prefer_right(prop_pairs(key, q, i, Map::empty())->Ok_0),
    decreases q.len() - i,
{
    if i >= q.len() {
        assert(acc.union_prefer_right(Map::<u32, u32>::empty()) =~= acc);
    } else {
        let kv = split(q[i as int], ',');
        if kv.len() >= 2 && parse_u32(kv[0]) is Some && parse_u32(kv[1]) is Some {
            let k = parse_u32(kv[0])->Some_0;
            let v = parse_u32(kv[1])->Some_0;
            lemma_prop_pairs_acc(key, q, i + 1, acc.insert(k, v));
            lemma_prop_pairs_acc(key, q, i + 1, Map::empty().insert(k, v));
            if prop_pairs(key, q, i, acc) is Ok {
                let r = prop_pairs(key, q, i + 1, Map::empty())->Ok_0;
                assert(acc.insert(k, v).union_prefer_right(r) =~= acc.union_prefer_right(
                    Map::empty().insert(k, v).union_prefer_right(r),
                ));
            }
        }
    }
}

/// Reading the groups after a first one, counted from 1, succeeds and
/// gives what reading them on their own does.
proof fn lemma_prop_pairs_shift(
    key: Seq<char>,
    g: Seq<char>,
    q: Seq<Seq<char>>,
    i: nat,
    acc: Map<u32, u32>,
)
    ensures
        prop_pairs(key, seq![g] + q, i + 1, acc) is Ok <==> prop_pairs(key, q, i, acc) is Ok,
        prop_pairs(key, seq![g] + q, i + 1, acc) is Ok ==> prop_pairs(key, seq![g] + q, i + 1, acc)
            == prop_pairs(key, q, i, acc),
    decreases q.len() - i,
{
    if i < q.len() {
        assert((seq![g] + q)[i + 1 as int] == q[i as int]);
        let kv = split(q[i as int], ',');
        if kv.len() >= 2 && parse_u32(kv[0]) is Some && parse_u32(kv[1]) is Some {
            lemma_prop_pairs_shift(key, g, q, i + 1, acc.insert(parse_u32(kv[0])->Some_0, parse_u32(kv[1])->Some_0));
        }
    }
}

/// A list of extra properties is its first group, a `;` and the rest: it is
/// read exactly when both parts are, and then holds the properties of the
/// first group overridden by those of the rest.
pub proof fn law_prop_list_groups(t1: Seq<char>, t2: Seq<char>)
    requires
        lacks(t1, ';'),
    ensures
        prop_list(t1 + seq![';'] + t2) is Ok <==> (prop_list(t1) is Ok && prop_list(t2) is Ok),
        prop_list(t1 + seq![';'] + t2) is Ok ==> prop_list(t1 + seq![';'] + t2)->Ok_0
            == prop_list(t1)->Ok_0.union_prefer_right(prop_list(t2)->Ok_0),
{
    let key = "p"@;
    lemma_split_cons(t1, t2, ';');
    lemma_split_none(t1, ';');
    let q = split(t2, ';');
    let e = Map::<u32, u32>::empty();
    assert(Map::empty().insert(key, t1 + seq![';'] + t2).contains_key(key));
    assert(Map::empty().insert(key, t1).contains_key(key));
    assert(Map::empty().insert(key, t2).contains_key(key));
    assert(prop_list(t1 + seq![';'] + t2) == prop_pairs(key, seq![t1] + q, 0, e));
    assert(prop_list(t1) == prop_pairs(key, seq![t1], 0, e));
    assert(prop_list(t2) == prop_pairs(key, q, 0, e));
    assert((seq![t1] + q)[0] == t1);
    let kv = split(t1, ',');
    if kv.len() >= 2 && parse_u32(kv[0]) is Some && parse_u32(kv[1]) is Some {
        let m1 = e.insert(parse_u32(kv[0])->Some_0, parse_u32(kv[1])->Some_0);
        lemma_prop_pairs_shift(key, t1, q, 0, m1);
        lemma_prop_pairs_acc(key, q, 0, m1);
        assert(prop_pairs(key, seq![t1], 1, m1) == Ok::<Map<u32, u32>, Seq<char>>(m1));
    }
}

/// A group of two numbers, separated by `,`, gives the one property with the
/// first as its key and the second as its value, whatever follows a further
/// `,`; it is read exactly when both numbers are; a group without `,` is
/// refused.
pub proof fn law_prop_list_one_group(a: Seq<char>, b: Seq<char>, c: Seq<char>)
    requires
        lacks(a, ',') && lacks(a, ';'),
        lacks(b, ',') && lacks(b, ';'),
        lacks(c, ';'),
    ensures
        prop_list(a) is Err,
        prop_list(a + seq![','] + b) is Ok <==> (parse_u32(a) is Some && parse_u32(b) is Some),
        prop_list(a + seq![','] + b) is Ok ==> prop_list(a + seq![','] + b)->Ok_0 == map![
            parse_u32(a)->Some_0 => parse_u32(b)->Some_0,
        ],
        prop_list(a + seq![','] + b + seq![','] + c) == prop_list(a + seq![','] + b),
{
    let key = "p"@;
    let e = Map::<u32, u32>::empty();
    let t = a + seq![','] + b;
    let u = a + seq![','] + b + seq![','] + c;
    assert(lacks(t, ';')) by {
        assert forall|i: int| 0 <= i < t.len() implies #[trigger] t[i] != ';' by {
            if i < a.len() {
                assert(t[i] == a[i]);
            } else if i > a.len() {
                assert(t[i] == b[i - a.len() - 1]);
            }
        }
    }
    assert(lacks(u, ';')) by {
        assert forall|i: int| 0 <= i < u.len() implies #[trigger] u[i] != ';' by {
            if i < t.len() {
                assert(u[i] == t[i]);
            } else if i > t.len() {
                assert(u[i] == c[i - t.len() - 1]);
            }
        }
    }
    lemma_split_none(a, ';');
    lemma_split_none(t, ';');
    lemma_split_none(u, ';');
    lemma_split_none(a, ',');
    lemma_split_none(b, ',');
    lemma_split_cons(a, b, ',');
    assert(u =~= a + seq![','] + (b + seq![','] + c));
    lemma_split_cons(a, b + seq![','] + c, ',');
    lemma_split_cons(b, c, ',');
    lemma_split_nonempty(c, ',');
    assert(Map::empty().insert(key, a).contains_key(key));
    assert(Map::empty().insert(key, t).contains_key(key));
    assert(Map::empty().insert(key, u).contains_key(key));
    assert(prop_list(a) == prop_pairs(key, seq![a], 0, e));
    assert(prop_list(t) == prop_pairs(key, seq![t], 0, e));
    assert(prop_list(u) == prop_pairs(key, seq![u], 0, e));
    let kt = split(t, ',');
    let ku = split(u, ',');
    assert(kt =~= seq![a, b]);
    assert(ku =~= seq![a, b] + split(c, ','));
    assert(ku[0] == a && ku[1] == b);
    if parse_u32(a) is Some && parse_u32(b) is Some {
        let m = e.insert(parse_u32(a)->Some_0, parse_u32(b)->Some_0);
        assert(prop_pairs(key, seq![t], 1, m) == Ok::<Map<u32, u32>, Seq<char>>(m));
        assert(prop_pairs(key, seq![u], 1, m) == Ok::<Map<u32, u32>, Seq<char>>(m));
        assert(m =~= map![parse_u32(a)->Some_0 => parse_u32(b)->Some_0]);
    }
}

} // verus!
