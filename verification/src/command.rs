//! The GM commands that `parse_command` recognises, and their views.
//!
//! Numbers that the server reads as floating point (a fight property's
//! value, coordinates) are checked to read as such and kept here as the
//! text that was typed; the program around the library turns that text
//! into a number.
use std::collections::HashMap;
use vstd::prelude::*;

verus! {

/// A parsed GM command.
#[derive(Debug)]
pub enum Command {
    Avatar(AvatarAction),
    Buff(BuffAction),
    Item(ItemAction),
    Weapon(WeaponAction),
    Quest(QuestAction),
    Gadget(GadgetAction),
    Group(GroupAction),
    Weather(u32),
    Climate(u32),
    Tp(TpAction),
    Gacha(GachaAction),
    Prop(String, String),
    SendPacket(String),
    Dun(Option<u32>),
    Pos,
    Help(Option<String>),
}

/// Commands on the current avatar.
#[derive(Debug)]
pub enum AvatarAction {
    Add { id: u32 },
    Remove { id: u32 },
    Rename { id: u32, name: String },
    Level { level: u32 },
    Break { break_level: u32 },
    AddTalent { talent_id: u32 },
    Skill { skill_id: u32, level: u32 },
    Elem { element_type: u32 },
    /// `value` is the text of the number to set, which reads as a
    /// floating-point number.
    FightProp { key: String, value: String },
}

/// Buff commands.
#[derive(Debug, Clone, Copy, PartialEq, Eq)]
pub enum BuffAction {
    Add { id: u32, level: Option<u32> },
    Clear,
    List,
}

/// Item commands.
#[derive(Debug)]
pub enum ItemAction {
    Add {
        id: u32,
        num: Option<u32>,
        level: Option<u32>,
        refinement: Option<u32>,
        main_prop_id: Option<u32>,
        append_prop_id_list: HashMap<u32, u32>,
    },
    AddMaterial { max_count: Option<u32> },
    AddFurniture { max_count: Option<u32> },
    AddWeapon,
    Clear { target: Option<String> },
    Drop { id: u32 },
}

/// Commands on the current weapon.
#[derive(Debug, Clone, Copy, PartialEq, Eq)]
pub enum WeaponAction {
    Level { level: u32 },
    Break { break_level: u32 },
    Promote { promote_level: u32 },
}

/// Quest commands.
#[derive(Debug, Clone, Copy, PartialEq, Eq)]
#[allow(inconsistent_fields)]
pub enum QuestAction {
    Accept { id: u32 },
    Finish { id: u32 },
    Cancel { id: u32 },
    Clear { id: Option<u32> },
    State { id: u32, state: u32 },
    Restart { id: u32 },
    RestartAll,
    Var { parent_id: u32, index: Option<u32>, value: Option<u32> },
}

/// Gadget commands; `x`, `y` and `z` are the texts of the coordinates
/// that were given and read as floating-point numbers.
#[derive(Debug)]
pub enum GadgetAction {
    Create {
        id: u32,
        num: Option<u32>,
        drop_id: Option<u32>,
        level: Option<u32>,
        interact_id: Option<u32>,
        x: Option<String>,
        y: Option<String>,
        z: Option<String>,
    },
    Remove { id: u32 },
    State { id: u32, state: u32 },
    SetStateByEntityId { entity_id: u32, state: u32 },
}

/// Scene group commands.
#[derive(Debug, Clone, Copy, PartialEq, Eq)]
pub enum GroupAction {
    Refresh { id: u32 },
    Unload { id: u32 },
    Reload { id: u32 },
    Clear { id: u32 },
    SuiteAddExtra { id: u32, suite_id: u32 },
    SuiteRemoveExtra { id: u32, suite_id: u32 },
    SuiteKillExtra { id: u32, suite_id: u32 },
    SuiteGoto { id: u32, suite_id: u32 },
}

/// Teleport commands, absolute (`A`) or relative (`R`); `x`, `y` and `z`
/// are the texts of the coordinates that were given and read as
/// floating-point numbers.
#[derive(Debug)]
pub enum TpAction {
    A { id: u32, x: Option<String>, y: Option<String>, z: Option<String> },
    R { id: u32, x: Option<String>, y: Option<String>, z: Option<String> },
}

/// Gacha pool commands.
#[derive(Debug, Clone, Copy, PartialEq, Eq)]
pub enum GachaAction {
    Add { id: u32 },
    Clear {},
}

/// The view of an optional string.
pub open spec fn opt_view(o: Option<String>) -> Option<Seq<char>> {
    match o {
        Some(s) => Some(s@),
        None => None,
    }
}

/// `AvatarAction` with its strings as character sequences.
pub enum AvatarActionView {
    Add { id: u32 },
    Remove { id: u32 },
    Rename { id: u32, name: Seq<char> },
    Level { level: u32 },
    Break { break_level: u32 },
    AddTalent { talent_id: u32 },
    Skill { skill_id: u32, level: u32 },
    Elem { element_type: u32 },
    FightProp { key: Seq<char>, value: Seq<char> },
}

/// `ItemAction` with its strings as character sequences and its map as a `Map`.
pub enum ItemActionView {
    Add {
        id: u32,
        num: Option<u32>,
        level: Option<u32>,
        refinement: Option<u32>,
        main_prop_id: Option<u32>,
        append_prop_id_list: Map<u32, u32>,
    },
    AddMaterial { max_count: Option<u32> },
    AddFurniture { max_count: Option<u32> },
    AddWeapon,
    Clear { target: Option<Seq<char>> },
    Drop { id: u32 },
}

/// `GadgetAction` with its strings as character sequences.
pub enum GadgetActionView {
    Create {
        id: u32,
        num: Option<u32>,
        drop_id: Option<u32>,
        level: Option<u32>,
        interact_id: Option<u32>,
        x: Option<Seq<char>>,
        y: Option<Seq<char>>,
        z: Option<Seq<char>>,
    },
    Remove { id: u32 },
    State { id: u32, state: u32 },
    SetStateByEntityId { entity_id: u32, state: u32 },
}

/// `TpAction` with its strings as character sequences.
pub enum TpActionView {
    A { id: u32, x: Option<Seq<char>>, y: Option<Seq<char>>, z: Option<Seq<char>> },
    R { id: u32, x: Option<Seq<char>>, y: Option<Seq<char>>, z: Option<Seq<char>> },
}

/// `Command` with its strings as character sequences.
pub enum CommandView {
    Avatar(AvatarActionView),
    Buff(BuffAction),
    Item(ItemActionView),
    Weapon(WeaponAction),
    Quest(QuestAction),
    Gadget(GadgetActionView),
    Group(GroupAction),
    Weather(u32),
    Climate(u32),
    Tp(TpActionView),
    Gacha(GachaAction),
    Prop(Seq<char>, Seq<char>),
    SendPacket(Seq<char>),
    Dun(Option<u32>),
    Pos,
    Help(Option<Seq<char>>),
}

impl View for AvatarAction {
    type V = AvatarActionView;

    open spec fn view(&self) -> AvatarActionView {
        match self {
            AvatarAction::Add { id } => AvatarActionView::Add { id: *id },
            AvatarAction::Remove { id } => AvatarActionView::Remove { id: *id },
            AvatarAction::Rename { id, name } => AvatarActionView::Rename { id: *id, name: name@ },
            AvatarAction::Level { level } => AvatarActionView::Level { level: *level },
            AvatarAction::Break { break_level } => AvatarActionView::Break {
                break_level: *break_level,
            },
            AvatarAction::AddTalent { talent_id } => AvatarActionView::AddTalent {
                talent_id: *talent_id,
            },
            AvatarAction::Skill { skill_id, level } => AvatarActionView::Skill {
                skill_id: *skill_id,
                level: *level,
            },
            AvatarAction::Elem { element_type } => AvatarActionView::Elem {
                element_type: *element_type,
            },
            AvatarAction::FightProp { key, value } => AvatarActionView::FightProp {
                key: key@,
                value: value@,
            },
        }
    }
}

impl View for ItemAction {
    type V = ItemActionView;

    open spec fn view(&self) -> ItemActionView {
        match self {
            ItemAction::Add {
                id,
                num,
                level,
                refinement,
                main_prop_id,
                append_prop_id_list,
            } => ItemActionView::Add {
                id: *id,
                num: *num,
                level: *level,
                refinement: *refinement,
                main_prop_id: *main_prop_id,
                append_prop_id_list: append_prop_id_list@,
            },
            ItemAction::AddMaterial { max_count } => ItemActionView::AddMaterial {
                max_count: *max_count,
            },
            ItemAction::AddFurniture { max_count } => ItemActionView::AddFurniture {
                max_count: *max_count,
            },
            ItemAction::AddWeapon => ItemActionView::AddWeapon,
            ItemAction::Clear { target } => ItemActionView::Clear { target: opt_view(*target) },
            ItemAction::Drop { id } => ItemActionView::Drop { id: *id },
        }
    }
}

impl View for GadgetAction {
    type V = GadgetActionView;

    open spec fn view(&self) -> GadgetActionView {
        match self {
            GadgetAction::Create { id, num, drop_id, level, interact_id, x, y, z } =>
                GadgetActionView::Create {
                id: *id,
                num: *num,
                drop_id: *drop_id,
                level: *level,
                interact_id: *interact_id,
                x: opt_view(*x),
                y: opt_view(*y),
                z: opt_view(*z),
            },
            GadgetAction::Remove { id } => GadgetActionView::Remove { id: *id },
            GadgetAction::State { id, state } => GadgetActionView::State { id: *id, state: *state },
            GadgetAction::SetStateByEntityId { entity_id, state } =>
                GadgetActionView::SetStateByEntityId { entity_id: *entity_id, state: *state },
        }
    }
}

impl View for TpAction {
    type V = TpActionView;

    open spec fn view(&self) -> TpActionView {
        match self {
            TpAction::A { id, x, y, z } => TpActionView::A {
                id: *id,
                x: opt_view(*x),
                y: opt_view(*y),
                z: opt_view(*z),
            },
            TpAction::R { id, x, y, z } => TpActionView::R {
                id: *id,
                x: opt_view(*x),
                y: opt_view(*y),
                z: opt_view(*z),
            },
        }
    }
}

impl View for Command {
    type V = CommandView;

    open spec fn view(&self) -> CommandView {
        match self {
            Command::Avatar(a) => CommandView::Avatar(a@),
            Command::Buff(b) => CommandView::Buff(*b),
            Command::Item(i) => CommandView::Item(i@),
            Command::Weapon(w) => CommandView::Weapon(*w),
            Command::Quest(q) => CommandView::Quest(*q),
            Command::Gadget(g) => CommandView::Gadget(g@),
            Command::Group(g) => CommandView::Group(*g),
            Command::Weather(w) => CommandView::Weather(*w),
            Command::Climate(c) => CommandView::Climate(*c),
            Command::Tp(t) => CommandView::Tp(t@),
            Command::Gacha(g) => CommandView::Gacha(*g),
            Command::Prop(k, v) => CommandView::Prop(k@, v@),
            Command::SendPacket(k) => CommandView::SendPacket(k@),
            Command::Dun(id) => CommandView::Dun(*id),
            Command::Pos => CommandView::Pos,
            Command::Help(t) => CommandView::Help(opt_view(*t)),
        }
    }
}

/// The view of a parse outcome: the command's view, or the error message.
pub open spec fn outcome_view(r: Result<Command, String>) -> Result<CommandView, Seq<char>> {
    match r {
        Ok(c) => Ok(c@),
        Err(e) => Err(e@),
    }
}

} // verus!
