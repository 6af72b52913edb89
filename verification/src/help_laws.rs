//! Laws that tie the help table to the parser and to `help <topic>`:
//! every table entry names a command that `parse_command` recognises, every
//! command it accepts is listed in the table, and each entry's group is
//! the first word of its usage.
use crate::help::{has_group, help_table, help_topic_text, topic_key, topic_lines, CommandHelp};
use crate::laws::{entry_lines, law_help_topic_lists_whole_group, occurs_in};
use crate::parse::{
    avatar_spec, buff_spec, gacha_spec, gadget_spec, group_spec, group_suite_spec, item_spec,
    parse_words_spec, quest_spec, tp_pair_spec, weapon_spec,
};
use crate::command::CommandView;
use crate::text::{is_ws, trim, trim_end, trim_start, trim_start_char, words};
use vstd::prelude::*;

verus! {

/// Whether no character of `g` is whitespace.
pub open spec fn no_ws(g: Seq<char>) -> bool {
    forall|i: int| 0 <= i < g.len() ==> !is_ws(#[trigger] g[i])
}

/// Whether `w` is a placeholder of a usage line, such as `<id>` or `[num]`.
pub open spec fn opens_placeholder(w: Seq<char>) -> bool {
    w.len() > 0 && (w[0] == '<' || w[0] == '[')
}

/// The words of a usage line before its first placeholder.
pub open spec fn leading_command_words(ws: Seq<Seq<char>>) -> Seq<Seq<char>>
    decreases ws.len(),
{
    if ws.len() == 0 || opens_placeholder(ws[0]) {
        seq![]
    } else {
        seq![ws[0]] + leading_command_words(ws.drop_first())
    }
}

/// The command words of a help entry, such as `avatar add` for
/// `avatar add <avatar_id>`.
pub open spec fn command_path(h: CommandHelp) -> Seq<Seq<char>> {
    leading_command_words(words(h.usage@))
}

/// Whether `r` is an error that begins with "unknown command".
pub open spec fn is_unknown_command(r: Result<CommandView, Seq<char>>) -> bool {
    match r {
        Ok(_) => false,
        Err(e) => "unknown command"@.is_prefix_of(e),
    }
}

/// A word without whitespace is its own only word.
pub(crate) proof fn lemma_words_single(g: Seq<char>)
    requires
        g.len() > 0,
        no_ws(g),
    ensures
        words(g) == seq![g],
    decreases g.len(),
{
    assert(!is_ws(g[g.len() - 1]));
    if g.len() == 1 {
        assert(g.drop_last() =~= Seq::<char>::empty());
        assert(words(g.drop_last()) == Seq::<Seq<char>>::empty());
        assert(seq![g.last()] =~= g);
    } else {
        let p = g.drop_last();
        assert forall|i: int| 0 <= i < p.len() implies !is_ws(#[trigger] p[i]) by {
            assert(p[i] == g[i]);
        }
        lemma_words_single(p);
        assert(!is_ws(p.last()));
        assert(p.push(g.last()) =~= g);
    }
}

/// A word followed by a space comes first among the words.
pub(crate) proof fn lemma_words_cons(g: Seq<char>, r: Seq<char>)
    requires
        g.len() > 0,
        no_ws(g),
    ensures
        words(g + seq![' '] + r) == seq![g] + words(r),
    decreases r.len(),
{
    let s = g + seq![' '] + r;
    if r.len() == 0 {
        assert(s.drop_last() =~= g);
        assert(s.last() == ' ');
        lemma_words_single(g);
        assert(seq![g] + words(r) =~= seq![g]);
    } else {
        let q = r.drop_last();
        let c = r.last();
        lemma_words_cons(g, q);
        assert(s.drop_last() =~= g + seq![' '] + q);
        assert(s.last() == c);
        let ws = words(q);
        if is_ws(c) {
        } else if q.len() > 0 && !is_ws(q.last()) {
            assert((g + seq![' '] + q).last() == q.last());
            assert(ws.len() > 0) by {
                lemma_words_first_of_last(q);
            }
            assert((seq![g] + ws).drop_last().push((seq![g] + ws).last().push(c)) =~= seq![g]
                + ws.drop_last().push(ws.last().push(c)));
        } else {
            if q.len() > 0 {
                assert((g + seq![' '] + q).last() == q.last());
            } else {
                assert((g + seq![' '] + q).last() == ' ');
            }
            assert((seq![g] + ws).push(seq![c]) =~= seq![g] + ws.push(seq![c]));
        }
    }
}

/// A string that ends in a non-whitespace character has a word.
proof fn lemma_words_first_of_last(q: Seq<char>)
    requires
        q.len() > 0,
        !is_ws(q.last()),
    ensures
        words(q).len() > 0,
    decreases q.len(),
{
    let p = q.drop_last();
    if p.len() > 0 && !is_ws(p.last()) {
        lemma_words_first_of_last(p);
    }
}

/// The first word of a string that begins with a non-whitespace character
/// begins with that character.
proof fn lemma_words_first(r: Seq<char>)
    requires
        r.len() > 0,
        !is_ws(r[0]),
    ensures
        words(r).len() > 0,
        words(r)[0].len() > 0,
        words(r)[0][0] == r[0],
    decreases r.len(),
{
    if r.len() == 1 {
        assert(r.drop_last() =~= Seq::<char>::empty());
        assert(words(r.drop_last()) == Seq::<Seq<char>>::empty());
    } else {
        let p = r.drop_last();
        let c = r.last();
        assert(p[0] == r[0]);
        lemma_words_first(p);
        let ws = words(p);
        if is_ws(c) {
        } else if p.len() > 0 && !is_ws(p.last()) {
            if ws.len() == 1 {
                assert(ws.drop_last().push(ws.last().push(c))[0] == ws[0].push(c));
            } else {
                assert(ws.drop_last().push(ws.last().push(c))[0] == ws[0]);
            }
        } else {
            assert(ws.push(seq![c])[0] == ws[0]);
        }
    }
}

/// A command word that is no placeholder is kept, and reading goes on.
proof fn lemma_command_words_cons(g: Seq<char>, ws: Seq<Seq<char>>)
    requires
        g.len() > 0,
        g[0] != '<',
        g[0] != '[',
    ensures
        leading_command_words(seq![g] + ws) == seq![g] + leading_command_words(ws),
{
    let s = seq![g] + ws;
    assert(s[0] == g);
    assert(s.drop_first() =~= ws);
}

/// Reading command words stops at a placeholder.
proof fn lemma_command_words_stop(ws: Seq<Seq<char>>)
    requires
        ws.len() > 0,
        ws[0].len() > 0,
        ws[0][0] == '<' || ws[0][0] == '[',
    ensures
        leading_command_words(ws) == Seq::<Seq<char>>::empty(),
{
}

/// No words give no command words.
proof fn lemma_command_words_empty()
    ensures
        leading_command_words(Seq::<Seq<char>>::empty()) == Seq::<Seq<char>>::empty(),
{
}

/// The first characters of the messages for a missing argument.
proof fn lemma_message_starts()
    ensures
        "缺少参数: "@.len() > 0,
        "缺少参数: "@[0] == '缺',
        "参数错误"@.len() > 0,
        "参数错误"@[0] == '参',
{
    reveal_strlit("缺少参数: ");
    reveal_strlit("参数错误");
}

/// A message whose first character is not `u` is no "unknown command".
proof fn lemma_not_unknown(e: Seq<char>)
    requires
        e.len() > 0,
        e[0] != 'u',
    ensures
        !"unknown command"@.is_prefix_of(e),
{
    reveal_strlit("unknown command");
    if "unknown command"@.is_prefix_of(e) {
        assert(e.subrange(0, "unknown command"@.len() as int)[0] == e[0]);
    }
}

/// A group name without whitespace or leading `/` is its own topic key.
proof fn lemma_topic_key_plain(g: Seq<char>)
    requires
        g.len() > 0,
        !is_ws(g[0]),
        !is_ws(g.last()),
        g[0] != '/',
    ensures
        topic_key(g) == g,
{
    assert(trim_start(g) == g);
    assert(trim_end(g) == g);
    assert(trim(g) == g);
    assert(trim_start_char(g, '/') == g);
}

/// The characters of the command word `a`.
pub(crate) proof fn lemma_word_a()
    ensures
        "a"@.len() == 1,
        "a"@[0] == 'a',
        no_ws("a"@),
{
    reveal_strlit("a");
    assert forall|i: int| 0 <= i < "a"@.len() implies !is_ws(#[trigger] "a"@[i]) by {}
}

/// The characters of the command word `accept`.
pub(crate) proof fn lemma_word_accept()
    ensures
        "accept"@.len() == 6,
        "accept"@[0] == 'a',
        "accept"@[1] == 'c',
        "accept"@[2] == 'c',
        "accept"@[3] == 'e',
        "accept"@[4] == 'p',
        "accept"@[5] == 't',
        no_ws("accept"@),
{
    reveal_strlit("accept");
    assert forall|i: int| 0 <= i < "accept"@.len() implies !is_ws(#[trigger] "accept"@[i]) by {}
}

/// The characters of the command word `add`.
pub(crate) proof fn lemma_word_add()
    ensures
        "add"@.len() == 3,
        "add"@[0] == 'a',
        "add"@[1] == 'd',
        "add"@[2] == 'd',
        no_ws("add"@),
{
    reveal_strlit("add");
    assert forall|i: int| 0 <= i < "add"@.len() implies !is_ws(#[trigger] "add"@[i]) by {}
}

/// The characters of the command word `add_extra`.
pub(crate) proof fn lemma_word_add_extra()
    ensures
        "add_extra"@.len() == 9,
        "add_extra"@[0] == 'a',
        "add_extra"@[1] == 'd',
        "add_extra"@[2] == 'd',
        "add_extra"@[3] == '_',
        "add_extra"@[4] == 'e',
        "add_extra"@[5] == 'x',
        "add_extra"@[6] == 't',
        "add_extra"@[7] == 'r',
        "add_extra"@[8] == 'a',
        no_ws("add_extra"@),
{
    reveal_strlit("add_extra");
    assert forall|i: int| 0 <= i < "add_extra"@.len() implies !is_ws(#[trigger] "add_extra"@[i]) by {}
}

/// The characters of the command word `add_talent`.
pub(crate) proof fn lemma_word_add_talent()
    ensures
        "add_talent"@.len() == 10,
        "add_talent"@[0] == 'a',
        "add_talent"@[1] == 'd',
        "add_talent"@[2] == 'd',
        "add_talent"@[3] == '_',
        "add_talent"@[4] == 't',
        "add_talent"@[5] == 'a',
        "add_talent"@[6] == 'l',
        "add_talent"@[7] == 'e',
        "add_talent"@[8] == 'n',
        "add_talent"@[9] == 't',
        no_ws("add_talent"@),
{
    reveal_strlit("add_talent");
    assert forall|i: int| 0 <= i < "add_talent"@.len() implies !is_ws(#[trigger] "add_talent"@[i]) by {}
}

/// The characters of the command word `avatar`.
pub(crate) proof fn lemma_word_avatar()
    ensures
        "avatar"@.len() == 6,
        "avatar"@[0] == 'a',
        "avatar"@[1] == 'v',
        "avatar"@[2] == 'a',
        "avatar"@[3] == 't',
        "avatar"@[4] == 'a',
        "avatar"@[5] == 'r',
        no_ws("avatar"@),
{
    reveal_strlit("avatar");
    assert forall|i: int| 0 <= i < "avatar"@.len() implies !is_ws(#[trigger] "avatar"@[i]) by {}
}

/// The characters of the command word `break`.
pub(crate) proof fn lemma_word_break()
    ensures
        "break"@.len() == 5,
        "break"@[0] == 'b',
        "break"@[1] == 'r',
        "break"@[2] == 'e',
        "break"@[3] == 'a',
        "break"@[4] == 'k',
        no_ws("break"@),
{
    reveal_strlit("break");
    assert forall|i: int| 0 <= i < "break"@.len() implies !is_ws(#[trigger] "break"@[i]) by {}
}

/// The characters of the command word `buff`.
pub(crate) proof fn lemma_word_buff()
    ensures
        "buff"@.len() == 4,
        "buff"@[0] == 'b',
        "buff"@[1] == 'u',
        "buff"@[2] == 'f',
        "buff"@[3] == 'f',
        no_ws("buff"@),
{
    reveal_strlit("buff");
    assert forall|i: int| 0 <= i < "buff"@.len() implies !is_ws(#[trigger] "buff"@[i]) by {}
}

/// The characters of the command word `buff_id`.
pub(crate) proof fn lemma_word_buff_id()
    ensures
        "buff_id"@.len() == 7,
        "buff_id"@[0] == 'b',
        "buff_id"@[1] == 'u',
        "buff_id"@[2] == 'f',
        "buff_id"@[3] == 'f',
        "buff_id"@[4] == '_',
        "buff_id"@[5] == 'i',
        "buff_id"@[6] == 'd',
        no_ws("buff_id"@),
{
    reveal_strlit("buff_id");
    assert forall|i: int| 0 <= i < "buff_id"@.len() implies !is_ws(#[trigger] "buff_id"@[i]) by {}
}

/// The characters of the command word `cancel`.
pub(crate) proof fn lemma_word_cancel()
    ensures
        "cancel"@.len() == 6,
        "cancel"@[0] == 'c',
        "cancel"@[1] == 'a',
        "cancel"@[2] == 'n',
        "cancel"@[3] == 'c',
        "cancel"@[4] == 'e',
        "cancel"@[5] == 'l',
        no_ws("cancel"@),
{
    reveal_strlit("cancel");
    assert forall|i: int| 0 <= i < "cancel"@.len() implies !is_ws(#[trigger] "cancel"@[i]) by {}
}

/// The characters of the command word `clear`.
pub(crate) proof fn lemma_word_clear()
    ensures
        "clear"@.len() == 5,
        "clear"@[0] == 'c',
        "clear"@[1] == 'l',
        "clear"@[2] == 'e',
        "clear"@[3] == 'a',
        "clear"@[4] == 'r',
        no_ws("clear"@),
{
    reveal_strlit("clear");
    assert forall|i: int| 0 <= i < "clear"@.len() implies !is_ws(#[trigger] "clear"@[i]) by {}
}

/// The characters of the command word `climate`.
pub(crate) proof fn lemma_word_climate()
    ensures
        "climate"@.len() == 7,
        "climate"@[0] == 'c',
        "climate"@[1] == 'l',
        "climate"@[2] == 'i',
        "climate"@[3] == 'm',
        "climate"@[4] == 'a',
        "climate"@[5] == 't',
        "climate"@[6] == 'e',
        no_ws("climate"@),
{
    reveal_strlit("climate");
    assert forall|i: int| 0 <= i < "climate"@.len() implies !is_ws(#[trigger] "climate"@[i]) by {}
}

/// The characters of the command word `create`.
pub(crate) proof fn lemma_word_create()
    ensures
        "create"@.len() == 6,
        "create"@[0] == 'c',
        "create"@[1] == 'r',
        "create"@[2] == 'e',
        "create"@[3] == 'a',
        "create"@[4] == 't',
        "create"@[5] == 'e',
        no_ws("create"@),
{
    reveal_strlit("create");
    assert forall|i: int| 0 <= i < "create"@.len() implies !is_ws(#[trigger] "create"@[i]) by {}
}

/// The characters of the command word `drop`.
pub(crate) proof fn lemma_word_drop()
    ensures
        "drop"@.len() == 4,
        "drop"@[0] == 'd',
        "drop"@[1] == 'r',
        "drop"@[2] == 'o',
        "drop"@[3] == 'p',
        no_ws("drop"@),
{
    reveal_strlit("drop");
    assert forall|i: int| 0 <= i < "drop"@.len() implies !is_ws(#[trigger] "drop"@[i]) by {}
}

/// The characters of the command word `drop_id`.
pub(crate) proof fn lemma_word_drop_id()
    ensures
        "drop_id"@.len() == 7,
        "drop_id"@[0] == 'd',
        "drop_id"@[1] == 'r',
        "drop_id"@[2] == 'o',
        "drop_id"@[3] == 'p',
        "drop_id"@[4] == '_',
        "drop_id"@[5] == 'i',
        "drop_id"@[6] == 'd',
        no_ws("drop_id"@),
{
    reveal_strlit("drop_id");
    assert forall|i: int| 0 <= i < "drop_id"@.len() implies !is_ws(#[trigger] "drop_id"@[i]) by {}
}

/// The characters of the command word `dun`.
pub(crate) proof fn lemma_word_dun()
    ensures
        "dun"@.len() == 3,
        "dun"@[0] == 'd',
        "dun"@[1] == 'u',
        "dun"@[2] == 'n',
        no_ws("dun"@),
{
    reveal_strlit("dun");
    assert forall|i: int| 0 <= i < "dun"@.len() implies !is_ws(#[trigger] "dun"@[i]) by {}
}

/// The characters of the command word `elem`.
pub(crate) proof fn lemma_word_elem()
    ensures
        "elem"@.len() == 4,
        "elem"@[0] == 'e',
        "elem"@[1] == 'l',
        "elem"@[2] == 'e',
        "elem"@[3] == 'm',
        no_ws("elem"@),
{
    reveal_strlit("elem");
    assert forall|i: int| 0 <= i < "elem"@.len() implies !is_ws(#[trigger] "elem"@[i]) by {}
}

/// The characters of the command word `fight_prop`.
pub(crate) proof fn lemma_word_fight_prop()
    ensures
        "fight_prop"@.len() == 10,
        "fight_prop"@[0] == 'f',
        "fight_prop"@[1] == 'i',
        "fight_prop"@[2] == 'g',
        "fight_prop"@[3] == 'h',
        "fight_prop"@[4] == 't',
        "fight_prop"@[5] == '_',
        "fight_prop"@[6] == 'p',
        "fight_prop"@[7] == 'r',
        "fight_prop"@[8] == 'o',
        "fight_prop"@[9] == 'p',
        no_ws("fight_prop"@),
{
    reveal_strlit("fight_prop");
    assert forall|i: int| 0 <= i < "fight_prop"@.len() implies !is_ws(#[trigger] "fight_prop"@[i]) by {}
}

/// The characters of the command word `finish`.
pub(crate) proof fn lemma_word_finish()
    ensures
        "finish"@.len() == 6,
        "finish"@[0] == 'f',
        "finish"@[1] == 'i',
        "finish"@[2] == 'n',
        "finish"@[3] == 'i',
        "finish"@[4] == 's',
        "finish"@[5] == 'h',
        no_ws("finish"@),
{
    reveal_strlit("finish");
    assert forall|i: int| 0 <= i < "finish"@.len() implies !is_ws(#[trigger] "finish"@[i]) by {}
}

/// The characters of the command word `furniture`.
pub(crate) proof fn lemma_word_furniture()
    ensures
        "furniture"@.len() == 9,
        "furniture"@[0] == 'f',
        "furniture"@[1] == 'u',
        "furniture"@[2] == 'r',
        "furniture"@[3] == 'n',
        "furniture"@[4] == 'i',
        "furniture"@[5] == 't',
        "furniture"@[6] == 'u',
        "furniture"@[7] == 'r',
        "furniture"@[8] == 'e',
        no_ws("furniture"@),
{
    reveal_strlit("furniture");
    assert forall|i: int| 0 <= i < "furniture"@.len() implies !is_ws(#[trigger] "furniture"@[i]) by {}
}

/// The characters of the command word `gacha`.
pub(crate) proof fn lemma_word_gacha()
    ensures
        "gacha"@.len() == 5,
        "gacha"@[0] == 'g',
        "gacha"@[1] == 'a',
        "gacha"@[2] == 'c',
        "gacha"@[3] == 'h',
        "gacha"@[4] == 'a',
        no_ws("gacha"@),
{
    reveal_strlit("gacha");
    assert forall|i: int| 0 <= i < "gacha"@.len() implies !is_ws(#[trigger] "gacha"@[i]) by {}
}

/// The characters of the command word `gadget`.
pub(crate) proof fn lemma_word_gadget()
    ensures
        "gadget"@.len() == 6,
        "gadget"@[0] == 'g',
        "gadget"@[1] == 'a',
        "gadget"@[2] == 'd',
        "gadget"@[3] == 'g',
        "gadget"@[4] == 'e',
        "gadget"@[5] == 't',
        no_ws("gadget"@),
{
    reveal_strlit("gadget");
    assert forall|i: int| 0 <= i < "gadget"@.len() implies !is_ws(#[trigger] "gadget"@[i]) by {}
}

/// The characters of the command word `gadget_id`.
pub(crate) proof fn lemma_word_gadget_id()
    ensures
        "gadget_id"@.len() == 9,
        "gadget_id"@[0] == 'g',
        "gadget_id"@[1] == 'a',
        "gadget_id"@[2] == 'd',
        "gadget_id"@[3] == 'g',
        "gadget_id"@[4] == 'e',
        "gadget_id"@[5] == 't',
        "gadget_id"@[6] == '_',
        "gadget_id"@[7] == 'i',
        "gadget_id"@[8] == 'd',
        no_ws("gadget_id"@),
{
    reveal_strlit("gadget_id");
    assert forall|i: int| 0 <= i < "gadget_id"@.len() implies !is_ws(#[trigger] "gadget_id"@[i]) by {}
}

/// The characters of the command word `goto`.
pub(crate) proof fn lemma_word_goto()
    ensures
        "goto"@.len() == 4,
        "goto"@[0] == 'g',
        "goto"@[1] == 'o',
        "goto"@[2] == 't',
        "goto"@[3] == 'o',
        no_ws("goto"@),
{
    reveal_strlit("goto");
    assert forall|i: int| 0 <= i < "goto"@.len() implies !is_ws(#[trigger] "goto"@[i]) by {}
}

/// The characters of the command word `group`.
pub(crate) proof fn lemma_word_group()
    ensures
        "group"@.len() == 5,
        "group"@[0] == 'g',
        "group"@[1] == 'r',
        "group"@[2] == 'o',
        "group"@[3] == 'u',
        "group"@[4] == 'p',
        no_ws("group"@),
{
    reveal_strlit("group");
    assert forall|i: int| 0 <= i < "group"@.len() implies !is_ws(#[trigger] "group"@[i]) by {}
}

/// The characters of the command word `group_suite`.
pub(crate) proof fn lemma_word_group_suite()
    ensures
        "group_suite"@.len() == 11,
        "group_suite"@[0] == 'g',
        "group_suite"@[1] == 'r',
        "group_suite"@[2] == 'o',
        "group_suite"@[3] == 'u',
        "group_suite"@[4] == 'p',
        "group_suite"@[5] == '_',
        "group_suite"@[6] == 's',
        "group_suite"@[7] == 'u',
        "group_suite"@[8] == 'i',
        "group_suite"@[9] == 't',
        "group_suite"@[10] == 'e',
        no_ws("group_suite"@),
{
    reveal_strlit("group_suite");
    assert forall|i: int| 0 <= i < "group_suite"@.len() implies !is_ws(#[trigger] "group_suite"@[i]) by {}
}

/// The characters of the command word `help`.
pub(crate) proof fn lemma_word_help()
    ensures
        "help"@.len() == 4,
        "help"@[0] == 'h',
        "help"@[1] == 'e',
        "help"@[2] == 'l',
        "help"@[3] == 'p',
        no_ws("help"@),
{
    reveal_strlit("help");
    assert forall|i: int| 0 <= i < "help"@.len() implies !is_ws(#[trigger] "help"@[i]) by {}
}

/// The characters of the command word `id`.
pub(crate) proof fn lemma_word_id()
    ensures
        "id"@.len() == 2,
        "id"@[0] == 'i',
        "id"@[1] == 'd',
        no_ws("id"@),
{
    reveal_strlit("id");
    assert forall|i: int| 0 <= i < "id"@.len() implies !is_ws(#[trigger] "id"@[i]) by {}
}

/// The characters of the command word `interact_id`.
pub(crate) proof fn lemma_word_interact_id()
    ensures
        "interact_id"@.len() == 11,
        "interact_id"@[0] == 'i',
        "interact_id"@[1] == 'n',
        "interact_id"@[2] == 't',
        "interact_id"@[3] == 'e',
        "interact_id"@[4] == 'r',
        "interact_id"@[5] == 'a',
        "interact_id"@[6] == 'c',
        "interact_id"@[7] == 't',
        "interact_id"@[8] == '_',
        "interact_id"@[9] == 'i',
        "interact_id"@[10] == 'd',
        no_ws("interact_id"@),
{
    reveal_strlit("interact_id");
    assert forall|i: int| 0 <= i < "interact_id"@.len() implies !is_ws(#[trigger] "interact_id"@[i]) by {}
}

/// The characters of the command word `item`.
pub(crate) proof fn lemma_word_item()
    ensures
        "item"@.len() == 4,
        "item"@[0] == 'i',
        "item"@[1] == 't',
        "item"@[2] == 'e',
        "item"@[3] == 'm',
        no_ws("item"@),
{
    reveal_strlit("item");
    assert forall|i: int| 0 <= i < "item"@.len() implies !is_ws(#[trigger] "item"@[i]) by {}
}

/// The characters of the command word `item_id`.
pub(crate) proof fn lemma_word_item_id()
    ensures
        "item_id"@.len() == 7,
        "item_id"@[0] == 'i',
        "item_id"@[1] == 't',
        "item_id"@[2] == 'e',
        "item_id"@[3] == 'm',
        "item_id"@[4] == '_',
        "item_id"@[5] == 'i',
        "item_id"@[6] == 'd',
        no_ws("item_id"@),
{
    reveal_strlit("item_id");
    assert forall|i: int| 0 <= i < "item_id"@.len() implies !is_ws(#[trigger] "item_id"@[i]) by {}
}

/// The characters of the command word `kill_extra`.
pub(crate) proof fn lemma_word_kill_extra()
    ensures
        "kill_extra"@.len() == 10,
        "kill_extra"@[0] == 'k',
        "kill_extra"@[1] == 'i',
        "kill_extra"@[2] == 'l',
        "kill_extra"@[3] == 'l',
        "kill_extra"@[4] == '_',
        "kill_extra"@[5] == 'e',
        "kill_extra"@[6] == 'x',
        "kill_extra"@[7] == 't',
        "kill_extra"@[8] == 'r',
        "kill_extra"@[9] == 'a',
        no_ws("kill_extra"@),
{
    reveal_strlit("kill_extra");
    assert forall|i: int| 0 <= i < "kill_extra"@.len() implies !is_ws(#[trigger] "kill_extra"@[i]) by {}
}

/// The characters of the command word `level`.
pub(crate) proof fn lemma_word_level()
    ensures
        "level"@.len() == 5,
        "level"@[0] == 'l',
        "level"@[1] == 'e',
        "level"@[2] == 'v',
        "level"@[3] == 'e',
        "level"@[4] == 'l',
        no_ws("level"@),
{
    reveal_strlit("level");
    assert forall|i: int| 0 <= i < "level"@.len() implies !is_ws(#[trigger] "level"@[i]) by {}
}

/// The characters of the command word `list`.
pub(crate) proof fn lemma_word_list()
    ensures
        "list"@.len() == 4,
        "list"@[0] == 'l',
        "list"@[1] == 'i',
        "list"@[2] == 's',
        "list"@[3] == 't',
        no_ws("list"@),
{
    reveal_strlit("list");
    assert forall|i: int| 0 <= i < "list"@.len() implies !is_ws(#[trigger] "list"@[i]) by {}
}

/// The characters of the command word `lv`.
pub(crate) proof fn lemma_word_lv()
    ensures
        "lv"@.len() == 2,
        "lv"@[0] == 'l',
        "lv"@[1] == 'v',
        no_ws("lv"@),
{
    reveal_strlit("lv");
    assert forall|i: int| 0 <= i < "lv"@.len() implies !is_ws(#[trigger] "lv"@[i]) by {}
}

/// The characters of the command word `m`.
pub(crate) proof fn lemma_word_m()
    ensures
        "m"@.len() == 1,
        "m"@[0] == 'm',
        no_ws("m"@),
{
    reveal_strlit("m");
    assert forall|i: int| 0 <= i < "m"@.len() implies !is_ws(#[trigger] "m"@[i]) by {}
}

/// The characters of the command word `material`.
pub(crate) proof fn lemma_word_material()
    ensures
        "material"@.len() == 8,
        "material"@[0] == 'm',
        "material"@[1] == 'a',
        "material"@[2] == 't',
        "material"@[3] == 'e',
        "material"@[4] == 'r',
        "material"@[5] == 'i',
        "material"@[6] == 'a',
        "material"@[7] == 'l',
        no_ws("material"@),
{
    reveal_strlit("material");
    assert forall|i: int| 0 <= i < "material"@.len() implies !is_ws(#[trigger] "material"@[i]) by {}
}

/// The characters of the command word `n`.
pub(crate) proof fn lemma_word_n()
    ensures
        "n"@.len() == 1,
        "n"@[0] == 'n',
        no_ws("n"@),
{
    reveal_strlit("n");
    assert forall|i: int| 0 <= i < "n"@.len() implies !is_ws(#[trigger] "n"@[i]) by {}
}

/// The characters of the command word `num`.
pub(crate) proof fn lemma_word_num()
    ensures
        "num"@.len() == 3,
        "num"@[0] == 'n',
        "num"@[1] == 'u',
        "num"@[2] == 'm',
        no_ws("num"@),
{
    reveal_strlit("num");
    assert forall|i: int| 0 <= i < "num"@.len() implies !is_ws(#[trigger] "num"@[i]) by {}
}

/// The characters of the command word `p`.
pub(crate) proof fn lemma_word_p()
    ensures
        "p"@.len() == 1,
        "p"@[0] == 'p',
        no_ws("p"@),
{
    reveal_strlit("p");
    assert forall|i: int| 0 <= i < "p"@.len() implies !is_ws(#[trigger] "p"@[i]) by {}
}

/// The characters of the command word `pos`.
pub(crate) proof fn lemma_word_pos()
    ensures
        "pos"@.len() == 3,
        "pos"@[0] == 'p',
        "pos"@[1] == 'o',
        "pos"@[2] == 's',
        no_ws("pos"@),
{
    reveal_strlit("pos");
    assert forall|i: int| 0 <= i < "pos"@.len() implies !is_ws(#[trigger] "pos"@[i]) by {}
}

/// The characters of the command word `promote`.
pub(crate) proof fn lemma_word_promote()
    ensures
        "promote"@.len() == 7,
        "promote"@[0] == 'p',
        "promote"@[1] == 'r',
        "promote"@[2] == 'o',
        "promote"@[3] == 'm',
        "promote"@[4] == 'o',
        "promote"@[5] == 't',
        "promote"@[6] == 'e',
        no_ws("promote"@),
{
    reveal_strlit("promote");
    assert forall|i: int| 0 <= i < "promote"@.len() implies !is_ws(#[trigger] "promote"@[i]) by {}
}

/// The characters of the command word `prop`.
pub(crate) proof fn lemma_word_prop()
    ensures
        "prop"@.len() == 4,
        "prop"@[0] == 'p',
        "prop"@[1] == 'r',
        "prop"@[2] == 'o',
        "prop"@[3] == 'p',
        no_ws("prop"@),
{
    reveal_strlit("prop");
    assert forall|i: int| 0 <= i < "prop"@.len() implies !is_ws(#[trigger] "prop"@[i]) by {}
}

/// The characters of the command word `quest`.
pub(crate) proof fn lemma_word_quest()
    ensures
        "quest"@.len() == 5,
        "quest"@[0] == 'q',
        "quest"@[1] == 'u',
        "quest"@[2] == 'e',
        "quest"@[3] == 's',
        "quest"@[4] == 't',
        no_ws("quest"@),
{
    reveal_strlit("quest");
    assert forall|i: int| 0 <= i < "quest"@.len() implies !is_ws(#[trigger] "quest"@[i]) by {}
}

/// The characters of the command word `r`.
pub(crate) proof fn lemma_word_r()
    ensures
        "r"@.len() == 1,
        "r"@[0] == 'r',
        no_ws("r"@),
{
    reveal_strlit("r");
    assert forall|i: int| 0 <= i < "r"@.len() implies !is_ws(#[trigger] "r"@[i]) by {}
}

/// The characters of the command word `refresh`.
pub(crate) proof fn lemma_word_refresh()
    ensures
        "refresh"@.len() == 7,
        "refresh"@[0] == 'r',
        "refresh"@[1] == 'e',
        "refresh"@[2] == 'f',
        "refresh"@[3] == 'r',
        "refresh"@[4] == 'e',
        "refresh"@[5] == 's',
        "refresh"@[6] == 'h',
        no_ws("refresh"@),
{
    reveal_strlit("refresh");
    assert forall|i: int| 0 <= i < "refresh"@.len() implies !is_ws(#[trigger] "refresh"@[i]) by {}
}

/// The characters of the command word `reload`.
pub(crate) proof fn lemma_word_reload()
    ensures
        "reload"@.len() == 6,
        "reload"@[0] == 'r',
        "reload"@[1] == 'e',
        "reload"@[2] == 'l',
        "reload"@[3] == 'o',
        "reload"@[4] == 'a',
        "reload"@[5] == 'd',
        no_ws("reload"@),
{
    reveal_strlit("reload");
    assert forall|i: int| 0 <= i < "reload"@.len() implies !is_ws(#[trigger] "reload"@[i]) by {}
}

/// The characters of the command word `remove`.
pub(crate) proof fn lemma_word_remove()
    ensures
        "remove"@.len() == 6,
        "remove"@[0] == 'r',
        "remove"@[1] == 'e',
        "remove"@[2] == 'm',
        "remove"@[3] == 'o',
        "remove"@[4] == 'v',
        "remove"@[5] == 'e',
        no_ws("remove"@),
{
    reveal_strlit("remove");
    assert forall|i: int| 0 <= i < "remove"@.len() implies !is_ws(#[trigger] "remove"@[i]) by {}
}

/// The characters of the command word `remove_extra`.
pub(crate) proof fn lemma_word_remove_extra()
    ensures
        "remove_extra"@.len() == 12,
        "remove_extra"@[0] == 'r',
        "remove_extra"@[1] == 'e',
        "remove_extra"@[2] == 'm',
        "remove_extra"@[3] == 'o',
        "remove_extra"@[4] == 'v',
        "remove_extra"@[5] == 'e',
        "remove_extra"@[6] == '_',
        "remove_extra"@[7] == 'e',
        "remove_extra"@[8] == 'x',
        "remove_extra"@[9] == 't',
        "remove_extra"@[10] == 'r',
        "remove_extra"@[11] == 'a',
        no_ws("remove_extra"@),
{
    reveal_strlit("remove_extra");
    assert forall|i: int| 0 <= i < "remove_extra"@.len() implies !is_ws(#[trigger] "remove_extra"@[i]) by {}
}

/// The characters of the command word `rename`.
pub(crate) proof fn lemma_word_rename()
    ensures
        "rename"@.len() == 6,
        "rename"@[0] == 'r',
        "rename"@[1] == 'e',
        "rename"@[2] == 'n',
        "rename"@[3] == 'a',
        "rename"@[4] == 'm',
        "rename"@[5] == 'e',
        no_ws("rename"@),
{
    reveal_strlit("rename");
    assert forall|i: int| 0 <= i < "rename"@.len() implies !is_ws(#[trigger] "rename"@[i]) by {}
}

/// The characters of the command word `restart`.
pub(crate) proof fn lemma_word_restart()
    ensures
        "restart"@.len() == 7,
        "restart"@[0] == 'r',
        "restart"@[1] == 'e',
        "restart"@[2] == 's',
        "restart"@[3] == 't',
        "restart"@[4] == 'a',
        "restart"@[5] == 'r',
        "restart"@[6] == 't',
        no_ws("restart"@),
{
    reveal_strlit("restart");
    assert forall|i: int| 0 <= i < "restart"@.len() implies !is_ws(#[trigger] "restart"@[i]) by {}
}

/// The characters of the command word `restart_all`.
pub(crate) proof fn lemma_word_restart_all()
    ensures
        "restart_all"@.len() == 11,
        "restart_all"@[0] == 'r',
        "restart_all"@[1] == 'e',
        "restart_all"@[2] == 's',
        "restart_all"@[3] == 't',
        "restart_all"@[4] == 'a',
        "restart_all"@[5] == 'r',
        "restart_all"@[6] == 't',
        "restart_all"@[7] == '_',
        "restart_all"@[8] == 'a',
        "restart_all"@[9] == 'l',
        "restart_all"@[10] == 'l',
        no_ws("restart_all"@),
{
    reveal_strlit("restart_all");
    assert forall|i: int| 0 <= i < "restart_all"@.len() implies !is_ws(#[trigger] "restart_all"@[i]) by {}
}

/// The characters of the command word `send_packet`.
pub(crate) proof fn lemma_word_send_packet()
    ensures
        "send_packet"@.len() == 11,
        "send_packet"@[0] == 's',
        "send_packet"@[1] == 'e',
        "send_packet"@[2] == 'n',
        "send_packet"@[3] == 'd',
        "send_packet"@[4] == '_',
        "send_packet"@[5] == 'p',
        "send_packet"@[6] == 'a',
        "send_packet"@[7] == 'c',
        "send_packet"@[8] == 'k',
        "send_packet"@[9] == 'e',
        "send_packet"@[10] == 't',
        no_ws("send_packet"@),
{
    reveal_strlit("send_packet");
    assert forall|i: int| 0 <= i < "send_packet"@.len() implies !is_ws(#[trigger] "send_packet"@[i]) by {}
}

/// The characters of the command word `set_state_by_entity_id`.
pub(crate) proof fn lemma_word_set_state_by_entity_id()
    ensures
        "set_state_by_entity_id"@.len() == 22,
        "set_state_by_entity_id"@[0] == 's',
        "set_state_by_entity_id"@[1] == 'e',
        "set_state_by_entity_id"@[2] == 't',
        "set_state_by_entity_id"@[3] == '_',
        "set_state_by_entity_id"@[4] == 's',
        "set_state_by_entity_id"@[5] == 't',
        "set_state_by_entity_id"@[6] == 'a',
        "set_state_by_entity_id"@[7] == 't',
        "set_state_by_entity_id"@[8] == 'e',
        "set_state_by_entity_id"@[9] == '_',
        "set_state_by_entity_id"@[10] == 'b',
        "set_state_by_entity_id"@[11] == 'y',
        "set_state_by_entity_id"@[12] == '_',
        "set_state_by_entity_id"@[13] == 'e',
        "set_state_by_entity_id"@[14] == 'n',
        "set_state_by_entity_id"@[15] == 't',
        "set_state_by_entity_id"@[16] == 'i',
        "set_state_by_entity_id"@[17] == 't',
        "set_state_by_entity_id"@[18] == 'y',
        "set_state_by_entity_id"@[19] == '_',
        "set_state_by_entity_id"@[20] == 'i',
        "set_state_by_entity_id"@[21] == 'd',
        no_ws("set_state_by_entity_id"@),
{
    reveal_strlit("set_state_by_entity_id");
    assert forall|i: int| 0 <= i < "set_state_by_entity_id"@.len() implies !is_ws(#[trigger] "set_state_by_entity_id"@[i]) by {}
}

/// The characters of the command word `skill`.
pub(crate) proof fn lemma_word_skill()
    ensures
        "skill"@.len() == 5,
        "skill"@[0] == 's',
        "skill"@[1] == 'k',
        "skill"@[2] == 'i',
        "skill"@[3] == 'l',
        "skill"@[4] == 'l',
        no_ws("skill"@),
{
    reveal_strlit("skill");
    assert forall|i: int| 0 <= i < "skill"@.len() implies !is_ws(#[trigger] "skill"@[i]) by {}
}

/// The characters of the command word `state`.
pub(crate) proof fn lemma_word_state()
    ensures
        "state"@.len() == 5,
        "state"@[0] == 's',
        "state"@[1] == 't',
        "state"@[2] == 'a',
        "state"@[3] == 't',
        "state"@[4] == 'e',
        no_ws("state"@),
{
    reveal_strlit("state");
    assert forall|i: int| 0 <= i < "state"@.len() implies !is_ws(#[trigger] "state"@[i]) by {}
}

/// The characters of the command word `tp`.
pub(crate) proof fn lemma_word_tp()
    ensures
        "tp"@.len() == 2,
        "tp"@[0] == 't',
        "tp"@[1] == 'p',
        no_ws("tp"@),
{
    reveal_strlit("tp");
    assert forall|i: int| 0 <= i < "tp"@.len() implies !is_ws(#[trigger] "tp"@[i]) by {}
}

/// The characters of the command word `unload`.
pub(crate) proof fn lemma_word_unload()
    ensures
        "unload"@.len() == 6,
        "unload"@[0] == 'u',
        "unload"@[1] == 'n',
        "unload"@[2] == 'l',
        "unload"@[3] == 'o',
        "unload"@[4] == 'a',
        "unload"@[5] == 'd',
        no_ws("unload"@),
{
    reveal_strlit("unload");
    assert forall|i: int| 0 <= i < "unload"@.len() implies !is_ws(#[trigger] "unload"@[i]) by {}
}

/// The characters of the command word `var`.
pub(crate) proof fn lemma_word_var()
    ensures
        "var"@.len() == 3,
        "var"@[0] == 'v',
        "var"@[1] == 'a',
        "var"@[2] == 'r',
        no_ws("var"@),
{
    reveal_strlit("var");
    assert forall|i: int| 0 <= i < "var"@.len() implies !is_ws(#[trigger] "var"@[i]) by {}
}

/// The characters of the command word `weapon`.
pub(crate) proof fn lemma_word_weapon()
    ensures
        "weapon"@.len() == 6,
        "weapon"@[0] == 'w',
        "weapon"@[1] == 'e',
        "weapon"@[2] == 'a',
        "weapon"@[3] == 'p',
        "weapon"@[4] == 'o',
        "weapon"@[5] == 'n',
        no_ws("weapon"@),
{
    reveal_strlit("weapon");
    assert forall|i: int| 0 <= i < "weapon"@.len() implies !is_ws(#[trigger] "weapon"@[i]) by {}
}

/// The characters of the command word `weather`.
pub(crate) proof fn lemma_word_weather()
    ensures
        "weather"@.len() == 7,
        "weather"@[0] == 'w',
        "weather"@[1] == 'e',
        "weather"@[2] == 'a',
        "weather"@[3] == 't',
        "weather"@[4] == 'h',
        "weather"@[5] == 'e',
        "weather"@[6] == 'r',
        no_ws("weather"@),
{
    reveal_strlit("weather");
    assert forall|i: int| 0 <= i < "weather"@.len() implies !is_ws(#[trigger] "weather"@[i]) by {}
}

/// The characters of the command word `x`.
pub(crate) proof fn lemma_word_x()
    ensures
        "x"@.len() == 1,
        "x"@[0] == 'x',
        no_ws("x"@),
{
    reveal_strlit("x");
    assert forall|i: int| 0 <= i < "x"@.len() implies !is_ws(#[trigger] "x"@[i]) by {}
}

/// The characters of the command word `y`.
pub(crate) proof fn lemma_word_y()
    ensures
        "y"@.len() == 1,
        "y"@[0] == 'y',
        no_ws("y"@),
{
    reveal_strlit("y");
    assert forall|i: int| 0 <= i < "y"@.len() implies !is_ws(#[trigger] "y"@[i]) by {}
}

/// The characters of the command word `z`.
pub(crate) proof fn lemma_word_z()
    ensures
        "z"@.len() == 1,
        "z"@[0] == 'z',
        no_ws("z"@),
{
    reveal_strlit("z");
    assert forall|i: int| 0 <= i < "z"@.len() implies !is_ws(#[trigger] "z"@[i]) by {}
}

/// The group and command words of help entry 0, `avatar add <avatar_id>`.
proof fn lemma_entry_0()
    ensures
        help_table()[0].group@ == "avatar"@,
        words(help_table()[0].usage@).len() > 0,
        words(help_table()[0].usage@)[0] == "avatar"@,
        command_path(help_table()[0]) == seq!["avatar"@, "add"@],
{
    lemma_word_avatar();
    lemma_word_add();
    reveal_strlit("avatar add <avatar_id>");
    let u = "avatar add <avatar_id>"@;
    let r = u.skip(11);
    assert(r.len() > 0 && r[0] == '<');
    assert(u =~= "avatar"@ + seq![' '] + ("add"@ + seq![' '] + r));
    lemma_words_cons("avatar"@, "add"@ + seq![' '] + r);
    lemma_words_cons("add"@, r);
    lemma_words_first(r);
    lemma_command_words_stop(words(r));
    lemma_command_words_cons("add"@, words(r));
    lemma_command_words_cons("avatar"@, seq!["add"@] + (words(r)));
    assert(words(u) == seq!["avatar"@] + (seq!["add"@] + (words(r))));
    assert(leading_command_words(words(u)) =~= seq!["avatar"@, "add"@]);
}

/// The command words of help entry 0 are recognised.
proof fn lemma_entry_parses_0()
    ensures
        !is_unknown_command(parse_words_spec(command_path(help_table()[0]))),
{
    lemma_entry_0();
    lemma_dispatch_words();
    lemma_message_starts();
    let r = parse_words_spec(seq!["avatar"@, "add"@]);
    if r is Err {
        lemma_not_unknown(r->Err_0);
    }
}

/// The group and command words of help entry 1, `avatar remove <avatar_id>`.
proof fn lemma_entry_1()
    ensures
        help_table()[1].group@ == "avatar"@,
        words(help_table()[1].usage@).len() > 0,
        words(help_table()[1].usage@)[0] == "avatar"@,
        command_path(help_table()[1]) == seq!["avatar"@, "remove"@],
{
    lemma_word_avatar();
    lemma_word_remove();
    reveal_strlit("avatar remove <avatar_id>");
    let u = "avatar remove <avatar_id>"@;
    let r = u.skip(14);
    assert(r.len() > 0 && r[0] == '<');
    assert(u =~= "avatar"@ + seq![' '] + ("remove"@ + seq![' '] + r));
    lemma_words_cons("avatar"@, "remove"@ + seq![' '] + r);
    lemma_words_cons("remove"@, r);
    lemma_words_first(r);
    lemma_command_words_stop(words(r));
    lemma_command_words_cons("remove"@, words(r));
    lemma_command_words_cons("avatar"@, seq!["remove"@] + (words(r)));
    assert(words(u) == seq!["avatar"@] + (seq!["remove"@] + (words(r))));
    assert(leading_command_words(words(u)) =~= seq!["avatar"@, "remove"@]);
}

/// The command words of help entry 1 are recognised.
proof fn lemma_entry_parses_1()
    ensures
        !is_unknown_command(parse_words_spec(command_path(help_table()[1]))),
{
    lemma_entry_1();
    lemma_dispatch_words();
    lemma_message_starts();
    let r = parse_words_spec(seq!["avatar"@, "remove"@]);
    if r is Err {
        lemma_not_unknown(r->Err_0);
    }
}

/// The group and command words of help entry 2, `avatar rename <avatar_id> <new_name>`.
proof fn lemma_entry_2()
    ensures
        help_table()[2].group@ == "avatar"@,
        words(help_table()[2].usage@).len() > 0,
        words(help_table()[2].usage@)[0] == "avatar"@,
        command_path(help_table()[2]) == seq!["avatar"@, "rename"@],
{
    lemma_word_avatar();
    lemma_word_rename();
    reveal_strlit("avatar rename <avatar_id> <new_name>");
    let u = "avatar rename <avatar_id> <new_name>"@;
    let r = u.skip(14);
    assert(r.len() > 0 && r[0] == '<');
    assert(u =~= "avatar"@ + seq![' '] + ("rename"@ + seq![' '] + r));
    lemma_words_cons("avatar"@, "rename"@ + seq![' '] + r);
    lemma_words_cons("rename"@, r);
    lemma_words_first(r);
    lemma_command_words_stop(words(r));
    lemma_command_words_cons("rename"@, words(r));
    lemma_command_words_cons("avatar"@, seq!["rename"@] + (words(r)));
    assert(words(u) == seq!["avatar"@] + (seq!["rename"@] + (words(r))));
    assert(leading_command_words(words(u)) =~= seq!["avatar"@, "rename"@]);
}

/// The command words of help entry 2 are recognised.
proof fn lemma_entry_parses_2()
    ensures
        !is_unknown_command(parse_words_spec(command_path(help_table()[2]))),
{
    lemma_entry_2();
    lemma_dispatch_words();
    lemma_message_starts();
    let r = parse_words_spec(seq!["avatar"@, "rename"@]);
    if r is Err {
        lemma_not_unknown(r->Err_0);
    }
}

/// The group and command words of help entry 3, `avatar level <level>`.
proof fn lemma_entry_3()
    ensures
        help_table()[3].group@ == "avatar"@,
        words(help_table()[3].usage@).len() > 0,
        words(help_table()[3].usage@)[0] == "avatar"@,
        command_path(help_table()[3]) == seq!["avatar"@, "level"@],
{
    lemma_word_avatar();
    lemma_word_level();
    reveal_strlit("avatar level <level>");
    let u = "avatar level <level>"@;
    let r = u.skip(13);
    assert(r.len() > 0 && r[0] == '<');
    assert(u =~= "avatar"@ + seq![' '] + ("level"@ + seq![' '] + r));
    lemma_words_cons("avatar"@, "level"@ + seq![' '] + r);
    lemma_words_cons("level"@, r);
    lemma_words_first(r);
    lemma_command_words_stop(words(r));
    lemma_command_words_cons("level"@, words(r));
    lemma_command_words_cons("avatar"@, seq!["level"@] + (words(r)));
    assert(words(u) == seq!["avatar"@] + (seq!["level"@] + (words(r))));
    assert(leading_command_words(words(u)) =~= seq!["avatar"@, "level"@]);
}

/// The command words of help entry 3 are recognised.
proof fn lemma_entry_parses_3()
    ensures
        !is_unknown_command(parse_words_spec(command_path(help_table()[3]))),
{
    lemma_entry_3();
    lemma_dispatch_words();
    lemma_message_starts();
    let r = parse_words_spec(seq!["avatar"@, "level"@]);
    if r is Err {
        lemma_not_unknown(r->Err_0);
    }
}

/// The group and command words of help entry 4, `avatar break <break_level>`.
proof fn lemma_entry_4()
    ensures
        help_table()[4].group@ == "avatar"@,
        words(help_table()[4].usage@).len() > 0,
        words(help_table()[4].usage@)[0] == "avatar"@,
        command_path(help_table()[4]) == seq!["avatar"@, "break"@],
{
    lemma_word_avatar();
    lemma_word_break();
    reveal_strlit("avatar break <break_level>");
    let u = "avatar break <break_level>"@;
    let r = u.skip(13);
    assert(r.len() > 0 && r[0] == '<');
    assert(u =~= "avatar"@ + seq![' '] + ("break"@ + seq![' '] + r));
    lemma_words_cons("avatar"@, "break"@ + seq![' '] + r);
    lemma_words_cons("break"@, r);
    lemma_words_first(r);
    lemma_command_words_stop(words(r));
    lemma_command_words_cons("break"@, words(r));
    lemma_command_words_cons("avatar"@, seq!["break"@] + (words(r)));
    assert(words(u) == seq!["avatar"@] + (seq!["break"@] + (words(r))));
    assert(leading_command_words(words(u)) =~= seq!["avatar"@, "break"@]);
}

/// The command words of help entry 4 are recognised.
proof fn lemma_entry_parses_4()
    ensures
        !is_unknown_command(parse_words_spec(command_path(help_table()[4]))),
{
    lemma_entry_4();
    lemma_dispatch_words();
    lemma_message_starts();
    let r = parse_words_spec(seq!["avatar"@, "break"@]);
    if r is Err {
        lemma_not_unknown(r->Err_0);
    }
}

/// The group and command words of help entry 5, `avatar add_talent <talent_id>`.
proof fn lemma_entry_5()
    ensures
        help_table()[5].group@ == "avatar"@,
        words(help_table()[5].usage@).len() > 0,
        words(help_table()[5].usage@)[0] == "avatar"@,
        command_path(help_table()[5]) == seq!["avatar"@, "add_talent"@],
{
    lemma_word_avatar();
    lemma_word_add_talent();
    reveal_strlit("avatar add_talent <talent_id>");
    let u = "avatar add_talent <talent_id>"@;
    let r = u.skip(18);
    assert(r.len() > 0 && r[0] == '<');
    assert(u =~= "avatar"@ + seq![' '] + ("add_talent"@ + seq![' '] + r));
    lemma_words_cons("avatar"@, "add_talent"@ + seq![' '] + r);
    lemma_words_cons("add_talent"@, r);
    lemma_words_first(r);
    lemma_command_words_stop(words(r));
    lemma_command_words_cons("add_talent"@, words(r));
    lemma_command_words_cons("avatar"@, seq!["add_talent"@] + (words(r)));
    assert(words(u) == seq!["avatar"@] + (seq!["add_talent"@] + (words(r))));
    assert(leading_command_words(words(u)) =~= seq!["avatar"@, "add_talent"@]);
}

/// The command words of help entry 5 are recognised.
proof fn lemma_entry_parses_5()
    ensures
        !is_unknown_command(parse_words_spec(command_path(help_table()[5]))),
{
    lemma_entry_5();
    lemma_dispatch_words();
    lemma_message_starts();
    let r = parse_words_spec(seq!["avatar"@, "add_talent"@]);
    if r is Err {
        lemma_not_unknown(r->Err_0);
    }
}

/// The group and command words of help entry 6, `avatar skill <skill_id> <level>`.
proof fn lemma_entry_6()
    ensures
        help_table()[6].group@ == "avatar"@,
        words(help_table()[6].usage@).len() > 0,
        words(help_table()[6].usage@)[0] == "avatar"@,
        command_path(help_table()[6]) == seq!["avatar"@, "skill"@],
{
    lemma_word_avatar();
    lemma_word_skill();
    reveal_strlit("avatar skill <skill_id> <level>");
    let u = "avatar skill <skill_id> <level>"@;
    let r = u.skip(13);
    assert(r.len() > 0 && r[0] == '<');
    assert(u =~= "avatar"@ + seq![' '] + ("skill"@ + seq![' '] + r));
    lemma_words_cons("avatar"@, "skill"@ + seq![' '] + r);
    lemma_words_cons("skill"@, r);
    lemma_words_first(r);
    lemma_command_words_stop(words(r));
    lemma_command_words_cons("skill"@, words(r));
    lemma_command_words_cons("avatar"@, seq!["skill"@] + (words(r)));
    assert(words(u) == seq!["avatar"@] + (seq!["skill"@] + (words(r))));
    assert(leading_command_words(words(u)) =~= seq!["avatar"@, "skill"@]);
}

/// The command words of help entry 6 are recognised.
proof fn lemma_entry_parses_6()
    ensures
        !is_unknown_command(parse_words_spec(command_path(help_table()[6]))),
{
    lemma_entry_6();
    lemma_dispatch_words();
    lemma_message_starts();
    let r = parse_words_spec(seq!["avatar"@, "skill"@]);
    if r is Err {
        lemma_not_unknown(r->Err_0);
    }
}

/// The group and command words of help entry 7, `avatar elem <element_type>`.
proof fn lemma_entry_7()
    ensures
        help_table()[7].group@ == "avatar"@,
        words(help_table()[7].usage@).len() > 0,
        words(help_table()[7].usage@)[0] == "avatar"@,
        command_path(help_table()[7]) == seq!["avatar"@, "elem"@],
{
    lemma_word_avatar();
    lemma_word_elem();
    reveal_strlit("avatar elem <element_type>");
    let u = "avatar elem <element_type>"@;
    let r = u.skip(12);
    assert(r.len() > 0 && r[0] == '<');
    assert(u =~= "avatar"@ + seq![' '] + ("elem"@ + seq![' '] + r));
    lemma_words_cons("avatar"@, "elem"@ + seq![' '] + r);
    lemma_words_cons("elem"@, r);
    lemma_words_first(r);
    lemma_command_words_stop(words(r));
    lemma_command_words_cons("elem"@, words(r));
    lemma_command_words_cons("avatar"@, seq!["elem"@] + (words(r)));
    assert(words(u) == seq!["avatar"@] + (seq!["elem"@] + (words(r))));
    assert(leading_command_words(words(u)) =~= seq!["avatar"@, "elem"@]);
}

/// The command words of help entry 7 are recognised.
proof fn lemma_entry_parses_7()
    ensures
        !is_unknown_command(parse_words_spec(command_path(help_table()[7]))),
{
    lemma_entry_7();
    lemma_dispatch_words();
    lemma_message_starts();
    let r = parse_words_spec(seq!["avatar"@, "elem"@]);
    if r is Err {
        lemma_not_unknown(r->Err_0);
    }
}

/// The group and command words of help entry 8, `avatar fight_prop <key> <value>`.
proof fn lemma_entry_8()
    ensures
        help_table()[8].group@ == "avatar"@,
        words(help_table()[8].usage@).len() > 0,
        words(help_table()[8].usage@)[0] == "avatar"@,
        command_path(help_table()[8]) == seq!["avatar"@, "fight_prop"@],
{
    lemma_word_avatar();
    lemma_word_fight_prop();
    reveal_strlit("avatar fight_prop <key> <value>");
    let u = "avatar fight_prop <key> <value>"@;
    let r = u.skip(18);
    assert(r.len() > 0 && r[0] == '<');
    assert(u =~= "avatar"@ + seq![' '] + ("fight_prop"@ + seq![' '] + r));
    lemma_words_cons("avatar"@, "fight_prop"@ + seq![' '] + r);
    lemma_words_cons("fight_prop"@, r);
    lemma_words_first(r);
    lemma_command_words_stop(words(r));
    lemma_command_words_cons("fight_prop"@, words(r));
    lemma_command_words_cons("avatar"@, seq!["fight_prop"@] + (words(r)));
    assert(words(u) == seq!["avatar"@] + (seq!["fight_prop"@] + (words(r))));
    assert(leading_command_words(words(u)) =~= seq!["avatar"@, "fight_prop"@]);
}

/// The command words of help entry 8 are recognised.
proof fn lemma_entry_parses_8()
    ensures
        !is_unknown_command(parse_words_spec(command_path(help_table()[8]))),
{
    lemma_entry_8();
    lemma_dispatch_words();
    lemma_message_starts();
    let r = parse_words_spec(seq!["avatar"@, "fight_prop"@]);
    if r is Err {
        lemma_not_unknown(r->Err_0);
    }
}

/// The group and command words of help entry 9, `buff add <buff_id> [level <num>]`.
proof fn lemma_entry_9()
    ensures
        help_table()[9].group@ == "buff"@,
        words(help_table()[9].usage@).len() > 0,
        words(help_table()[9].usage@)[0] == "buff"@,
        command_path(help_table()[9]) == seq!["buff"@, "add"@],
{
    lemma_word_buff();
    lemma_word_add();
    reveal_strlit("buff add <buff_id> [level <num>]");
    let u = "buff add <buff_id> [level <num>]"@;
    let r = u.skip(9);
    assert(r.len() > 0 && r[0] == '<');
    assert(u =~= "buff"@ + seq![' '] + ("add"@ + seq![' '] + r));
    lemma_words_cons("buff"@, "add"@ + seq![' '] + r);
    lemma_words_cons("add"@, r);
    lemma_words_first(r);
    lemma_command_words_stop(words(r));
    lemma_command_words_cons("add"@, words(r));
    lemma_command_words_cons("buff"@, seq!["add"@] + (words(r)));
    assert(words(u) == seq!["buff"@] + (seq!["add"@] + (words(r))));
    assert(leading_command_words(words(u)) =~= seq!["buff"@, "add"@]);
}

/// The command words of help entry 9 are recognised.
proof fn lemma_entry_parses_9()
    ensures
        !is_unknown_command(parse_words_spec(command_path(help_table()[9]))),
{
    lemma_entry_9();
    lemma_dispatch_words();
    lemma_message_starts();
    let r = parse_words_spec(seq!["buff"@, "add"@]);
    if r is Err {
        lemma_not_unknown(r->Err_0);
    }
}

/// The group and command words of help entry 10, `buff clear`.
proof fn lemma_entry_10()
    ensures
        help_table()[10].group@ == "buff"@,
        words(help_table()[10].usage@).len() > 0,
        words(help_table()[10].usage@)[0] == "buff"@,
        command_path(help_table()[10]) == seq!["buff"@, "clear"@],
{
    lemma_word_buff();
    lemma_word_clear();
    reveal_strlit("buff clear");
    let u = "buff clear"@;
    assert(u =~= "buff"@ + seq![' '] + ("clear"@));
    lemma_words_cons("buff"@, "clear"@);
    lemma_words_single("clear"@);
    lemma_command_words_empty();
    lemma_command_words_cons("clear"@, Seq::<Seq<char>>::empty());
    lemma_command_words_cons("buff"@, seq!["clear"@] + (Seq::<Seq<char>>::empty()));
    assert(words(u) == seq!["buff"@] + (seq!["clear"@] + (Seq::<Seq<char>>::empty())));
    assert(leading_command_words(words(u)) =~= seq!["buff"@, "clear"@]);
}

/// The command words of help entry 10 are recognised.
proof fn lemma_entry_parses_10()
    ensures
        !is_unknown_command(parse_words_spec(command_path(help_table()[10]))),
{
    lemma_entry_10();
    lemma_dispatch_words();
    lemma_message_starts();
    let r = parse_words_spec(seq!["buff"@, "clear"@]);
    if r is Err {
        lemma_not_unknown(r->Err_0);
    }
}

/// The group and command words of help entry 11, `buff list`.
proof fn lemma_entry_11()
    ensures
        help_table()[11].group@ == "buff"@,
        words(help_table()[11].usage@).len() > 0,
        words(help_table()[11].usage@)[0] == "buff"@,
        command_path(help_table()[11]) == seq!["buff"@, "list"@],
{
    lemma_word_buff();
    lemma_word_list();
    reveal_strlit("buff list");
    let u = "buff list"@;
    assert(u =~= "buff"@ + seq![' '] + ("list"@));
    lemma_words_cons("buff"@, "list"@);
    lemma_words_single("list"@);
    lemma_command_words_empty();
    lemma_command_words_cons("list"@, Seq::<Seq<char>>::empty());
    lemma_command_words_cons("buff"@, seq!["list"@] + (Seq::<Seq<char>>::empty()));
    assert(words(u) == seq!["buff"@] + (seq!["list"@] + (Seq::<Seq<char>>::empty())));
    assert(leading_command_words(words(u)) =~= seq!["buff"@, "list"@]);
}

/// The command words of help entry 11 are recognised.
proof fn lemma_entry_parses_11()
    ensures
        !is_unknown_command(parse_words_spec(command_path(help_table()[11]))),
{
    lemma_entry_11();
    lemma_dispatch_words();
    lemma_message_starts();
    let r = parse_words_spec(seq!["buff"@, "list"@]);
    if r is Err {
        lemma_not_unknown(r->Err_0);
    }
}

/// The group and command words of help entry 12, `item add <item_id> [n <num>] [lv <num>] [r <num>] [m <num>] [p k,v;k,v]`.
proof fn lemma_entry_12()
    ensures
        help_table()[12].group@ == "item"@,
        words(help_table()[12].usage@).len() > 0,
        words(help_table()[12].usage@)[0] == "item"@,
        command_path(help_table()[12]) == seq!["item"@, "add"@],
{
    lemma_word_item();
    lemma_word_add();
    reveal_strlit("item add <item_id> [n <num>] [lv <num>] [r <num>] [m <num>] [p k,v;k,v]");
    let u = "item add <item_id> [n <num>] [lv <num>] [r <num>] [m <num>] [p k,v;k,v]"@;
    let r = u.skip(9);
    assert(r.len() > 0 && r[0] == '<');
    assert(u =~= "item"@ + seq![' '] + ("add"@ + seq![' '] + r));
    lemma_words_cons("item"@, "add"@ + seq![' '] + r);
    lemma_words_cons("add"@, r);
    lemma_words_first(r);
    lemma_command_words_stop(words(r));
    lemma_command_words_cons("add"@, words(r));
    lemma_command_words_cons("item"@, seq!["add"@] + (words(r)));
    assert(words(u) == seq!["item"@] + (seq!["add"@] + (words(r))));
    assert(leading_command_words(words(u)) =~= seq!["item"@, "add"@]);
}

/// The command words of help entry 12 are recognised.
proof fn lemma_entry_parses_12()
    ensures
        !is_unknown_command(parse_words_spec(command_path(help_table()[12]))),
{
    lemma_entry_12();
    lemma_dispatch_words();
    lemma_message_starts();
    let r = parse_words_spec(seq!["item"@, "add"@]);
    if r is Err {
        lemma_not_unknown(r->Err_0);
    }
}

/// The group and command words of help entry 13, `item add material [max_count]`.
proof fn lemma_entry_13()
    ensures
        help_table()[13].group@ == "item"@,
        words(help_table()[13].usage@).len() > 0,
        words(help_table()[13].usage@)[0] == "item"@,
        command_path(help_table()[13]) == seq!["item"@, "add"@, "material"@],
{
    lemma_word_item();
    lemma_word_add();
    lemma_word_material();
    reveal_strlit("item add material [max_count]");
    let u = "item add material [max_count]"@;
    let r = u.skip(18);
    assert(r.len() > 0 && r[0] == '[');
    assert(u =~= "item"@ + seq![' '] + ("add"@ + seq![' '] + ("material"@ + seq![' '] + r)));
    lemma_words_cons("item"@, "add"@ + seq![' '] + ("material"@ + seq![' '] + r));
    lemma_words_cons("add"@, "material"@ + seq![' '] + r);
    lemma_words_cons("material"@, r);
    lemma_words_first(r);
    lemma_command_words_stop(words(r));
    lemma_command_words_cons("material"@, words(r));
    lemma_command_words_cons("add"@, seq!["material"@] + (words(r)));
    lemma_command_words_cons("item"@, seq!["add"@] + (seq!["material"@] + (words(r))));
    assert(words(u) == seq!["item"@] + (seq!["add"@] + (seq!["material"@] + (words(r)))));
    assert(leading_command_words(words(u)) =~= seq!["item"@, "add"@, "material"@]);
}

/// The command words of help entry 13 are recognised.
proof fn lemma_entry_parses_13()
    ensures
        !is_unknown_command(parse_words_spec(command_path(help_table()[13]))),
{
    lemma_entry_13();
    lemma_dispatch_words();
    lemma_message_starts();
    let r = parse_words_spec(seq!["item"@, "add"@, "material"@]);
    if r is Err {
        lemma_not_unknown(r->Err_0);
    }
}

/// The group and command words of help entry 14, `item add furniture [max_count]`.
proof fn lemma_entry_14()
    ensures
        help_table()[14].group@ == "item"@,
        words(help_table()[14].usage@).len() > 0,
        words(help_table()[14].usage@)[0] == "item"@,
        command_path(help_table()[14]) == seq!["item"@, "add"@, "furniture"@],
{
    lemma_word_item();
    lemma_word_add();
    lemma_word_furniture();
    reveal_strlit("item add furniture [max_count]");
    let u = "item add furniture [max_count]"@;
    let r = u.skip(19);
    assert(r.len() > 0 && r[0] == '[');
    assert(u =~= "item"@ + seq![' '] + ("add"@ + seq![' '] + ("furniture"@ + seq![' '] + r)));
    lemma_words_cons("item"@, "add"@ + seq![' '] + ("furniture"@ + seq![' '] + r));
    lemma_words_cons("add"@, "furniture"@ + seq![' '] + r);
    lemma_words_cons("furniture"@, r);
    lemma_words_first(r);
    lemma_command_words_stop(words(r));
    lemma_command_words_cons("furniture"@, words(r));
    lemma_command_words_cons("add"@, seq!["furniture"@] + (words(r)));
    lemma_command_words_cons("item"@, seq!["add"@] + (seq!["furniture"@] + (words(r))));
    assert(words(u) == seq!["item"@] + (seq!["add"@] + (seq!["furniture"@] + (words(r)))));
    assert(leading_command_words(words(u)) =~= seq!["item"@, "add"@, "furniture"@]);
}

/// The command words of help entry 14 are recognised.
proof fn lemma_entry_parses_14()
    ensures
        !is_unknown_command(parse_words_spec(command_path(help_table()[14]))),
{
    lemma_entry_14();
    lemma_dispatch_words();
    lemma_message_starts();
    let r = parse_words_spec(seq!["item"@, "add"@, "furniture"@]);
    if r is Err {
        lemma_not_unknown(r->Err_0);
    }
}

/// The group and command words of help entry 15, `item add weapon`.
proof fn lemma_entry_15()
    ensures
        help_table()[15].group@ == "item"@,
        words(help_table()[15].usage@).len() > 0,
        words(help_table()[15].usage@)[0] == "item"@,
        command_path(help_table()[15]) == seq!["item"@, "add"@, "weapon"@],
{
    lemma_word_item();
    lemma_word_add();
    lemma_word_weapon();
    reveal_strlit("item add weapon");
    let u = "item add weapon"@;
    assert(u =~= "item"@ + seq![' '] + ("add"@ + seq![' '] + ("weapon"@)));
    lemma_words_cons("item"@, "add"@ + seq![' '] + ("weapon"@));
    lemma_words_cons("add"@, "weapon"@);
    lemma_words_single("weapon"@);
    lemma_command_words_empty();
    lemma_command_words_cons("weapon"@, Seq::<Seq<char>>::empty());
    lemma_command_words_cons("add"@, seq!["weapon"@] + (Seq::<Seq<char>>::empty()));
    lemma_command_words_cons("item"@, seq!["add"@] + (seq!["weapon"@] + (Seq::<Seq<char>>::empty())));
    assert(words(u) == seq!["item"@] + (seq!["add"@] + (seq!["weapon"@] + (Seq::<Seq<char>>::empty()))));
    assert(leading_command_words(words(u)) =~= seq!["item"@, "add"@, "weapon"@]);
}

/// The command words of help entry 15 are recognised.
proof fn lemma_entry_parses_15()
    ensures
        !is_unknown_command(parse_words_spec(command_path(help_table()[15]))),
{
    lemma_entry_15();
    lemma_dispatch_words();
    lemma_message_starts();
    let r = parse_words_spec(seq!["item"@, "add"@, "weapon"@]);
    if r is Err {
        lemma_not_unknown(r->Err_0);
    }
}

/// The group and command words of help entry 16, `item clear [target]`.
proof fn lemma_entry_16()
    ensures
        help_table()[16].group@ == "item"@,
        words(help_table()[16].usage@).len() > 0,
        words(help_table()[16].usage@)[0] == "item"@,
        command_path(help_table()[16]) == seq!["item"@, "clear"@],
{
    lemma_word_item();
    lemma_word_clear();
    reveal_strlit("item clear [target]");
    let u = "item clear [target]"@;
    let r = u.skip(11);
    assert(r.len() > 0 && r[0] == '[');
    assert(u =~= "item"@ + seq![' '] + ("clear"@ + seq![' '] + r));
    lemma_words_cons("item"@, "clear"@ + seq![' '] + r);
    lemma_words_cons("clear"@, r);
    lemma_words_first(r);
    lemma_command_words_stop(words(r));
    lemma_command_words_cons("clear"@, words(r));
    lemma_command_words_cons("item"@, seq!["clear"@] + (words(r)));
    assert(words(u) == seq!["item"@] + (seq!["clear"@] + (words(r))));
    assert(leading_command_words(words(u)) =~= seq!["item"@, "clear"@]);
}

/// The command words of help entry 16 are recognised.
proof fn lemma_entry_parses_16()
    ensures
        !is_unknown_command(parse_words_spec(command_path(help_table()[16]))),
{
    lemma_entry_16();
    lemma_dispatch_words();
    lemma_message_starts();
    let r = parse_words_spec(seq!["item"@, "clear"@]);
    if r is Err {
        lemma_not_unknown(r->Err_0);
    }
}

/// The group and command words of help entry 17, `item drop <item_id>`.
proof fn lemma_entry_17()
    ensures
        help_table()[17].group@ == "item"@,
        words(help_table()[17].usage@).len() > 0,
        words(help_table()[17].usage@)[0] == "item"@,
        command_path(help_table()[17]) == seq!["item"@, "drop"@],
{
    lemma_word_item();
    lemma_word_drop();
    reveal_strlit("item drop <item_id>");
    let u = "item drop <item_id>"@;
    let r = u.skip(10);
    assert(r.len() > 0 && r[0] == '<');
    assert(u =~= "item"@ + seq![' '] + ("drop"@ + seq![' '] + r));
    lemma_words_cons("item"@, "drop"@ + seq![' '] + r);
    lemma_words_cons("drop"@, r);
    lemma_words_first(r);
    lemma_command_words_stop(words(r));
    lemma_command_words_cons("drop"@, words(r));
    lemma_command_words_cons("item"@, seq!["drop"@] + (words(r)));
    assert(words(u) == seq!["item"@] + (seq!["drop"@] + (words(r))));
    assert(leading_command_words(words(u)) =~= seq!["item"@, "drop"@]);
}

/// The command words of help entry 17 are recognised.
proof fn lemma_entry_parses_17()
    ensures
        !is_unknown_command(parse_words_spec(command_path(help_table()[17]))),
{
    lemma_entry_17();
    lemma_dispatch_words();
    lemma_message_starts();
    let r = parse_words_spec(seq!["item"@, "drop"@]);
    if r is Err {
        lemma_not_unknown(r->Err_0);
    }
}

/// The group and command words of help entry 18, `weapon level <level>`.
proof fn lemma_entry_18()
    ensures
        help_table()[18].group@ == "weapon"@,
        words(help_table()[18].usage@).len() > 0,
        words(help_table()[18].usage@)[0] == "weapon"@,
        command_path(help_table()[18]) == seq!["weapon"@, "level"@],
{
    lemma_word_weapon();
    lemma_word_level();
    reveal_strlit("weapon level <level>");
    let u = "weapon level <level>"@;
    let r = u.skip(13);
    assert(r.len() > 0 && r[0] == '<');
    assert(u =~= "weapon"@ + seq![' '] + ("level"@ + seq![' '] + r));
    lemma_words_cons("weapon"@, "level"@ + seq![' '] + r);
    lemma_words_cons("level"@, r);
    lemma_words_first(r);
    lemma_command_words_stop(words(r));
    lemma_command_words_cons("level"@, words(r));
    lemma_command_words_cons("weapon"@, seq!["level"@] + (words(r)));
    assert(words(u) == seq!["weapon"@] + (seq!["level"@] + (words(r))));
    assert(leading_command_words(words(u)) =~= seq!["weapon"@, "level"@]);
}

/// The command words of help entry 18 are recognised.
proof fn lemma_entry_parses_18()
    ensures
        !is_unknown_command(parse_words_spec(command_path(help_table()[18]))),
{
    lemma_entry_18();
    lemma_dispatch_words();
    lemma_message_starts();
    let r = parse_words_spec(seq!["weapon"@, "level"@]);
    if r is Err {
        lemma_not_unknown(r->Err_0);
    }
}

/// The group and command words of help entry 19, `weapon break <break_level>`.
proof fn lemma_entry_19()
    ensures
        help_table()[19].group@ == "weapon"@,
        words(help_table()[19].usage@).len() > 0,
        words(help_table()[19].usage@)[0] == "weapon"@,
        command_path(help_table()[19]) == seq!["weapon"@, "break"@],
{
    lemma_word_weapon();
    lemma_word_break();
    reveal_strlit("weapon break <break_level>");
    let u = "weapon break <break_level>"@;
    let r = u.skip(13);
    assert(r.len() > 0 && r[0] == '<');
    assert(u =~= "weapon"@ + seq![' '] + ("break"@ + seq![' '] + r));
    lemma_words_cons("weapon"@, "break"@ + seq![' '] + r);
    lemma_words_cons("break"@, r);
    lemma_words_first(r);
    lemma_command_words_stop(words(r));
    lemma_command_words_cons("break"@, words(r));
    lemma_command_words_cons("weapon"@, seq!["break"@] + (words(r)));
    assert(words(u) == seq!["weapon"@] + (seq!["break"@] + (words(r))));
    assert(leading_command_words(words(u)) =~= seq!["weapon"@, "break"@]);
}

/// The command words of help entry 19 are recognised.
proof fn lemma_entry_parses_19()
    ensures
        !is_unknown_command(parse_words_spec(command_path(help_table()[19]))),
{
    lemma_entry_19();
    lemma_dispatch_words();
    lemma_message_starts();
    let r = parse_words_spec(seq!["weapon"@, "break"@]);
    if r is Err {
        lemma_not_unknown(r->Err_0);
    }
}

/// The group and command words of help entry 20, `weapon promote <promote_level>`.
proof fn lemma_entry_20()
    ensures
        help_table()[20].group@ == "weapon"@,
        words(help_table()[20].usage@).len() > 0,
        words(help_table()[20].usage@)[0] == "weapon"@,
        command_path(help_table()[20]) == seq!["weapon"@, "promote"@],
{
    lemma_word_weapon();
    lemma_word_promote();
    reveal_strlit("weapon promote <promote_level>");
    let u = "weapon promote <promote_level>"@;
    let r = u.skip(15);
    assert(r.len() > 0 && r[0] == '<');
    assert(u =~= "weapon"@ + seq![' '] + ("promote"@ + seq![' '] + r));
    lemma_words_cons("weapon"@, "promote"@ + seq![' '] + r);
    lemma_words_cons("promote"@, r);
    lemma_words_first(r);
    lemma_command_words_stop(words(r));
    lemma_command_words_cons("promote"@, words(r));
    lemma_command_words_cons("weapon"@, seq!["promote"@] + (words(r)));
    assert(words(u) == seq!["weapon"@] + (seq!["promote"@] + (words(r))));
    assert(leading_command_words(words(u)) =~= seq!["weapon"@, "promote"@]);
}

/// The command words of help entry 20 are recognised.
proof fn lemma_entry_parses_20()
    ensures
        !is_unknown_command(parse_words_spec(command_path(help_table()[20]))),
{
    lemma_entry_20();
    lemma_dispatch_words();
    lemma_message_starts();
    let r = parse_words_spec(seq!["weapon"@, "promote"@]);
    if r is Err {
        lemma_not_unknown(r->Err_0);
    }
}

/// The group and command words of help entry 21, `quest accept <quest_id>`.
proof fn lemma_entry_21()
    ensures
        help_table()[21].group@ == "quest"@,
        words(help_table()[21].usage@).len() > 0,
        words(help_table()[21].usage@)[0] == "quest"@,
        command_path(help_table()[21]) == seq!["quest"@, "accept"@],
{
    lemma_word_quest();
    lemma_word_accept();
    reveal_strlit("quest accept <quest_id>");
    let u = "quest accept <quest_id>"@;
    let r = u.skip(13);
    assert(r.len() > 0 && r[0] == '<');
    assert(u =~= "quest"@ + seq![' '] + ("accept"@ + seq![' '] + r));
    lemma_words_cons("quest"@, "accept"@ + seq![' '] + r);
    lemma_words_cons("accept"@, r);
    lemma_words_first(r);
    lemma_command_words_stop(words(r));
    lemma_command_words_cons("accept"@, words(r));
    lemma_command_words_cons("quest"@, seq!["accept"@] + (words(r)));
    assert(words(u) == seq!["quest"@] + (seq!["accept"@] + (words(r))));
    assert(leading_command_words(words(u)) =~= seq!["quest"@, "accept"@]);
}

/// The command words of help entry 21 are recognised.
proof fn lemma_entry_parses_21()
    ensures
        !is_unknown_command(parse_words_spec(command_path(help_table()[21]))),
{
    lemma_entry_21();
    lemma_dispatch_words();
    lemma_message_starts();
    let r = parse_words_spec(seq!["quest"@, "accept"@]);
    if r is Err {
        lemma_not_unknown(r->Err_0);
    }
}

/// The group and command words of help entry 22, `quest cancel <quest_id>`.
proof fn lemma_entry_22()
    ensures
        help_table()[22].group@ == "quest"@,
        words(help_table()[22].usage@).len() > 0,
        words(help_table()[22].usage@)[0] == "quest"@,
        command_path(help_table()[22]) == seq!["quest"@, "cancel"@],
{
    lemma_word_quest();
    lemma_word_cancel();
    reveal_strlit("quest cancel <quest_id>");
    let u = "quest cancel <quest_id>"@;
    let r = u.skip(13);
    assert(r.len() > 0 && r[0] == '<');
    assert(u =~= "quest"@ + seq![' '] + ("cancel"@ + seq![' '] + r));
    lemma_words_cons("quest"@, "cancel"@ + seq![' '] + r);
    lemma_words_cons("cancel"@, r);
    lemma_words_first(r);
    lemma_command_words_stop(words(r));
    lemma_command_words_cons("cancel"@, words(r));
    lemma_command_words_cons("quest"@, seq!["cancel"@] + (words(r)));
    assert(words(u) == seq!["quest"@] + (seq!["cancel"@] + (words(r))));
    assert(leading_command_words(words(u)) =~= seq!["quest"@, "cancel"@]);
}

/// The command words of help entry 22 are recognised.
proof fn lemma_entry_parses_22()
    ensures
        !is_unknown_command(parse_words_spec(command_path(help_table()[22]))),
{
    lemma_entry_22();
    lemma_dispatch_words();
    lemma_message_starts();
    let r = parse_words_spec(seq!["quest"@, "cancel"@]);
    if r is Err {
        lemma_not_unknown(r->Err_0);
    }
}

/// The group and command words of help entry 23, `quest finish <quest_id>`.
proof fn lemma_entry_23()
    ensures
        help_table()[23].group@ == "quest"@,
        words(help_table()[23].usage@).len() > 0,
        words(help_table()[23].usage@)[0] == "quest"@,
        command_path(help_table()[23]) == seq!["quest"@, "finish"@],
{
    lemma_word_quest();
    lemma_word_finish();
    reveal_strlit("quest finish <quest_id>");
    let u = "quest finish <quest_id>"@;
    let r = u.skip(13);
    assert(r.len() > 0 && r[0] == '<');
    assert(u =~= "quest"@ + seq![' '] + ("finish"@ + seq![' '] + r));
    lemma_words_cons("quest"@, "finish"@ + seq![' '] + r);
    lemma_words_cons("finish"@, r);
    lemma_words_first(r);
    lemma_command_words_stop(words(r));
    lemma_command_words_cons("finish"@, words(r));
    lemma_command_words_cons("quest"@, seq!["finish"@] + (words(r)));
    assert(words(u) == seq!["quest"@] + (seq!["finish"@] + (words(r))));
    assert(leading_command_words(words(u)) =~= seq!["quest"@, "finish"@]);
}

/// The command words of help entry 23 are recognised.
proof fn lemma_entry_parses_23()
    ensures
        !is_unknown_command(parse_words_spec(command_path(help_table()[23]))),
{
    lemma_entry_23();
    lemma_dispatch_words();
    lemma_message_starts();
    let r = parse_words_spec(seq!["quest"@, "finish"@]);
    if r is Err {
        lemma_not_unknown(r->Err_0);
    }
}

/// The group and command words of help entry 24, `quest restart <quest_id>`.
proof fn lemma_entry_24()
    ensures
        help_table()[24].group@ == "quest"@,
        words(help_table()[24].usage@).len() > 0,
        words(help_table()[24].usage@)[0] == "quest"@,
        command_path(help_table()[24]) == seq!["quest"@, "restart"@],
{
    lemma_word_quest();
    lemma_word_restart();
    reveal_strlit("quest restart <quest_id>");
    let u = "quest restart <quest_id>"@;
    let r = u.skip(14);
    assert(r.len() > 0 && r[0] == '<');
    assert(u =~= "quest"@ + seq![' '] + ("restart"@ + seq![' '] + r));
    lemma_words_cons("quest"@, "restart"@ + seq![' '] + r);
    lemma_words_cons("restart"@, r);
    lemma_words_first(r);
    lemma_command_words_stop(words(r));
    lemma_command_words_cons("restart"@, words(r));
    lemma_command_words_cons("quest"@, seq!["restart"@] + (words(r)));
    assert(words(u) == seq!["quest"@] + (seq!["restart"@] + (words(r))));
    assert(leading_command_words(words(u)) =~= seq!["quest"@, "restart"@]);
}

/// The command words of help entry 24 are recognised.
proof fn lemma_entry_parses_24()
    ensures
        !is_unknown_command(parse_words_spec(command_path(help_table()[24]))),
{
    lemma_entry_24();
    lemma_dispatch_words();
    lemma_message_starts();
    let r = parse_words_spec(seq!["quest"@, "restart"@]);
    if r is Err {
        lemma_not_unknown(r->Err_0);
    }
}

/// The group and command words of help entry 25, `quest restart_all`.
proof fn lemma_entry_25()
    ensures
        help_table()[25].group@ == "quest"@,
        words(help_table()[25].usage@).len() > 0,
        words(help_table()[25].usage@)[0] == "quest"@,
        command_path(help_table()[25]) == seq!["quest"@, "restart_all"@],
{
    lemma_word_quest();
    lemma_word_restart_all();
    reveal_strlit("quest restart_all");
    let u = "quest restart_all"@;
    assert(u =~= "quest"@ + seq![' '] + ("restart_all"@));
    lemma_words_cons("quest"@, "restart_all"@);
    lemma_words_single("restart_all"@);
    lemma_command_words_empty();
    lemma_command_words_cons("restart_all"@, Seq::<Seq<char>>::empty());
    lemma_command_words_cons("quest"@, seq!["restart_all"@] + (Seq::<Seq<char>>::empty()));
    assert(words(u) == seq!["quest"@] + (seq!["restart_all"@] + (Seq::<Seq<char>>::empty())));
    assert(leading_command_words(words(u)) =~= seq!["quest"@, "restart_all"@]);
}

/// The command words of help entry 25 are recognised.
proof fn lemma_entry_parses_25()
    ensures
        !is_unknown_command(parse_words_spec(command_path(help_table()[25]))),
{
    lemma_entry_25();
    lemma_dispatch_words();
    lemma_message_starts();
    let r = parse_words_spec(seq!["quest"@, "restart_all"@]);
    if r is Err {
        lemma_not_unknown(r->Err_0);
    }
}

/// The group and command words of help entry 26, `quest clear`.
proof fn lemma_entry_26()
    ensures
        help_table()[26].group@ == "quest"@,
        words(help_table()[26].usage@).len() > 0,
        words(help_table()[26].usage@)[0] == "quest"@,
        command_path(help_table()[26]) == seq!["quest"@, "clear"@],
{
    lemma_word_quest();
    lemma_word_clear();
    reveal_strlit("quest clear");
    let u = "quest clear"@;
    assert(u =~= "quest"@ + seq![' '] + ("clear"@));
    lemma_words_cons("quest"@, "clear"@);
    lemma_words_single("clear"@);
    lemma_command_words_empty();
    lemma_command_words_cons("clear"@, Seq::<Seq<char>>::empty());
    lemma_command_words_cons("quest"@, seq!["clear"@] + (Seq::<Seq<char>>::empty()));
    assert(words(u) == seq!["quest"@] + (seq!["clear"@] + (Seq::<Seq<char>>::empty())));
    assert(leading_command_words(words(u)) =~= seq!["quest"@, "clear"@]);
}

/// The command words of help entry 26 are recognised.
proof fn lemma_entry_parses_26()
    ensures
        !is_unknown_command(parse_words_spec(command_path(help_table()[26]))),
{
    lemma_entry_26();
    lemma_dispatch_words();
    lemma_message_starts();
    let r = parse_words_spec(seq!["quest"@, "clear"@]);
    if r is Err {
        lemma_not_unknown(r->Err_0);
    }
}

/// The group and command words of help entry 27, `quest state <quest_id> <state>`.
proof fn lemma_entry_27()
    ensures
        help_table()[27].group@ == "quest"@,
        words(help_table()[27].usage@).len() > 0,
        words(help_table()[27].usage@)[0] == "quest"@,
        command_path(help_table()[27]) == seq!["quest"@, "state"@],
{
    lemma_word_quest();
    lemma_word_state();
    reveal_strlit("quest state <quest_id> <state>");
    let u = "quest state <quest_id> <state>"@;
    let r = u.skip(12);
    assert(r.len() > 0 && r[0] == '<');
    assert(u =~= "quest"@ + seq![' '] + ("state"@ + seq![' '] + r));
    lemma_words_cons("quest"@, "state"@ + seq![' '] + r);
    lemma_words_cons("state"@, r);
    lemma_words_first(r);
    lemma_command_words_stop(words(r));
    lemma_command_words_cons("state"@, words(r));
    lemma_command_words_cons("quest"@, seq!["state"@] + (words(r)));
    assert(words(u) == seq!["quest"@] + (seq!["state"@] + (words(r))));
    assert(leading_command_words(words(u)) =~= seq!["quest"@, "state"@]);
}

/// The command words of help entry 27 are recognised.
proof fn lemma_entry_parses_27()
    ensures
        !is_unknown_command(parse_words_spec(command_path(help_table()[27]))),
{
    lemma_entry_27();
    lemma_dispatch_words();
    lemma_message_starts();
    let r = parse_words_spec(seq!["quest"@, "state"@]);
    if r is Err {
        lemma_not_unknown(r->Err_0);
    }
}

/// The group and command words of help entry 28, `quest var <parent_id> [index] [value]`.
proof fn lemma_entry_28()
    ensures
        help_table()[28].group@ == "quest"@,
        words(help_table()[28].usage@).len() > 0,
        words(help_table()[28].usage@)[0] == "quest"@,
        command_path(help_table()[28]) == seq!["quest"@, "var"@],
{
    lemma_word_quest();
    lemma_word_var();
    reveal_strlit("quest var <parent_id> [index] [value]");
    let u = "quest var <parent_id> [index] [value]"@;
    let r = u.skip(10);
    assert(r.len() > 0 && r[0] == '<');
    assert(u =~= "quest"@ + seq![' '] + ("var"@ + seq![' '] + r));
    lemma_words_cons("quest"@, "var"@ + seq![' '] + r);
    lemma_words_cons("var"@, r);
    lemma_words_first(r);
    lemma_command_words_stop(words(r));
    lemma_command_words_cons("var"@, words(r));
    lemma_command_words_cons("quest"@, seq!["var"@] + (words(r)));
    assert(words(u) == seq!["quest"@] + (seq!["var"@] + (words(r))));
    assert(leading_command_words(words(u)) =~= seq!["quest"@, "var"@]);
}

/// The command words of help entry 28 are recognised.
proof fn lemma_entry_parses_28()
    ensures
        !is_unknown_command(parse_words_spec(command_path(help_table()[28]))),
{
    lemma_entry_28();
    lemma_dispatch_words();
    lemma_message_starts();
    let r = parse_words_spec(seq!["quest"@, "var"@]);
    if r is Err {
        lemma_not_unknown(r->Err_0);
    }
}

/// The group and command words of help entry 29, `gadget create <gadget_id> [num <n>] [drop_id <id>] [level <n>] [interact_id <id>] [x <n>] [y <n>] [z <n>]`.
proof fn lemma_entry_29()
    ensures
        help_table()[29].group@ == "gadget"@,
        words(help_table()[29].usage@).len() > 0,
        words(help_table()[29].usage@)[0] == "gadget"@,
        command_path(help_table()[29]) == seq!["gadget"@, "create"@],
{
    lemma_word_gadget();
    lemma_word_create();
    reveal_strlit("gadget create <gadget_id> [num <n>] [drop_id <id>] [level <n>] [interact_id <id>] [x <n>] [y <n>] [z <n>]");
    let u = "gadget create <gadget_id> [num <n>] [drop_id <id>] [level <n>] [interact_id <id>] [x <n>] [y <n>] [z <n>]"@;
    let r = u.skip(14);
    assert(r.len() > 0 && r[0] == '<');
    assert(u =~= "gadget"@ + seq![' '] + ("create"@ + seq![' '] + r));
    lemma_words_cons("gadget"@, "create"@ + seq![' '] + r);
    lemma_words_cons("create"@, r);
    lemma_words_first(r);
    lemma_command_words_stop(words(r));
    lemma_command_words_cons("create"@, words(r));
    lemma_command_words_cons("gadget"@, seq!["create"@] + (words(r)));
    assert(words(u) == seq!["gadget"@] + (seq!["create"@] + (words(r))));
    assert(leading_command_words(words(u)) =~= seq!["gadget"@, "create"@]);
}

/// The command words of help entry 29 are recognised.
proof fn lemma_entry_parses_29()
    ensures
        !is_unknown_command(parse_words_spec(command_path(help_table()[29]))),
{
    lemma_entry_29();
    lemma_dispatch_words();
    lemma_message_starts();
    let r = parse_words_spec(seq!["gadget"@, "create"@]);
    if r is Err {
        lemma_not_unknown(r->Err_0);
    }
}

/// The group and command words of help entry 30, `gadget remove <gadget_id>`.
proof fn lemma_entry_30()
    ensures
        help_table()[30].group@ == "gadget"@,
        words(help_table()[30].usage@).len() > 0,
        words(help_table()[30].usage@)[0] == "gadget"@,
        command_path(help_table()[30]) == seq!["gadget"@, "remove"@],
{
    lemma_word_gadget();
    lemma_word_remove();
    reveal_strlit("gadget remove <gadget_id>");
    let u = "gadget remove <gadget_id>"@;
    let r = u.skip(14);
    assert(r.len() > 0 && r[0] == '<');
    assert(u =~= "gadget"@ + seq![' '] + ("remove"@ + seq![' '] + r));
    lemma_words_cons("gadget"@, "remove"@ + seq![' '] + r);
    lemma_words_cons("remove"@, r);
    lemma_words_first(r);
    lemma_command_words_stop(words(r));
    lemma_command_words_cons("remove"@, words(r));
    lemma_command_words_cons("gadget"@, seq!["remove"@] + (words(r)));
    assert(words(u) == seq!["gadget"@] + (seq!["remove"@] + (words(r))));
    assert(leading_command_words(words(u)) =~= seq!["gadget"@, "remove"@]);
}

/// The command words of help entry 30 are recognised.
proof fn lemma_entry_parses_30()
    ensures
        !is_unknown_command(parse_words_spec(command_path(help_table()[30]))),
{
    lemma_entry_30();
    lemma_dispatch_words();
    lemma_message_starts();
    let r = parse_words_spec(seq!["gadget"@, "remove"@]);
    if r is Err {
        lemma_not_unknown(r->Err_0);
    }
}

/// The group and command words of help entry 31, `gadget state <gadget_id> <state>`.
proof fn lemma_entry_31()
    ensures
        help_table()[31].group@ == "gadget"@,
        words(help_table()[31].usage@).len() > 0,
        words(help_table()[31].usage@)[0] == "gadget"@,
        command_path(help_table()[31]) == seq!["gadget"@, "state"@],
{
    lemma_word_gadget();
    lemma_word_state();
    reveal_strlit("gadget state <gadget_id> <state>");
    let u = "gadget state <gadget_id> <state>"@;
    let r = u.skip(13);
    assert(r.len() > 0 && r[0] == '<');
    assert(u =~= "gadget"@ + seq![' '] + ("state"@ + seq![' '] + r));
    lemma_words_cons("gadget"@, "state"@ + seq![' '] + r);
    lemma_words_cons("state"@, r);
    lemma_words_first(r);
    lemma_command_words_stop(words(r));
    lemma_command_words_cons("state"@, words(r));
    lemma_command_words_cons("gadget"@, seq!["state"@] + (words(r)));
    assert(words(u) == seq!["gadget"@] + (seq!["state"@] + (words(r))));
    assert(leading_command_words(words(u)) =~= seq!["gadget"@, "state"@]);
}

/// The command words of help entry 31 are recognised.
proof fn lemma_entry_parses_31()
    ensures
        !is_unknown_command(parse_words_spec(command_path(help_table()[31]))),
{
    lemma_entry_31();
    lemma_dispatch_words();
    lemma_message_starts();
    let r = parse_words_spec(seq!["gadget"@, "state"@]);
    if r is Err {
        lemma_not_unknown(r->Err_0);
    }
}

/// The group and command words of help entry 32, `gadget set_state_by_entity_id <entity_id> <state>`.
proof fn lemma_entry_32()
    ensures
        help_table()[32].group@ == "gadget"@,
        words(help_table()[32].usage@).len() > 0,
        words(help_table()[32].usage@)[0] == "gadget"@,
        command_path(help_table()[32]) == seq!["gadget"@, "set_state_by_entity_id"@],
{
    lemma_word_gadget();
    lemma_word_set_state_by_entity_id();
    reveal_strlit("gadget set_state_by_entity_id <entity_id> <state>");
    let u = "gadget set_state_by_entity_id <entity_id> <state>"@;
    let r = u.skip(30);
    assert(r.len() > 0 && r[0] == '<');
    assert(u =~= "gadget"@ + seq![' '] + ("set_state_by_entity_id"@ + seq![' '] + r));
    lemma_words_cons("gadget"@, "set_state_by_entity_id"@ + seq![' '] + r);
    lemma_words_cons("set_state_by_entity_id"@, r);
    lemma_words_first(r);
    lemma_command_words_stop(words(r));
    lemma_command_words_cons("set_state_by_entity_id"@, words(r));
    lemma_command_words_cons("gadget"@, seq!["set_state_by_entity_id"@] + (words(r)));
    assert(words(u) == seq!["gadget"@] + (seq!["set_state_by_entity_id"@] + (words(r))));
    assert(leading_command_words(words(u)) =~= seq!["gadget"@, "set_state_by_entity_id"@]);
}

/// The command words of help entry 32 are recognised.
proof fn lemma_entry_parses_32()
    ensures
        !is_unknown_command(parse_words_spec(command_path(help_table()[32]))),
{
    lemma_entry_32();
    lemma_dispatch_words();
    lemma_message_starts();
    let r = parse_words_spec(seq!["gadget"@, "set_state_by_entity_id"@]);
    if r is Err {
        lemma_not_unknown(r->Err_0);
    }
}

/// The group and command words of help entry 33, `group refresh <group_id>`.
proof fn lemma_entry_33()
    ensures
        help_table()[33].group@ == "group"@,
        words(help_table()[33].usage@).len() > 0,
        words(help_table()[33].usage@)[0] == "group"@,
        command_path(help_table()[33]) == seq!["group"@, "refresh"@],
{
    lemma_word_group();
    lemma_word_refresh();
    reveal_strlit("group refresh <group_id>");
    let u = "group refresh <group_id>"@;
    let r = u.skip(14);
    assert(r.len() > 0 && r[0] == '<');
    assert(u =~= "group"@ + seq![' '] + ("refresh"@ + seq![' '] + r));
    lemma_words_cons("group"@, "refresh"@ + seq![' '] + r);
    lemma_words_cons("refresh"@, r);
    lemma_words_first(r);
    lemma_command_words_stop(words(r));
    lemma_command_words_cons("refresh"@, words(r));
    lemma_command_words_cons("group"@, seq!["refresh"@] + (words(r)));
    assert(words(u) == seq!["group"@] + (seq!["refresh"@] + (words(r))));
    assert(leading_command_words(words(u)) =~= seq!["group"@, "refresh"@]);
}

/// The command words of help entry 33 are recognised.
proof fn lemma_entry_parses_33()
    ensures
        !is_unknown_command(parse_words_spec(command_path(help_table()[33]))),
{
    lemma_entry_33();
    lemma_dispatch_words();
    lemma_message_starts();
    let r = parse_words_spec(seq!["group"@, "refresh"@]);
    if r is Err {
        lemma_not_unknown(r->Err_0);
    }
}

/// The group and command words of help entry 34, `group reload <group_id>`.
proof fn lemma_entry_34()
    ensures
        help_table()[34].group@ == "group"@,
        words(help_table()[34].usage@).len() > 0,
        words(help_table()[34].usage@)[0] == "group"@,
        command_path(help_table()[34]) == seq!["group"@, "reload"@],
{
    lemma_word_group();
    lemma_word_reload();
    reveal_strlit("group reload <group_id>");
    let u = "group reload <group_id>"@;
    let r = u.skip(13);
    assert(r.len() > 0 && r[0] == '<');
    assert(u =~= "group"@ + seq![' '] + ("reload"@ + seq![' '] + r));
    lemma_words_cons("group"@, "reload"@ + seq![' '] + r);
    lemma_words_cons("reload"@, r);
    lemma_words_first(r);
    lemma_command_words_stop(words(r));
    lemma_command_words_cons("reload"@, words(r));
    lemma_command_words_cons("group"@, seq!["reload"@] + (words(r)));
    assert(words(u) == seq!["group"@] + (seq!["reload"@] + (words(r))));
    assert(leading_command_words(words(u)) =~= seq!["group"@, "reload"@]);
}

/// The command words of help entry 34 are recognised.
proof fn lemma_entry_parses_34()
    ensures
        !is_unknown_command(parse_words_spec(command_path(help_table()[34]))),
{
    lemma_entry_34();
    lemma_dispatch_words();
    lemma_message_starts();
    let r = parse_words_spec(seq!["group"@, "reload"@]);
    if r is Err {
        lemma_not_unknown(r->Err_0);
    }
}

/// The group and command words of help entry 35, `group unload <group_id>`.
proof fn lemma_entry_35()
    ensures
        help_table()[35].group@ == "group"@,
        words(help_table()[35].usage@).len() > 0,
        words(help_table()[35].usage@)[0] == "group"@,
        command_path(help_table()[35]) == seq!["group"@, "unload"@],
{
    lemma_word_group();
    lemma_word_unload();
    reveal_strlit("group unload <group_id>");
    let u = "group unload <group_id>"@;
    let r = u.skip(13);
    assert(r.len() > 0 && r[0] == '<');
    assert(u =~= "group"@ + seq![' '] + ("unload"@ + seq![' '] + r));
    lemma_words_cons("group"@, "unload"@ + seq![' '] + r);
    lemma_words_cons("unload"@, r);
    lemma_words_first(r);
    lemma_command_words_stop(words(r));
    lemma_command_words_cons("unload"@, words(r));
    lemma_command_words_cons("group"@, seq!["unload"@] + (words(r)));
    assert(words(u) == seq!["group"@] + (seq!["unload"@] + (words(r))));
    assert(leading_command_words(words(u)) =~= seq!["group"@, "unload"@]);
}

/// The command words of help entry 35 are recognised.
proof fn lemma_entry_parses_35()
    ensures
        !is_unknown_command(parse_words_spec(command_path(help_table()[35]))),
{
    lemma_entry_35();
    lemma_dispatch_words();
    lemma_message_starts();
    let r = parse_words_spec(seq!["group"@, "unload"@]);
    if r is Err {
        lemma_not_unknown(r->Err_0);
    }
}

/// The group and command words of help entry 36, `group clear <group_id>`.
proof fn lemma_entry_36()
    ensures
        help_table()[36].group@ == "group"@,
        words(help_table()[36].usage@).len() > 0,
        words(help_table()[36].usage@)[0] == "group"@,
        command_path(help_table()[36]) == seq!["group"@, "clear"@],
{
    lemma_word_group();
    lemma_word_clear();
    reveal_strlit("group clear <group_id>");
    let u = "group clear <group_id>"@;
    let r = u.skip(12);
    assert(r.len() > 0 && r[0] == '<');
    assert(u =~= "group"@ + seq![' '] + ("clear"@ + seq![' '] + r));
    lemma_words_cons("group"@, "clear"@ + seq![' '] + r);
    lemma_words_cons("clear"@, r);
    lemma_words_first(r);
    lemma_command_words_stop(words(r));
    lemma_command_words_cons("clear"@, words(r));
    lemma_command_words_cons("group"@, seq!["clear"@] + (words(r)));
    assert(words(u) == seq!["group"@] + (seq!["clear"@] + (words(r))));
    assert(leading_command_words(words(u)) =~= seq!["group"@, "clear"@]);
}

/// The command words of help entry 36 are recognised.
proof fn lemma_entry_parses_36()
    ensures
        !is_unknown_command(parse_words_spec(command_path(help_table()[36]))),
{
    lemma_entry_36();
    lemma_dispatch_words();
    lemma_message_starts();
    let r = parse_words_spec(seq!["group"@, "clear"@]);
    if r is Err {
        lemma_not_unknown(r->Err_0);
    }
}

/// The group and command words of help entry 37, `group_suite goto <group_id> <suite_id>`.
proof fn lemma_entry_37()
    ensures
        help_table()[37].group@ == "group_suite"@,
        words(help_table()[37].usage@).len() > 0,
        words(help_table()[37].usage@)[0] == "group_suite"@,
        command_path(help_table()[37]) == seq!["group_suite"@, "goto"@],
{
    lemma_word_group_suite();
    lemma_word_goto();
    reveal_strlit("group_suite goto <group_id> <suite_id>");
    let u = "group_suite goto <group_id> <suite_id>"@;
    let r = u.skip(17);
    assert(r.len() > 0 && r[0] == '<');
    assert(u =~= "group_suite"@ + seq![' '] + ("goto"@ + seq![' '] + r));
    lemma_words_cons("group_suite"@, "goto"@ + seq![' '] + r);
    lemma_words_cons("goto"@, r);
    lemma_words_first(r);
    lemma_command_words_stop(words(r));
    lemma_command_words_cons("goto"@, words(r));
    lemma_command_words_cons("group_suite"@, seq!["goto"@] + (words(r)));
    assert(words(u) == seq!["group_suite"@] + (seq!["goto"@] + (words(r))));
    assert(leading_command_words(words(u)) =~= seq!["group_suite"@, "goto"@]);
}

/// The command words of help entry 37 are recognised.
proof fn lemma_entry_parses_37()
    ensures
        !is_unknown_command(parse_words_spec(command_path(help_table()[37]))),
{
    lemma_entry_37();
    lemma_dispatch_words();
    lemma_message_starts();
    let r = parse_words_spec(seq!["group_suite"@, "goto"@]);
    if r is Err {
        lemma_not_unknown(r->Err_0);
    }
}

/// The group and command words of help entry 38, `group_suite add_extra <group_id> <suite_id>`.
proof fn lemma_entry_38()
    ensures
        help_table()[38].group@ == "group_suite"@,
        words(help_table()[38].usage@).len() > 0,
        words(help_table()[38].usage@)[0] == "group_suite"@,
        command_path(help_table()[38]) == seq!["group_suite"@, "add_extra"@],
{
    lemma_word_group_suite();
    lemma_word_add_extra();
    reveal_strlit("group_suite add_extra <group_id> <suite_id>");
    let u = "group_suite add_extra <group_id> <suite_id>"@;
    let r = u.skip(22);
    assert(r.len() > 0 && r[0] == '<');
    assert(u =~= "group_suite"@ + seq![' '] + ("add_extra"@ + seq![' '] + r));
    lemma_words_cons("group_suite"@, "add_extra"@ + seq![' '] + r);
    lemma_words_cons("add_extra"@, r);
    lemma_words_first(r);
    lemma_command_words_stop(words(r));
    lemma_command_words_cons("add_extra"@, words(r));
    lemma_command_words_cons("group_suite"@, seq!["add_extra"@] + (words(r)));
    assert(words(u) == seq!["group_suite"@] + (seq!["add_extra"@] + (words(r))));
    assert(leading_command_words(words(u)) =~= seq!["group_suite"@, "add_extra"@]);
}

/// The command words of help entry 38 are recognised.
proof fn lemma_entry_parses_38()
    ensures
        !is_unknown_command(parse_words_spec(command_path(help_table()[38]))),
{
    lemma_entry_38();
    lemma_dispatch_words();
    lemma_message_starts();
    let r = parse_words_spec(seq!["group_suite"@, "add_extra"@]);
    if r is Err {
        lemma_not_unknown(r->Err_0);
    }
}

/// The group and command words of help entry 39, `group_suite remove_extra <group_id> <suite_id>`.
proof fn lemma_entry_39()
    ensures
        help_table()[39].group@ == "group_suite"@,
        words(help_table()[39].usage@).len() > 0,
        words(help_table()[39].usage@)[0] == "group_suite"@,
        command_path(help_table()[39]) == seq!["group_suite"@, "remove_extra"@],
{
    lemma_word_group_suite();
    lemma_word_remove_extra();
    reveal_strlit("group_suite remove_extra <group_id> <suite_id>");
    let u = "group_suite remove_extra <group_id> <suite_id>"@;
    let r = u.skip(25);
    assert(r.len() > 0 && r[0] == '<');
    assert(u =~= "group_suite"@ + seq![' '] + ("remove_extra"@ + seq![' '] + r));
    lemma_words_cons("group_suite"@, "remove_extra"@ + seq![' '] + r);
    lemma_words_cons("remove_extra"@, r);
    lemma_words_first(r);
    lemma_command_words_stop(words(r));
    lemma_command_words_cons("remove_extra"@, words(r));
    lemma_command_words_cons("group_suite"@, seq!["remove_extra"@] + (words(r)));
    assert(words(u) == seq!["group_suite"@] + (seq!["remove_extra"@] + (words(r))));
    assert(leading_command_words(words(u)) =~= seq!["group_suite"@, "remove_extra"@]);
}

/// The command words of help entry 39 are recognised.
proof fn lemma_entry_parses_39()
    ensures
        !is_unknown_command(parse_words_spec(command_path(help_table()[39]))),
{
    lemma_entry_39();
    lemma_dispatch_words();
    lemma_message_starts();
    let r = parse_words_spec(seq!["group_suite"@, "remove_extra"@]);
    if r is Err {
        lemma_not_unknown(r->Err_0);
    }
}

/// The group and command words of help entry 40, `group_suite kill_extra <group_id> <suite_id>`.
proof fn lemma_entry_40()
    ensures
        help_table()[40].group@ == "group_suite"@,
        words(help_table()[40].usage@).len() > 0,
        words(help_table()[40].usage@)[0] == "group_suite"@,
        command_path(help_table()[40]) == seq!["group_suite"@, "kill_extra"@],
{
    lemma_word_group_suite();
    lemma_word_kill_extra();
    reveal_strlit("group_suite kill_extra <group_id> <suite_id>");
    let u = "group_suite kill_extra <group_id> <suite_id>"@;
    let r = u.skip(23);
    assert(r.len() > 0 && r[0] == '<');
    assert(u =~= "group_suite"@ + seq![' '] + ("kill_extra"@ + seq![' '] + r));
    lemma_words_cons("group_suite"@, "kill_extra"@ + seq![' '] + r);
    lemma_words_cons("kill_extra"@, r);
    lemma_words_first(r);
    lemma_command_words_stop(words(r));
    lemma_command_words_cons("kill_extra"@, words(r));
    lemma_command_words_cons("group_suite"@, seq!["kill_extra"@] + (words(r)));
    assert(words(u) == seq!["group_suite"@] + (seq!["kill_extra"@] + (words(r))));
    assert(leading_command_words(words(u)) =~= seq!["group_suite"@, "kill_extra"@]);
}

/// The command words of help entry 40 are recognised.
proof fn lemma_entry_parses_40()
    ensures
        !is_unknown_command(parse_words_spec(command_path(help_table()[40]))),
{
    lemma_entry_40();
    lemma_dispatch_words();
    lemma_message_starts();
    let r = parse_words_spec(seq!["group_suite"@, "kill_extra"@]);
    if r is Err {
        lemma_not_unknown(r->Err_0);
    }
}

/// The group and command words of help entry 41, `tp a <scene_id> [x <num>] [y <num>] [z <num>]`.
proof fn lemma_entry_41()
    ensures
        help_table()[41].group@ == "tp"@,
        words(help_table()[41].usage@).len() > 0,
        words(help_table()[41].usage@)[0] == "tp"@,
        command_path(help_table()[41]) == seq!["tp"@, "a"@],
{
    lemma_word_tp();
    lemma_word_a();
    reveal_strlit("tp a <scene_id> [x <num>] [y <num>] [z <num>]");
    let u = "tp a <scene_id> [x <num>] [y <num>] [z <num>]"@;
    let r = u.skip(5);
    assert(r.len() > 0 && r[0] == '<');
    assert(u =~= "tp"@ + seq![' '] + ("a"@ + seq![' '] + r));
    lemma_words_cons("tp"@, "a"@ + seq![' '] + r);
    lemma_words_cons("a"@, r);
    lemma_words_first(r);
    lemma_command_words_stop(words(r));
    lemma_command_words_cons("a"@, words(r));
    lemma_command_words_cons("tp"@, seq!["a"@] + (words(r)));
    assert(words(u) == seq!["tp"@] + (seq!["a"@] + (words(r))));
    assert(leading_command_words(words(u)) =~= seq!["tp"@, "a"@]);
}

/// The command words of help entry 41 are recognised.
proof fn lemma_entry_parses_41()
    ensures
        !is_unknown_command(parse_words_spec(command_path(help_table()[41]))),
{
    lemma_entry_41();
    lemma_dispatch_words();
    lemma_message_starts();
    let r = parse_words_spec(seq!["tp"@, "a"@]);
    if r is Err {
        lemma_not_unknown(r->Err_0);
    }
}

/// The group and command words of help entry 42, `tp r <scene_id> [x <num>] [y <num>] [z <num>]`.
proof fn lemma_entry_42()
    ensures
        help_table()[42].group@ == "tp"@,
        words(help_table()[42].usage@).len() > 0,
        words(help_table()[42].usage@)[0] == "tp"@,
        command_path(help_table()[42]) == seq!["tp"@, "r"@],
{
    lemma_word_tp();
    lemma_word_r();
    reveal_strlit("tp r <scene_id> [x <num>] [y <num>] [z <num>]");
    let u = "tp r <scene_id> [x <num>] [y <num>] [z <num>]"@;
    let r = u.skip(5);
    assert(r.len() > 0 && r[0] == '<');
    assert(u =~= "tp"@ + seq![' '] + ("r"@ + seq![' '] + r));
    lemma_words_cons("tp"@, "r"@ + seq![' '] + r);
    lemma_words_cons("r"@, r);
    lemma_words_first(r);
    lemma_command_words_stop(words(r));
    lemma_command_words_cons("r"@, words(r));
    lemma_command_words_cons("tp"@, seq!["r"@] + (words(r)));
    assert(words(u) == seq!["tp"@] + (seq!["r"@] + (words(r))));
    assert(leading_command_words(words(u)) =~= seq!["tp"@, "r"@]);
}

/// The command words of help entry 42 are recognised.
proof fn lemma_entry_parses_42()
    ensures
        !is_unknown_command(parse_words_spec(command_path(help_table()[42]))),
{
    lemma_entry_42();
    lemma_dispatch_words();
    lemma_message_starts();
    let r = parse_words_spec(seq!["tp"@, "r"@]);
    if r is Err {
        lemma_not_unknown(r->Err_0);
    }
}

/// The group and command words of help entry 43, `gacha add <gacha_id>`.
proof fn lemma_entry_43()
    ensures
        help_table()[43].group@ == "gacha"@,
        words(help_table()[43].usage@).len() > 0,
        words(help_table()[43].usage@)[0] == "gacha"@,
        command_path(help_table()[43]) == seq!["gacha"@, "add"@],
{
    lemma_word_gacha();
    lemma_word_add();
    reveal_strlit("gacha add <gacha_id>");
    let u = "gacha add <gacha_id>"@;
    let r = u.skip(10);
    assert(r.len() > 0 && r[0] == '<');
    assert(u =~= "gacha"@ + seq![' '] + ("add"@ + seq![' '] + r));
    lemma_words_cons("gacha"@, "add"@ + seq![' '] + r);
    lemma_words_cons("add"@, r);
    lemma_words_first(r);
    lemma_command_words_stop(words(r));
    lemma_command_words_cons("add"@, words(r));
    lemma_command_words_cons("gacha"@, seq!["add"@] + (words(r)));
    assert(words(u) == seq!["gacha"@] + (seq!["add"@] + (words(r))));
    assert(leading_command_words(words(u)) =~= seq!["gacha"@, "add"@]);
}

/// The command words of help entry 43 are recognised.
proof fn lemma_entry_parses_43()
    ensures
        !is_unknown_command(parse_words_spec(command_path(help_table()[43]))),
{
    lemma_entry_43();
    lemma_dispatch_words();
    lemma_message_starts();
    let r = parse_words_spec(seq!["gacha"@, "add"@]);
    if r is Err {
        lemma_not_unknown(r->Err_0);
    }
}

/// The group and command words of help entry 44, `gacha clear`.
proof fn lemma_entry_44()
    ensures
        help_table()[44].group@ == "gacha"@,
        words(help_table()[44].usage@).len() > 0,
        words(help_table()[44].usage@)[0] == "gacha"@,
        command_path(help_table()[44]) == seq!["gacha"@, "clear"@],
{
    lemma_word_gacha();
    lemma_word_clear();
    reveal_strlit("gacha clear");
    let u = "gacha clear"@;
    assert(u =~= "gacha"@ + seq![' '] + ("clear"@));
    lemma_words_cons("gacha"@, "clear"@);
    lemma_words_single("clear"@);
    lemma_command_words_empty();
    lemma_command_words_cons("clear"@, Seq::<Seq<char>>::empty());
    lemma_command_words_cons("gacha"@, seq!["clear"@] + (Seq::<Seq<char>>::empty()));
    assert(words(u) == seq!["gacha"@] + (seq!["clear"@] + (Seq::<Seq<char>>::empty())));
    assert(leading_command_words(words(u)) =~= seq!["gacha"@, "clear"@]);
}

/// The command words of help entry 44 are recognised.
proof fn lemma_entry_parses_44()
    ensures
        !is_unknown_command(parse_words_spec(command_path(help_table()[44]))),
{
    lemma_entry_44();
    lemma_dispatch_words();
    lemma_message_starts();
    let r = parse_words_spec(seq!["gacha"@, "clear"@]);
    if r is Err {
        lemma_not_unknown(r->Err_0);
    }
}

/// The group and command words of help entry 45, `weather <weather_id>`.
proof fn lemma_entry_45()
    ensures
        help_table()[45].group@ == "weather"@,
        words(help_table()[45].usage@).len() > 0,
        words(help_table()[45].usage@)[0] == "weather"@,
        command_path(help_table()[45]) == seq!["weather"@],
{
    lemma_word_weather();
    reveal_strlit("weather <weather_id>");
    let u = "weather <weather_id>"@;
    let r = u.skip(8);
    assert(r.len() > 0 && r[0] == '<');
    assert(u =~= "weather"@ + seq![' '] + r);
    lemma_words_cons("weather"@, r);
    lemma_words_first(r);
    lemma_command_words_stop(words(r));
    lemma_command_words_cons("weather"@, words(r));
    assert(words(u) == seq!["weather"@] + (words(r)));
    assert(leading_command_words(words(u)) =~= seq!["weather"@]);
}

/// The command words of help entry 45 are recognised.
proof fn lemma_entry_parses_45()
    ensures
        !is_unknown_command(parse_words_spec(command_path(help_table()[45]))),
{
    lemma_entry_45();
    lemma_dispatch_words();
    lemma_message_starts();
    let r = parse_words_spec(seq!["weather"@]);
    if r is Err {
        lemma_not_unknown(r->Err_0);
    }
}

/// The group and command words of help entry 46, `climate <climate_type>`.
proof fn lemma_entry_46()
    ensures
        help_table()[46].group@ == "climate"@,
        words(help_table()[46].usage@).len() > 0,
        words(help_table()[46].usage@)[0] == "climate"@,
        command_path(help_table()[46]) == seq!["climate"@],
{
    lemma_word_climate();
    reveal_strlit("climate <climate_type>");
    let u = "climate <climate_type>"@;
    let r = u.skip(8);
    assert(r.len() > 0 && r[0] == '<');
    assert(u =~= "climate"@ + seq![' '] + r);
    lemma_words_cons("climate"@, r);
    lemma_words_first(r);
    lemma_command_words_stop(words(r));
    lemma_command_words_cons("climate"@, words(r));
    assert(words(u) == seq!["climate"@] + (words(r)));
    assert(leading_command_words(words(u)) =~= seq!["climate"@]);
}

/// The command words of help entry 46 are recognised.
proof fn lemma_entry_parses_46()
    ensures
        !is_unknown_command(parse_words_spec(command_path(help_table()[46]))),
{
    lemma_entry_46();
    lemma_dispatch_words();
    lemma_message_starts();
    let r = parse_words_spec(seq!["climate"@]);
    if r is Err {
        lemma_not_unknown(r->Err_0);
    }
}

/// The group and command words of help entry 47, `dun [id]`.
proof fn lemma_entry_47()
    ensures
        help_table()[47].group@ == "dun"@,
        words(help_table()[47].usage@).len() > 0,
        words(help_table()[47].usage@)[0] == "dun"@,
        command_path(help_table()[47]) == seq!["dun"@],
{
    lemma_word_dun();
    reveal_strlit("dun [id]");
    let u = "dun [id]"@;
    let r = u.skip(4);
    assert(r.len() > 0 && r[0] == '[');
    assert(u =~= "dun"@ + seq![' '] + r);
    lemma_words_cons("dun"@, r);
    lemma_words_first(r);
    lemma_command_words_stop(words(r));
    lemma_command_words_cons("dun"@, words(r));
    assert(words(u) == seq!["dun"@] + (words(r)));
    assert(leading_command_words(words(u)) =~= seq!["dun"@]);
}

/// The command words of help entry 47 are recognised.
proof fn lemma_entry_parses_47()
    ensures
        !is_unknown_command(parse_words_spec(command_path(help_table()[47]))),
{
    lemma_entry_47();
    lemma_dispatch_words();
    lemma_message_starts();
    let r = parse_words_spec(seq!["dun"@]);
    if r is Err {
        lemma_not_unknown(r->Err_0);
    }
}

/// The group and command words of help entry 48, `pos`.
proof fn lemma_entry_48()
    ensures
        help_table()[48].group@ == "pos"@,
        words(help_table()[48].usage@).len() > 0,
        words(help_table()[48].usage@)[0] == "pos"@,
        command_path(help_table()[48]) == seq!["pos"@],
{
    lemma_word_pos();
    reveal_strlit("pos");
    let u = "pos"@;
    assert(u =~= "pos"@);
    lemma_words_single("pos"@);
    lemma_command_words_empty();
    lemma_command_words_cons("pos"@, Seq::<Seq<char>>::empty());
    assert(words(u) == seq!["pos"@] + (Seq::<Seq<char>>::empty()));
    assert(leading_command_words(words(u)) =~= seq!["pos"@]);
}

/// The command words of help entry 48 are recognised.
proof fn lemma_entry_parses_48()
    ensures
        !is_unknown_command(parse_words_spec(command_path(help_table()[48]))),
{
    lemma_entry_48();
    lemma_dispatch_words();
    lemma_message_starts();
    let r = parse_words_spec(seq!["pos"@]);
    if r is Err {
        lemma_not_unknown(r->Err_0);
    }
}

/// The group and command words of help entry 49, `prop <key> <value>`.
proof fn lemma_entry_49()
    ensures
        help_table()[49].group@ == "prop"@,
        words(help_table()[49].usage@).len() > 0,
        words(help_table()[49].usage@)[0] == "prop"@,
        command_path(help_table()[49]) == seq!["prop"@],
{
    lemma_word_prop();
    reveal_strlit("prop <key> <value>");
    let u = "prop <key> <value>"@;
    let r = u.skip(5);
    assert(r.len() > 0 && r[0] == '<');
    assert(u =~= "prop"@ + seq![' '] + r);
    lemma_words_cons("prop"@, r);
    lemma_words_first(r);
    lemma_command_words_stop(words(r));
    lemma_command_words_cons("prop"@, words(r));
    assert(words(u) == seq!["prop"@] + (words(r)));
    assert(leading_command_words(words(u)) =~= seq!["prop"@]);
}

/// The command words of help entry 49 are recognised.
proof fn lemma_entry_parses_49()
    ensures
        !is_unknown_command(parse_words_spec(command_path(help_table()[49]))),
{
    lemma_entry_49();
    lemma_dispatch_words();
    lemma_message_starts();
    let r = parse_words_spec(seq!["prop"@]);
    if r is Err {
        lemma_not_unknown(r->Err_0);
    }
}

/// The group and command words of help entry 50, `send_packet <key>`.
proof fn lemma_entry_50()
    ensures
        help_table()[50].group@ == "send_packet"@,
        words(help_table()[50].usage@).len() > 0,
        words(help_table()[50].usage@)[0] == "send_packet"@,
        command_path(help_table()[50]) == seq!["send_packet"@],
{
    lemma_word_send_packet();
    reveal_strlit("send_packet <key>");
    let u = "send_packet <key>"@;
    let r = u.skip(12);
    assert(r.len() > 0 && r[0] == '<');
    assert(u =~= "send_packet"@ + seq![' '] + r);
    lemma_words_cons("send_packet"@, r);
    lemma_words_first(r);
    lemma_command_words_stop(words(r));
    lemma_command_words_cons("send_packet"@, words(r));
    assert(words(u) == seq!["send_packet"@] + (words(r)));
    assert(leading_command_words(words(u)) =~= seq!["send_packet"@]);
}

/// The command words of help entry 50 are recognised.
proof fn lemma_entry_parses_50()
    ensures
        !is_unknown_command(parse_words_spec(command_path(help_table()[50]))),
{
    lemma_entry_50();
    lemma_dispatch_words();
    lemma_message_starts();
    let r = parse_words_spec(seq!["send_packet"@]);
    if r is Err {
        lemma_not_unknown(r->Err_0);
    }
}

/// The group and command words of help entry 51, `help [命令]`.
proof fn lemma_entry_51()
    ensures
        help_table()[51].group@ == "help"@,
        words(help_table()[51].usage@).len() > 0,
        words(help_table()[51].usage@)[0] == "help"@,
        command_path(help_table()[51]) == seq!["help"@],
{
    lemma_word_help();
    reveal_strlit("help [命令]");
    let u = "help [命令]"@;
    let r = u.skip(5);
    assert(r.len() > 0 && r[0] == '[');
    assert(u =~= "help"@ + seq![' '] + r);
    lemma_words_cons("help"@, r);
    lemma_words_first(r);
    lemma_command_words_stop(words(r));
    lemma_command_words_cons("help"@, words(r));
    assert(words(u) == seq!["help"@] + (words(r)));
    assert(leading_command_words(words(u)) =~= seq!["help"@]);
}

/// The command words of help entry 51 are recognised.
proof fn lemma_entry_parses_51()
    ensures
        !is_unknown_command(parse_words_spec(command_path(help_table()[51]))),
{
    lemma_entry_51();
    lemma_dispatch_words();
    lemma_message_starts();
    let r = parse_words_spec(seq!["help"@]);
    if r is Err {
        lemma_not_unknown(r->Err_0);
    }
}

/// The characters of the names of the named parameters.
pub(crate) proof fn lemma_param_words()
    ensures
        "buff_id"@.len() == 7,
        "buff_id"@[0] == 'b',
        "buff_id"@[1] == 'u',
        "buff_id"@[2] == 'f',
        "buff_id"@[3] == 'f',
        "buff_id"@[4] == '_',
        "buff_id"@[5] == 'i',
        "buff_id"@[6] == 'd',
        "drop_id"@.len() == 7,
        "drop_id"@[0] == 'd',
        "drop_id"@[1] == 'r',
        "drop_id"@[2] == 'o',
        "drop_id"@[3] == 'p',
        "drop_id"@[4] == '_',
        "drop_id"@[5] == 'i',
        "drop_id"@[6] == 'd',
        "gadget_id"@.len() == 9,
        "gadget_id"@[0] == 'g',
        "gadget_id"@[1] == 'a',
        "gadget_id"@[2] == 'd',
        "gadget_id"@[3] == 'g',
        "gadget_id"@[4] == 'e',
        "gadget_id"@[5] == 't',
        "gadget_id"@[6] == '_',
        "gadget_id"@[7] == 'i',
        "gadget_id"@[8] == 'd',
        "id"@.len() == 2,
        "id"@[0] == 'i',
        "id"@[1] == 'd',
        "interact_id"@.len() == 11,
        "interact_id"@[0] == 'i',
        "interact_id"@[1] == 'n',
        "interact_id"@[2] == 't',
        "interact_id"@[3] == 'e',
        "interact_id"@[4] == 'r',
        "interact_id"@[5] == 'a',
        "interact_id"@[6] == 'c',
        "interact_id"@[7] == 't',
        "interact_id"@[8] == '_',
        "interact_id"@[9] == 'i',
        "interact_id"@[10] == 'd',
        "item_id"@.len() == 7,
        "item_id"@[0] == 'i',
        "item_id"@[1] == 't',
        "item_id"@[2] == 'e',
        "item_id"@[3] == 'm',
        "item_id"@[4] == '_',
        "item_id"@[5] == 'i',
        "item_id"@[6] == 'd',
        "level"@.len() == 5,
        "level"@[0] == 'l',
        "level"@[1] == 'e',
        "level"@[2] == 'v',
        "level"@[3] == 'e',
        "level"@[4] == 'l',
        "lv"@.len() == 2,
        "lv"@[0] == 'l',
        "lv"@[1] == 'v',
        "m"@.len() == 1,
        "m"@[0] == 'm',
        "n"@.len() == 1,
        "n"@[0] == 'n',
        "num"@.len() == 3,
        "num"@[0] == 'n',
        "num"@[1] == 'u',
        "num"@[2] == 'm',
        "p"@.len() == 1,
        "p"@[0] == 'p',
        "r"@.len() == 1,
        "r"@[0] == 'r',
        "x"@.len() == 1,
        "x"@[0] == 'x',
        "y"@.len() == 1,
        "y"@[0] == 'y',
        "z"@.len() == 1,
        "z"@[0] == 'z',
{
    lemma_word_buff_id();
    lemma_word_drop_id();
    lemma_word_gadget_id();
    lemma_word_id();
    lemma_word_interact_id();
    lemma_word_item_id();
    lemma_word_level();
    lemma_word_lv();
    lemma_word_m();
    lemma_word_n();
    lemma_word_num();
    lemma_word_p();
    lemma_word_r();
    lemma_word_x();
    lemma_word_y();
    lemma_word_z();
}

/// The characters of every command word that `parse_command` dispatches on.
pub(crate) proof fn lemma_dispatch_words()
    ensures
        "a"@.len() == 1,
        "a"@[0] == 'a',
        "accept"@.len() == 6,
        "accept"@[0] == 'a',
        "accept"@[1] == 'c',
        "accept"@[2] == 'c',
        "accept"@[3] == 'e',
        "accept"@[4] == 'p',
        "accept"@[5] == 't',
        "add"@.len() == 3,
        "add"@[0] == 'a',
        "add"@[1] == 'd',
        "add"@[2] == 'd',
        "add_extra"@.len() == 9,
        "add_extra"@[0] == 'a',
        "add_extra"@[1] == 'd',
        "add_extra"@[2] == 'd',
        "add_extra"@[3] == '_',
        "add_extra"@[4] == 'e',
        "add_extra"@[5] == 'x',
        "add_extra"@[6] == 't',
        "add_extra"@[7] == 'r',
        "add_extra"@[8] == 'a',
        "add_talent"@.len() == 10,
        "add_talent"@[0] == 'a',
        "add_talent"@[1] == 'd',
        "add_talent"@[2] == 'd',
        "add_talent"@[3] == '_',
        "add_talent"@[4] == 't',
        "add_talent"@[5] == 'a',
        "add_talent"@[6] == 'l',
        "add_talent"@[7] == 'e',
        "add_talent"@[8] == 'n',
        "add_talent"@[9] == 't',
        "avatar"@.len() == 6,
        "avatar"@[0] == 'a',
        "avatar"@[1] == 'v',
        "avatar"@[2] == 'a',
        "avatar"@[3] == 't',
        "avatar"@[4] == 'a',
        "avatar"@[5] == 'r',
        "break"@.len() == 5,
        "break"@[0] == 'b',
        "break"@[1] == 'r',
        "break"@[2] == 'e',
        "break"@[3] == 'a',
        "break"@[4] == 'k',
        "buff"@.len() == 4,
        "buff"@[0] == 'b',
        "buff"@[1] == 'u',
        "buff"@[2] == 'f',
        "buff"@[3] == 'f',
        "cancel"@.len() == 6,
        "cancel"@[0] == 'c',
        "cancel"@[1] == 'a',
        "cancel"@[2] == 'n',
        "cancel"@[3] == 'c',
        "cancel"@[4] == 'e',
        "cancel"@[5] == 'l',
        "clear"@.len() == 5,
        "clear"@[0] == 'c',
        "clear"@[1] == 'l',
        "clear"@[2] == 'e',
        "clear"@[3] == 'a',
        "clear"@[4] == 'r',
        "climate"@.len() == 7,
        "climate"@[0] == 'c',
        "climate"@[1] == 'l',
        "climate"@[2] == 'i',
        "climate"@[3] == 'm',
        "climate"@[4] == 'a',
        "climate"@[5] == 't',
        "climate"@[6] == 'e',
        "create"@.len() == 6,
        "create"@[0] == 'c',
        "create"@[1] == 'r',
        "create"@[2] == 'e',
        "create"@[3] == 'a',
        "create"@[4] == 't',
        "create"@[5] == 'e',
        "drop"@.len() == 4,
        "drop"@[0] == 'd',
        "drop"@[1] == 'r',
        "drop"@[2] == 'o',
        "drop"@[3] == 'p',
        "dun"@.len() == 3,
        "dun"@[0] == 'd',
        "dun"@[1] == 'u',
        "dun"@[2] == 'n',
        "elem"@.len() == 4,
        "elem"@[0] == 'e',
        "elem"@[1] == 'l',
        "elem"@[2] == 'e',
        "elem"@[3] == 'm',
        "fight_prop"@.len() == 10,
        "fight_prop"@[0] == 'f',
        "fight_prop"@[1] == 'i',
        "fight_prop"@[2] == 'g',
        "fight_prop"@[3] == 'h',
        "fight_prop"@[4] == 't',
        "fight_prop"@[5] == '_',
        "fight_prop"@[6] == 'p',
        "fight_prop"@[7] == 'r',
        "fight_prop"@[8] == 'o',
        "fight_prop"@[9] == 'p',
        "finish"@.len() == 6,
        "finish"@[0] == 'f',
        "finish"@[1] == 'i',
        "finish"@[2] == 'n',
        "finish"@[3] == 'i',
        "finish"@[4] == 's',
        "finish"@[5] == 'h',
        "furniture"@.len() == 9,
        "furniture"@[0] == 'f',
        "furniture"@[1] == 'u',
        "furniture"@[2] == 'r',
        "furniture"@[3] == 'n',
        "furniture"@[4] == 'i',
        "furniture"@[5] == 't',
        "furniture"@[6] == 'u',
        "furniture"@[7] == 'r',
        "furniture"@[8] == 'e',
        "gacha"@.len() == 5,
        "gacha"@[0] == 'g',
        "gacha"@[1] == 'a',
        "gacha"@[2] == 'c',
        "gacha"@[3] == 'h',
        "gacha"@[4] == 'a',
        "gadget"@.len() == 6,
        "gadget"@[0] == 'g',
        "gadget"@[1] == 'a',
        "gadget"@[2] == 'd',
        "gadget"@[3] == 'g',
        "gadget"@[4] == 'e',
        "gadget"@[5] == 't',
        "goto"@.len() == 4,
        "goto"@[0] == 'g',
        "goto"@[1] == 'o',
        "goto"@[2] == 't',
        "goto"@[3] == 'o',
        "group"@.len() == 5,
        "group"@[0] == 'g',
        "group"@[1] == 'r',
        "group"@[2] == 'o',
        "group"@[3] == 'u',
        "group"@[4] == 'p',
        "group_suite"@.len() == 11,
        "group_suite"@[0] == 'g',
        "group_suite"@[1] == 'r',
        "group_suite"@[2] == 'o',
        "group_suite"@[3] == 'u',
        "group_suite"@[4] == 'p',
        "group_suite"@[5] == '_',
        "group_suite"@[6] == 's',
        "group_suite"@[7] == 'u',
        "group_suite"@[8] == 'i',
        "group_suite"@[9] == 't',
        "group_suite"@[10] == 'e',
        "help"@.len() == 4,
        "help"@[0] == 'h',
        "help"@[1] == 'e',
        "help"@[2] == 'l',
        "help"@[3] == 'p',
        "item"@.len() == 4,
        "item"@[0] == 'i',
        "item"@[1] == 't',
        "item"@[2] == 'e',
        "item"@[3] == 'm',
        "kill_extra"@.len() == 10,
        "kill_extra"@[0] == 'k',
        "kill_extra"@[1] == 'i',
        "kill_extra"@[2] == 'l',
        "kill_extra"@[3] == 'l',
        "kill_extra"@[4] == '_',
        "kill_extra"@[5] == 'e',
        "kill_extra"@[6] == 'x',
        "kill_extra"@[7] == 't',
        "kill_extra"@[8] == 'r',
        "kill_extra"@[9] == 'a',
        "level"@.len() == 5,
        "level"@[0] == 'l',
        "level"@[1] == 'e',
        "level"@[2] == 'v',
        "level"@[3] == 'e',
        "level"@[4] == 'l',
        "list"@.len() == 4,
        "list"@[0] == 'l',
        "list"@[1] == 'i',
        "list"@[2] == 's',
        "list"@[3] == 't',
        "material"@.len() == 8,
        "material"@[0] == 'm',
        "material"@[1] == 'a',
        "material"@[2] == 't',
        "material"@[3] == 'e',
        "material"@[4] == 'r',
        "material"@[5] == 'i',
        "material"@[6] == 'a',
        "material"@[7] == 'l',
        "pos"@.len() == 3,
        "pos"@[0] == 'p',
        "pos"@[1] == 'o',
        "pos"@[2] == 's',
        "promote"@.len() == 7,
        "promote"@[0] == 'p',
        "promote"@[1] == 'r',
        "promote"@[2] == 'o',
        "promote"@[3] == 'm',
        "promote"@[4] == 'o',
        "promote"@[5] == 't',
        "promote"@[6] == 'e',
        "prop"@.len() == 4,
        "prop"@[0] == 'p',
        "prop"@[1] == 'r',
        "prop"@[2] == 'o',
        "prop"@[3] == 'p',
        "quest"@.len() == 5,
        "quest"@[0] == 'q',
        "quest"@[1] == 'u',
        "quest"@[2] == 'e',
        "quest"@[3] == 's',
        "quest"@[4] == 't',
        "r"@.len() == 1,
        "r"@[0] == 'r',
        "refresh"@.len() == 7,
        "refresh"@[0] == 'r',
        "refresh"@[1] == 'e',
        "refresh"@[2] == 'f',
        "refresh"@[3] == 'r',
        "refresh"@[4] == 'e',
        "refresh"@[5] == 's',
        "refresh"@[6] == 'h',
        "reload"@.len() == 6,
        "reload"@[0] == 'r',
        "reload"@[1] == 'e',
        "reload"@[2] == 'l',
        "reload"@[3] == 'o',
        "reload"@[4] == 'a',
        "reload"@[5] == 'd',
        "remove"@.len() == 6,
        "remove"@[0] == 'r',
        "remove"@[1] == 'e',
        "remove"@[2] == 'm',
        "remove"@[3] == 'o',
        "remove"@[4] == 'v',
        "remove"@[5] == 'e',
        "remove_extra"@.len() == 12,
        "remove_extra"@[0] == 'r',
        "remove_extra"@[1] == 'e',
        "remove_extra"@[2] == 'm',
        "remove_extra"@[3] == 'o',
        "remove_extra"@[4] == 'v',
        "remove_extra"@[5] == 'e',
        "remove_extra"@[6] == '_',
        "remove_extra"@[7] == 'e',
        "remove_extra"@[8] == 'x',
        "remove_extra"@[9] == 't',
        "remove_extra"@[10] == 'r',
        "remove_extra"@[11] == 'a',
        "rename"@.len() == 6,
        "rename"@[0] == 'r',
        "rename"@[1] == 'e',
        "rename"@[2] == 'n',
        "rename"@[3] == 'a',
        "rename"@[4] == 'm',
        "rename"@[5] == 'e',
        "restart"@.len() == 7,
        "restart"@[0] == 'r',
        "restart"@[1] == 'e',
        "restart"@[2] == 's',
        "restart"@[3] == 't',
        "restart"@[4] == 'a',
        "restart"@[5] == 'r',
        "restart"@[6] == 't',
        "restart_all"@.len() == 11,
        "restart_all"@[0] == 'r',
        "restart_all"@[1] == 'e',
        "restart_all"@[2] == 's',
        "restart_all"@[3] == 't',
        "restart_all"@[4] == 'a',
        "restart_all"@[5] == 'r',
        "restart_all"@[6] == 't',
        "restart_all"@[7] == '_',
        "restart_all"@[8] == 'a',
        "restart_all"@[9] == 'l',
        "restart_all"@[10] == 'l',
        "send_packet"@.len() == 11,
        "send_packet"@[0] == 's',
        "send_packet"@[1] == 'e',
        "send_packet"@[2] == 'n',
        "send_packet"@[3] == 'd',
        "send_packet"@[4] == '_',
        "send_packet"@[5] == 'p',
        "send_packet"@[6] == 'a',
        "send_packet"@[7] == 'c',
        "send_packet"@[8] == 'k',
        "send_packet"@[9] == 'e',
        "send_packet"@[10] == 't',
        "set_state_by_entity_id"@.len() == 22,
        "set_state_by_entity_id"@[0] == 's',
        "set_state_by_entity_id"@[1] == 'e',
        "set_state_by_entity_id"@[2] == 't',
        "set_state_by_entity_id"@[3] == '_',
        "set_state_by_entity_id"@[4] == 's',
        "set_state_by_entity_id"@[5] == 't',
        "set_state_by_entity_id"@[6] == 'a',
        "set_state_by_entity_id"@[7] == 't',
        "set_state_by_entity_id"@[8] == 'e',
        "set_state_by_entity_id"@[9] == '_',
        "set_state_by_entity_id"@[10] == 'b',
        "set_state_by_entity_id"@[11] == 'y',
        "set_state_by_entity_id"@[12] == '_',
        "set_state_by_entity_id"@[13] == 'e',
        "set_state_by_entity_id"@[14] == 'n',
        "set_state_by_entity_id"@[15] == 't',
        "set_state_by_entity_id"@[16] == 'i',
        "set_state_by_entity_id"@[17] == 't',
        "set_state_by_entity_id"@[18] == 'y',
        "set_state_by_entity_id"@[19] == '_',
        "set_state_by_entity_id"@[20] == 'i',
        "set_state_by_entity_id"@[21] == 'd',
        "skill"@.len() == 5,
        "skill"@[0] == 's',
        "skill"@[1] == 'k',
        "skill"@[2] == 'i',
        "skill"@[3] == 'l',
        "skill"@[4] == 'l',
        "state"@.len() == 5,
        "state"@[0] == 's',
        "state"@[1] == 't',
        "state"@[2] == 'a',
        "state"@[3] == 't',
        "state"@[4] == 'e',
        "tp"@.len() == 2,
        "tp"@[0] == 't',
        "tp"@[1] == 'p',
        "unload"@.len() == 6,
        "unload"@[0] == 'u',
        "unload"@[1] == 'n',
        "unload"@[2] == 'l',
        "unload"@[3] == 'o',
        "unload"@[4] == 'a',
        "unload"@[5] == 'd',
        "var"@.len() == 3,
        "var"@[0] == 'v',
        "var"@[1] == 'a',
        "var"@[2] == 'r',
        "weapon"@.len() == 6,
        "weapon"@[0] == 'w',
        "weapon"@[1] == 'e',
        "weapon"@[2] == 'a',
        "weapon"@[3] == 'p',
        "weapon"@[4] == 'o',
        "weapon"@[5] == 'n',
        "weather"@.len() == 7,
        "weather"@[0] == 'w',
        "weather"@[1] == 'e',
        "weather"@[2] == 'a',
        "weather"@[3] == 't',
        "weather"@[4] == 'h',
        "weather"@[5] == 'e',
        "weather"@[6] == 'r',
{
    lemma_word_a();
    lemma_word_accept();
    lemma_word_add();
    lemma_word_add_extra();
    lemma_word_add_talent();
    lemma_word_avatar();
    lemma_word_break();
    lemma_word_buff();
    lemma_word_cancel();
    lemma_word_clear();
    lemma_word_climate();
    lemma_word_create();
    lemma_word_drop();
    lemma_word_dun();
    lemma_word_elem();
    lemma_word_fight_prop();
    lemma_word_finish();
    lemma_word_furniture();
    lemma_word_gacha();
    lemma_word_gadget();
    lemma_word_goto();
    lemma_word_group();
    lemma_word_group_suite();
    lemma_word_help();
    lemma_word_item();
    lemma_word_kill_extra();
    lemma_word_level();
    lemma_word_list();
    lemma_word_material();
    lemma_word_pos();
    lemma_word_promote();
    lemma_word_prop();
    lemma_word_quest();
    lemma_word_r();
    lemma_word_refresh();
    lemma_word_reload();
    lemma_word_remove();
    lemma_word_remove_extra();
    lemma_word_rename();
    lemma_word_restart();
    lemma_word_restart_all();
    lemma_word_send_packet();
    lemma_word_set_state_by_entity_id();
    lemma_word_skill();
    lemma_word_state();
    lemma_word_tp();
    lemma_word_unload();
    lemma_word_var();
    lemma_word_weapon();
    lemma_word_weather();
}

/// Each help entry's group is the first word of its usage.
pub proof fn law_help_group_is_first_usage_word()
    ensures
        forall|i: int|
            0 <= i < help_table().len() ==> words(#[trigger] help_table()[i].usage@).len() > 0
                && words(help_table()[i].usage@)[0] == help_table()[i].group@,
{
    assert forall|i: int| 0 <= i < help_table().len() implies words(
        #[trigger] help_table()[i].usage@,
    ).len() > 0 && words(help_table()[i].usage@)[0] == help_table()[i].group@ by {
        if i == 0 {
            lemma_entry_0();
        } else if i == 1 {
            lemma_entry_1();
        } else if i == 2 {
            lemma_entry_2();
        } else if i == 3 {
            lemma_entry_3();
        } else if i == 4 {
            lemma_entry_4();
        } else if i == 5 {
            lemma_entry_5();
        } else if i == 6 {
            lemma_entry_6();
        } else if i == 7 {
            lemma_entry_7();
        } else if i == 8 {
            lemma_entry_8();
        } else if i == 9 {
            lemma_entry_9();
        } else if i == 10 {
            lemma_entry_10();
        } else if i == 11 {
            lemma_entry_11();
        } else if i == 12 {
            lemma_entry_12();
        } else if i == 13 {
            lemma_entry_13();
        } else if i == 14 {
            lemma_entry_14();
        } else if i == 15 {
            lemma_entry_15();
        } else if i == 16 {
            lemma_entry_16();
        } else if i == 17 {
            lemma_entry_17();
        } else if i == 18 {
            lemma_entry_18();
        } else if i == 19 {
            lemma_entry_19();
        } else if i == 20 {
            lemma_entry_20();
        } else if i == 21 {
            lemma_entry_21();
        } else if i == 22 {
            lemma_entry_22();
        } else if i == 23 {
            lemma_entry_23();
        } else if i == 24 {
            lemma_entry_24();
        } else if i == 25 {
            lemma_entry_25();
        } else if i == 26 {
            lemma_entry_26();
        } else if i == 27 {
            lemma_entry_27();
        } else if i == 28 {
            lemma_entry_28();
        } else if i == 29 {
            lemma_entry_29();
        } else if i == 30 {
            lemma_entry_30();
        } else if i == 31 {
            lemma_entry_31();
        } else if i == 32 {
            lemma_entry_32();
        } else if i == 33 {
            lemma_entry_33();
        } else if i == 34 {
            lemma_entry_34();
        } else if i == 35 {
            lemma_entry_35();
        } else if i == 36 {
            lemma_entry_36();
        } else if i == 37 {
            lemma_entry_37();
        } else if i == 38 {
            lemma_entry_38();
        } else if i == 39 {
            lemma_entry_39();
        } else if i == 40 {
            lemma_entry_40();
        } else if i == 41 {
            lemma_entry_41();
        } else if i == 42 {
            lemma_entry_42();
        } else if i == 43 {
            lemma_entry_43();
        } else if i == 44 {
            lemma_entry_44();
        } else if i == 45 {
            lemma_entry_45();
        } else if i == 46 {
            lemma_entry_46();
        } else if i == 47 {
            lemma_entry_47();
        } else if i == 48 {
            lemma_entry_48();
        } else if i == 49 {
            lemma_entry_49();
        } else if i == 50 {
            lemma_entry_50();
        } else if i == 51 {
            lemma_entry_51();
        }
    }
}

/// Every command of the help table is recognised: its command words,
/// read as a command, are never answered with "unknown command" (at most
/// an argument is missing).
#[verifier::spinoff_prover]
#[verifier::rlimit(60)]
pub proof fn law_help_commands_are_recognised()
    ensures
        forall|i: int|
            0 <= i < help_table().len() ==> !is_unknown_command(
                parse_words_spec(command_path(#[trigger] help_table()[i])),
            ),
{
    assert forall|i: int| 0 <= i < help_table().len() implies !is_unknown_command(
        parse_words_spec(command_path(#[trigger] help_table()[i])),
    ) by {
        if i == 0 {
            lemma_entry_parses_0();
        } else if i == 1 {
            lemma_entry_parses_1();
        } else if i == 2 {
            lemma_entry_parses_2();
        } else if i == 3 {
            lemma_entry_parses_3();
        } else if i == 4 {
            lemma_entry_parses_4();
        } else if i == 5 {
            lemma_entry_parses_5();
        } else if i == 6 {
            lemma_entry_parses_6();
        } else if i == 7 {
            lemma_entry_parses_7();
        } else if i == 8 {
            lemma_entry_parses_8();
        } else if i == 9 {
            lemma_entry_parses_9();
        } else if i == 10 {
            lemma_entry_parses_10();
        } else if i == 11 {
            lemma_entry_parses_11();
        } else if i == 12 {
            lemma_entry_parses_12();
        } else if i == 13 {
            lemma_entry_parses_13();
        } else if i == 14 {
            lemma_entry_parses_14();
        } else if i == 15 {
            lemma_entry_parses_15();
        } else if i == 16 {
            lemma_entry_parses_16();
        } else if i == 17 {
            lemma_entry_parses_17();
        } else if i == 18 {
            lemma_entry_parses_18();
        } else if i == 19 {
            lemma_entry_parses_19();
        } else if i == 20 {
            lemma_entry_parses_20();
        } else if i == 21 {
            lemma_entry_parses_21();
        } else if i == 22 {
            lemma_entry_parses_22();
        } else if i == 23 {
            lemma_entry_parses_23();
        } else if i == 24 {
            lemma_entry_parses_24();
        } else if i == 25 {
            lemma_entry_parses_25();
        } else if i == 26 {
            lemma_entry_parses_26();
        } else if i == 27 {
            lemma_entry_parses_27();
        } else if i == 28 {
            lemma_entry_parses_28();
        } else if i == 29 {
            lemma_entry_parses_29();
        } else if i == 30 {
            lemma_entry_parses_30();
        } else if i == 31 {
            lemma_entry_parses_31();
        } else if i == 32 {
            lemma_entry_parses_32();
        } else if i == 33 {
            lemma_entry_parses_33();
        } else if i == 34 {
            lemma_entry_parses_34();
        } else if i == 35 {
            lemma_entry_parses_35();
        } else if i == 36 {
            lemma_entry_parses_36();
        } else if i == 37 {
            lemma_entry_parses_37();
        } else if i == 38 {
            lemma_entry_parses_38();
        } else if i == 39 {
            lemma_entry_parses_39();
        } else if i == 40 {
            lemma_entry_parses_40();
        } else if i == 41 {
            lemma_entry_parses_41();
        } else if i == 42 {
            lemma_entry_parses_42();
        } else if i == 43 {
            lemma_entry_parses_43();
        } else if i == 44 {
            lemma_entry_parses_44();
        } else if i == 45 {
            lemma_entry_parses_45();
        } else if i == 46 {
            lemma_entry_parses_46();
        } else if i == 47 {
            lemma_entry_parses_47();
        } else if i == 48 {
            lemma_entry_parses_48();
        } else if i == 49 {
            lemma_entry_parses_49();
        } else if i == 50 {
            lemma_entry_parses_50();
        } else if i == 51 {
            lemma_entry_parses_51();
        }
    }
}

/// The accepted `avatar ...` commands begin with the command words of a help entry.
proof fn lemma_listed_avatar(w: Seq<Seq<char>>)
    requires
        w.len() >= 2,
        w[0] == "avatar"@,
        avatar_spec(w) is Ok,
    ensures
        exists|i: int|
            0 <= i < help_table().len() && #[trigger] command_path(help_table()[i]).is_prefix_of(w),
{
    if w[1] == "add"@ {
        lemma_entry_0();
        assert(w.subrange(0, 2) =~= seq!["avatar"@, "add"@]);
        assert(command_path(help_table()[0]).is_prefix_of(w));
    } else if w[1] == "remove"@ {
        lemma_entry_1();
        assert(w.subrange(0, 2) =~= seq!["avatar"@, "remove"@]);
        assert(command_path(help_table()[1]).is_prefix_of(w));
    } else if w[1] == "rename"@ {
        lemma_entry_2();
        assert(w.subrange(0, 2) =~= seq!["avatar"@, "rename"@]);
        assert(command_path(help_table()[2]).is_prefix_of(w));
    } else if w[1] == "level"@ {
        lemma_entry_3();
        assert(w.subrange(0, 2) =~= seq!["avatar"@, "level"@]);
        assert(command_path(help_table()[3]).is_prefix_of(w));
    } else if w[1] == "break"@ {
        lemma_entry_4();
        assert(w.subrange(0, 2) =~= seq!["avatar"@, "break"@]);
        assert(command_path(help_table()[4]).is_prefix_of(w));
    } else if w[1] == "add_talent"@ {
        lemma_entry_5();
        assert(w.subrange(0, 2) =~= seq!["avatar"@, "add_talent"@]);
        assert(command_path(help_table()[5]).is_prefix_of(w));
    } else if w[1] == "skill"@ {
        lemma_entry_6();
        assert(w.subrange(0, 2) =~= seq!["avatar"@, "skill"@]);
        assert(command_path(help_table()[6]).is_prefix_of(w));
    } else if w[1] == "elem"@ {
        lemma_entry_7();
        assert(w.subrange(0, 2) =~= seq!["avatar"@, "elem"@]);
        assert(command_path(help_table()[7]).is_prefix_of(w));
    } else if w[1] == "fight_prop"@ {
        lemma_entry_8();
        assert(w.subrange(0, 2) =~= seq!["avatar"@, "fight_prop"@]);
        assert(command_path(help_table()[8]).is_prefix_of(w));
    }
}

/// The accepted `buff ...` commands begin with the command words of a help entry.
proof fn lemma_listed_buff(w: Seq<Seq<char>>)
    requires
        w.len() >= 2,
        w[0] == "buff"@,
        buff_spec(w) is Ok,
    ensures
        exists|i: int|
            0 <= i < help_table().len() && #[trigger] command_path(help_table()[i]).is_prefix_of(w),
{
    if w[1] == "add"@ {
        lemma_entry_9();
        assert(w.subrange(0, 2) =~= seq!["buff"@, "add"@]);
        assert(command_path(help_table()[9]).is_prefix_of(w));
    } else if w[1] == "clear"@ {
        lemma_entry_10();
        assert(w.subrange(0, 2) =~= seq!["buff"@, "clear"@]);
        assert(command_path(help_table()[10]).is_prefix_of(w));
    } else if w[1] == "list"@ {
        lemma_entry_11();
        assert(w.subrange(0, 2) =~= seq!["buff"@, "list"@]);
        assert(command_path(help_table()[11]).is_prefix_of(w));
    }
}

/// The accepted `item ...` commands begin with the command words of a help entry.
proof fn lemma_listed_item(w: Seq<Seq<char>>)
    requires
        w.len() >= 2,
        w[0] == "item"@,
        item_spec(w) is Ok,
    ensures
        exists|i: int|
            0 <= i < help_table().len() && #[trigger] command_path(help_table()[i]).is_prefix_of(w),
{
    if w[1] == "add"@ {
        lemma_entry_12();
        assert(w.subrange(0, 2) =~= seq!["item"@, "add"@]);
        assert(command_path(help_table()[12]).is_prefix_of(w));
    } else if w[1] == "clear"@ {
        lemma_entry_16();
        assert(w.subrange(0, 2) =~= seq!["item"@, "clear"@]);
        assert(command_path(help_table()[16]).is_prefix_of(w));
    } else if w[1] == "drop"@ {
        lemma_entry_17();
        assert(w.subrange(0, 2) =~= seq!["item"@, "drop"@]);
        assert(command_path(help_table()[17]).is_prefix_of(w));
    }
}

/// The accepted `weapon ...` commands begin with the command words of a help entry.
proof fn lemma_listed_weapon(w: Seq<Seq<char>>)
    requires
        w.len() >= 2,
        w[0] == "weapon"@,
        weapon_spec(w) is Ok,
    ensures
        exists|i: int|
            0 <= i < help_table().len() && #[trigger] command_path(help_table()[i]).is_prefix_of(w),
{
    if w[1] == "level"@ {
        lemma_entry_18();
        assert(w.subrange(0, 2) =~= seq!["weapon"@, "level"@]);
        assert(command_path(help_table()[18]).is_prefix_of(w));
    } else if w[1] == "break"@ {
        lemma_entry_19();
        assert(w.subrange(0, 2) =~= seq!["weapon"@, "break"@]);
        assert(command_path(help_table()[19]).is_prefix_of(w));
    } else if w[1] == "promote"@ {
        lemma_entry_20();
        assert(w.subrange(0, 2) =~= seq!["weapon"@, "promote"@]);
        assert(command_path(help_table()[20]).is_prefix_of(w));
    }
}

/// The accepted `quest ...` commands begin with the command words of a help entry.
proof fn lemma_listed_quest(w: Seq<Seq<char>>)
    requires
        w.len() >= 2,
        w[0] == "quest"@,
        quest_spec(w) is Ok,
    ensures
        exists|i: int|
            0 <= i < help_table().len() && #[trigger] command_path(help_table()[i]).is_prefix_of(w),
{
    if w[1] == "accept"@ {
        lemma_entry_21();
        assert(w.subrange(0, 2) =~= seq!["quest"@, "accept"@]);
        assert(command_path(help_table()[21]).is_prefix_of(w));
    } else if w[1] == "finish"@ {
        lemma_entry_23();
        assert(w.subrange(0, 2) =~= seq!["quest"@, "finish"@]);
        assert(command_path(help_table()[23]).is_prefix_of(w));
    } else if w[1] == "cancel"@ {
        lemma_entry_22();
        assert(w.subrange(0, 2) =~= seq!["quest"@, "cancel"@]);
        assert(command_path(help_table()[22]).is_prefix_of(w));
    } else if w[1] == "clear"@ {
        lemma_entry_26();
        assert(w.subrange(0, 2) =~= seq!["quest"@, "clear"@]);
        assert(command_path(help_table()[26]).is_prefix_of(w));
    } else if w[1] == "state"@ {
        lemma_entry_27();
        assert(w.subrange(0, 2) =~= seq!["quest"@, "state"@]);
        assert(command_path(help_table()[27]).is_prefix_of(w));
    } else if w[1] == "restart"@ {
        lemma_entry_24();
        assert(w.subrange(0, 2) =~= seq!["quest"@, "restart"@]);
        assert(command_path(help_table()[24]).is_prefix_of(w));
    } else if w[1] == "restart_all"@ {
        lemma_entry_25();
        assert(w.subrange(0, 2) =~= seq!["quest"@, "restart_all"@]);
        assert(command_path(help_table()[25]).is_prefix_of(w));
    } else if w[1] == "var"@ {
        lemma_entry_28();
        assert(w.subrange(0, 2) =~= seq!["quest"@, "var"@]);
        assert(command_path(help_table()[28]).is_prefix_of(w));
    }
}

/// The accepted `gadget ...` commands begin with the command words of a help entry.
proof fn lemma_listed_gadget(w: Seq<Seq<char>>)
    requires
        w.len() >= 2,
        w[0] == "gadget"@,
        gadget_spec(w) is Ok,
    ensures
        exists|i: int|
            0 <= i < help_table().len() && #[trigger] command_path(help_table()[i]).is_prefix_of(w),
{
    if w[1] == "create"@ {
        lemma_entry_29();
        assert(w.subrange(0, 2) =~= seq!["gadget"@, "create"@]);
        assert(command_path(help_table()[29]).is_prefix_of(w));
    } else if w[1] == "remove"@ {
        lemma_entry_30();
        assert(w.subrange(0, 2) =~= seq!["gadget"@, "remove"@]);
        assert(command_path(help_table()[30]).is_prefix_of(w));
    } else if w[1] == "state"@ {
        lemma_entry_31();
        assert(w.subrange(0, 2) =~= seq!["gadget"@, "state"@]);
        assert(command_path(help_table()[31]).is_prefix_of(w));
    } else if w[1] == "set_state_by_entity_id"@ {
        lemma_entry_32();
        assert(w.subrange(0, 2) =~= seq!["gadget"@, "set_state_by_entity_id"@]);
        assert(command_path(help_table()[32]).is_prefix_of(w));
    }
}

/// The accepted `group ...` commands begin with the command words of a help entry.
proof fn lemma_listed_group(w: Seq<Seq<char>>)
    requires
        w.len() >= 2,
        w[0] == "group"@,
        group_spec(w) is Ok,
    ensures
        exists|i: int|
            0 <= i < help_table().len() && #[trigger] command_path(help_table()[i]).is_prefix_of(w),
{
    if w[1] == "refresh"@ {
        lemma_entry_33();
        assert(w.subrange(0, 2) =~= seq!["group"@, "refresh"@]);
        assert(command_path(help_table()[33]).is_prefix_of(w));
    } else if w[1] == "unload"@ {
        lemma_entry_35();
        assert(w.subrange(0, 2) =~= seq!["group"@, "unload"@]);
        assert(command_path(help_table()[35]).is_prefix_of(w));
    } else if w[1] == "reload"@ {
        lemma_entry_34();
        assert(w.subrange(0, 2) =~= seq!["group"@, "reload"@]);
        assert(command_path(help_table()[34]).is_prefix_of(w));
    } else if w[1] == "clear"@ {
        lemma_entry_36();
        assert(w.subrange(0, 2) =~= seq!["group"@, "clear"@]);
        assert(command_path(help_table()[36]).is_prefix_of(w));
    }
}

/// The accepted `group_suite ...` commands begin with the command words of a help entry.
proof fn lemma_listed_group_suite(w: Seq<Seq<char>>)
    requires
        w.len() >= 2,
        w[0] == "group_suite"@,
        group_suite_spec(w) is Ok,
    ensures
        exists|i: int|
            0 <= i < help_table().len() && #[trigger] command_path(help_table()[i]).is_prefix_of(w),
{
    if w[1] == "add_extra"@ {
        lemma_entry_38();
        assert(w.subrange(0, 2) =~= seq!["group_suite"@, "add_extra"@]);
        assert(command_path(help_table()[38]).is_prefix_of(w));
    } else if w[1] == "remove_extra"@ {
        lemma_entry_39();
        assert(w.subrange(0, 2) =~= seq!["group_suite"@, "remove_extra"@]);
        assert(command_path(help_table()[39]).is_prefix_of(w));
    } else if w[1] == "kill_extra"@ {
        lemma_entry_40();
        assert(w.subrange(0, 2) =~= seq!["group_suite"@, "kill_extra"@]);
        assert(command_path(help_table()[40]).is_prefix_of(w));
    } else if w[1] == "goto"@ {
        lemma_entry_37();
        assert(w.subrange(0, 2) =~= seq!["group_suite"@, "goto"@]);
        assert(command_path(help_table()[37]).is_prefix_of(w));
    }
}

/// The accepted `tp ...` commands begin with the command words of a help entry.
proof fn lemma_listed_tp(w: Seq<Seq<char>>)
    requires
        w.len() >= 2,
        w[0] == "tp"@,
        tp_pair_spec(w) is Ok,
    ensures
        exists|i: int|
            0 <= i < help_table().len() && #[trigger] command_path(help_table()[i]).is_prefix_of(w),
{
    if w[1] == "a"@ {
        lemma_entry_41();
        assert(w.subrange(0, 2) =~= seq!["tp"@, "a"@]);
        assert(command_path(help_table()[41]).is_prefix_of(w));
    } else if w[1] == "r"@ {
        lemma_entry_42();
        assert(w.subrange(0, 2) =~= seq!["tp"@, "r"@]);
        assert(command_path(help_table()[42]).is_prefix_of(w));
    }
}

/// The accepted `gacha ...` commands begin with the command words of a help entry.
proof fn lemma_listed_gacha(w: Seq<Seq<char>>)
    requires
        w.len() >= 2,
        w[0] == "gacha"@,
        gacha_spec(w) is Ok,
    ensures
        exists|i: int|
            0 <= i < help_table().len() && #[trigger] command_path(help_table()[i]).is_prefix_of(w),
{
    if w[1] == "add"@ {
        lemma_entry_43();
        assert(w.subrange(0, 2) =~= seq!["gacha"@, "add"@]);
        assert(command_path(help_table()[43]).is_prefix_of(w));
    } else if w[1] == "clear"@ {
        lemma_entry_44();
        assert(w.subrange(0, 2) =~= seq!["gacha"@, "clear"@]);
        assert(command_path(help_table()[44]).is_prefix_of(w));
    }
}

/// Every command that `parse_command` accepts begins with the command
/// words of some entry of the help table.
pub proof fn law_accepted_commands_are_listed(w: Seq<Seq<char>>)
    requires
        parse_words_spec(w) is Ok,
    ensures
        exists|i: int|
            0 <= i < help_table().len() && #[trigger] command_path(help_table()[i]).is_prefix_of(w),
{
    if w.len() == 0 {
    } else if w[0] == "prop"@ {
        lemma_entry_49();
        assert(w.subrange(0, 1) =~= seq!["prop"@]);
        assert(command_path(help_table()[49]).is_prefix_of(w));
    } else if w[0] == "send_packet"@ {
        lemma_entry_50();
        assert(w.subrange(0, 1) =~= seq!["send_packet"@]);
        assert(command_path(help_table()[50]).is_prefix_of(w));
    } else if w[0] == "dun"@ {
        lemma_entry_47();
        assert(w.subrange(0, 1) =~= seq!["dun"@]);
        assert(command_path(help_table()[47]).is_prefix_of(w));
    } else if w[0] == "pos"@ {
        lemma_entry_48();
        assert(w.subrange(0, 1) =~= seq!["pos"@]);
        assert(command_path(help_table()[48]).is_prefix_of(w));
    } else if w[0] == "help"@ {
        lemma_entry_51();
        assert(w.subrange(0, 1) =~= seq!["help"@]);
        assert(command_path(help_table()[51]).is_prefix_of(w));
    } else if w[0] == "weather"@ {
        lemma_entry_45();
        assert(w.subrange(0, 1) =~= seq!["weather"@]);
        assert(command_path(help_table()[45]).is_prefix_of(w));
    } else if w[0] == "climate"@ {
        lemma_entry_46();
        assert(w.subrange(0, 1) =~= seq!["climate"@]);
        assert(command_path(help_table()[46]).is_prefix_of(w));
    } else if w.len() < 2 {
    } else if w[0] == "avatar"@ {
        lemma_listed_avatar(w);
    } else if w[0] == "buff"@ {
        lemma_listed_buff(w);
    } else if w[0] == "item"@ {
        lemma_listed_item(w);
    } else if w[0] == "weapon"@ {
        lemma_listed_weapon(w);
    } else if w[0] == "quest"@ {
        lemma_listed_quest(w);
    } else if w[0] == "gadget"@ {
        lemma_listed_gadget(w);
    } else if w[0] == "group"@ {
        lemma_listed_group(w);
    } else if w[0] == "group_suite"@ {
        lemma_listed_group_suite(w);
    } else if w[0] == "tp"@ {
        lemma_listed_tp(w);
    } else if w[0] == "gacha"@ {
        lemma_listed_gacha(w);
    }
}

/// `help avatar` lists help entry 0.
proof fn lemma_entry_topic_0()
    ensures
        words(help_table()[0].usage@).len() > 0,
        words(help_table()[0].usage@)[0] == help_table()[0].group@,
        help_topic_text(help_table(), words(help_table()[0].usage@)[0]) == trim_end(
            topic_lines(help_table(), topic_key(words(help_table()[0].usage@)[0])),
        ),
        occurs_in(
            entry_lines(help_table()[0]),
            topic_lines(help_table(), topic_key(words(help_table()[0].usage@)[0])),
        ),
{
    lemma_entry_0();
    lemma_word_avatar();
    lemma_topic_key_plain("avatar"@);
    assert(help_table()[0].group@ == "avatar"@);
    assert(has_group(help_table(), topic_key("avatar"@)));
    law_help_topic_lists_whole_group(help_table(), "avatar"@);
    assert(occurs_in(entry_lines(help_table()[0]), topic_lines(help_table(), topic_key("avatar"@))));
}

/// `help avatar` lists help entry 1.
proof fn lemma_entry_topic_1()
    ensures
        words(help_table()[1].usage@).len() > 0,
        words(help_table()[1].usage@)[0] == help_table()[1].group@,
        help_topic_text(help_table(), words(help_table()[1].usage@)[0]) == trim_end(
            topic_lines(help_table(), topic_key(words(help_table()[1].usage@)[0])),
        ),
        occurs_in(
            entry_lines(help_table()[1]),
            topic_lines(help_table(), topic_key(words(help_table()[1].usage@)[0])),
        ),
{
    lemma_entry_1();
    lemma_word_avatar();
    lemma_topic_key_plain("avatar"@);
    assert(help_table()[1].group@ == "avatar"@);
    assert(has_group(help_table(), topic_key("avatar"@)));
    law_help_topic_lists_whole_group(help_table(), "avatar"@);
    assert(occurs_in(entry_lines(help_table()[1]), topic_lines(help_table(), topic_key("avatar"@))));
}

/// `help avatar` lists help entry 2.
proof fn lemma_entry_topic_2()
    ensures
        words(help_table()[2].usage@).len() > 0,
        words(help_table()[2].usage@)[0] == help_table()[2].group@,
        help_topic_text(help_table(), words(help_table()[2].usage@)[0]) == trim_end(
            topic_lines(help_table(), topic_key(words(help_table()[2].usage@)[0])),
        ),
        occurs_in(
            entry_lines(help_table()[2]),
            topic_lines(help_table(), topic_key(words(help_table()[2].usage@)[0])),
        ),
{
    lemma_entry_2();
    lemma_word_avatar();
    lemma_topic_key_plain("avatar"@);
    assert(help_table()[2].group@ == "avatar"@);
    assert(has_group(help_table(), topic_key("avatar"@)));
    law_help_topic_lists_whole_group(help_table(), "avatar"@);
    assert(occurs_in(entry_lines(help_table()[2]), topic_lines(help_table(), topic_key("avatar"@))));
}

/// `help avatar` lists help entry 3.
proof fn lemma_entry_topic_3()
    ensures
        words(help_table()[3].usage@).len() > 0,
        words(help_table()[3].usage@)[0] == help_table()[3].group@,
        help_topic_text(help_table(), words(help_table()[3].usage@)[0]) == trim_end(
            topic_lines(help_table(), topic_key(words(help_table()[3].usage@)[0])),
        ),
        occurs_in(
            entry_lines(help_table()[3]),
            topic_lines(help_table(), topic_key(words(help_table()[3].usage@)[0])),
        ),
{
    lemma_entry_3();
    lemma_word_avatar();
    lemma_topic_key_plain("avatar"@);
    assert(help_table()[3].group@ == "avatar"@);
    assert(has_group(help_table(), topic_key("avatar"@)));
    law_help_topic_lists_whole_group(help_table(), "avatar"@);
    assert(occurs_in(entry_lines(help_table()[3]), topic_lines(help_table(), topic_key("avatar"@))));
}

/// `help avatar` lists help entry 4.
proof fn lemma_entry_topic_4()
    ensures
        words(help_table()[4].usage@).len() > 0,
        words(help_table()[4].usage@)[0] == help_table()[4].group@,
        help_topic_text(help_table(), words(help_table()[4].usage@)[0]) == trim_end(
            topic_lines(help_table(), topic_key(words(help_table()[4].usage@)[0])),
        ),
        occurs_in(
            entry_lines(help_table()[4]),
            topic_lines(help_table(), topic_key(words(help_table()[4].usage@)[0])),
        ),
{
    lemma_entry_4();
    lemma_word_avatar();
    lemma_topic_key_plain("avatar"@);
    assert(help_table()[4].group@ == "avatar"@);
    assert(has_group(help_table(), topic_key("avatar"@)));
    law_help_topic_lists_whole_group(help_table(), "avatar"@);
    assert(occurs_in(entry_lines(help_table()[4]), topic_lines(help_table(), topic_key("avatar"@))));
}

/// `help avatar` lists help entry 5.
proof fn lemma_entry_topic_5()
    ensures
        words(help_table()[5].usage@).len() > 0,
        words(help_table()[5].usage@)[0] == help_table()[5].group@,
        help_topic_text(help_table(), words(help_table()[5].usage@)[0]) == trim_end(
            topic_lines(help_table(), topic_key(words(help_table()[5].usage@)[0])),
        ),
        occurs_in(
            entry_lines(help_table()[5]),
            topic_lines(help_table(), topic_key(words(help_table()[5].usage@)[0])),
        ),
{
    lemma_entry_5();
    lemma_word_avatar();
    lemma_topic_key_plain("avatar"@);
    assert(help_table()[5].group@ == "avatar"@);
    assert(has_group(help_table(), topic_key("avatar"@)));
    law_help_topic_lists_whole_group(help_table(), "avatar"@);
    assert(occurs_in(entry_lines(help_table()[5]), topic_lines(help_table(), topic_key("avatar"@))));
}

/// `help avatar` lists help entry 6.
proof fn lemma_entry_topic_6()
    ensures
        words(help_table()[6].usage@).len() > 0,
        words(help_table()[6].usage@)[0] == help_table()[6].group@,
        help_topic_text(help_table(), words(help_table()[6].usage@)[0]) == trim_end(
            topic_lines(help_table(), topic_key(words(help_table()[6].usage@)[0])),
        ),
        occurs_in(
            entry_lines(help_table()[6]),
            topic_lines(help_table(), topic_key(words(help_table()[6].usage@)[0])),
        ),
{
    lemma_entry_6();
    lemma_word_avatar();
    lemma_topic_key_plain("avatar"@);
    assert(help_table()[6].group@ == "avatar"@);
    assert(has_group(help_table(), topic_key("avatar"@)));
    law_help_topic_lists_whole_group(help_table(), "avatar"@);
    assert(occurs_in(entry_lines(help_table()[6]), topic_lines(help_table(), topic_key("avatar"@))));
}

/// `help avatar` lists help entry 7.
proof fn lemma_entry_topic_7()
    ensures
        words(help_table()[7].usage@).len() > 0,
        words(help_table()[7].usage@)[0] == help_table()[7].group@,
        help_topic_text(help_table(), words(help_table()[7].usage@)[0]) == trim_end(
            topic_lines(help_table(), topic_key(words(help_table()[7].usage@)[0])),
        ),
        occurs_in(
            entry_lines(help_table()[7]),
            topic_lines(help_table(), topic_key(words(help_table()[7].usage@)[0])),
        ),
{
    lemma_entry_7();
    lemma_word_avatar();
    lemma_topic_key_plain("avatar"@);
    assert(help_table()[7].group@ == "avatar"@);
    assert(has_group(help_table(), topic_key("avatar"@)));
    law_help_topic_lists_whole_group(help_table(), "avatar"@);
    assert(occurs_in(entry_lines(help_table()[7]), topic_lines(help_table(), topic_key("avatar"@))));
}

/// `help avatar` lists help entry 8.
proof fn lemma_entry_topic_8()
    ensures
        words(help_table()[8].usage@).len() > 0,
        words(help_table()[8].usage@)[0] == help_table()[8].group@,
        help_topic_text(help_table(), words(help_table()[8].usage@)[0]) == trim_end(
            topic_lines(help_table(), topic_key(words(help_table()[8].usage@)[0])),
        ),
        occurs_in(
            entry_lines(help_table()[8]),
            topic_lines(help_table(), topic_key(words(help_table()[8].usage@)[0])),
        ),
{
    lemma_entry_8();
    lemma_word_avatar();
    lemma_topic_key_plain("avatar"@);
    assert(help_table()[8].group@ == "avatar"@);
    assert(has_group(help_table(), topic_key("avatar"@)));
    law_help_topic_lists_whole_group(help_table(), "avatar"@);
    assert(occurs_in(entry_lines(help_table()[8]), topic_lines(help_table(), topic_key("avatar"@))));
}

/// `help buff` lists help entry 9.
proof fn lemma_entry_topic_9()
    ensures
        words(help_table()[9].usage@).len() > 0,
        words(help_table()[9].usage@)[0] == help_table()[9].group@,
        help_topic_text(help_table(), words(help_table()[9].usage@)[0]) == trim_end(
            topic_lines(help_table(), topic_key(words(help_table()[9].usage@)[0])),
        ),
        occurs_in(
            entry_lines(help_table()[9]),
            topic_lines(help_table(), topic_key(words(help_table()[9].usage@)[0])),
        ),
{
    lemma_entry_9();
    lemma_word_buff();
    lemma_topic_key_plain("buff"@);
    assert(help_table()[9].group@ == "buff"@);
    assert(has_group(help_table(), topic_key("buff"@)));
    law_help_topic_lists_whole_group(help_table(), "buff"@);
    assert(occurs_in(entry_lines(help_table()[9]), topic_lines(help_table(), topic_key("buff"@))));
}

/// `help buff` lists help entry 10.
proof fn lemma_entry_topic_10()
    ensures
        words(help_table()[10].usage@).len() > 0,
        words(help_table()[10].usage@)[0] == help_table()[10].group@,
        help_topic_text(help_table(), words(help_table()[10].usage@)[0]) == trim_end(
            topic_lines(help_table(), topic_key(words(help_table()[10].usage@)[0])),
        ),
        occurs_in(
            entry_lines(help_table()[10]),
            topic_lines(help_table(), topic_key(words(help_table()[10].usage@)[0])),
        ),
{
    lemma_entry_10();
    lemma_word_buff();
    lemma_topic_key_plain("buff"@);
    assert(help_table()[10].group@ == "buff"@);
    assert(has_group(help_table(), topic_key("buff"@)));
    law_help_topic_lists_whole_group(help_table(), "buff"@);
    assert(occurs_in(entry_lines(help_table()[10]), topic_lines(help_table(), topic_key("buff"@))));
}

/// `help buff` lists help entry 11.
proof fn lemma_entry_topic_11()
    ensures
        words(help_table()[11].usage@).len() > 0,
        words(help_table()[11].usage@)[0] == help_table()[11].group@,
        help_topic_text(help_table(), words(help_table()[11].usage@)[0]) == trim_end(
            topic_lines(help_table(), topic_key(words(help_table()[11].usage@)[0])),
        ),
        occurs_in(
            entry_lines(help_table()[11]),
            topic_lines(help_table(), topic_key(words(help_table()[11].usage@)[0])),
        ),
{
    lemma_entry_11();
    lemma_word_buff();
    lemma_topic_key_plain("buff"@);
    assert(help_table()[11].group@ == "buff"@);
    assert(has_group(help_table(), topic_key("buff"@)));
    law_help_topic_lists_whole_group(help_table(), "buff"@);
    assert(occurs_in(entry_lines(help_table()[11]), topic_lines(help_table(), topic_key("buff"@))));
}

/// `help item` lists help entry 12.
proof fn lemma_entry_topic_12()
    ensures
        words(help_table()[12].usage@).len() > 0,
        words(help_table()[12].usage@)[0] == help_table()[12].group@,
        help_topic_text(help_table(), words(help_table()[12].usage@)[0]) == trim_end(
            topic_lines(help_table(), topic_key(words(help_table()[12].usage@)[0])),
        ),
        occurs_in(
            entry_lines(help_table()[12]),
            topic_lines(help_table(), topic_key(words(help_table()[12].usage@)[0])),
        ),
{
    lemma_entry_12();
    lemma_word_item();
    lemma_topic_key_plain("item"@);
    assert(help_table()[12].group@ == "item"@);
    assert(has_group(help_table(), topic_key("item"@)));
    law_help_topic_lists_whole_group(help_table(), "item"@);
    assert(occurs_in(entry_lines(help_table()[12]), topic_lines(help_table(), topic_key("item"@))));
}

/// `help item` lists help entry 13.
proof fn lemma_entry_topic_13()
    ensures
        words(help_table()[13].usage@).len() > 0,
        words(help_table()[13].usage@)[0] == help_table()[13].group@,
        help_topic_text(help_table(), words(help_table()[13].usage@)[0]) == trim_end(
            topic_lines(help_table(), topic_key(words(help_table()[13].usage@)[0])),
        ),
        occurs_in(
            entry_lines(help_table()[13]),
            topic_lines(help_table(), topic_key(words(help_table()[13].usage@)[0])),
        ),
{
    lemma_entry_13();
    lemma_word_item();
    lemma_topic_key_plain("item"@);
    assert(help_table()[13].group@ == "item"@);
    assert(has_group(help_table(), topic_key("item"@)));
    law_help_topic_lists_whole_group(help_table(), "item"@);
    assert(occurs_in(entry_lines(help_table()[13]), topic_lines(help_table(), topic_key("item"@))));
}

/// `help item` lists help entry 14.
proof fn lemma_entry_topic_14()
    ensures
        words(help_table()[14].usage@).len() > 0,
        words(help_table()[14].usage@)[0] == help_table()[14].group@,
        help_topic_text(help_table(), words(help_table()[14].usage@)[0]) == trim_end(
            topic_lines(help_table(), topic_key(words(help_table()[14].usage@)[0])),
        ),
        occurs_in(
            entry_lines(help_table()[14]),
            topic_lines(help_table(), topic_key(words(help_table()[14].usage@)[0])),
        ),
{
    lemma_entry_14();
    lemma_word_item();
    lemma_topic_key_plain("item"@);
    assert(help_table()[14].group@ == "item"@);
    assert(has_group(help_table(), topic_key("item"@)));
    law_help_topic_lists_whole_group(help_table(), "item"@);
    assert(occurs_in(entry_lines(help_table()[14]), topic_lines(help_table(), topic_key("item"@))));
}

/// `help item` lists help entry 15.
proof fn lemma_entry_topic_15()
    ensures
        words(help_table()[15].usage@).len() > 0,
        words(help_table()[15].usage@)[0] == help_table()[15].group@,
        help_topic_text(help_table(), words(help_table()[15].usage@)[0]) == trim_end(
            topic_lines(help_table(), topic_key(words(help_table()[15].usage@)[0])),
        ),
        occurs_in(
            entry_lines(help_table()[15]),
            topic_lines(help_table(), topic_key(words(help_table()[15].usage@)[0])),
        ),
{
    lemma_entry_15();
    lemma_word_item();
    lemma_topic_key_plain("item"@);
    assert(help_table()[15].group@ == "item"@);
    assert(has_group(help_table(), topic_key("item"@)));
    law_help_topic_lists_whole_group(help_table(), "item"@);
    assert(occurs_in(entry_lines(help_table()[15]), topic_lines(help_table(), topic_key("item"@))));
}

/// `help item` lists help entry 16.
proof fn lemma_entry_topic_16()
    ensures
        words(help_table()[16].usage@).len() > 0,
        words(help_table()[16].usage@)[0] == help_table()[16].group@,
        help_topic_text(help_table(), words(help_table()[16].usage@)[0]) == trim_end(
            topic_lines(help_table(), topic_key(words(help_table()[16].usage@)[0])),
        ),
        occurs_in(
            entry_lines(help_table()[16]),
            topic_lines(help_table(), topic_key(words(help_table()[16].usage@)[0])),
        ),
{
    lemma_entry_16();
    lemma_word_item();
    lemma_topic_key_plain("item"@);
    assert(help_table()[16].group@ == "item"@);
    assert(has_group(help_table(), topic_key("item"@)));
    law_help_topic_lists_whole_group(help_table(), "item"@);
    assert(occurs_in(entry_lines(help_table()[16]), topic_lines(help_table(), topic_key("item"@))));
}

/// `help item` lists help entry 17.
proof fn lemma_entry_topic_17()
    ensures
        words(help_table()[17].usage@).len() > 0,
        words(help_table()[17].usage@)[0] == help_table()[17].group@,
        help_topic_text(help_table(), words(help_table()[17].usage@)[0]) == trim_end(
            topic_lines(help_table(), topic_key(words(help_table()[17].usage@)[0])),
        ),
        occurs_in(
            entry_lines(help_table()[17]),
            topic_lines(help_table(), topic_key(words(help_table()[17].usage@)[0])),
        ),
{
    lemma_entry_17();
    lemma_word_item();
    lemma_topic_key_plain("item"@);
    assert(help_table()[17].group@ == "item"@);
    assert(has_group(help_table(), topic_key("item"@)));
    law_help_topic_lists_whole_group(help_table(), "item"@);
    assert(occurs_in(entry_lines(help_table()[17]), topic_lines(help_table(), topic_key("item"@))));
}

/// `help weapon` lists help entry 18.
proof fn lemma_entry_topic_18()
    ensures
        words(help_table()[18].usage@).len() > 0,
        words(help_table()[18].usage@)[0] == help_table()[18].group@,
        help_topic_text(help_table(), words(help_table()[18].usage@)[0]) == trim_end(
            topic_lines(help_table(), topic_key(words(help_table()[18].usage@)[0])),
        ),
        occurs_in(
            entry_lines(help_table()[18]),
            topic_lines(help_table(), topic_key(words(help_table()[18].usage@)[0])),
        ),
{
    lemma_entry_18();
    lemma_word_weapon();
    lemma_topic_key_plain("weapon"@);
    assert(help_table()[18].group@ == "weapon"@);
    assert(has_group(help_table(), topic_key("weapon"@)));
    law_help_topic_lists_whole_group(help_table(), "weapon"@);
    assert(occurs_in(entry_lines(help_table()[18]), topic_lines(help_table(), topic_key("weapon"@))));
}

/// `help weapon` lists help entry 19.
proof fn lemma_entry_topic_19()
    ensures
        words(help_table()[19].usage@).len() > 0,
        words(help_table()[19].usage@)[0] == help_table()[19].group@,
        help_topic_text(help_table(), words(help_table()[19].usage@)[0]) == trim_end(
            topic_lines(help_table(), topic_key(words(help_table()[19].usage@)[0])),
        ),
        occurs_in(
            entry_lines(help_table()[19]),
            topic_lines(help_table(), topic_key(words(help_table()[19].usage@)[0])),
        ),
{
    lemma_entry_19();
    lemma_word_weapon();
    lemma_topic_key_plain("weapon"@);
    assert(help_table()[19].group@ == "weapon"@);
    assert(has_group(help_table(), topic_key("weapon"@)));
    law_help_topic_lists_whole_group(help_table(), "weapon"@);
    assert(occurs_in(entry_lines(help_table()[19]), topic_lines(help_table(), topic_key("weapon"@))));
}

/// `help weapon` lists help entry 20.
proof fn lemma_entry_topic_20()
    ensures
        words(help_table()[20].usage@).len() > 0,
        words(help_table()[20].usage@)[0] == help_table()[20].group@,
        help_topic_text(help_table(), words(help_table()[20].usage@)[0]) == trim_end(
            topic_lines(help_table(), topic_key(words(help_table()[20].usage@)[0])),
        ),
        occurs_in(
            entry_lines(help_table()[20]),
            topic_lines(help_table(), topic_key(words(help_table()[20].usage@)[0])),
        ),
{
    lemma_entry_20();
    lemma_word_weapon();
    lemma_topic_key_plain("weapon"@);
    assert(help_table()[20].group@ == "weapon"@);
    assert(has_group(help_table(), topic_key("weapon"@)));
    law_help_topic_lists_whole_group(help_table(), "weapon"@);
    assert(occurs_in(entry_lines(help_table()[20]), topic_lines(help_table(), topic_key("weapon"@))));
}

/// `help quest` lists help entry 21.
proof fn lemma_entry_topic_21()
    ensures
        words(help_table()[21].usage@).len() > 0,
        words(help_table()[21].usage@)[0] == help_table()[21].group@,
        help_topic_text(help_table(), words(help_table()[21].usage@)[0]) == trim_end(
            topic_lines(help_table(), topic_key(words(help_table()[21].usage@)[0])),
        ),
        occurs_in(
            entry_lines(help_table()[21]),
            topic_lines(help_table(), topic_key(words(help_table()[21].usage@)[0])),
        ),
{
    lemma_entry_21();
    lemma_word_quest();
    lemma_topic_key_plain("quest"@);
    assert(help_table()[21].group@ == "quest"@);
    assert(has_group(help_table(), topic_key("quest"@)));
    law_help_topic_lists_whole_group(help_table(), "quest"@);
    assert(occurs_in(entry_lines(help_table()[21]), topic_lines(help_table(), topic_key("quest"@))));
}

/// `help quest` lists help entry 22.
proof fn lemma_entry_topic_22()
    ensures
        words(help_table()[22].usage@).len() > 0,
        words(help_table()[22].usage@)[0] == help_table()[22].group@,
        help_topic_text(help_table(), words(help_table()[22].usage@)[0]) == trim_end(
            topic_lines(help_table(), topic_key(words(help_table()[22].usage@)[0])),
        ),
        occurs_in(
            entry_lines(help_table()[22]),
            topic_lines(help_table(), topic_key(words(help_table()[22].usage@)[0])),
        ),
{
    lemma_entry_22();
    lemma_word_quest();
    lemma_topic_key_plain("quest"@);
    assert(help_table()[22].group@ == "quest"@);
    assert(has_group(help_table(), topic_key("quest"@)));
    law_help_topic_lists_whole_group(help_table(), "quest"@);
    assert(occurs_in(entry_lines(help_table()[22]), topic_lines(help_table(), topic_key("quest"@))));
}

/// `help quest` lists help entry 23.
proof fn lemma_entry_topic_23()
    ensures
        words(help_table()[23].usage@).len() > 0,
        words(help_table()[23].usage@)[0] == help_table()[23].group@,
        help_topic_text(help_table(), words(help_table()[23].usage@)[0]) == trim_end(
            topic_lines(help_table(), topic_key(words(help_table()[23].usage@)[0])),
        ),
        occurs_in(
            entry_lines(help_table()[23]),
            topic_lines(help_table(), topic_key(words(help_table()[23].usage@)[0])),
        ),
{
    lemma_entry_23();
    lemma_word_quest();
    lemma_topic_key_plain("quest"@);
    assert(help_table()[23].group@ == "quest"@);
    assert(has_group(help_table(), topic_key("quest"@)));
    law_help_topic_lists_whole_group(help_table(), "quest"@);
    assert(occurs_in(entry_lines(help_table()[23]), topic_lines(help_table(), topic_key("quest"@))));
}

/// `help quest` lists help entry 24.
proof fn lemma_entry_topic_24()
    ensures
        words(help_table()[24].usage@).len() > 0,
        words(help_table()[24].usage@)[0] == help_table()[24].group@,
        help_topic_text(help_table(), words(help_table()[24].usage@)[0]) == trim_end(
            topic_lines(help_table(), topic_key(words(help_table()[24].usage@)[0])),
        ),
        occurs_in(
            entry_lines(help_table()[24]),
            topic_lines(help_table(), topic_key(words(help_table()[24].usage@)[0])),
        ),
{
    lemma_entry_24();
    lemma_word_quest();
    lemma_topic_key_plain("quest"@);
    assert(help_table()[24].group@ == "quest"@);
    assert(has_group(help_table(), topic_key("quest"@)));
    law_help_topic_lists_whole_group(help_table(), "quest"@);
    assert(occurs_in(entry_lines(help_table()[24]), topic_lines(help_table(), topic_key("quest"@))));
}

/// `help quest` lists help entry 25.
proof fn lemma_entry_topic_25()
    ensures
        words(help_table()[25].usage@).len() > 0,
        words(help_table()[25].usage@)[0] == help_table()[25].group@,
        help_topic_text(help_table(), words(help_table()[25].usage@)[0]) == trim_end(
            topic_lines(help_table(), topic_key(words(help_table()[25].usage@)[0])),
        ),
        occurs_in(
            entry_lines(help_table()[25]),
            topic_lines(help_table(), topic_key(words(help_table()[25].usage@)[0])),
        ),
{
    lemma_entry_25();
    lemma_word_quest();
    lemma_topic_key_plain("quest"@);
    assert(help_table()[25].group@ == "quest"@);
    assert(has_group(help_table(), topic_key("quest"@)));
    law_help_topic_lists_whole_group(help_table(), "quest"@);
    assert(occurs_in(entry_lines(help_table()[25]), topic_lines(help_table(), topic_key("quest"@))));
}

/// `help quest` lists help entry 26.
proof fn lemma_entry_topic_26()
    ensures
        words(help_table()[26].usage@).len() > 0,
        words(help_table()[26].usage@)[0] == help_table()[26].group@,
        help_topic_text(help_table(), words(help_table()[26].usage@)[0]) == trim_end(
            topic_lines(help_table(), topic_key(words(help_table()[26].usage@)[0])),
        ),
        occurs_in(
            entry_lines(help_table()[26]),
            topic_lines(help_table(), topic_key(words(help_table()[26].usage@)[0])),
        ),
{
    lemma_entry_26();
    lemma_word_quest();
    lemma_topic_key_plain("quest"@);
    assert(help_table()[26].group@ == "quest"@);
    assert(has_group(help_table(), topic_key("quest"@)));
    law_help_topic_lists_whole_group(help_table(), "quest"@);
    assert(occurs_in(entry_lines(help_table()[26]), topic_lines(help_table(), topic_key("quest"@))));
}

/// `help quest` lists help entry 27.
proof fn lemma_entry_topic_27()
    ensures
        words(help_table()[27].usage@).len() > 0,
        words(help_table()[27].usage@)[0] == help_table()[27].group@,
        help_topic_text(help_table(), words(help_table()[27].usage@)[0]) == trim_end(
            topic_lines(help_table(), topic_key(words(help_table()[27].usage@)[0])),
        ),
        occurs_in(
            entry_lines(help_table()[27]),
            topic_lines(help_table(), topic_key(words(help_table()[27].usage@)[0])),
        ),
{
    lemma_entry_27();
    lemma_word_quest();
    lemma_topic_key_plain("quest"@);
    assert(help_table()[27].group@ == "quest"@);
    assert(has_group(help_table(), topic_key("quest"@)));
    law_help_topic_lists_whole_group(help_table(), "quest"@);
    assert(occurs_in(entry_lines(help_table()[27]), topic_lines(help_table(), topic_key("quest"@))));
}

/// `help quest` lists help entry 28.
proof fn lemma_entry_topic_28()
    ensures
        words(help_table()[28].usage@).len() > 0,
        words(help_table()[28].usage@)[0] == help_table()[28].group@,
        help_topic_text(help_table(), words(help_table()[28].usage@)[0]) == trim_end(
            topic_lines(help_table(), topic_key(words(help_table()[28].usage@)[0])),
        ),
        occurs_in(
            entry_lines(help_table()[28]),
            topic_lines(help_table(), topic_key(words(help_table()[28].usage@)[0])),
        ),
{
    lemma_entry_28();
    lemma_word_quest();
    lemma_topic_key_plain("quest"@);
    assert(help_table()[28].group@ == "quest"@);
    assert(has_group(help_table(), topic_key("quest"@)));
    law_help_topic_lists_whole_group(help_table(), "quest"@);
    assert(occurs_in(entry_lines(help_table()[28]), topic_lines(help_table(), topic_key("quest"@))));
}

/// `help gadget` lists help entry 29.
proof fn lemma_entry_topic_29()
    ensures
        words(help_table()[29].usage@).len() > 0,
        words(help_table()[29].usage@)[0] == help_table()[29].group@,
        help_topic_text(help_table(), words(help_table()[29].usage@)[0]) == trim_end(
            topic_lines(help_table(), topic_key(words(help_table()[29].usage@)[0])),
        ),
        occurs_in(
            entry_lines(help_table()[29]),
            topic_lines(help_table(), topic_key(words(help_table()[29].usage@)[0])),
        ),
{
    lemma_entry_29();
    lemma_word_gadget();
    lemma_topic_key_plain("gadget"@);
    assert(help_table()[29].group@ == "gadget"@);
    assert(has_group(help_table(), topic_key("gadget"@)));
    law_help_topic_lists_whole_group(help_table(), "gadget"@);
    assert(occurs_in(entry_lines(help_table()[29]), topic_lines(help_table(), topic_key("gadget"@))));
}

/// `help gadget` lists help entry 30.
proof fn lemma_entry_topic_30()
    ensures
        words(help_table()[30].usage@).len() > 0,
        words(help_table()[30].usage@)[0] == help_table()[30].group@,
        help_topic_text(help_table(), words(help_table()[30].usage@)[0]) == trim_end(
            topic_lines(help_table(), topic_key(words(help_table()[30].usage@)[0])),
        ),
        occurs_in(
            entry_lines(help_table()[30]),
            topic_lines(help_table(), topic_key(words(help_table()[30].usage@)[0])),
        ),
{
    lemma_entry_30();
    lemma_word_gadget();
    lemma_topic_key_plain("gadget"@);
    assert(help_table()[30].group@ == "gadget"@);
    assert(has_group(help_table(), topic_key("gadget"@)));
    law_help_topic_lists_whole_group(help_table(), "gadget"@);
    assert(occurs_in(entry_lines(help_table()[30]), topic_lines(help_table(), topic_key("gadget"@))));
}

/// `help gadget` lists help entry 31.
proof fn lemma_entry_topic_31()
    ensures
        words(help_table()[31].usage@).len() > 0,
        words(help_table()[31].usage@)[0] == help_table()[31].group@,
        help_topic_text(help_table(), words(help_table()[31].usage@)[0]) == trim_end(
            topic_lines(help_table(), topic_key(words(help_table()[31].usage@)[0])),
        ),
        occurs_in(
            entry_lines(help_table()[31]),
            topic_lines(help_table(), topic_key(words(help_table()[31].usage@)[0])),
        ),
{
    lemma_entry_31();
    lemma_word_gadget();
    lemma_topic_key_plain("gadget"@);
    assert(help_table()[31].group@ == "gadget"@);
    assert(has_group(help_table(), topic_key("gadget"@)));
    law_help_topic_lists_whole_group(help_table(), "gadget"@);
    assert(occurs_in(entry_lines(help_table()[31]), topic_lines(help_table(), topic_key("gadget"@))));
}

/// `help gadget` lists help entry 32.
proof fn lemma_entry_topic_32()
    ensures
        words(help_table()[32].usage@).len() > 0,
        words(help_table()[32].usage@)[0] == help_table()[32].group@,
        help_topic_text(help_table(), words(help_table()[32].usage@)[0]) == trim_end(
            topic_lines(help_table(), topic_key(words(help_table()[32].usage@)[0])),
        ),
        occurs_in(
            entry_lines(help_table()[32]),
            topic_lines(help_table(), topic_key(words(help_table()[32].usage@)[0])),
        ),
{
    lemma_entry_32();
    lemma_word_gadget();
    lemma_topic_key_plain("gadget"@);
    assert(help_table()[32].group@ == "gadget"@);
    assert(has_group(help_table(), topic_key("gadget"@)));
    law_help_topic_lists_whole_group(help_table(), "gadget"@);
    assert(occurs_in(entry_lines(help_table()[32]), topic_lines(help_table(), topic_key("gadget"@))));
}

/// `help group` lists help entry 33.
proof fn lemma_entry_topic_33()
    ensures
        words(help_table()[33].usage@).len() > 0,
        words(help_table()[33].usage@)[0] == help_table()[33].group@,
        help_topic_text(help_table(), words(help_table()[33].usage@)[0]) == trim_end(
            topic_lines(help_table(), topic_key(words(help_table()[33].usage@)[0])),
        ),
        occurs_in(
            entry_lines(help_table()[33]),
            topic_lines(help_table(), topic_key(words(help_table()[33].usage@)[0])),
        ),
{
    lemma_entry_33();
    lemma_word_group();
    lemma_topic_key_plain("group"@);
    assert(help_table()[33].group@ == "group"@);
    assert(has_group(help_table(), topic_key("group"@)));
    law_help_topic_lists_whole_group(help_table(), "group"@);
    assert(occurs_in(entry_lines(help_table()[33]), topic_lines(help_table(), topic_key("group"@))));
}

/// `help group` lists help entry 34.
proof fn lemma_entry_topic_34()
    ensures
        words(help_table()[34].usage@).len() > 0,
        words(help_table()[34].usage@)[0] == help_table()[34].group@,
        help_topic_text(help_table(), words(help_table()[34].usage@)[0]) == trim_end(
            topic_lines(help_table(), topic_key(words(help_table()[34].usage@)[0])),
        ),
        occurs_in(
            entry_lines(help_table()[34]),
            topic_lines(help_table(), topic_key(words(help_table()[34].usage@)[0])),
        ),
{
    lemma_entry_34();
    lemma_word_group();
    lemma_topic_key_plain("group"@);
    assert(help_table()[34].group@ == "group"@);
    assert(has_group(help_table(), topic_key("group"@)));
    law_help_topic_lists_whole_group(help_table(), "group"@);
    assert(occurs_in(entry_lines(help_table()[34]), topic_lines(help_table(), topic_key("group"@))));
}

/// `help group` lists help entry 35.
proof fn lemma_entry_topic_35()
    ensures
        words(help_table()[35].usage@).len() > 0,
        words(help_table()[35].usage@)[0] == help_table()[35].group@,
        help_topic_text(help_table(), words(help_table()[35].usage@)[0]) == trim_end(
            topic_lines(help_table(), topic_key(words(help_table()[35].usage@)[0])),
        ),
        occurs_in(
            entry_lines(help_table()[35]),
            topic_lines(help_table(), topic_key(words(help_table()[35].usage@)[0])),
        ),
{
    lemma_entry_35();
    lemma_word_group();
    lemma_topic_key_plain("group"@);
    assert(help_table()[35].group@ == "group"@);
    assert(has_group(help_table(), topic_key("group"@)));
    law_help_topic_lists_whole_group(help_table(), "group"@);
    assert(occurs_in(entry_lines(help_table()[35]), topic_lines(help_table(), topic_key("group"@))));
}

/// `help group` lists help entry 36.
proof fn lemma_entry_topic_36()
    ensures
        words(help_table()[36].usage@).len() > 0,
        words(help_table()[36].usage@)[0] == help_table()[36].group@,
        help_topic_text(help_table(), words(help_table()[36].usage@)[0]) == trim_end(
            topic_lines(help_table(), topic_key(words(help_table()[36].usage@)[0])),
        ),
        occurs_in(
            entry_lines(help_table()[36]),
            topic_lines(help_table(), topic_key(words(help_table()[36].usage@)[0])),
        ),
{
    lemma_entry_36();
    lemma_word_group();
    lemma_topic_key_plain("group"@);
    assert(help_table()[36].group@ == "group"@);
    assert(has_group(help_table(), topic_key("group"@)));
    law_help_topic_lists_whole_group(help_table(), "group"@);
    assert(occurs_in(entry_lines(help_table()[36]), topic_lines(help_table(), topic_key("group"@))));
}

/// `help group_suite` lists help entry 37.
proof fn lemma_entry_topic_37()
    ensures
        words(help_table()[37].usage@).len() > 0,
        words(help_table()[37].usage@)[0] == help_table()[37].group@,
        help_topic_text(help_table(), words(help_table()[37].usage@)[0]) == trim_end(
            topic_lines(help_table(), topic_key(words(help_table()[37].usage@)[0])),
        ),
        occurs_in(
            entry_lines(help_table()[37]),
            topic_lines(help_table(), topic_key(words(help_table()[37].usage@)[0])),
        ),
{
    lemma_entry_37();
    lemma_word_group_suite();
    lemma_topic_key_plain("group_suite"@);
    assert(help_table()[37].group@ == "group_suite"@);
    assert(has_group(help_table(), topic_key("group_suite"@)));
    law_help_topic_lists_whole_group(help_table(), "group_suite"@);
    assert(occurs_in(entry_lines(help_table()[37]), topic_lines(help_table(), topic_key("group_suite"@))));
}

/// `help group_suite` lists help entry 38.
proof fn lemma_entry_topic_38()
    ensures
        words(help_table()[38].usage@).len() > 0,
        words(help_table()[38].usage@)[0] == help_table()[38].group@,
        help_topic_text(help_table(), words(help_table()[38].usage@)[0]) == trim_end(
            topic_lines(help_table(), topic_key(words(help_table()[38].usage@)[0])),
        ),
        occurs_in(
            entry_lines(help_table()[38]),
            topic_lines(help_table(), topic_key(words(help_table()[38].usage@)[0])),
        ),
{
    lemma_entry_38();
    lemma_word_group_suite();
    lemma_topic_key_plain("group_suite"@);
    assert(help_table()[38].group@ == "group_suite"@);
    assert(has_group(help_table(), topic_key("group_suite"@)));
    law_help_topic_lists_whole_group(help_table(), "group_suite"@);
    assert(occurs_in(entry_lines(help_table()[38]), topic_lines(help_table(), topic_key("group_suite"@))));
}

/// `help group_suite` lists help entry 39.
proof fn lemma_entry_topic_39()
    ensures
        words(help_table()[39].usage@).len() > 0,
        words(help_table()[39].usage@)[0] == help_table()[39].group@,
        help_topic_text(help_table(), words(help_table()[39].usage@)[0]) == trim_end(
            topic_lines(help_table(), topic_key(words(help_table()[39].usage@)[0])),
        ),
        occurs_in(
            entry_lines(help_table()[39]),
            topic_lines(help_table(), topic_key(words(help_table()[39].usage@)[0])),
        ),
{
    lemma_entry_39();
    lemma_word_group_suite();
    lemma_topic_key_plain("group_suite"@);
    assert(help_table()[39].group@ == "group_suite"@);
    assert(has_group(help_table(), topic_key("group_suite"@)));
    law_help_topic_lists_whole_group(help_table(), "group_suite"@);
    assert(occurs_in(entry_lines(help_table()[39]), topic_lines(help_table(), topic_key("group_suite"@))));
}

/// `help group_suite` lists help entry 40.
proof fn lemma_entry_topic_40()
    ensures
        words(help_table()[40].usage@).len() > 0,
        words(help_table()[40].usage@)[0] == help_table()[40].group@,
        help_topic_text(help_table(), words(help_table()[40].usage@)[0]) == trim_end(
            topic_lines(help_table(), topic_key(words(help_table()[40].usage@)[0])),
        ),
        occurs_in(
            entry_lines(help_table()[40]),
            topic_lines(help_table(), topic_key(words(help_table()[40].usage@)[0])),
        ),
{
    lemma_entry_40();
    lemma_word_group_suite();
    lemma_topic_key_plain("group_suite"@);
    assert(help_table()[40].group@ == "group_suite"@);
    assert(has_group(help_table(), topic_key("group_suite"@)));
    law_help_topic_lists_whole_group(help_table(), "group_suite"@);
    assert(occurs_in(entry_lines(help_table()[40]), topic_lines(help_table(), topic_key("group_suite"@))));
}

/// `help tp` lists help entry 41.
proof fn lemma_entry_topic_41()
    ensures
        words(help_table()[41].usage@).len() > 0,
        words(help_table()[41].usage@)[0] == help_table()[41].group@,
        help_topic_text(help_table(), words(help_table()[41].usage@)[0]) == trim_end(
            topic_lines(help_table(), topic_key(words(help_table()[41].usage@)[0])),
        ),
        occurs_in(
            entry_lines(help_table()[41]),
            topic_lines(help_table(), topic_key(words(help_table()[41].usage@)[0])),
        ),
{
    lemma_entry_41();
    lemma_word_tp();
    lemma_topic_key_plain("tp"@);
    assert(help_table()[41].group@ == "tp"@);
    assert(has_group(help_table(), topic_key("tp"@)));
    law_help_topic_lists_whole_group(help_table(), "tp"@);
    assert(occurs_in(entry_lines(help_table()[41]), topic_lines(help_table(), topic_key("tp"@))));
}

/// `help tp` lists help entry 42.
proof fn lemma_entry_topic_42()
    ensures
        words(help_table()[42].usage@).len() > 0,
        words(help_table()[42].usage@)[0] == help_table()[42].group@,
        help_topic_text(help_table(), words(help_table()[42].usage@)[0]) == trim_end(
            topic_lines(help_table(), topic_key(words(help_table()[42].usage@)[0])),
        ),
        occurs_in(
            entry_lines(help_table()[42]),
            topic_lines(help_table(), topic_key(words(help_table()[42].usage@)[0])),
        ),
{
    lemma_entry_42();
    lemma_word_tp();
    lemma_topic_key_plain("tp"@);
    assert(help_table()[42].group@ == "tp"@);
    assert(has_group(help_table(), topic_key("tp"@)));
    law_help_topic_lists_whole_group(help_table(), "tp"@);
    assert(occurs_in(entry_lines(help_table()[42]), topic_lines(help_table(), topic_key("tp"@))));
}

/// `help gacha` lists help entry 43.
proof fn lemma_entry_topic_43()
    ensures
        words(help_table()[43].usage@).len() > 0,
        words(help_table()[43].usage@)[0] == help_table()[43].group@,
        help_topic_text(help_table(), words(help_table()[43].usage@)[0]) == trim_end(
            topic_lines(help_table(), topic_key(words(help_table()[43].usage@)[0])),
        ),
        occurs_in(
            entry_lines(help_table()[43]),
            topic_lines(help_table(), topic_key(words(help_table()[43].usage@)[0])),
        ),
{
    lemma_entry_43();
    lemma_word_gacha();
    lemma_topic_key_plain("gacha"@);
    assert(help_table()[43].group@ == "gacha"@);
    assert(has_group(help_table(), topic_key("gacha"@)));
    law_help_topic_lists_whole_group(help_table(), "gacha"@);
    assert(occurs_in(entry_lines(help_table()[43]), topic_lines(help_table(), topic_key("gacha"@))));
}

/// `help gacha` lists help entry 44.
proof fn lemma_entry_topic_44()
    ensures
        words(help_table()[44].usage@).len() > 0,
        words(help_table()[44].usage@)[0] == help_table()[44].group@,
        help_topic_text(help_table(), words(help_table()[44].usage@)[0]) == trim_end(
            topic_lines(help_table(), topic_key(words(help_table()[44].usage@)[0])),
        ),
        occurs_in(
            entry_lines(help_table()[44]),
            topic_lines(help_table(), topic_key(words(help_table()[44].usage@)[0])),
        ),
{
    lemma_entry_44();
    lemma_word_gacha();
    lemma_topic_key_plain("gacha"@);
    assert(help_table()[44].group@ == "gacha"@);
    assert(has_group(help_table(), topic_key("gacha"@)));
    law_help_topic_lists_whole_group(help_table(), "gacha"@);
    assert(occurs_in(entry_lines(help_table()[44]), topic_lines(help_table(), topic_key("gacha"@))));
}

/// `help weather` lists help entry 45.
proof fn lemma_entry_topic_45()
    ensures
        words(help_table()[45].usage@).len() > 0,
        words(help_table()[45].usage@)[0] == help_table()[45].group@,
        help_topic_text(help_table(), words(help_table()[45].usage@)[0]) == trim_end(
            topic_lines(help_table(), topic_key(words(help_table()[45].usage@)[0])),
        ),
        occurs_in(
            entry_lines(help_table()[45]),
            topic_lines(help_table(), topic_key(words(help_table()[45].usage@)[0])),
        ),
{
    lemma_entry_45();
    lemma_word_weather();
    lemma_topic_key_plain("weather"@);
    assert(help_table()[45].group@ == "weather"@);
    assert(has_group(help_table(), topic_key("weather"@)));
    law_help_topic_lists_whole_group(help_table(), "weather"@);
    assert(occurs_in(entry_lines(help_table()[45]), topic_lines(help_table(), topic_key("weather"@))));
}

/// `help climate` lists help entry 46.
proof fn lemma_entry_topic_46()
    ensures
        words(help_table()[46].usage@).len() > 0,
        words(help_table()[46].usage@)[0] == help_table()[46].group@,
        help_topic_text(help_table(), words(help_table()[46].usage@)[0]) == trim_end(
            topic_lines(help_table(), topic_key(words(help_table()[46].usage@)[0])),
        ),
        occurs_in(
            entry_lines(help_table()[46]),
            topic_lines(help_table(), topic_key(words(help_table()[46].usage@)[0])),
        ),
{
    lemma_entry_46();
    lemma_word_climate();
    lemma_topic_key_plain("climate"@);
    assert(help_table()[46].group@ == "climate"@);
    assert(has_group(help_table(), topic_key("climate"@)));
    law_help_topic_lists_whole_group(help_table(), "climate"@);
    assert(occurs_in(entry_lines(help_table()[46]), topic_lines(help_table(), topic_key("climate"@))));
}

/// `help dun` lists help entry 47.
proof fn lemma_entry_topic_47()
    ensures
        words(help_table()[47].usage@).len() > 0,
        words(help_table()[47].usage@)[0] == help_table()[47].group@,
        help_topic_text(help_table(), words(help_table()[47].usage@)[0]) == trim_end(
            topic_lines(help_table(), topic_key(words(help_table()[47].usage@)[0])),
        ),
        occurs_in(
            entry_lines(help_table()[47]),
            topic_lines(help_table(), topic_key(words(help_table()[47].usage@)[0])),
        ),
{
    lemma_entry_47();
    lemma_word_dun();
    lemma_topic_key_plain("dun"@);
    assert(help_table()[47].group@ == "dun"@);
    assert(has_group(help_table(), topic_key("dun"@)));
    law_help_topic_lists_whole_group(help_table(), "dun"@);
    assert(occurs_in(entry_lines(help_table()[47]), topic_lines(help_table(), topic_key("dun"@))));
}

/// `help pos` lists help entry 48.
proof fn lemma_entry_topic_48()
    ensures
        words(help_table()[48].usage@).len() > 0,
        words(help_table()[48].usage@)[0] == help_table()[48].group@,
        help_topic_text(help_table(), words(help_table()[48].usage@)[0]) == trim_end(
            topic_lines(help_table(), topic_key(words(help_table()[48].usage@)[0])),
        ),
        occurs_in(
            entry_lines(help_table()[48]),
            topic_lines(help_table(), topic_key(words(help_table()[48].usage@)[0])),
        ),
{
    lemma_entry_48();
    lemma_word_pos();
    lemma_topic_key_plain("pos"@);
    assert(help_table()[48].group@ == "pos"@);
    assert(has_group(help_table(), topic_key("pos"@)));
    law_help_topic_lists_whole_group(help_table(), "pos"@);
    assert(occurs_in(entry_lines(help_table()[48]), topic_lines(help_table(), topic_key("pos"@))));
}

/// `help prop` lists help entry 49.
proof fn lemma_entry_topic_49()
    ensures
        words(help_table()[49].usage@).len() > 0,
        words(help_table()[49].usage@)[0] == help_table()[49].group@,
        help_topic_text(help_table(), words(help_table()[49].usage@)[0]) == trim_end(
            topic_lines(help_table(), topic_key(words(help_table()[49].usage@)[0])),
        ),
        occurs_in(
            entry_lines(help_table()[49]),
            topic_lines(help_table(), topic_key(words(help_table()[49].usage@)[0])),
        ),
{
    lemma_entry_49();
    lemma_word_prop();
    lemma_topic_key_plain("prop"@);
    assert(help_table()[49].group@ == "prop"@);
    assert(has_group(help_table(), topic_key("prop"@)));
    law_help_topic_lists_whole_group(help_table(), "prop"@);
    assert(occurs_in(entry_lines(help_table()[49]), topic_lines(help_table(), topic_key("prop"@))));
}

/// `help send_packet` lists help entry 50.
proof fn lemma_entry_topic_50()
    ensures
        words(help_table()[50].usage@).len() > 0,
        words(help_table()[50].usage@)[0] == help_table()[50].group@,
        help_topic_text(help_table(), words(help_table()[50].usage@)[0]) == trim_end(
            topic_lines(help_table(), topic_key(words(help_table()[50].usage@)[0])),
        ),
        occurs_in(
            entry_lines(help_table()[50]),
            topic_lines(help_table(), topic_key(words(help_table()[50].usage@)[0])),
        ),
{
    lemma_entry_50();
    lemma_word_send_packet();
    lemma_topic_key_plain("send_packet"@);
    assert(help_table()[50].group@ == "send_packet"@);
    assert(has_group(help_table(), topic_key("send_packet"@)));
    law_help_topic_lists_whole_group(help_table(), "send_packet"@);
    assert(occurs_in(entry_lines(help_table()[50]), topic_lines(help_table(), topic_key("send_packet"@))));
}

/// `help help` lists help entry 51.
proof fn lemma_entry_topic_51()
    ensures
        words(help_table()[51].usage@).len() > 0,
        words(help_table()[51].usage@)[0] == help_table()[51].group@,
        help_topic_text(help_table(), words(help_table()[51].usage@)[0]) == trim_end(
            topic_lines(help_table(), topic_key(words(help_table()[51].usage@)[0])),
        ),
        occurs_in(
            entry_lines(help_table()[51]),
            topic_lines(help_table(), topic_key(words(help_table()[51].usage@)[0])),
        ),
{
    lemma_entry_51();
    lemma_word_help();
    lemma_topic_key_plain("help"@);
    assert(help_table()[51].group@ == "help"@);
    assert(has_group(help_table(), topic_key("help"@)));
    law_help_topic_lists_whole_group(help_table(), "help"@);
    assert(occurs_in(entry_lines(help_table()[51]), topic_lines(help_table(), topic_key("help"@))));
}

/// `help <w>`, where `w` is the first word of an entry's usage, finds
/// that entry: `w` is the entry's group, and the output lists the entry's
/// usage and description.
pub proof fn law_help_topic_of_first_usage_word_lists_entry()
    ensures
        forall|i: int|
            0 <= i < help_table().len() ==> {
                let w = words(#[trigger] help_table()[i].usage@)[0];
                &&& words(help_table()[i].usage@).len() > 0
                &&& w == help_table()[i].group@
                &&& help_topic_text(help_table(), w) == trim_end(
                    topic_lines(help_table(), topic_key(w)),
                )
                &&& occurs_in(entry_lines(help_table()[i]), topic_lines(help_table(), topic_key(w)))
            },
{
    assert forall|i: int| 0 <= i < help_table().len() implies {
        let w = words(#[trigger] help_table()[i].usage@)[0];
        &&& words(help_table()[i].usage@).len() > 0
        &&& w == help_table()[i].group@
        &&& help_topic_text(help_table(), w) == trim_end(topic_lines(help_table(), topic_key(w)))
        &&& occurs_in(entry_lines(help_table()[i]), topic_lines(help_table(), topic_key(w)))
    } by {
        if i == 0 {
            lemma_entry_topic_0();
        } else if i == 1 {
            lemma_entry_topic_1();
        } else if i == 2 {
            lemma_entry_topic_2();
        } else if i == 3 {
            lemma_entry_topic_3();
        } else if i == 4 {
            lemma_entry_topic_4();
        } else if i == 5 {
            lemma_entry_topic_5();
        } else if i == 6 {
            lemma_entry_topic_6();
        } else if i == 7 {
            lemma_entry_topic_7();
        } else if i == 8 {
            lemma_entry_topic_8();
        } else if i == 9 {
            lemma_entry_topic_9();
        } else if i == 10 {
            lemma_entry_topic_10();
        } else if i == 11 {
            lemma_entry_topic_11();
        } else if i == 12 {
            lemma_entry_topic_12();
        } else if i == 13 {
            lemma_entry_topic_13();
        } else if i == 14 {
            lemma_entry_topic_14();
        } else if i == 15 {
            lemma_entry_topic_15();
        } else if i == 16 {
            lemma_entry_topic_16();
        } else if i == 17 {
            lemma_entry_topic_17();
        } else if i == 18 {
            lemma_entry_topic_18();
        } else if i == 19 {
            lemma_entry_topic_19();
        } else if i == 20 {
            lemma_entry_topic_20();
        } else if i == 21 {
            lemma_entry_topic_21();
        } else if i == 22 {
            lemma_entry_topic_22();
        } else if i == 23 {
            lemma_entry_topic_23();
        } else if i == 24 {
            lemma_entry_topic_24();
        } else if i == 25 {
            lemma_entry_topic_25();
        } else if i == 26 {
            lemma_entry_topic_26();
        } else if i == 27 {
            lemma_entry_topic_27();
        } else if i == 28 {
            lemma_entry_topic_28();
        } else if i == 29 {
            lemma_entry_topic_29();
        } else if i == 30 {
            lemma_entry_topic_30();
        } else if i == 31 {
            lemma_entry_topic_31();
        } else if i == 32 {
            lemma_entry_topic_32();
        } else if i == 33 {
            lemma_entry_topic_33();
        } else if i == 34 {
            lemma_entry_topic_34();
        } else if i == 35 {
            lemma_entry_topic_35();
        } else if i == 36 {
            lemma_entry_topic_36();
        } else if i == 37 {
            lemma_entry_topic_37();
        } else if i == 38 {
            lemma_entry_topic_38();
        } else if i == 39 {
            lemma_entry_topic_39();
        } else if i == 40 {
            lemma_entry_topic_40();
        } else if i == 41 {
            lemma_entry_topic_41();
        } else if i == 42 {
            lemma_entry_topic_42();
        } else if i == 43 {
            lemma_entry_topic_43();
        } else if i == 44 {
            lemma_entry_topic_44();
        } else if i == 45 {
            lemma_entry_topic_45();
        } else if i == 46 {
            lemma_entry_topic_46();
        } else if i == 47 {
            lemma_entry_topic_47();
        } else if i == 48 {
            lemma_entry_topic_48();
        } else if i == 49 {
            lemma_entry_topic_49();
        } else if i == 50 {
            lemma_entry_topic_50();
        } else if i == 51 {
            lemma_entry_topic_51();
        }
    }
}

} // verus!
