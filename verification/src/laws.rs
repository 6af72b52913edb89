//! Properties of the library that span its functions.
use crate::help::{
    distinct_groups, has_group, help_index_text, help_topic_text, near, near_groups, topic_key,
    topic_lines, CommandHelp,
};
use crate::excel::{
    anecdotes_by_id, daily_dungeons_by_id, flycloaks_by_id, AnecdoteExcelConfig,
    AvatarFlycloakExcelConfig, DailyDungeonConfig,
};
use crate::parse::parse_command_spec;
use crate::talent::{
    proud_skill_open_configs, talent_open_configs, with_talent_files, with_talents,
    AvatarTalentExcelConfig,
    InternString, ProudSkillExcelConfig,
};
use crate::text::{decimal, is_ws, join, trim, trim_end, trim_start, words};
use vstd::prelude::*;

verus! {

/// Whether `needle` occurs in `hay` as a run of consecutive characters.
pub open spec fn occurs_in(needle: Seq<char>, hay: Seq<char>) -> bool {
    exists|j: int|
        0 <= j && j + needle.len() <= hay.len() && #[trigger] hay.subrange(j, j + needle.len())
            == needle
}

/// Whitespace in front of `b` does not change its words.
proof fn lemma_words_skip_ws_prefix(a: Seq<char>, b: Seq<char>)
    requires
        forall|i: int| 0 <= i < a.len() ==> is_ws(#[trigger] a[i]),
    ensures
        words(a + b) == words(b),
    decreases b.len(),
{
    if b.len() == 0 {
        assert(a + b =~= a);
        lemma_words_all_ws(a);
        assert(words(b) == Seq::<Seq<char>>::empty());
    } else {
        lemma_words_skip_ws_prefix(a, b.drop_last());
        assert((a + b).drop_last() =~= a + b.drop_last());
        assert((a + b).last() == b.last());
        if b.drop_last().len() == 0 {
            assert(a + b.drop_last() =~= a);
            if a.len() > 0 {
                assert(is_ws(a[a.len() - 1]));
            }
        } else {
            assert((a + b.drop_last()).last() == b.drop_last().last());
        }
    }
}

/// A string of whitespace has no words.
proof fn lemma_words_all_ws(a: Seq<char>)
    requires
        forall|i: int| 0 <= i < a.len() ==> is_ws(#[trigger] a[i]),
    ensures
        words(a) == Seq::<Seq<char>>::empty(),
    decreases a.len(),
{
    if a.len() > 0 {
        assert(is_ws(a[a.len() - 1]));
        lemma_words_all_ws(a.drop_last());
    }
}

/// Leading whitespace does not change the words of a string.
proof fn lemma_words_trim_start(s: Seq<char>)
    ensures
        words(trim_start(s)) == words(s),
    decreases s.len(),
{
    if s.len() > 0 && is_ws(s[0]) {
        lemma_words_trim_start(s.drop_first());
        assert(s =~= seq![s[0]] + s.drop_first());
        lemma_words_skip_ws_prefix(seq![s[0]], s.drop_first());
    }
}

/// Trailing whitespace does not change the words of a string.
proof fn lemma_words_trim_end(s: Seq<char>)
    ensures
        words(trim_end(s)) == words(s),
    decreases s.len(),
{
    if s.len() > 0 && is_ws(s.last()) {
        lemma_words_trim_end(s.drop_last());
    }
}

/// Trailing whitespace after a string that ends in a non-whitespace
/// character is all that trimming the end removes from it.
proof fn lemma_trim_end_after_prefix(a: Seq<char>, s: Seq<char>)
    requires
        a.len() > 0,
        !is_ws(a.last()),
    ensures
        trim_end(a + s) == a + trim_end(s),
    decreases s.len(),
{
    if s.len() == 0 {
        assert(a + s =~= a);
        assert(a + trim_end(s) =~= a);
    } else {
        assert((a + s).last() == s.last());
        assert((a + s).drop_last() =~= a + s.drop_last());
        lemma_trim_end_after_prefix(a, s.drop_last());
    }
}

/// A leading `/` is optional: `/cmd ...` parses as `cmd ...` does, unless
/// what follows the `/` itself begins with `/` once trimmed.
pub proof fn law_leading_slash_optional(s: Seq<char>)
    requires
        !(trim(s).len() > 0 && trim(s)[0] == '/'),
    ensures
        parse_command_spec(seq!['/'] + s) == parse_command_spec(s),
{
    let t = seq!['/'] + s;
    assert(t[0] == '/');
    assert(!is_ws('/'));
    assert(trim_start(t) == t);
    lemma_trim_end_after_prefix(seq!['/'], s);
    assert(trim(t) == seq!['/'] + trim_end(s));
    assert((seq!['/'] + trim_end(s)).drop_first() =~= trim_end(s));
    lemma_words_trim_end(s);
    lemma_words_trim_start(s);
    lemma_words_trim_end(trim_start(s));
}

/// Whitespace in front of a string is all that trimming its start removes.
proof fn lemma_trim_start_ws_prefix(a: Seq<char>, x: Seq<char>)
    requires
        forall|i: int| 0 <= i < a.len() ==> is_ws(#[trigger] a[i]),
    ensures
        trim_start(a + x) == trim_start(x),
    decreases a.len(),
{
    if a.len() > 0 {
        assert(is_ws((a + x)[0]));
        assert((a + x).drop_first() =~= a.drop_first() + x);
        lemma_trim_start_ws_prefix(a.drop_first(), x);
    } else {
        assert(a + x =~= x);
    }
}

/// Whitespace after a string is all that trimming its end removes.
proof fn lemma_trim_end_ws_suffix(y: Seq<char>, b: Seq<char>)
    requires
        forall|i: int| 0 <= i < b.len() ==> is_ws(#[trigger] b[i]),
    ensures
        trim_end(y + b) == trim_end(y),
    decreases b.len(),
{
    if b.len() > 0 {
        assert((y + b).last() == b.last());
        assert(is_ws(b[b.len() - 1]));
        assert((y + b).drop_last() =~= y + b.drop_last());
        lemma_trim_end_ws_suffix(y, b.drop_last());
    } else {
        assert(y + b =~= y);
    }
}

/// Trimming the start of `s + b` trims the start of `s` and keeps `b`,
/// unless `s` is all whitespace.
proof fn lemma_trim_start_append(s: Seq<char>, b: Seq<char>)
    ensures
        trim_start(s).len() > 0 ==> trim_start(s + b) == trim_start(s) + b,
        trim_start(s).len() == 0 ==> trim_start(s + b) == trim_start(b),
    decreases s.len(),
{
    if s.len() == 0 {
        assert(s + b =~= b);
    } else if is_ws(s[0]) {
        assert((s + b)[0] == s[0]);
        assert((s + b).drop_first() =~= s.drop_first() + b);
        lemma_trim_start_append(s.drop_first(), b);
    } else {
        assert((s + b)[0] == s[0]);
    }
}

/// Whitespace around a command line is ignored: `a + s + b` parses as
/// `s` does when `a` and `b` are whitespace.
pub proof fn law_surrounding_whitespace_ignored(a: Seq<char>, s: Seq<char>, b: Seq<char>)
    requires
        forall|i: int| 0 <= i < a.len() ==> is_ws(#[trigger] a[i]),
        forall|i: int| 0 <= i < b.len() ==> is_ws(#[trigger] b[i]),
    ensures
        parse_command_spec(a + s + b) == parse_command_spec(s),
{
    assert(a + s + b =~= a + (s + b));
    lemma_trim_start_ws_prefix(a, s + b);
    lemma_trim_start_append(s, b);
    if trim_start(s).len() > 0 {
        lemma_trim_end_ws_suffix(trim_start(s), b);
    } else {
        lemma_trim_start_ws_prefix(b, seq![]);
        assert(b + seq![] =~= b);
        assert(trim_start(b) == Seq::<char>::empty());
    }
    assert(trim(a + s + b) == trim(s));
}

/// Each element of `xs` occurs in `join(xs, sep)` as a run of characters.
proof fn lemma_join_contains(xs: Seq<Seq<char>>, sep: Seq<char>, i: int)
    requires
        0 <= i < xs.len(),
    ensures
        occurs_in(xs[i], join(xs, sep)),
    decreases xs.len(),
{
    let hay = join(xs, sep);
    if xs.len() == 1 {
        let j: int = 0;
        assert(hay.subrange(j, j + xs[i].len()) =~= xs[i]);
    } else {
        let p = join(xs.drop_last(), sep);
        assert(hay == p + sep + xs.last());
        if i == xs.len() - 1 {
            let j: int = (p.len() + sep.len()) as int;
            assert(hay.subrange(j, j + xs[i].len()) =~= xs[i]);
        } else {
            lemma_join_contains(xs.drop_last(), sep, i);
            assert(xs.drop_last()[i] == xs[i]);
            let j = choose|j: int|
                0 <= j && j + xs[i].len() <= p.len() && #[trigger] p.subrange(j, j + xs[i].len())
                    == xs[i];
            assert(hay.subrange(j, j + xs[i].len()) =~= p.subrange(j, j + xs[i].len()));
        }
    }
}

/// `distinct_groups` holds every group of the table, each once, and
/// nothing else.
proof fn lemma_distinct_groups(t: Seq<CommandHelp>)
    ensures
        forall|i: int| 0 <= i < t.len() ==> distinct_groups(t).contains(#[trigger] t[i].group@),
        distinct_groups(t).no_duplicates(),
        forall|k: int|
            #![trigger distinct_groups(t)[k]]
            0 <= k < distinct_groups(t).len() ==> exists|i: int|
                #![trigger t[i]]
                0 <= i < t.len() && t[i].group@ == distinct_groups(t)[k],
    decreases t.len(),
{
    if t.len() > 0 {
        let p = t.drop_last();
        lemma_distinct_groups(p);
        let g = distinct_groups(p);
        assert forall|i: int| 0 <= i < t.len() implies distinct_groups(t).contains(
            #[trigger] t[i].group@,
        ) by {
            if i < t.len() - 1 {
                assert(p[i] == t[i]);
                assert(g.contains(p[i].group@));
                let k = choose|k: int| 0 <= k < g.len() && g[k] == t[i].group@;
                assert(distinct_groups(t)[k] == g[k]);
            } else {
                if !g.contains(t.last().group@) {
                    assert(g.push(t.last().group@)[g.len() as int] == t.last().group@);
                }
            }
        }
        assert forall|k: int| 0 <= k < distinct_groups(t).len() implies exists|i: int|
            #![trigger t[i]]
            0 <= i < t.len() && t[i].group@ == #[trigger] distinct_groups(t)[k] by {
            if k < g.len() {
                let i = choose|i: int| #![trigger p[i]] 0 <= i < p.len() && p[i].group@ == g[k];
                assert(t[i] == p[i]);
            } else {
                assert(t[t.len() - 1].group@ == distinct_groups(t)[k]);
            }
        }
    }
}

/// The output of `help` without a topic names every group of the table,
/// and lists each group once.
pub proof fn law_help_index_lists_every_group(t: Seq<CommandHelp>)
    ensures
        forall|i: int| 0 <= i < t.len() ==> occurs_in(#[trigger] t[i].group@, help_index_text(t)),
        distinct_groups(t).no_duplicates(),
{
    lemma_distinct_groups(t);
    assert forall|i: int| 0 <= i < t.len() implies occurs_in(
        #[trigger] t[i].group@,
        help_index_text(t),
    ) by {
        let gs = distinct_groups(t);
        let g = t[i].group@;
        assert(gs.contains(g));
        let k = choose|k: int| 0 <= k < gs.len() && gs[k] == g;
        lemma_join_contains(gs, "  "@, k);
        let jn = join(gs, "  "@);
        let j0 = choose|j: int|
            0 <= j && j + gs[k].len() <= jn.len() && #[trigger] jn.subrange(j, j + gs[k].len())
                == gs[k];
        let head = "可用命令（共 "@ + decimal(t.len()) + " 条）：\n"@;
        let tail = "\n\n用 help <命令> 查看具体用法，例如 help avatar"@;
        let text = head + jn + tail;
        assert(help_index_text(t) == text);
        let j: int = head.len() as int + j0;
        assert(text.subrange(j, j + g.len()) =~= jn.subrange(j0, j0 + g.len()));
    }
}

/// Topic listings of a concatenated table are the concatenated listings.
proof fn lemma_topic_lines_concat(a: Seq<CommandHelp>, b: Seq<CommandHelp>, key: Seq<char>)
    ensures
        topic_lines(a + b, key) == topic_lines(a, key) + topic_lines(b, key),
    decreases b.len(),
{
    if b.len() == 0 {
        assert(a + b =~= a);
        assert(topic_lines(a, key) + topic_lines(b, key) =~= topic_lines(a, key));
    } else {
        lemma_topic_lines_concat(a, b.drop_last(), key);
        assert((a + b).drop_last() =~= a + b.drop_last());
        assert((a + b).last() == b.last());
        let h = b.last();
        let chunk = if h.group@ == key {
            h.usage@ + "\n    "@ + h.desc@ + "\n"@
        } else {
            seq![]
        };
        assert(topic_lines(a, key) + topic_lines(b.drop_last(), key) + chunk =~= topic_lines(a, key)
            + (topic_lines(b.drop_last(), key) + chunk));
    }
}

/// The lines that `help <topic>` shows for one entry of the topic's group.
pub open spec fn entry_lines(h: CommandHelp) -> Seq<char> {
    h.usage@ + "\n    "@ + h.desc@ + "\n"@
}

/// `help <topic>`, when the topic names a group, shows the usage and
/// description of every entry of that group; the output is that listing
/// without its trailing whitespace.
pub proof fn law_help_topic_lists_whole_group(t: Seq<CommandHelp>, topic: Seq<char>)
    requires
        has_group(t, topic_key(topic)),
    ensures
        help_topic_text(t, topic) == trim_end(topic_lines(t, topic_key(topic))),
        forall|i: int|
            0 <= i < t.len() && t[i].group@ == topic_key(topic) ==> occurs_in(
                #[trigger] entry_lines(t[i]),
                topic_lines(t, topic_key(topic)),
            ),
{
    let key = topic_key(topic);
    assert forall|i: int| 0 <= i < t.len() && t[i].group@ == key implies occurs_in(
        #[trigger] entry_lines(t[i]),
        topic_lines(t, key),
    ) by {
        let a = t.take(i);
        let b = t.subrange(i, i + 1);
        let c = t.skip(i + 1);
        assert(t =~= a + b + c);
        lemma_topic_lines_concat(a + b, c, key);
        lemma_topic_lines_concat(a, b, key);
        assert(b.drop_last() =~= Seq::<CommandHelp>::empty());
        assert(b.last() == t[i]);
        assert(topic_lines(b.drop_last(), key) =~= seq![]);
        assert(topic_lines(b, key) =~= entry_lines(t[i]));
        let whole = topic_lines(a, key) + entry_lines(t[i]) + topic_lines(c, key);
        assert(topic_lines(t, key) == whole);
        let j = topic_lines(a, key).len() as int;
        assert(whole.subrange(j, j + entry_lines(t[i]).len()) =~= entry_lines(t[i]));
    }
}

/// The groups near a key: every group of the table that is near it, each
/// once, and nothing else.
proof fn lemma_near_groups(t: Seq<CommandHelp>, key: Seq<char>)
    ensures
        forall|i: int|
            0 <= i < t.len() && near(t[i].group@, key) ==> near_groups(t, key).contains(
                #[trigger] t[i].group@,
            ),
        near_groups(t, key).no_duplicates(),
        forall|k: int|
            0 <= k < near_groups(t, key).len() ==> near(#[trigger] near_groups(t, key)[k], key)
                && exists|i: int| #![trigger t[i]] 0 <= i < t.len() && t[i].group@ == near_groups(t, key)[k],
    decreases t.len(),
{
    if t.len() > 0 {
        let p = t.drop_last();
        lemma_near_groups(p, key);
        let g = near_groups(p, key);
        let h = t.last().group@;
        assert forall|i: int| 0 <= i < t.len() && near(t[i].group@, key) implies near_groups(
            t,
            key,
        ).contains(#[trigger] t[i].group@) by {
            if i < t.len() - 1 {
                assert(p[i] == t[i]);
                assert(g.contains(p[i].group@));
                let k = choose|k: int| 0 <= k < g.len() && g[k] == t[i].group@;
                assert(near_groups(t, key)[k] == g[k]);
            } else {
                if !g.contains(h) {
                    assert(g.push(h)[g.len() as int] == h);
                }
            }
        }
        assert forall|k: int| 0 <= k < near_groups(t, key).len() implies near(
            #[trigger] near_groups(t, key)[k],
            key,
        ) && exists|i: int| #![trigger t[i]] 0 <= i < t.len() && t[i].group@ == near_groups(t, key)[k] by {
            if k < g.len() {
                let i = choose|i: int| #![trigger p[i]] 0 <= i < p.len() && p[i].group@ == g[k];
                assert(t[i] == p[i]);
            } else {
                assert(t[t.len() - 1].group@ == near_groups(t, key)[k]);
            }
        }
    }
}

/// The suggestion for a topic that names no group lists group `i` when it
/// is near the topic.
#[verifier::spinoff_prover]
#[verifier::rlimit(50)]
proof fn lemma_suggestion_lists(t: Seq<CommandHelp>, topic: Seq<char>, i: int)
    requires
        !has_group(t, topic_key(topic)),
        0 <= i < t.len(),
        near(t[i].group@, topic_key(topic)),
    ensures
        occurs_in(t[i].group@, help_topic_text(t, topic)),
{
    let key = topic_key(topic);
    let gs = near_groups(t, key);
    let g = t[i].group@;
    assert(gs.contains(g)) by {
        lemma_near_groups(t, key);
    }
    let k = choose|k: int| 0 <= k < gs.len() && gs[k] == g;
    let jn = join(gs, "  "@);
    assert(occurs_in(gs[k], jn)) by {
        lemma_join_contains(gs, "  "@, k);
    }
    let j0 = choose|j: int|
        0 <= j && j + gs[k].len() <= jn.len() && #[trigger] jn.subrange(j, j + gs[k].len())
            == gs[k];
    let head = "没有名为 \""@ + key + "\" 的命令，你是否想找："@;
    let text = head + jn;
    assert(help_topic_text(t, topic) == text);
    let j: int = head.len() as int + j0;
    assert(text.subrange(j, j + g.len()) =~= jn.subrange(j0, j0 + g.len()));
}

/// `help <topic>` for a topic that names no group says so, and suggests
/// every group whose name begins with the topic or with which the topic
/// begins, and only such groups; with no such group it points to `help`.
pub proof fn law_help_topic_suggests_near_groups(t: Seq<CommandHelp>, topic: Seq<char>)
    requires
        !has_group(t, topic_key(topic)),
    ensures
        near_groups(t, topic_key(topic)).len() == 0 ==> help_topic_text(t, topic) == "没有名为 \""@
            + topic_key(topic) + "\" 的命令，用 help 查看全部"@,
        forall|i: int|
            0 <= i < t.len() && near(t[i].group@, topic_key(topic)) ==> occurs_in(
                #[trigger] t[i].group@,
                help_topic_text(t, topic),
            ),
        forall|k: int|
            0 <= k < near_groups(t, topic_key(topic)).len() ==> near(
                #[trigger] near_groups(t, topic_key(topic))[k],
                topic_key(topic),
            ),
{
    lemma_near_groups(t, topic_key(topic));
    assert forall|i: int| 0 <= i < t.len() && near(t[i].group@, topic_key(topic)) implies occurs_in(
        #[trigger] t[i].group@,
        help_topic_text(t, topic),
    ) by {
        lemma_suggestion_lists(t, topic, i);
    }
}

/// A talent config file that could not be read or parsed leaves the
/// table as the other files make it: one bad file does not spoil the rest.
pub proof fn law_unreadable_talent_file_is_skipped<A>(
    m: Map<u32, Vec<A>>,
    before: Seq<Option<Seq<(InternString, Vec<A>)>>>,
    after: Seq<Option<Seq<(InternString, Vec<A>)>>>,
)
    ensures
        with_talent_files(m, before + seq![None] + after) == with_talent_files(m, before + after),
    decreases after.len(),
{
    if after.len() == 0 {
        assert((before + seq![None] + after).drop_last() =~= before);
        assert(before + after =~= before);
    } else {
        law_unreadable_talent_file_is_skipped(m, before, after.drop_last());
        assert((before + seq![None] + after).drop_last() =~= before + seq![None] + after.drop_last());
        assert((before + after).drop_last() =~= before + after.drop_last());
    }
}

/// Indexing anecdotes by id keeps every id of the list, and an id maps to
/// the last config of the list that has it.
pub proof fn law_anecdote_index_keeps_last(list: Seq<AnecdoteExcelConfig>, i: int)
    requires
        0 <= i < list.len(),
    ensures
        anecdotes_by_id(list).contains_key(list[i].anecdote_id),
        (forall|j: int| i < j < list.len() ==> list[j].anecdote_id != list[i].anecdote_id)
            ==> anecdotes_by_id(list)[list[i].anecdote_id] == list[i],
    decreases list.len(),
{
    if i < list.len() - 1 {
        law_anecdote_index_keeps_last(list.drop_last(), i);
        assert(list.drop_last()[i] == list[i]);
        assert(forall|j: int|
            i < j < list.drop_last().len() ==> list.drop_last()[j] == list[j]);
    }
}

/// Indexing flycloaks by id keeps every id of the list, and an id maps to
/// the last config of the list that has it.
pub proof fn law_flycloak_index_keeps_last(list: Seq<AvatarFlycloakExcelConfig>, i: int)
    requires
        0 <= i < list.len(),
    ensures
        flycloaks_by_id(list).contains_key(list[i].flycloak_id),
        (forall|j: int| i < j < list.len() ==> list[j].flycloak_id != list[i].flycloak_id)
            ==> flycloaks_by_id(list)[list[i].flycloak_id] == list[i],
    decreases list.len(),
{
    if i < list.len() - 1 {
        law_flycloak_index_keeps_last(list.drop_last(), i);
        assert(list.drop_last()[i] == list[i]);
        assert(forall|j: int|
            i < j < list.drop_last().len() ==> list.drop_last()[j] == list[j]);
    }
}

/// Indexing daily dungeon entries by id keeps every id of the list, and an
/// id maps to the last entry of the list that has it.
pub proof fn law_daily_dungeon_index_keeps_last(list: Seq<DailyDungeonConfig>, i: int)
    requires
        0 <= i < list.len(),
    ensures
        daily_dungeons_by_id(list).contains_key(list[i].id),
        (forall|j: int| i < j < list.len() ==> list[j].id != list[i].id) ==> daily_dungeons_by_id(
            list,
        )[list[i].id] == list[i],
    decreases list.len(),
{
    if i < list.len() - 1 {
        law_daily_dungeon_index_keeps_last(list.drop_last(), i);
        assert(list.drop_last()[i] == list[i]);
        assert(forall|j: int|
            i < j < list.drop_last().len() ==> list.drop_last()[j] == list[j]);
    }
}

/// The open configs of a list of talent ids are those of its first part
/// followed by those of the rest: each id contributes in its place in the
/// list, independently of the others.
pub proof fn law_talent_open_configs_follow_list_order(
    a: Seq<u32>,
    b: Seq<u32>,
    m: Map<u32, AvatarTalentExcelConfig>,
)
    ensures
        talent_open_configs(a + b, m) == talent_open_configs(a, m) + talent_open_configs(b, m),
    decreases b.len(),
{
    if b.len() == 0 {
        assert(a + b =~= a);
        assert(talent_open_configs(b, m) =~= Seq::<InternString>::empty());
        assert(talent_open_configs(a, m) + talent_open_configs(b, m) =~= talent_open_configs(a, m));
    } else {
        law_talent_open_configs_follow_list_order(a, b.drop_last(), m);
        assert((a + b).drop_last() =~= a + b.drop_last());
        assert((a + b).last() == b.last());
        let x = b.last();
        if m.contains_key(x) {
            assert((talent_open_configs(a, m) + talent_open_configs(b.drop_last(), m)).push(m[x].open_config)
                =~= talent_open_configs(a, m) + talent_open_configs(b.drop_last(), m).push(m[x].open_config));
        }
    }
}

/// A single talent id gives the open config that the collection holds for
/// it, or nothing when the collection does not hold it.
pub proof fn law_talent_open_config_of_one_id(x: u32, m: Map<u32, AvatarTalentExcelConfig>)
    ensures
        talent_open_configs(seq![x], m) == if m.contains_key(x) {
            seq![m[x].open_config]
        } else {
            Seq::<InternString>::empty()
        },
{
    assert(seq![x].drop_last() =~= Seq::<u32>::empty());
    assert(talent_open_configs(Seq::<u32>::empty(), m) =~= Seq::<InternString>::empty());
    if m.contains_key(x) {
        assert(Seq::<InternString>::empty().push(m[x].open_config) =~= seq![m[x].open_config]);
    }
}

/// The open configs of a list of proud skill ids are those of its first part
/// followed by those of the rest: each id contributes in its place in the
/// list, independently of the others.
pub proof fn law_proud_skill_open_configs_follow_list_order(
    a: Seq<u32>,
    b: Seq<u32>,
    m: Map<u32, ProudSkillExcelConfig>,
)
    ensures
        proud_skill_open_configs(a + b, m) == proud_skill_open_configs(a, m) + proud_skill_open_configs(b, m),
    decreases b.len(),
{
    if b.len() == 0 {
        assert(a + b =~= a);
        assert(proud_skill_open_configs(b, m) =~= Seq::<InternString>::empty());
        assert(proud_skill_open_configs(a, m) + proud_skill_open_configs(b, m) =~= proud_skill_open_configs(a, m));
    } else {
        law_proud_skill_open_configs_follow_list_order(a, b.drop_last(), m);
        assert((a + b).drop_last() =~= a + b.drop_last());
        assert((a + b).last() == b.last());
        let x = b.last();
        if m.contains_key(x) {
            assert((proud_skill_open_configs(a, m) + proud_skill_open_configs(b.drop_last(), m)).push(m[x].open_config)
                =~= proud_skill_open_configs(a, m) + proud_skill_open_configs(b.drop_last(), m).push(m[x].open_config));
        }
    }
}

/// A single proud skill id gives the open config that the collection holds for
/// it, or nothing when the collection does not hold it.
pub proof fn law_proud_skill_open_config_of_one_id(x: u32, m: Map<u32, ProudSkillExcelConfig>)
    ensures
        proud_skill_open_configs(seq![x], m) == if m.contains_key(x) {
            seq![m[x].open_config]
        } else {
            Seq::<InternString>::empty()
        },
{
    assert(seq![x].drop_last() =~= Seq::<u32>::empty());
    assert(proud_skill_open_configs(Seq::<u32>::empty(), m) =~= Seq::<InternString>::empty());
    if m.contains_key(x) {
        assert(Seq::<InternString>::empty().push(m[x].open_config) =~= seq![m[x].open_config]);
    }
}

/// Adding the talents of one file is adding those of its first part, then
/// those of the rest.
pub proof fn law_talents_add_in_order<A>(
    m: Map<u32, Vec<A>>,
    t1: Seq<(InternString, Vec<A>)>,
    t2: Seq<(InternString, Vec<A>)>,
)
    ensures
        with_talents(m, t1 + t2) == with_talents(with_talents(m, t1), t2),
    decreases t2.len(),
{
    if t2.len() == 0 {
        assert(t1 + t2 =~= t1);
    } else {
        law_talents_add_in_order(m, t1, t2.drop_last());
        assert((t1 + t2).drop_last() =~= t1 + t2.drop_last());
        assert((t1 + t2).last() == t2.last());
    }
}

/// One talent entry sets the actions of its name, replacing any that the
/// table held for it and leaving the other names as they were.
pub proof fn law_talent_entry_replaces<A>(m: Map<u32, Vec<A>>, name: InternString, actions: Vec<A>)
    ensures
        with_talents(m, seq![(name, actions)]) == m.insert(name.0, actions),
{
    let t = seq![(name, actions)];
    assert(t.drop_last() =~= Seq::<(InternString, Vec<A>)>::empty());
    assert(with_talents(m, t.drop_last()) == m);
    assert(t.last() == (name, actions));
}

/// Loading config files is loading the first ones, then the rest; one
/// file that was read adds its talents, and one that was not adds nothing.
pub proof fn law_talent_files_load_in_order<A>(
    m: Map<u32, Vec<A>>,
    f1: Seq<Option<Seq<(InternString, Vec<A>)>>>,
    f2: Seq<Option<Seq<(InternString, Vec<A>)>>>,
    t: Seq<(InternString, Vec<A>)>,
)
    ensures
        with_talent_files(m, f1 + f2) == with_talent_files(with_talent_files(m, f1), f2),
        with_talent_files(m, seq![Some(t)]) == with_talents(m, t),
        with_talent_files(m, seq![None]) == m,
    decreases f2.len(),
{
    let one = seq![Some(t)];
    let none = seq![None::<Seq<(InternString, Vec<A>)>>];
    assert(one.drop_last() =~= Seq::<Option<Seq<(InternString, Vec<A>)>>>::empty());
    assert(none.drop_last() =~= Seq::<Option<Seq<(InternString, Vec<A>)>>>::empty());
    assert(with_talent_files(m, one.drop_last()) == m);
    assert(one.last() == Some(t));
    assert(none.last() is None);
    assert(with_talent_files(m, none) == with_talent_files(m, none.drop_last()));
    if f2.len() == 0 {
        assert(f1 + f2 =~= f1);
    } else {
        law_talent_files_load_in_order(m, f1, f2.drop_last(), t);
        assert((f1 + f2).drop_last() =~= f1 + f2.drop_last());
        assert((f1 + f2).last() == f2.last());
    }
}

/// Indexing anecdotes by id holds no id that the list does not have.
pub proof fn law_anecdote_index_holds_only_listed_ids(list: Seq<AnecdoteExcelConfig>, k: u32)
    requires
        anecdotes_by_id(list).contains_key(k),
    ensures
        exists|i: int| 0 <= i < list.len() && #[trigger] list[i].anecdote_id == k,
    decreases list.len(),
{
    let n = list.len() - 1;
    if list.last().anecdote_id == k {
        assert(list[n].anecdote_id == k);
    } else {
        law_anecdote_index_holds_only_listed_ids(list.drop_last(), k);
        let i = choose|i: int| 0 <= i < list.drop_last().len() && #[trigger] list.drop_last()[i].anecdote_id == k;
        assert(list[i] == list.drop_last()[i]);
    }
}

/// Indexing flycloaks by id holds no id that the list does not have.
pub proof fn law_flycloak_index_holds_only_listed_ids(list: Seq<AvatarFlycloakExcelConfig>, k: u32)
    requires
        flycloaks_by_id(list).contains_key(k),
    ensures
        exists|i: int| 0 <= i < list.len() && #[trigger] list[i].flycloak_id == k,
    decreases list.len(),
{
    let n = list.len() - 1;
    if list.last().flycloak_id == k {
        assert(list[n].flycloak_id == k);
    } else {
        law_flycloak_index_holds_only_listed_ids(list.drop_last(), k);
        let i = choose|i: int| 0 <= i < list.drop_last().len() && #[trigger] list.drop_last()[i].flycloak_id == k;
        assert(list[i] == list.drop_last()[i]);
    }
}

/// Indexing daily dungeon entries by id holds no id that the list does not
/// have.
pub proof fn law_daily_dungeon_index_holds_only_listed_ids(list: Seq<DailyDungeonConfig>, k: u32)
    requires
        daily_dungeons_by_id(list).contains_key(k),
    ensures
        exists|i: int| 0 <= i < list.len() && #[trigger] list[i].id == k,
    decreases list.len(),
{
    let n = list.len() - 1;
    if list.last().id == k {
        assert(list[n].id == k);
    } else {
        law_daily_dungeon_index_holds_only_listed_ids(list.drop_last(), k);
        let i = choose|i: int| 0 <= i < list.drop_last().len() && #[trigger] list.drop_last()[i].id == k;
        assert(list[i] == list.drop_last()[i]);
    }
}

} // verus!
