//! The named parameters of a command, read from `key value` pairs.
use crate::command::opt_view;
use crate::text::{decimal, float_text, is_float_text, parse_u32, parse_u32_text, push_decimal, split, split_text, text_eq, views};
use std::collections::HashMap;
use vstd::prelude::*;

verus! {

broadcast use vstd::std_specs::hash::group_hash_axioms;

/// Named parameters, each key holding the value given for it last.
///
/// The entries are kept as a list of insertions, the last one for a key
/// giving its value: vstd's specification of `HashMap` holds only for key
/// types known to obey its key model, which `String` is not, so a
/// `HashMap<String, String>` would leave these contracts unprovable.
pub struct FieldMap {
    entries: Vec<(String, String)>,
}

/// The map that a list of insertions leaves, later ones overriding earlier ones.
pub open spec fn entries_map(e: Seq<(String, String)>) -> Map<Seq<char>, Seq<char>>
    decreases e.len(),
{
    if e.len() == 0 {
        Map::empty()
    } else {
        entries_map(e.drop_last()).insert(e.last().0@, e.last().1@)
    }
}

/// What `FieldMap::take` gives for `key` in `m`.
pub open spec fn take_spec(m: Map<Seq<char>, Seq<char>>, key: Seq<char>) -> Result<u32, Seq<char>> {
    if !m.contains_key(key) {
        Err("缺少参数: "@ + key)
    } else {
        match parse_u32(m[key]) {
            Some(v) => Ok(v),
            None => Err("参数 "@ + key + " 的值无效: \""@ + m[key] + "\""@),
        }
    }
}

/// What `FieldMap::take_opt` gives for `key` in `m`.
pub open spec fn take_opt_spec(m: Map<Seq<char>, Seq<char>>, key: Seq<char>) -> Option<u32> {
    if m.contains_key(key) {
        parse_u32(m[key])
    } else {
        None
    }
}

/// What `FieldMap::take_opt_float` gives for `key` in `m`: the text given
/// for `key`, if it reads as a floating-point number.
pub open spec fn take_opt_float_spec(m: Map<Seq<char>, Seq<char>>, key: Seq<char>) -> Option<
    Seq<char>,
> {
    if m.contains_key(key) && float_text(m[key]) {
        Some(m[key])
    } else {
        None
    }
}

/// The value of `key` in `m`, if any.
pub open spec fn take_text_spec(m: Map<Seq<char>, Seq<char>>, key: Seq<char>) -> Option<Seq<char>> {
    if m.contains_key(key) {
        Some(m[key])
    } else {
        None
    }
}

/// The message for group `i` (counted from 0) of parameter `key`.
pub open spec fn group_msg(key: Seq<char>, i: nat, tail: Seq<char>) -> Seq<char> {
    "参数 "@ + key + " 第 "@ + decimal(i + 1) + tail
}

/// Reads the `k,v` groups `pieces[i..]` of parameter `key` into `acc`.
pub open spec fn prop_pairs(
    key: Seq<char>,
    pieces: Seq<Seq<char>>,
    i: nat,
    acc: Map<u32, u32>,
) -> Result<Map<u32, u32>, Seq<char>>
    decreases pieces.len() - i,
{
    if i >= pieces.len() {
        Ok(acc)
    } else {
        let kv = split(pieces[i as int], ',');
        if kv.len() == 0 {
            Err(group_msg(key, i, " 组缺少 key"@))
        } else if kv.len() < 2 {
            Err(group_msg(key, i, " 组缺少 value"@))
        } else {
            match parse_u32(kv[0]) {
                None => Err(group_msg(key, i, " 组的 key 无效: \""@ + kv[0] + "\""@)),
                Some(k) => match parse_u32(kv[1]) {
                    None => Err(group_msg(key, i, " 组的 value 无效: \""@ + kv[1] + "\""@)),
                    Some(v) => prop_pairs(key, pieces, i + 1, acc.insert(k, v)),
                },
            }
        }
    }
}

/// What `FieldMap::take_map_u32` gives for `key` in `m`: no entry gives
/// an empty map; otherwise the `;`-separated `k,v` groups, later keys
/// overriding earlier ones, or the first group that cannot be read.
pub open spec fn take_map_spec(m: Map<Seq<char>, Seq<char>>, key: Seq<char>) -> Result<
    Map<u32, u32>,
    Seq<char>,
> {
    if !m.contains_key(key) {
        Ok(Map::empty())
    } else {
        prop_pairs(key, split(m[key], ';'), 0, Map::empty())
    }
}

impl View for FieldMap {
    type V = Map<Seq<char>, Seq<char>>;

    closed spec fn view(&self) -> Map<Seq<char>, Seq<char>> {
        entries_map(self.entries@)
    }
}

impl FieldMap {
    /// An empty parameter map.
    pub fn new() -> (r: FieldMap)
        ensures
            r@ == Map::<Seq<char>, Seq<char>>::empty(),
    {
        FieldMap { entries: Vec::new() }
    }

    /// Sets `key` to `value`, replacing any earlier value.
    pub fn insert(&mut self, key: String, value: String)
        ensures
            final(self)@ == old(self)@.insert(key@, value@),
    {
        let ghost e = self.entries@;
        self.entries.push((key, value));
        assert(self.entries@.drop_last() =~= e);
    }

    /// Removes `key`, giving back its value if it had one.
    pub fn remove(&mut self, key: &str) -> (r: Option<String>)
        ensures
            opt_view(r) == take_text_spec(old(self)@, key@),
            final(self)@ == old(self)@.remove(key@),
    {
        let ghost old_entries = self.entries@;
        let mut kept: Vec<(String, String)> = Vec::new();
        let mut found: Option<String> = None;
        let mut i: usize = 0;
        assert(old_entries.take(0) =~= seq![]);
        assert(entries_map(kept@) =~= entries_map(old_entries.take(0)).remove(key@));
        while i < self.entries.len()
            invariant
                self.entries@ == old_entries,
                i <= old_entries.len(),
                entries_map(kept@) == entries_map(old_entries.take(i as int)).remove(key@),
                opt_view(found) == take_text_spec(
                    entries_map(old_entries.take(i as int)),
                    key@,
                ),
            decreases old_entries.len() - i,
        {
            let ghost prev = entries_map(old_entries.take(i as int));
            assert(old_entries.take(i + 1).drop_last() =~= old_entries.take(i as int));
            let k = self.entries[i].0.clone();
            let v = self.entries[i].1.clone();
            assert(old_entries.take(i + 1).last() == old_entries[i as int]);
            if text_eq(k.as_str(), key) {
                found = Some(v);
                assert(prev.insert(k@, v@).remove(key@) =~= prev.remove(key@));
            } else {
                let ghost kept_before = kept@;
                kept.push((k, v));
                assert(kept@.drop_last() =~= kept_before);
                assert(prev.remove(key@).insert(k@, v@) =~= prev.insert(k@, v@).remove(key@));
            }
            i = i + 1;
        }
        assert(old_entries.take(old_entries.len() as int) =~= old_entries);
        self.entries = kept;
        found
    }

    /// Takes the value of `key` as a `u32`.
    pub fn take(&mut self, key: &str) -> (r: Result<u32, String>)
        ensures
            result_view(r) == take_spec(old(self)@, key@),
            final(self)@ == old(self)@.remove(key@),
    {
        match self.remove(key) {
            None => {
                let mut e: String = "缺少参数: ".to_owned();
                e.append(key);
                Err(e)
            },
            Some(v) => match parse_u32_text(v.as_str()) {
                Some(n) => Ok(n),
                None => {
                    let mut e: String = "参数 ".to_owned();
                    e.append(key);
                    e.append(" 的值无效: \"");
                    e.append(v.as_str());
                    e.append("\"");
                    Err(e)
                },
            },
        }
    }

    /// Takes the value of `key` as a `u32`, if it is there and reads as one.
    pub fn take_opt(&mut self, key: &str) -> (r: Option<u32>)
        ensures
            r == take_opt_spec(old(self)@, key@),
            final(self)@ == old(self)@.remove(key@),
    {
        match self.remove(key) {
            None => None,
            Some(v) => parse_u32_text(v.as_str()),
        }
    }

    /// Takes the text given for `key`, if it reads as a floating-point number.
    pub fn take_opt_float(&mut self, key: &str) -> (r: Option<String>)
        ensures
            opt_view(r) == take_opt_float_spec(old(self)@, key@),
            final(self)@ == old(self)@.remove(key@),
    {
        match self.remove(key) {
            Some(v) => {
                if is_float_text(v.as_str()) {
                    Some(v)
                } else {
                    None
                }
            },
            None => None,
        }
    }

    /// Takes the value of `key` as `;`-separated `k,v` groups of `u32`s.
    pub fn take_map_u32(&mut self, key: &str) -> (r: Result<HashMap<u32, u32>, String>)
        ensures
            map_result_view(r) == take_map_spec(old(self)@, key@),
            final(self)@ == old(self)@.remove(key@),
    {
        let raw = match self.remove(key) {
            Some(v) => v,
            None => {
                let m: HashMap<u32, u32> = HashMap::new();
                return Ok(m);
            },
        };
        let pieces = split_text(raw.as_str(), ';');
        let mut out: HashMap<u32, u32> = HashMap::new();
        let mut i: usize = 0;
        while i < pieces.len()
            invariant
                i <= pieces.len(),
                views(pieces@) == split(raw@, ';'),
                self@ == old(self)@.remove(key@),
                take_text_spec(old(self)@, key@) == Some(raw@),
                prop_pairs(key@, views(pieces@), 0, Map::empty()) == prop_pairs(
                    key@,
                    views(pieces@),
                    i as nat,
                    out@,
                ),
            decreases pieces.len() - i,
        {
            let kv = split_text(pieces[i].as_str(), ',');
            assert(views(pieces@)[i as int] == pieces@[i as int]@);
            if kv.len() == 0 {
                return Err(group_error(key, i, " 组缺少 key"));
            }
            if kv.len() < 2 {
                return Err(group_error(key, i, " 组缺少 value"));
            }
            assert(views(kv@)[0] == kv@[0]@);
            assert(views(kv@)[1] == kv@[1]@);
            let k = match parse_u32_text(kv[0].as_str()) {
                Some(k) => k,
                None => {
                    let mut tail: String = " 组的 key 无效: \"".to_owned();
                    tail.append(kv[0].as_str());
                    tail.append("\"");
                    return Err(group_error(key, i, tail.as_str()));
                },
            };
            let v = match parse_u32_text(kv[1].as_str()) {
                Some(v) => v,
                None => {
                    let mut tail: String = " 组的 value 无效: \"".to_owned();
                    tail.append(kv[1].as_str());
                    tail.append("\"");
                    return Err(group_error(key, i, tail.as_str()));
                },
            };
            out.insert(k, v);
            i = i + 1;
        }
        Ok(out)
    }
}

/// The message for group `i` of parameter `key`, ending in `tail`.
fn group_error(key: &str, i: usize, tail: &str) -> (r: String)
    requires
        i < usize::MAX,
    ensures
        r@ == group_msg(key@, i as nat, tail@),
{
    let mut e: String = "参数 ".to_owned();
    e.append(key);
    e.append(" 第 ");
    push_decimal(&mut e, i + 1);
    e.append(tail);
    e
}

/// The view of a result whose error is a message.
pub open spec fn result_view<T>(r: Result<T, String>) -> Result<T, Seq<char>> {
    match r {
        Ok(v) => Ok(v),
        Err(e) => Err(e@),
    }
}

/// The view of a result holding a map, or a message.
pub open spec fn map_result_view(r: Result<HashMap<u32, u32>, String>) -> Result<
    Map<u32, u32>,
    Seq<char>,
> {
    match r {
        Ok(m) => Ok(m@),
        Err(e) => Err(e@),
    }
}

} // verus!
