//! Reading the arguments of a command from its words.
use crate::field_map::{result_view, take_spec, FieldMap};
use crate::text::{parse_u32, parse_u32_text, text_eq, views};
use vstd::prelude::*;

verus! {

/// `msg` followed by the usage line for `help`.
pub open spec fn with_usage(msg: Seq<char>, help: Seq<char>) -> Seq<char> {
    msg + "\n用法: "@ + help
}

/// Appends the usage line for `help` to `msg`.
pub fn push_usage(msg: &mut String, help: &str)
    ensures
        final(msg)@ == with_usage(old(msg)@, help@),
{
    msg.append("\n用法: ");
    msg.append(help);
}

/// Whether word `i` of `w` is `lit`.
pub fn word_is(w: &Vec<String>, i: usize, lit: &str) -> (r: bool)
    requires
        i < w@.len(),
    ensures
        r == (views(w@)[i as int] == lit@),
{
    text_eq(w[i].as_str(), lit)
}

/// Word `i` taken as a plain string argument.
pub open spec fn single_spec(w: Seq<Seq<char>>, i: int, help: Seq<char>) -> Result<
    Seq<char>,
    Seq<char>,
> {
    if 0 <= i < w.len() {
        Ok(w[i])
    } else {
        Err(with_usage("参数错误"@, help))
    }
}

/// Takes word `i` as a plain string argument.
pub fn parse_single(w: &Vec<String>, i: usize, help: &str) -> (r: Result<String, String>)
    ensures
        result_view_text(r) == single_spec(views(w@), i as int, help@),
{
    if i < w.len() {
        Ok(w[i].clone())
    } else {
        let mut e: String = "参数错误".to_owned();
        push_usage(&mut e, help);
        Err(e)
    }
}

/// Word `i` taken as the `u32` argument `param`.
pub open spec fn single_u32_spec(
    w: Seq<Seq<char>>,
    i: int,
    param: Seq<char>,
    help: Seq<char>,
) -> Result<u32, Seq<char>> {
    if !(0 <= i < w.len()) {
        Err(with_usage("缺少参数: "@ + param, help))
    } else {
        match parse_u32(w[i]) {
            Some(v) => Ok(v),
            None => Err(with_usage("参数 "@ + param + " 的值无效: \""@ + w[i] + "\""@, help)),
        }
    }
}

/// Takes word `i` as the `u32` argument `param`.
pub fn parse_single_u32(w: &Vec<String>, i: usize, param: &str, help: &str) -> (r: Result<
    u32,
    String,
>)
    ensures
        result_view(r) == single_u32_spec(views(w@), i as int, param@, help@),
{
    if i >= w.len() {
        let mut e: String = "缺少参数: ".to_owned();
        e.append(param);
        push_usage(&mut e, help);
        return Err(e);
    }
    match parse_u32_text(w[i].as_str()) {
        Some(v) => Ok(v),
        None => {
            let mut e: String = "参数 ".to_owned();
            e.append(param);
            e.append(" 的值无效: \"");
            e.append(w[i].as_str());
            e.append("\"");
            push_usage(&mut e, help);
            Err(e)
        },
    }
}

/// Word `i`, if there is one.
pub open spec fn opt_word_spec(w: Seq<Seq<char>>, i: int) -> Option<Seq<char>> {
    if 0 <= i < w.len() {
        Some(w[i])
    } else {
        None
    }
}

/// Word `i` read as a `u32`, if there is such a word and it reads as one.
pub open spec fn opt_u32_spec(w: Seq<Seq<char>>, i: int) -> Option<u32> {
    if 0 <= i < w.len() {
        parse_u32(w[i])
    } else {
        None
    }
}

/// Word `i`, if there is one.
pub fn opt_word(w: &Vec<String>, i: usize) -> (r: Option<String>)
    ensures
        crate::command::opt_view(r) == opt_word_spec(views(w@), i as int),
{
    if i < w.len() {
        Some(w[i].clone())
    } else {
        None
    }
}

/// Word `i` read as a `u32`, if there is such a word and it reads as one.
pub fn opt_u32(w: &Vec<String>, i: usize) -> (r: Option<u32>)
    ensures
        r == opt_u32_spec(views(w@), i as int),
{
    if i < w.len() {
        parse_u32_text(w[i].as_str())
    } else {
        None
    }
}

/// The `key value` pairs of `w` from word `j` on, inserted into `m`.
pub open spec fn pairs_spec(
    w: Seq<Seq<char>>,
    j: nat,
    m: Map<Seq<char>, Seq<char>>,
    help: Seq<char>,
) -> Result<Map<Seq<char>, Seq<char>>, Seq<char>>
    decreases w.len() - j,
{
    if j >= w.len() {
        Ok(m)
    } else if j + 1 >= w.len() {
        Err(with_usage("参数 "@ + w[j as int] + " 缺少值"@, help))
    } else {
        pairs_spec(w, j + 2, m.insert(w[j as int], w[j + 1 as int]), help)
    }
}

/// The named parameters of a command: word `start` is the value of
/// `first_param`, and the words after it are `key value` pairs.
pub open spec fn struct_spec(
    w: Seq<Seq<char>>,
    start: nat,
    first_param: Seq<char>,
    help: Seq<char>,
) -> Result<Map<Seq<char>, Seq<char>>, Seq<char>> {
    if start >= w.len() {
        Err(with_usage("缺少参数: "@ + first_param, help))
    } else {
        pairs_spec(w, start + 1, Map::empty().insert(first_param, w[start as int]), help)
    }
}

/// The view of a result holding named parameters, or a message.
pub open spec fn fields_view(r: Result<FieldMap, String>) -> Result<
    Map<Seq<char>, Seq<char>>,
    Seq<char>,
> {
    match r {
        Ok(m) => Ok(m@),
        Err(e) => Err(e@),
    }
}

/// The view of a result holding a string, or a message.
pub open spec fn result_view_text(r: Result<String, String>) -> Result<Seq<char>, Seq<char>> {
    match r {
        Ok(s) => Ok(s@),
        Err(e) => Err(e@),
    }
}

/// Reads the named parameters of a command from word `start` on.
pub fn parse_struct(w: &Vec<String>, start: usize, first_param: &str, help: &str) -> (r: Result<
    FieldMap,
    String,
>)
    ensures
        fields_view(r) == struct_spec(views(w@), start as nat, first_param@, help@),
{
    let ghost wv = views(w@);
    if start >= w.len() {
        let mut e: String = "缺少参数: ".to_owned();
        e.append(first_param);
        push_usage(&mut e, help);
        return Err(e);
    }
    let mut map = FieldMap::new();
    map.insert(first_param.to_owned(), w[start].clone());
    let mut j: usize = start + 1;
    while j < w.len()
        invariant
            wv == views(w@),
            start < j <= w.len(),
            struct_spec(wv, start as nat, first_param@, help@) == pairs_spec(
                wv,
                j as nat,
                map@,
                help@,
            ),
        decreases w.len() - j,
    {
        if j + 1 >= w.len() {
            let mut e: String = "参数 ".to_owned();
            e.append(w[j].as_str());
            e.append(" 缺少值");
            push_usage(&mut e, help);
            return Err(e);
        }
        map.insert(w[j].clone(), w[j + 1].clone());
        j = j + 2;
    }
    Ok(map)
}

/// A command whose one parameter is the `u32` named `param`.
pub open spec fn struct_u32_spec(
    w: Seq<Seq<char>>,
    start: nat,
    param: Seq<char>,
    help: Seq<char>,
) -> Result<u32, Seq<char>> {
    match struct_spec(w, start, param, help) {
        Err(e) => Err(e),
        Ok(m) => match take_spec(m, param) {
            Ok(v) => Ok(v),
            Err(e) => Err(with_usage(e, help)),
        },
    }
}

/// Reads a command whose one parameter is the `u32` named `param`.
pub fn parse_struct_u32(w: &Vec<String>, start: usize, param: &str, help: &str) -> (r: Result<
    u32,
    String,
>)
    ensures
        result_view(r) == struct_u32_spec(views(w@), start as nat, param@, help@),
{
    let mut map = parse_struct(w, start, param, help)?;
    match map.take(param) {
        Ok(v) => Ok(v),
        Err(e) => {
            let mut e = e;
            push_usage(&mut e, help);
            Err(e)
        },
    }
}

/// Words 2 and 3 taken as the `u32` arguments `p1` and `p2`.
pub open spec fn two_u32_spec(w: Seq<Seq<char>>, p1: Seq<char>, p2: Seq<char>, help: Seq<char>) -> Result<
    (u32, u32),
    Seq<char>,
> {
    match single_u32_spec(w, 2, p1, help) {
        Err(e) => Err(e),
        Ok(a) => match single_u32_spec(w, 3, p2, help) {
            Err(e) => Err(e),
            Ok(b) => Ok((a, b)),
        },
    }
}

/// Takes words 2 and 3 as the `u32` arguments `p1` and `p2`.
pub fn parse_two_u32(w: &Vec<String>, p1: &str, p2: &str, help: &str) -> (r: Result<
    (u32, u32),
    String,
>)
    ensures
        result_view(r) == two_u32_spec(views(w@), p1@, p2@, help@),
{
    let a = parse_single_u32(w, 2, p1, help)?;
    let b = parse_single_u32(w, 3, p2, help)?;
    Ok((a, b))
}

} // verus!
