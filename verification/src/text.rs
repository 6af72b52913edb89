//! Character-level text handling: whitespace, trimming, splitting into
//! words and pieces, and decimal numbers.
use vstd::prelude::*;
use vstd::string::StrSliceExecFns;

verus! {

/// The characters that carry the Unicode `White_Space` property.
pub open spec fn is_ws(c: char) -> bool {
    ||| ('\u{9}' <= c && c <= '\u{d}')
    ||| c == ' '
    ||| c == '\u{85}'
    ||| c == '\u{a0}'
    ||| c == '\u{1680}'
    ||| ('\u{2000}' <= c && c <= '\u{200a}')
    ||| c == '\u{2028}'
    ||| c == '\u{2029}'
    ||| c == '\u{202f}'
    ||| c == '\u{205f}'
    ||| c == '\u{3000}'
}

/// Whether `c` is a whitespace character.
pub fn is_whitespace(c: char) -> (r: bool)
    ensures
        r == is_ws(c),
{
    ('\u{9}' <= c && c <= '\u{d}') || c == ' ' || c == '\u{85}' || c == '\u{a0}' || c == '\u{1680}'
        || ('\u{2000}' <= c && c <= '\u{200a}') || c == '\u{2028}' || c == '\u{2029}' || c
        == '\u{202f}' || c == '\u{205f}' || c == '\u{3000}'
}

/// `s` without its leading whitespace.
pub open spec fn trim_start(s: Seq<char>) -> Seq<char>
    decreases s.len(),
{
    if s.len() > 0 && is_ws(s[0]) {
        trim_start(s.drop_first())
    } else {
        s
    }
}

/// `s` without its trailing whitespace.
pub open spec fn trim_end(s: Seq<char>) -> Seq<char>
    decreases s.len(),
{
    if s.len() > 0 && is_ws(s.last()) {
        trim_end(s.drop_last())
    } else {
        s
    }
}

/// `s` without leading and trailing whitespace.
pub open spec fn trim(s: Seq<char>) -> Seq<char> {
    trim_end(trim_start(s))
}

/// `s` without any of its leading `c` characters.
pub open spec fn trim_start_char(s: Seq<char>, c: char) -> Seq<char>
    decreases s.len(),
{
    if s.len() > 0 && s[0] == c {
        trim_start_char(s.drop_first(), c)
    } else {
        s
    }
}

/// The maximal runs of non-whitespace characters of `s`, in order.
pub open spec fn words(s: Seq<char>) -> Seq<Seq<char>>
    decreases s.len(),
{
    if s.len() == 0 {
        seq![]
    } else {
        let p = s.drop_last();
        let c = s.last();
        let ws = words(p);
        if is_ws(c) {
            ws
        } else if p.len() > 0 && !is_ws(p.last()) {
            ws.drop_last().push(ws.last().push(c))
        } else {
            ws.push(seq![c])
        }
    }
}

/// The pieces of `s` between occurrences of `sep`; there is always one
/// more piece than there are separators.
pub open spec fn split(s: Seq<char>, sep: char) -> Seq<Seq<char>>
    decreases s.len(),
{
    if s.len() == 0 {
        seq![seq![]]
    } else {
        let p = split(s.drop_last(), sep);
        if s.last() == sep {
            p.push(seq![])
        } else {
            p.drop_last().push(p.last().push(s.last()))
        }
    }
}

/// The views of a sequence of strings.
pub open spec fn views(v: Seq<String>) -> Seq<Seq<char>> {
    Seq::new(v.len(), |i: int| v[i]@)
}

/// The characters of `s`, one by one.
pub fn chars_of(s: &str) -> (r: Vec<char>)
    ensures
        r@ == s@,
{
    let n = s.unicode_len();
    let mut r: Vec<char> = Vec::new();
    let mut i: usize = 0;
    while i < n
        invariant
            n == s@.len(),
            i <= n,
            r@ == s@.take(i as int),
        decreases n - i,
    {
        let c = s.get_char(i);
        r.push(c);
        i = i + 1;
        assert(r@ =~= s@.take(i as int));
    }
    assert(r@ =~= s@);
    r
}

/// The text of `s` between character positions `start` and `end`.
pub fn substring(s: &str, start: usize, end: usize) -> (r: String)
    requires
        start <= end <= s@.len(),
    ensures
        r@ == s@.subrange(start as int, end as int),
{
    s.substring_char(start, end).to_owned()
}

/// The whitespace-separated words of `s` between character positions
/// `from` and `to`.
pub fn words_between(s: &str, chars: &Vec<char>, from: usize, to: usize) -> (r: Vec<String>)
    requires
        chars@ == s@,
        from <= to <= s@.len(),
    ensures
        views(r@) == words(s@.subrange(from as int, to as int)),
{
    let ghost t = s@.subrange(from as int, to as int);
    let mut done: Vec<String> = Vec::new();
    let mut start: usize = from;
    let mut i: usize = from;
    assert(t.take(0) =~= seq![]);
    while i < to
        invariant
            chars@ == s@,
            to <= chars@.len(),
            t == s@.subrange(from as int, to as int),
            from <= start <= i <= to,
            start < i <==> (i > from && !is_ws(chars@[i - 1])),
            views(done@) + (if start < i {
                seq![s@.subrange(start as int, i as int)]
            } else {
                seq![]
            }) == words(t.take(i - from)),
        decreases to - i,
    {
        let c = chars[i];
        let ghost prev = words(t.take(i - from));
        assert(t.take(i + 1 - from).drop_last() =~= t.take(i - from));
        assert(t.take(i + 1 - from).last() == c);
        if is_whitespace(c) {
            if start < i {
                let w = substring(s, start, i);
                let ghost old_done = done@;
                done.push(w);
                assert(views(done@) =~= views(old_done).push(s@.subrange(start as int, i as int)));
            }
            start = i + 1;
            assert(views(done@) + seq![] =~= views(done@));
        } else {
            if start < i {
                assert(t.take(i - from).last() == chars@[i - 1]);
                assert(prev == views(done@).push(s@.subrange(start as int, i as int)));
                assert(s@.subrange(start as int, i as int).push(c) =~= s@.subrange(
                    start as int,
                    i + 1,
                ));
                assert(views(done@) + seq![s@.subrange(start as int, i + 1)] =~= prev.drop_last().push(
                    prev.last().push(c),
                ));
            } else {
                assert(prev =~= views(done@));
                assert(seq![c] =~= s@.subrange(i as int, i + 1));
                assert(views(done@) + seq![s@.subrange(i as int, i + 1)] =~= prev.push(seq![c]));
            }
        }
        i = i + 1;
    }
    assert(t.take(to - from) =~= t);
    if start < to {
        let w = substring(s, start, to);
        let ghost old_done = done@;
        done.push(w);
        assert(views(done@) =~= views(old_done).push(s@.subrange(start as int, to as int)));
        assert(views(old_done) + seq![s@.subrange(start as int, to as int)] =~= views(done@));
    } else {
        assert(views(done@) + seq![] =~= views(done@));
    }
    done
}

/// The positions `(k, e)` such that `trim(s)` is `s[k..e]`.
pub fn trim_bounds(chars: &Vec<char>) -> (r: (usize, usize))
    ensures
        r.0 <= r.1 <= chars@.len(),
        trim(chars@) == chars@.subrange(r.0 as int, r.1 as int),
        r.0 < r.1 ==> !is_ws(chars@[r.0 as int]),
{
    let ghost s = chars@;
    let n = chars.len();
    let mut k: usize = 0;
    assert(s.skip(0) =~= s);
    while k < n && is_whitespace(chars[k])
        invariant
            s == chars@,
            n == s.len(),
            k <= n,
            trim_start(s) == trim_start(s.skip(k as int)),
        decreases n - k,
    {
        assert(s.skip(k as int).drop_first() =~= s.skip(k + 1));
        k = k + 1;
    }
    let ghost t = s.skip(k as int);
    assert(trim_start(t) == t);
    let mut e: usize = n;
    assert(t.take(t.len() as int) =~= t);
    while e > k && is_whitespace(chars[e - 1])
        invariant
            s == chars@,
            n == s.len(),
            k <= e <= n,
            t == s.skip(k as int),
            trim_end(t) == trim_end(t.take(e - k)),
        decreases e,
    {
        assert(t.take(e - k).drop_last() =~= t.take(e - 1 - k));
        assert(t.take(e - k).last() == chars@[e - 1]);
        e = e - 1;
    }
    assert(trim_end(t.take(e - k)) == t.take(e - k));
    assert(t.take(e - k) =~= s.subrange(k as int, e as int));
    (k, e)
}

/// Whether `c` is an ASCII decimal digit.
pub open spec fn is_digit(c: char) -> bool {
    '0' <= c && c <= '9'
}

/// The number that the decimal digits `d` denote.
pub open spec fn digits_value(d: Seq<char>) -> nat
    decreases d.len(),
{
    if d.len() == 0 {
        0
    } else {
        digits_value(d.drop_last()) * 10 + ((d.last() as int) - ('0' as int)) as nat
    }
}

/// `s` without one leading `+`.
pub open spec fn unsigned_digits(s: Seq<char>) -> Seq<char> {
    if s.len() > 0 && s[0] == '+' {
        s.drop_first()
    } else {
        s
    }
}

/// What reading `s` as a `u32` gives: an optional `+`, then one or more
/// ASCII digits whose value fits in a `u32`; anything else is refused.
pub open spec fn parse_u32(s: Seq<char>) -> Option<u32> {
    let d = unsigned_digits(s);
    if d.len() > 0 && all_digits(d) && digits_value(d) <= u32::MAX {
        Some(digits_value(d) as u32)
    } else {
        None
    }
}

/// Reads `s` as a `u32` in decimal.
pub fn parse_u32_text(s: &str) -> (r: Option<u32>)
    ensures
        r == parse_u32(s@),
{
    let chars = chars_of(s);
    let n = chars.len();
    let mut i: usize = 0;
    if n > 0 && chars[0] == '+' {
        i = 1;
    }
    let ghost d = unsigned_digits(s@);
    assert(d =~= s@.skip(i as int));
    if i == n {
        return None;
    }
    // The value read so far, held at no more than 2^32.
    let cap: u64 = 0x1_0000_0000;
    let mut acc: u64 = 0;
    let mut j: usize = i;
    assert(d.take(0) =~= seq![]);
    while j < n
        invariant
            n == chars@.len(),
            chars@ == s@,
            d == s@.skip(i as int),
            d == unsigned_digits(s@),
            i <= j <= n,
            cap == 0x1_0000_0000,
            forall|k: int| 0 <= k < j - i ==> is_digit(#[trigger] d[k]),
            acc == (if digits_value(d.take(j - i)) < cap {
                digits_value(d.take(j - i))
            } else {
                cap as nat
            }),
        decreases n - j,
    {
        let c = chars[j];
        if c < '0' || c > '9' {
            assert(d[j - i] == c);
            assert(!is_digit(d[j - i]));
            assert(!(forall|k: int| 0 <= k < d.len() ==> is_digit(#[trigger] d[k])));
            return None;
        }
        let dig: u64 = (c as u64) - ('0' as u64);
        let ghost prev = d.take(j - i);
        assert(d.take(j + 1 - i).drop_last() =~= prev);
        assert(d.take(j + 1 - i).last() == c);
        if acc >= cap {
            acc = cap;
        } else {
            acc = acc * 10 + dig;
            if acc > cap {
                acc = cap;
            }
        }
        j = j + 1;
        assert(forall|k: int| 0 <= k < j - i ==> is_digit(#[trigger] d[k]));
    }
    assert(d.take(n - i) =~= d);
    if acc >= cap {
        None
    } else {
        Some(acc as u32)
    }
}

/// The decimal digit character for `d`.
pub open spec fn digit_char(d: nat) -> char {
    if d == 0 {
        '0'
    } else if d == 1 {
        '1'
    } else if d == 2 {
        '2'
    } else if d == 3 {
        '3'
    } else if d == 4 {
        '4'
    } else if d == 5 {
        '5'
    } else if d == 6 {
        '6'
    } else if d == 7 {
        '7'
    } else if d == 8 {
        '8'
    } else {
        '9'
    }
}

/// The decimal representation of `n`, without leading zeros.
pub open spec fn decimal(n: nat) -> Seq<char>
    decreases n,
{
    if n < 10 {
        seq![digit_char(n)]
    } else {
        decimal(n / 10).push(digit_char(n % 10))
    }
}

/// Appends the digit `d` to `s`.
fn push_digit(s: &mut String, d: usize)
    requires
        d < 10,
    ensures
        final(s)@ == old(s)@.push(digit_char(d as nat)),
{
    proof {
        reveal_strlit("0");
        reveal_strlit("1");
        reveal_strlit("2");
        reveal_strlit("3");
        reveal_strlit("4");
        reveal_strlit("5");
        reveal_strlit("6");
        reveal_strlit("7");
        reveal_strlit("8");
        reveal_strlit("9");
    }
    if d == 0 {
        s.append("0");
    } else if d == 1 {
        s.append("1");
    } else if d == 2 {
        s.append("2");
    } else if d == 3 {
        s.append("3");
    } else if d == 4 {
        s.append("4");
    } else if d == 5 {
        s.append("5");
    } else if d == 6 {
        s.append("6");
    } else if d == 7 {
        s.append("7");
    } else if d == 8 {
        s.append("8");
    } else {
        s.append("9");
    }
    assert(final(s)@ =~= old(s)@.push(digit_char(d as nat)));
}

/// Appends the decimal representation of `n` to `s`.
pub fn push_decimal(s: &mut String, n: usize)
    ensures
        final(s)@ == old(s)@ + decimal(n as nat),
    decreases n,
{
    if n < 10 {
        push_digit(s, n);
        assert(old(s)@.push(digit_char(n as nat)) =~= old(s)@ + decimal(n as nat));
    } else {
        push_decimal(s, n / 10);
        push_digit(s, n % 10);
        assert((old(s)@ + decimal((n / 10) as nat)).push(digit_char((n % 10) as nat)) =~= old(s)@
            + decimal(n as nat));
    }
}

/// The elements of `xs` with `sep` between each two of them.
pub open spec fn join(xs: Seq<Seq<char>>, sep: Seq<char>) -> Seq<char>
    decreases xs.len(),
{
    if xs.len() == 0 {
        seq![]
    } else if xs.len() == 1 {
        xs[0]
    } else {
        join(xs.drop_last(), sep) + sep + xs.last()
    }
}

/// Joins `xs` with `sep` between each two of them.
pub fn join_strings(xs: &Vec<String>, sep: &str) -> (r: String)
    ensures
        r@ == join(views(xs@), sep@),
{
    let mut r = String::new();
    let mut i: usize = 0;
    assert(views(xs@).take(0) =~= seq![]);
    while i < xs.len()
        invariant
            i <= xs.len(),
            r@ == join(views(xs@).take(i as int), sep@),
        decreases xs.len() - i,
    {
        let ghost xv = views(xs@);
        assert(xv.take(i + 1).drop_last() =~= xv.take(i as int));
        if i > 0 {
            r.append(sep);
        }
        r.append(xs[i].as_str());
        assert(xv.take(i + 1).last() == xs@[i as int]@);
        if i == 0 {
            assert(r@ =~= join(xv.take(1), sep@));
        }
        i = i + 1;
    }
    assert(views(xs@).take(xs.len() as int) =~= views(xs@));
    r
}

/// Splits `s` at each occurrence of `sep`.
pub fn split_text(s: &str, sep: char) -> (r: Vec<String>)
    ensures
        views(r@) == split(s@, sep),
{
    let chars = chars_of(s);
    let n = chars.len();
    let mut done: Vec<String> = Vec::new();
    let mut start: usize = 0;
    let mut i: usize = 0;
    assert(s@.take(0) =~= seq![]);
    assert(views(done@) + seq![s@.subrange(0, 0)] =~= seq![seq![]]);
    while i < n
        invariant
            n == chars@.len(),
            chars@ == s@,
            start <= i <= n,
            views(done@) + seq![s@.subrange(start as int, i as int)] == split(s@.take(i as int), sep),
        decreases n - i,
    {
        let c = chars[i];
        let ghost prev = split(s@.take(i as int), sep);
        assert(s@.take(i + 1).drop_last() =~= s@.take(i as int));
        assert(s@.take(i + 1).last() == c);
        if c == sep {
            let w = substring(s, start, i);
            let ghost old_done = done@;
            done.push(w);
            assert(views(done@) =~= views(old_done).push(s@.subrange(start as int, i as int)));
            assert(prev =~= views(old_done) + seq![s@.subrange(start as int, i as int)]);
            start = i + 1;
            assert(s@.subrange(start as int, i + 1) =~= seq![]);
            assert(views(done@) + seq![s@.subrange(start as int, i + 1)] =~= prev.push(seq![]));
        } else {
            assert(prev.last() == s@.subrange(start as int, i as int));
            assert(prev.drop_last() =~= views(done@));
            assert(s@.subrange(start as int, i as int).push(c) =~= s@.subrange(start as int, i + 1));
            assert(views(done@) + seq![s@.subrange(start as int, i + 1)] =~= prev.drop_last().push(
                prev.last().push(c),
            ));
        }
        i = i + 1;
    }
    assert(s@.take(n as int) =~= s@);
    let w = substring(s, start, n);
    let ghost old_done = done@;
    done.push(w);
    assert(views(done@) =~= views(old_done) + seq![s@.subrange(start as int, n as int)]);
    done
}

/// Whether `a` and `b` hold the same characters.
pub fn text_eq(a: &str, b: &str) -> (r: bool)
    ensures
        r == (a@ == b@),
{
    let x: String = a.to_owned();
    let y: String = b.to_owned();
    x == y
}

/// Whether every character of `s` is an ASCII digit.
pub open spec fn all_digits(s: Seq<char>) -> bool {
    forall|i: int| 0 <= i < s.len() ==> is_digit(#[trigger] s[i])
}

/// `s` without one leading `+` or `-`.
pub open spec fn strip_sign(s: Seq<char>) -> Seq<char> {
    if s.len() > 0 && (s[0] == '+' || s[0] == '-') {
        s.drop_first()
    } else {
        s
    }
}

/// Digits with at most one `.` among them, and at least one digit.
pub open spec fn mantissa_text(m: Seq<char>) -> bool {
    ||| (m.len() > 0 && all_digits(m))
    ||| exists|i: int|
        0 <= i < m.len() && m[i] == '.' && m.len() >= 2 && all_digits(#[trigger] m.take(i))
            && all_digits(m.skip(i + 1))
}

/// An optional sign and one or more digits.
pub open spec fn exponent_text(x: Seq<char>) -> bool {
    strip_sign(x).len() > 0 && all_digits(strip_sign(x))
}

/// Whether `c` is `e` or `E`.
pub open spec fn is_exp_mark(c: char) -> bool {
    c == 'e' || c == 'E'
}

/// A decimal number with an optional exponent, such as `1`, `1.`, `.5` or `2.5e-3`.
pub open spec fn number_text(b: Seq<char>) -> bool {
    ||| mantissa_text(b)
    ||| exists|i: int|
        0 <= i < b.len() && is_exp_mark(b[i]) && mantissa_text(#[trigger] b.take(i))
            && exponent_text(b.skip(i + 1))
}

/// Whether `c` is the lower-case ASCII letter `l` in either case.
pub open spec fn same_letter(c: char, l: char) -> bool {
    c == l || (c as u32) == (l as u32) - 32
}

/// Whether `b` spells the lower-case word `w`, in any mix of cases.
pub open spec fn spells(b: Seq<char>, w: Seq<char>) -> bool {
    b.len() == w.len() && forall|i: int| 0 <= i < b.len() ==> same_letter(#[trigger] b[i], w[i])
}

/// Whether reading `s` as a floating-point number succeeds: an optional
/// sign, then `inf`, `infinity` or `nan` in any case, or a decimal number
/// with an optional exponent.
pub open spec fn float_text(s: Seq<char>) -> bool {
    let b = strip_sign(s);
    ||| spells(b, seq!['i', 'n', 'f'])
    ||| spells(b, seq!['i', 'n', 'f', 'i', 'n', 'i', 't', 'y'])
    ||| spells(b, seq!['n', 'a', 'n'])
    ||| number_text(b)
}

/// Whether `chars[from..to]` spells the lower-case word `w` in any case.
fn spells_at(chars: &Vec<char>, from: usize, to: usize, w: &Vec<char>) -> (r: bool)
    requires
        from <= to <= chars@.len(),
        forall|i: int| 0 <= i < w@.len() ==> 'a' <= #[trigger] w@[i] <= 'z',
    ensures
        r == spells(chars@.subrange(from as int, to as int), w@),
{
    let ghost b = chars@.subrange(from as int, to as int);
    if to - from != w.len() {
        return false;
    }
    let mut i: usize = 0;
    while i < w.len()
        invariant
            from <= to <= chars@.len(),
            b == chars@.subrange(from as int, to as int),
            b.len() == w@.len(),
            i <= w@.len(),
            forall|j: int| 0 <= j < w@.len() ==> 'a' <= #[trigger] w@[j] <= 'z',
            forall|j: int| 0 <= j < i ==> same_letter(#[trigger] b[j], w@[j]),
        decreases w.len() - i,
    {
        let c = chars[from + i];
        let l = w[i];
        assert(b[i as int] == c);
        if !(c == l || ((l as u32) >= 32 && (c as u32) == (l as u32) - 32)) {
            assert(!same_letter(b[i as int], w@[i as int]));
            return false;
        }
        i = i + 1;
    }
    true
}

/// Whether `chars[from..to]` is all digits.
fn digits_at(chars: &Vec<char>, from: usize, to: usize) -> (r: bool)
    requires
        from <= to <= chars@.len(),
    ensures
        r == all_digits(chars@.subrange(from as int, to as int)),
{
    let ghost b = chars@.subrange(from as int, to as int);
    let mut i: usize = from;
    while i < to
        invariant
            from <= i <= to <= chars@.len(),
            b == chars@.subrange(from as int, to as int),
            forall|j: int| 0 <= j < i - from ==> is_digit(#[trigger] b[j]),
        decreases to - i,
    {
        if chars[i] < '0' || chars[i] > '9' {
            assert(!is_digit(b[i - from]));
            return false;
        }
        i = i + 1;
    }
    true
}

/// Whether `chars[from..to]` is a mantissa.
fn mantissa_at(chars: &Vec<char>, from: usize, to: usize) -> (r: bool)
    requires
        from <= to <= chars@.len(),
    ensures
        r == mantissa_text(chars@.subrange(from as int, to as int)),
{
    let ghost m = chars@.subrange(from as int, to as int);
    let mut d: usize = from;
    while d < to && chars[d] != '.'
        invariant
            from <= d <= to <= chars@.len(),
            m == chars@.subrange(from as int, to as int),
            forall|j: int| 0 <= j < d - from ==> #[trigger] m[j] != '.',
        decreases to - d,
    {
        d = d + 1;
    }
    if d == to {
        let r = from < to && digits_at(chars, from, to);
        proof {
            assert forall|i: int| 0 <= i < m.len() && m[i] == '.' implies !(m.len() >= 2
                && all_digits(#[trigger] m.take(i)) && all_digits(m.skip(i + 1))) by {
                assert(m[i] != '.');
            }
        }
        return r;
    }
    let k: usize = d - from;
    assert(m[k as int] == '.');
    let before = digits_at(chars, from, d);
    let after = digits_at(chars, d + 1, to);
    assert(m.take(k as int) =~= chars@.subrange(from as int, d as int));
    assert(m.skip(k + 1) =~= chars@.subrange(d + 1, to as int));
    let r = to - from >= 2 && before && after;
    proof {
        assert(!is_digit(m[k as int]));
        assert(!all_digits(m));
        if !r {
            assert forall|i: int| 0 <= i < m.len() && m[i] == '.' implies !(m.len() >= 2
                && all_digits(#[trigger] m.take(i)) && all_digits(m.skip(i + 1))) by {
                if i < k {
                    assert(m.skip(i + 1)[k - i - 1] == m[k as int]);
                } else if i > k {
                    assert(m.take(i)[k as int] == m[k as int]);
                } else {
                }
            }
        }
    }
    r
}

/// Whether `chars[from..to]` is an exponent.
fn exponent_at(chars: &Vec<char>, from: usize, to: usize) -> (r: bool)
    requires
        from <= to <= chars@.len(),
    ensures
        r == exponent_text(chars@.subrange(from as int, to as int)),
{
    let ghost x = chars@.subrange(from as int, to as int);
    let start = if from < to && (chars[from] == '+' || chars[from] == '-') {
        from + 1
    } else {
        from
    };
    assert(strip_sign(x) =~= chars@.subrange(start as int, to as int));
    start < to && digits_at(chars, start, to)
}

/// Whether reading `s` as a floating-point number succeeds.
pub fn is_float_text(s: &str) -> (r: bool)
    ensures
        r == float_text(s@),
{
    let chars = chars_of(s);
    let n = chars.len();
    let start = if n > 0 && (chars[0] == '+' || chars[0] == '-') {
        1
    } else {
        0
    };
    let ghost b = strip_sign(s@);
    assert(b =~= chars@.subrange(start as int, n as int));
    let inf = vec!['i', 'n', 'f'];
    let infinity = vec!['i', 'n', 'f', 'i', 'n', 'i', 't', 'y'];
    let nan = vec!['n', 'a', 'n'];
    assert(inf@ =~= seq!['i', 'n', 'f']);
    assert(infinity@ =~= seq!['i', 'n', 'f', 'i', 'n', 'i', 't', 'y']);
    assert(nan@ =~= seq!['n', 'a', 'n']);
    if spells_at(&chars, start, n, &inf) || spells_at(&chars, start, n, &infinity) || spells_at(
        &chars,
        start,
        n,
        &nan,
    ) {
        return true;
    }
    let mut e: usize = start;
    while e < n && chars[e] != 'e' && chars[e] != 'E'
        invariant
            start <= e <= n == chars@.len(),
            b == chars@.subrange(start as int, n as int),
            forall|j: int| 0 <= j < e - start ==> !is_exp_mark(#[trigger] b[j]),
        decreases n - e,
    {
        e = e + 1;
    }
    if e == n {
        let r = mantissa_at(&chars, start, n);
        proof {
            assert forall|i: int| 0 <= i < b.len() && is_exp_mark(b[i]) implies !(mantissa_text(
                #[trigger] b.take(i),
            ) && exponent_text(b.skip(i + 1))) by {
                assert(!is_exp_mark(b[i]));
            }
        }
        return r;
    }
    let q: usize = e - start;
    assert(is_exp_mark(b[q as int]));
    let m = mantissa_at(&chars, start, e);
    let x = exponent_at(&chars, e + 1, n);
    assert(b.take(q as int) =~= chars@.subrange(start as int, e as int));
    assert(b.skip(q + 1) =~= chars@.subrange(e + 1, n as int));
    proof {
        lemma_mantissa_has_no_exp_mark(b, q as int);
        if !(m && x) {
            assert forall|i: int| 0 <= i < b.len() && is_exp_mark(b[i]) implies !(mantissa_text(
                #[trigger] b.take(i),
            ) && exponent_text(b.skip(i + 1))) by {
                if i > q {
                    lemma_mantissa_has_no_exp_mark(b, i);
                } else if i < q {
                    assert(!is_exp_mark(b[i]));
                }
            }
        }
    }
    m && x
}

/// A mantissa holds no exponent mark, so `b` with a mark at `q` is no mantissa.
proof fn lemma_mantissa_has_no_exp_mark(b: Seq<char>, q: int)
    requires
        0 <= q < b.len(),
        is_exp_mark(b[q]),
    ensures
        !mantissa_text(b),
        forall|i: int| q < i <= b.len() ==> !mantissa_text(#[trigger] b.take(i)),
{
    assert(!is_digit(b[q]));
    assert(b[q] != '.');
    if mantissa_text(b) {
        if b.len() > 0 && all_digits(b) {
            assert(is_digit(b[q]));
        } else {
            let i = choose|i: int|
                0 <= i < b.len() && b[i] == '.' && b.len() >= 2 && all_digits(#[trigger] b.take(i))
                    && all_digits(b.skip(i + 1));
            if q < i {
                assert(b.take(i)[q] == b[q]);
            } else {
                assert(b.skip(i + 1)[q - i - 1] == b[q]);
            }
        }
    }
    assert forall|i: int| q < i <= b.len() implies !mantissa_text(#[trigger] b.take(i)) by {
        let t = b.take(i);
        assert(t[q] == b[q]);
        if mantissa_text(t) {
            if t.len() > 0 && all_digits(t) {
                assert(is_digit(t[q]));
            } else {
                let k = choose|k: int|
                    0 <= k < t.len() && t[k] == '.' && t.len() >= 2 && all_digits(
                        #[trigger] t.take(k),
                    ) && all_digits(t.skip(k + 1));
                if q < k {
                    assert(t.take(k)[q] == t[q]);
                } else {
                    assert(t.skip(k + 1)[q - k - 1] == t[q]);
                }
            }
        }
    }
}

} // verus!
