//! Laws of reading text: numbers in decimal, floating-point numbers, and
//! pieces split at a separator.
use crate::text::{
    all_digits, decimal, digit_char, digits_value, exponent_text, float_text, is_digit,
    is_exp_mark, join, mantissa_text, number_text, parse_u32, same_letter, spells, split,
    strip_sign,
};
use vstd::prelude::*;

verus! {

/// The digit character for `d` is a digit and stands for `d`.
proof fn lemma_digit_char(d: nat)
    requires
        d < 10,
    ensures
        is_digit(digit_char(d)),
        (digit_char(d) as int) - ('0' as int) == d,
{
}

/// The decimal text of `n` is a nonempty run of digits that stands for `n`.
proof fn lemma_decimal_digits(n: nat)
    ensures
        decimal(n).len() > 0,
        all_digits(decimal(n)),
        digits_value(decimal(n)) == n,
    decreases n,
{
    if n < 10 {
        lemma_digit_char(n);
        assert(seq![digit_char(n)].drop_last() =~= Seq::<char>::empty());
        assert(digits_value(Seq::<char>::empty()) == 0);
        assert(digits_value(decimal(n)) == 0 * 10 + ((digit_char(n) as int) - ('0' as int)) as nat);
    } else {
        lemma_decimal_digits(n / 10);
        lemma_digit_char(n % 10);
        let d = decimal(n / 10).push(digit_char(n % 10));
        assert(d.drop_last() =~= decimal(n / 10));
        assert(d.last() == digit_char(n % 10));
        assert(digits_value(d) == digits_value(decimal(n / 10)) * 10 + ((digit_char(n % 10) as int) - ('0' as int)) as nat);
        assert((n / 10) * 10 + n % 10 == n) by (nonlinear_arith);
        assert forall|i: int| 0 <= i < d.len() implies is_digit(#[trigger] d[i]) by {
            if i < d.len() - 1 {
                assert(d[i] == decimal(n / 10)[i]);
            }
        }
    }
}

/// Reading the decimal text of a `u32`, with or without a leading `+`,
/// gives that number back.
pub proof fn law_u32_reads_its_decimal_text(n: u32)
    ensures
        parse_u32(decimal(n as nat)) == Some(n),
        parse_u32(seq!['+'] + decimal(n as nat)) == Some(n),
{
    lemma_decimal_digits(n as nat);
    let d = decimal(n as nat);
    assert(is_digit(d[0]));
    assert((seq!['+'] + d).drop_first() =~= d);
}

/// Whether `c` does not occur in `t`.
pub open spec fn lacks(t: Seq<char>, c: char) -> bool {
    forall|i: int| 0 <= i < t.len() ==> #[trigger] t[i] != c
}

/// Splitting always gives at least one piece.
pub(crate) proof fn lemma_split_nonempty(t: Seq<char>, c: char)
    ensures
        split(t, c).len() >= 1,
    decreases t.len(),
{
    if t.len() > 0 {
        lemma_split_nonempty(t.drop_last(), c);
    }
}

/// Text without the separator is one piece.
pub(crate) proof fn lemma_split_none(t: Seq<char>, c: char)
    requires
        lacks(t, c),
    ensures
        split(t, c) == seq![t],
    decreases t.len(),
{
    if t.len() > 0 {
        let p = t.drop_last();
        assert(lacks(p, c)) by {
            assert forall|i: int| 0 <= i < p.len() implies #[trigger] p[i] != c by {
                assert(p[i] == t[i]);
            }
        }
        lemma_split_none(p, c);
        assert(t.last() == t[t.len() - 1]);
        assert(p.push(t.last()) =~= t);
        assert(seq![p].drop_last().push(seq![p].last().push(t.last())) =~= seq![t]);
    } else {
        assert(t =~= Seq::<char>::empty());
    }
}

/// Text without the separator, the separator and more text split into
/// that text followed by the pieces of the rest.
pub(crate) proof fn lemma_split_cons(t1: Seq<char>, t2: Seq<char>, c: char)
    requires
        lacks(t1, c),
    ensures
        split(t1 + seq![c] + t2, c) == seq![t1] + split(t2, c),
    decreases t2.len(),
{
    let t = t1 + seq![c] + t2;
    if t2.len() == 0 {
        assert(t.drop_last() =~= t1);
        assert(t.last() == c);
        lemma_split_none(t1, c);
        assert(seq![t1].push(Seq::<char>::empty()) =~= seq![t1] + split(t2, c));
    } else {
        let q = t2.drop_last();
        let x = t2.last();
        lemma_split_cons(t1, q, c);
        lemma_split_nonempty(q, c);
        assert(t.drop_last() =~= t1 + seq![c] + q);
        assert(t.last() == x);
        let sq = split(q, c);
        if x == c {
            assert((seq![t1] + sq).push(Seq::<char>::empty()) =~= seq![t1] + sq.push(Seq::<char>::empty()));
        } else {
            assert((seq![t1] + sq).drop_last().push((seq![t1] + sq).last().push(x)) =~= seq![t1]
                + sq.drop_last().push(sq.last().push(x)));
        }
    }
}

/// Whether `c` may stand in a floating-point number's text: a digit, a
/// sign, a `.` or an ASCII letter.
pub open spec fn float_char(c: char) -> bool {
    ||| is_digit(c)
    ||| c == '+'
    ||| c == '-'
    ||| c == '.'
    ||| ('a' <= c && c <= 'z')
    ||| ('A' <= c && c <= 'Z')
}

/// Decimal texts read as floating-point numbers: a whole number with or
/// without a sign, one with a fraction, a bare fraction, and one with an
/// exponent.
pub proof fn law_float_text_reads_decimals(a: nat, b: nat)
    ensures
        float_text(decimal(a)),
        float_text(seq!['-'] + decimal(a)),
        float_text(seq!['+'] + decimal(a)),
        float_text(decimal(a) + seq!['.'] + decimal(b)),
        float_text(seq!['.'] + decimal(b)),
        float_text(decimal(a) + seq!['e', '-'] + decimal(b)),
{
    lemma_decimal_digits(a);
    lemma_decimal_digits(b);
    let da = decimal(a);
    let db = decimal(b);
    assert(is_digit(da[0]));
    assert(is_digit(db[0]));
    assert(strip_sign(da) == da);
    assert(mantissa_text(da));
    assert((seq!['-'] + da).drop_first() =~= da);
    assert((seq!['+'] + da).drop_first() =~= da);
    let f = da + seq!['.'] + db;
    let i = da.len() as int;
    assert(f[0] == da[0]);
    assert(strip_sign(f) == f);
    assert(f.take(i) =~= da);
    assert(f.skip(i + 1) =~= db);
    assert(f[i] == '.');
    assert(mantissa_text(f));
    let g = seq!['.'] + db;
    assert(strip_sign(g) == g);
    assert(g.take(0) =~= Seq::<char>::empty());
    assert(g.skip(1) =~= db);
    assert(mantissa_text(g));
    let x = da + seq!['e', '-'] + db;
    assert(x[0] == da[0]);
    assert(strip_sign(x) == x);
    assert(x.take(i) =~= da);
    assert(x.skip(i + 1) =~= seq!['-'] + db);
    assert(strip_sign(seq!['-'] + db) =~= db);
    assert(x[i] == 'e');
    assert(is_exp_mark(x[i]));
    assert(exponent_text(x.skip(i + 1)));
    assert(number_text(x));
}

/// The characters of a mantissa are digits and `.`.
proof fn lemma_mantissa_chars(m: Seq<char>)
    requires
        mantissa_text(m),
    ensures
        forall|j: int| 0 <= j < m.len() ==> float_char(#[trigger] m[j]),
{
    if !(m.len() > 0 && all_digits(m)) {
        let i = choose|i: int|
            0 <= i < m.len() && m[i] == '.' && m.len() >= 2 && all_digits(#[trigger] m.take(i))
                && all_digits(m.skip(i + 1));
        assert forall|j: int| 0 <= j < m.len() implies float_char(#[trigger] m[j]) by {
            if j < i {
                assert(m.take(i)[j] == m[j]);
            } else if j > i {
                assert(m.skip(i + 1)[j - i - 1] == m[j]);
            }
        }
    }
}

/// The characters of a number's text may stand in one.
proof fn lemma_number_chars(b: Seq<char>)
    requires
        number_text(b),
    ensures
        forall|j: int| 0 <= j < b.len() ==> float_char(#[trigger] b[j]),
{
    if mantissa_text(b) {
        lemma_mantissa_chars(b);
    } else {
        let i = choose|i: int|
            0 <= i < b.len() && is_exp_mark(b[i]) && mantissa_text(#[trigger] b.take(i))
                && exponent_text(b.skip(i + 1));
        lemma_mantissa_chars(b.take(i));
        let x = b.skip(i + 1);
        assert forall|j: int| 0 <= j < b.len() implies float_char(#[trigger] b[j]) by {
            if j < i {
                assert(b.take(i)[j] == b[j]);
            } else if j > i {
                assert(x[j - i - 1] == b[j]);
                let k = j - i - 1;
                if !(x.len() > 0 && (x[0] == '+' || x[0] == '-') && k == 0) {
                    if x.len() > 0 && (x[0] == '+' || x[0] == '-') {
                        assert(strip_sign(x)[k - 1] == x[k]);
                    } else {
                        assert(strip_sign(x)[k] == x[k]);
                    }
                }
            }
        }
    }
}

/// A letter that is no digit, sign, `.` or ASCII letter is no case of a
/// lower-case letter.
proof fn lemma_not_same_letter(c: char, l: char)
    requires
        !float_char(c),
        'a' <= l <= 'z',
    ensures
        !same_letter(c, l),
{
    assert((c as u32) == (l as u32) - 32 ==> 'A' <= c <= 'Z');
}

/// A text is no floating-point number when it is empty, is a lone `.`, or
/// holds a character that is no digit, sign, `.` or ASCII letter, such as
/// whitespace or `,`.
pub proof fn law_float_text_refuses(s: Seq<char>, k: int)
    requires
        0 <= k < s.len(),
        !float_char(s[k]),
    ensures
        !float_text(Seq::<char>::empty()),
        !float_text(seq!['.']),
        !float_text(s),
{
    assert(!mantissa_text(seq!['.'])) by {
        assert(seq!['.'][0] == '.');
        assert(!is_digit('.'));
    }
    let b = strip_sign(s);
    let j = if s.len() > 0 && (s[0] == '+' || s[0] == '-') {
        k - 1
    } else {
        k
    };
    assert(0 <= j < b.len() && b[j] == s[k]);
    if number_text(b) {
        lemma_number_chars(b);
    }
    assert(!spells(b, seq!['i', 'n', 'f'])) by {
        if b.len() == 3 {
            let l = seq!['i', 'n', 'f'][j];
            assert(l == 'f' || l == 'i' || l == 'n') by {
                if j == 0 {
                    assert(l == 'i');
                } else if j == 1 {
                    assert(l == 'n');
                } else {
                    assert(l == 'f');
                }
            }
            lemma_not_same_letter(b[j], l);
        }
    }
    assert(!spells(b, seq!['i', 'n', 'f', 'i', 'n', 'i', 't', 'y'])) by {
        if b.len() == 8 {
            let l = seq!['i', 'n', 'f', 'i', 'n', 'i', 't', 'y'][j];
            assert('a' <= l <= 'z') by {
                if j == 0 {
                    assert(l == 'i');
                } else if j == 1 {
                    assert(l == 'n');
                } else if j == 2 {
                    assert(l == 'f');
                } else if j == 3 {
                    assert(l == 'i');
                } else if j == 4 {
                    assert(l == 'n');
                } else if j == 5 {
                    assert(l == 'i');
                } else if j == 6 {
                    assert(l == 't');
                } else {
                    assert(l == 'y');
                }
            }
            lemma_not_same_letter(b[j], l);
        }
    }
    assert(!spells(b, seq!['n', 'a', 'n'])) by {
        if b.len() == 3 {
            let l = seq!['n', 'a', 'n'][j];
            assert(l == 'a' || l == 'n') by {
                if j == 0 {
                    assert(l == 'n');
                } else if j == 1 {
                    assert(l == 'a');
                } else {
                    assert(l == 'n');
                }
            }
            lemma_not_same_letter(b[j], l);
        }
    }
}

/// Text, the separator, and text without it split into the pieces of the
/// first text followed by the last.
proof fn lemma_split_snoc(s: Seq<char>, t: Seq<char>, c: char)
    requires
        lacks(t, c),
    ensures
        split(s + seq![c] + t, c) == split(s, c).push(t),
    decreases t.len(),
{
    let u = s + seq![c] + t;
    if t.len() == 0 {
        assert(u.drop_last() =~= s);
        assert(u.last() == c);
        assert(t =~= Seq::<char>::empty());
    } else {
        let q = t.drop_last();
        assert(lacks(q, c)) by {
            assert forall|i: int| 0 <= i < q.len() implies #[trigger] q[i] != c by {
                assert(q[i] == t[i]);
            }
        }
        lemma_split_snoc(s, q, c);
        assert(u.drop_last() =~= s + seq![c] + q);
        assert(u.last() == t.last());
        assert(t.last() == t[t.len() - 1]);
        assert(t.last() != c);
        assert(q.push(t.last()) =~= t);
        assert(split(s, c).push(q).drop_last() =~= split(s, c));
        assert(split(s, c).push(q).last() == q);
    }
}

/// Splitting pieces joined by a separator that none of them holds gives
/// the pieces back.
pub proof fn law_split_undoes_join(xs: Seq<Seq<char>>, c: char)
    requires
        xs.len() > 0,
        forall|i: int| 0 <= i < xs.len() ==> lacks(#[trigger] xs[i], c),
    ensures
        split(join(xs, seq![c]), c) == xs,
    decreases xs.len(),
{
    if xs.len() == 1 {
        assert(lacks(xs[0], c));
        lemma_split_none(xs[0], c);
        assert(seq![xs[0]] =~= xs);
    } else {
        let p = xs.drop_last();
        assert forall|i: int| 0 <= i < p.len() implies lacks(#[trigger] p[i], c) by {
            assert(p[i] == xs[i]);
        }
        law_split_undoes_join(p, c);
        assert(xs.last() == xs[xs.len() - 1]);
        assert(lacks(xs.last(), c));
        lemma_split_snoc(join(p, seq![c]), xs.last(), c);
        assert(p.push(xs.last()) =~= xs);
    }
}

} // verus!
