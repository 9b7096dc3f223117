//! Building statement text: decimal numbers, numbered placeholders and
//! separated lists.

use vstd::prelude::*;
use vstd::string::*;

verus! {

/// The views of a sequence of strings.
pub open spec fn texts(v: Seq<String>) -> Seq<Seq<char>> {
    Seq::new(v.len(), |i: int| v[i]@)
}

/// The decimal digit for a value below ten.
pub open spec fn digit_char(d: int) -> char {
    if d == 0 {
        '0'
    } else if d == 1 {
        '1'
    } else if d == 2 {
        '2'
    } else if d == 3 {
        '3'
    } else if d == 4 {
        '4'
    } else if d == 5 {
        '5'
    } else if d == 6 {
        '6'
    } else if d == 7 {
        '7'
    } else if d == 8 {
        '8'
    } else {
        '9'
    }
}

/// The decimal numeral of `n`, without leading zeros.
pub open spec fn decimal(n: nat) -> Seq<char>
    decreases n,
{
    if n < 10 {
        seq![digit_char(n as int)]
    } else {
        decimal(n / 10).push(digit_char((n % 10) as int))
    }
}

/// The placeholder for the `k`-th bound argument: a dollar sign and `k` in
/// decimal.
pub open spec fn placeholder(k: nat) -> Seq<char> {
    seq!['$'] + decimal(k)
}

/// The parts in order, with `sep` between each two neighbours.
pub open spec fn join(parts: Seq<Seq<char>>, sep: Seq<char>) -> Seq<char>
    decreases parts.len(),
{
    if parts.len() == 0 {
        Seq::empty()
    } else if parts.len() == 1 {
        parts[0]
    } else {
        join(parts.drop_last(), sep) + sep + parts.last()
    }
}

/// The placeholders numbered `first`, `first + 1`, ... , `n` of them.
pub open spec fn placeholders(first: nat, n: nat) -> Seq<Seq<char>> {
    Seq::new(n, |i: int| placeholder((first + i) as nat))
}

/// One `name = $k` for each name, numbered from `first` on.
pub open spec fn assignments(names: Seq<Seq<char>>, first: nat) -> Seq<Seq<char>> {
    Seq::new(names.len(), |i: int| names[i] + " = "@ + placeholder((first + i) as nat))
}

/// Joining one part more appends the separator, unless it is the first part,
/// and then the part.
pub proof fn lemma_join_next(parts: Seq<Seq<char>>, sep: Seq<char>, i: int)
    requires
        0 <= i < parts.len(),
    ensures
        join(parts.take(i + 1), sep) == if i == 0 {
            parts[0]
        } else {
            join(parts.take(i), sep) + sep + parts[i]
        },
{
    let head = parts.take(i + 1);
    assert(head.last() == parts[i]);
    assert(head.drop_last() =~= parts.take(i));
    assert(head[0] == parts[0]);
}

fn digit_text(d: u8) -> (r: &'static str)
    requires
        d < 10,
    ensures
        r@ == seq![digit_char(d as int)],
{
    proof {
        reveal_strlit("0");
        reveal_strlit("1");
        reveal_strlit("2");
        reveal_strlit("3");
        reveal_strlit("4");
        reveal_strlit("5");
        reveal_strlit("6");
        reveal_strlit("7");
        reveal_strlit("8");
        reveal_strlit("9");
    }
    let r = if d == 0 {
        "0"
    } else if d == 1 {
        "1"
    } else if d == 2 {
        "2"
    } else if d == 3 {
        "3"
    } else if d == 4 {
        "4"
    } else if d == 5 {
        "5"
    } else if d == 6 {
        "6"
    } else if d == 7 {
        "7"
    } else if d == 8 {
        "8"
    } else {
        "9"
    };
    assert(r@ =~= seq![digit_char(d as int)]);
    r
}

/// Appends the decimal numeral of `n`.
pub(crate) fn append_decimal(out: &mut String, n: u128)
    ensures
        final(out)@ == old(out)@ + decimal(n as nat),
    decreases n,
{
    if n >= 10 {
        append_decimal(out, n / 10);
    }
    let d = (n % 10) as u8;
    out.append(digit_text(d));
    assert(out@ =~= old(out)@ + decimal(n as nat));
}

/// Appends the placeholder for the `k`-th bound argument.
pub(crate) fn append_placeholder(out: &mut String, k: u128)
    ensures
        final(out)@ == old(out)@ + placeholder(k as nat),
{
    proof {
        reveal_strlit("$");
    }
    out.append("$");
    append_decimal(out, k);
    assert(out@ =~= old(out)@ + placeholder(k as nat));
}

/// Appends the names, separated by `sep`.
pub(crate) fn append_joined(out: &mut String, names: &Vec<String>, sep: &str)
    ensures
        final(out)@ == old(out)@ + join(texts(names@), sep@),
{
    let ghost start = out@;
    let ghost parts = texts(names@);
    let n = names.len();
    let mut i: usize = 0;
    assert(start + join(parts.take(0), sep@) =~= start);
    while i < n
        invariant
            i <= n,
            n == names.len(),
            parts == texts(names@),
            out@ == start + join(parts.take(i as int), sep@),
        decreases n - i,
    {
        if i > 0 {
            out.append(sep);
        }
        out.append(names[i].as_str());
        proof {
            lemma_join_next(parts, sep@, i as int);
            assert(out@ =~= start + join(parts.take(i + 1), sep@));
        }
        i += 1;
    }
    assert(parts.take(n as int) =~= parts);
}

/// Appends `n` placeholders numbered from `first` on, separated by `sep`.
pub(crate) fn append_placeholders(out: &mut String, first: u128, n: usize, sep: &str)
    requires
        first + n <= u128::MAX,
    ensures
        final(out)@ == old(out)@ + join(placeholders(first as nat, n as nat), sep@),
{
    let ghost start = out@;
    let ghost parts = placeholders(first as nat, n as nat);
    let mut i: usize = 0;
    assert(start + join(parts.take(0), sep@) =~= start);
    while i < n
        invariant
            i <= n,
            first + n <= u128::MAX,
            parts == placeholders(first as nat, n as nat),
            out@ == start + join(parts.take(i as int), sep@),
        decreases n - i,
    {
        if i > 0 {
            out.append(sep);
        }
        append_placeholder(out, first + i as u128);
        proof {
            lemma_join_next(parts, sep@, i as int);
            assert(out@ =~= start + join(parts.take(i + 1), sep@));
        }
        i += 1;
    }
    assert(parts.take(n as int) =~= parts);
}

/// Appends one `name = $k` for each name, numbered from `first` on and
/// separated by `sep`.
pub(crate) fn append_assignments(out: &mut String, names: &Vec<String>, first: u128, sep: &str)
    requires
        first + names.len() <= u128::MAX,
    ensures
        final(out)@ == old(out)@ + join(assignments(texts(names@), first as nat), sep@),
{
    let ghost start = out@;
    let ghost parts = assignments(texts(names@), first as nat);
    let n = names.len();
    let mut i: usize = 0;
    assert(start + join(parts.take(0), sep@) =~= start);
    while i < n
        invariant
            i <= n,
            n == names.len(),
            first + n <= u128::MAX,
            parts == assignments(texts(names@), first as nat),
            out@ == start + join(parts.take(i as int), sep@),
        decreases n - i,
    {
        if i > 0 {
            out.append(sep);
        }
        out.append(names[i].as_str());
        out.append(" = ");
        append_placeholder(out, first + i as u128);
        proof {
            lemma_join_next(parts, sep@, i as int);
            assert(out@ =~= start + join(parts.take(i + 1), sep@));
        }
        i += 1;
    }
    assert(parts.take(n as int) =~= parts);
}

/// How often the character `c` occurs in `s`.
pub open spec fn count(s: Seq<char>, c: char) -> nat
    decreases s.len(),
{
    if s.len() == 0 {
        0
    } else {
        count(s.drop_last(), c) + if s.last() == c {
            1nat
        } else {
            0nat
        }
    }
}

/// A text in which no position holds `c` has none of it.
pub proof fn lemma_count_none(s: Seq<char>, c: char)
    requires
        forall|i: int| 0 <= i < s.len() ==> s[i] != c,
    ensures
        count(s, c) == 0,
    decreases s.len(),
{
    if s.len() > 0 {
        lemma_count_none(s.drop_last(), c);
    }
}

/// The occurrences in a concatenation are those of its two parts together.
pub proof fn lemma_count_concat(a: Seq<char>, b: Seq<char>, c: char)
    ensures
        count(a + b, c) == count(a, c) + count(b, c),
    decreases b.len(),
{
    if b.len() == 0 {
        assert(a + b =~= a);
    } else {
        assert((a + b).drop_last() =~= a + b.drop_last());
        assert((a + b).last() == b.last());
        lemma_count_concat(a, b.drop_last(), c);
    }
}

/// A decimal numeral holds digits only.
pub proof fn lemma_decimal_digits(n: nat, c: char)
    requires
        !('0' <= c <= '9'),
    ensures
        count(decimal(n), c) == 0,
    decreases n,
{
    if n < 10 {
        lemma_count_none(decimal(n), c);
    } else {
        lemma_decimal_digits(n / 10, c);
        assert(decimal(n).drop_last() =~= decimal(n / 10));
    }
}

/// A placeholder holds exactly one dollar sign.
pub proof fn lemma_placeholder_dollar(k: nat)
    ensures
        count(placeholder(k), '$') == 1,
{
    lemma_decimal_digits(k, '$');
    lemma_count_concat(seq!['$'], decimal(k), '$');
    assert(seq!['$'].drop_last() =~= Seq::<char>::empty());
    assert(count(seq!['$'], '$') == 1) by {
        reveal_with_fuel(count, 2);
    }
}

/// Where every part holds `c` exactly `per` times and the separator holds
/// none, the joined text holds it `per` times for each part.
pub proof fn lemma_join_count(parts: Seq<Seq<char>>, sep: Seq<char>, c: char, per: nat)
    requires
        count(sep, c) == 0,
        forall|i: int| 0 <= i < parts.len() ==> count(#[trigger] parts[i], c) == per,
    ensures
        count(join(parts, sep), c) == per * parts.len(),
    decreases parts.len(),
{
    if parts.len() == 0 {
        assert(per * 0 == 0) by (nonlinear_arith);
    } else if parts.len() == 1 {
        assert(per * 1 == per) by (nonlinear_arith);
    } else {
        let init = parts.drop_last();
        lemma_join_count(init, sep, c, per);
        lemma_count_concat(join(init, sep), sep, c);
        lemma_count_concat(join(init, sep) + sep, parts.last(), c);
        let n = init.len();
        assert(per * n + per == per * (n + 1)) by (nonlinear_arith);
    }
}

} // verus!
