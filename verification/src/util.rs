use vstd::prelude::*;
use vstd::string::StringExecFns;

verus! {

/// The character of a decimal digit.
pub open spec fn digit_char(d: nat) -> char {
    if d == 0 {
        '0'
    } else if d == 1 {
        '1'
    } else if d == 2 {
        '2'
    } else if d == 3 {
        '3'
    } else if d == 4 {
        '4'
    } else if d == 5 {
        '5'
    } else if d == 6 {
        '6'
    } else if d == 7 {
        '7'
    } else if d == 8 {
        '8'
    } else {
        '9'
    }
}

/// The decimal representation of `n`, most significant digit first, without leading zeros.
pub open spec fn decimal_digits(n: nat) -> Seq<char>
    decreases n,
{
    if n < 10 {
        seq![digit_char(n)]
    } else {
        decimal_digits(n / 10).push(digit_char(n % 10))
    }
}

/// The three digits of a group below one thousand, padded with leading zeros.
pub open spec fn padded_group(n: nat) -> Seq<char> {
    seq![digit_char((n / 100) % 10), digit_char((n / 10) % 10), digit_char(n % 10)]
}

/// The decimal representation of `n` with a '.' between each group of three digits,
/// the groups counted from the right.
pub open spec fn with_separators(n: nat) -> Seq<char>
    decreases n,
{
    if n < 1000 {
        decimal_digits(n)
    } else {
        with_separators(n / 1000) + seq!['.'] + padded_group(n % 1000)
    }
}

/// The first `k` digits of `d` as a pass over them one at a time writes them: a '.'
/// before each digit but the first that has a multiple of three digits from it to the
/// end of `d`, then the digit.
pub open spec fn dotted_upto(d: Seq<char>, k: int) -> Seq<char>
    decreases k,
{
    if k <= 0 {
        Seq::empty()
    } else {
        let i = k - 1;
        let sep: Seq<char> = if (d.len() - i) % 3 == 0 && i != 0 {
            seq!['.']
        } else {
            Seq::empty()
        };
        dotted_upto(d, k - 1) + sep + seq![d[i]]
    }
}

/// The characters of `s` other than '.'.
pub open spec fn without_separators(s: Seq<char>) -> Seq<char> {
    s.filter(|c: char| c != '.')
}

fn digit_str(d: u32) -> (s: &'static str)
    requires
        d < 10,
    ensures
        s@ == seq![digit_char(d as nat)],
{
    proof {
        reveal_strlit("0");
        reveal_strlit("1");
        reveal_strlit("2");
        reveal_strlit("3");
        reveal_strlit("4");
        reveal_strlit("5");
        reveal_strlit("6");
        reveal_strlit("7");
        reveal_strlit("8");
        reveal_strlit("9");
    }
    match d {
        0 => "0",
        1 => "1",
        2 => "2",
        3 => "3",
        4 => "4",
        5 => "5",
        6 => "6",
        7 => "7",
        8 => "8",
        _ => "9",
    }
}

pub(crate) fn append_digits(out: &mut String, n: u32)
    ensures
        final(out)@ == old(out)@ + decimal_digits(n as nat),
    decreases n,
{
    if n < 10 {
        out.append(digit_str(n));
    } else {
        append_digits(out, n / 10);
        out.append(digit_str(n % 10));
    }
}

fn append_grouped(out: &mut String, n: u32)
    ensures
        final(out)@ == old(out)@ + with_separators(n as nat),
    decreases n,
{
    if n < 1000 {
        append_digits(out, n);
    } else {
        let ghost before = out@;
        append_grouped(out, n / 1000);
        proof {
            reveal_strlit(".");
        }
        out.append(".");
        let g = n % 1000;
        out.append(digit_str((g / 100) % 10));
        out.append(digit_str((g / 10) % 10));
        out.append(digit_str(g % 10));
        assert(out@ =~= before + with_separators(n as nat));
    }
}

/// Formats `value` in decimal with a '.' between each group of three digits,
/// counted from the right (14175000 gives "14.175.000").
pub fn format_u32_with_separators(value: u32) -> (result: String)
    ensures
        result@ == with_separators(value as nat),
{
    let mut result = String::new();
    append_grouped(&mut result, value);
    assert(result@ =~= with_separators(value as nat));
    result
}

proof fn lemma_digits_split(n: nat)
    requires
        n >= 1000,
    ensures
        decimal_digits(n) == decimal_digits(n / 1000) + padded_group(n % 1000),
{
    assert(n / 10 >= 100);
    assert(n / 100 >= 10);
    assert((n / 10) / 10 == n / 100);
    assert((n / 100) / 10 == n / 1000);
    assert((n / 10) % 10 == ((n % 1000) / 10) % 10);
    assert((n / 100) % 10 == ((n % 1000) / 100) % 10);
    assert(n % 10 == (n % 1000) % 10);
    assert(decimal_digits(n) == decimal_digits(n / 10).push(digit_char(n % 10)));
    assert(decimal_digits(n / 10) == decimal_digits(n / 100).push(digit_char((n / 10) % 10)));
    assert(decimal_digits(n / 100) == decimal_digits(n / 1000).push(
        digit_char((n / 100) % 10),
    ));
    assert(decimal_digits(n) =~= decimal_digits(n / 1000) + padded_group(n % 1000));
}

proof fn lemma_no_dot_in_digits(n: nat)
    ensures
        forall|i: int| 0 <= i < decimal_digits(n).len() ==> decimal_digits(n)[i] != '.',
    decreases n,
{
    if n >= 10 {
        lemma_no_dot_in_digits(n / 10);
        let prev = decimal_digits(n / 10);
        assert forall|i: int| 0 <= i < decimal_digits(n).len() implies decimal_digits(n)[i]
            != '.' by {
            if i < prev.len() {
                assert(decimal_digits(n)[i] == prev[i]);
            } else {
                assert(decimal_digits(n)[i] == digit_char(n % 10));
            }
        }
    } else {
        assert(decimal_digits(n)[0] == digit_char(n));
    }
}

proof fn lemma_filter_concat(a: Seq<char>, b: Seq<char>)
    ensures
        without_separators(a + b) == without_separators(a) + without_separators(b),
{
    Seq::filter_distributes_over_add(a, b, |c: char| c != '.');
}

proof fn lemma_filter_no_dots(a: Seq<char>)
    requires
        forall|i: int| 0 <= i < a.len() ==> a[i] != '.',
    ensures
        without_separators(a) == a,
    decreases a.len(),
{
    reveal_with_fuel(Seq::filter, 1);
    if a.len() > 0 {
        lemma_filter_no_dots(a.drop_last());
        assert(a.drop_last().push(a.last()) =~= a);
    } else {
        assert(a.filter(|c: char| c != '.') =~= a);
    }
}

/// Removing the separators from a formatted value gives back the plain decimal
/// representation of the value: the separators are the only characters added.
pub proof fn lemma_separators_only_added(n: nat)
    ensures
        without_separators(with_separators(n)) == decimal_digits(n),
    decreases n,
{
    if n < 1000 {
        lemma_no_dot_in_digits(n);
        lemma_filter_no_dots(decimal_digits(n));
    } else {
        lemma_separators_only_added(n / 1000);
        let g = padded_group(n % 1000);
        lemma_filter_concat(with_separators(n / 1000) + seq!['.'], g);
        lemma_filter_concat(with_separators(n / 1000), seq!['.']);
        reveal_with_fuel(Seq::filter, 2);
        assert(without_separators(seq!['.']) =~= Seq::<char>::empty()) by {
            assert(seq!['.'].drop_last() =~= Seq::<char>::empty());
        }
        assert forall|i: int| 0 <= i < g.len() implies g[i] != '.' by {}
        lemma_filter_no_dots(g);
        lemma_digits_split(n);
        assert(without_separators(with_separators(n)) =~= decimal_digits(n));
    }
}

/// A pass over up to three digits places no separator.
proof fn lemma_dotted_short(d: Seq<char>, k: int)
    requires
        d.len() <= 3,
        0 <= k <= d.len(),
    ensures
        dotted_upto(d, k) == d.subrange(0, k),
    decreases k,
{
    if k > 0 {
        lemma_dotted_short(d, k - 1);
        assert(d.subrange(0, k - 1).push(d[k - 1]) =~= d.subrange(0, k));
        assert(dotted_upto(d, k) =~= d.subrange(0, k - 1) + seq![d[k - 1]]);
    }
}

/// Three more digits after `a` change nothing in the pass over `a`'s own digits: the
/// count of digits to the end grows by three.
proof fn lemma_dotted_prefix(a: Seq<char>, g: Seq<char>, k: int)
    requires
        g.len() == 3,
        0 <= k <= a.len(),
    ensures
        dotted_upto(a + g, k) == dotted_upto(a, k),
    decreases k,
{
    if k > 0 {
        lemma_dotted_prefix(a, g, k - 1);
        let i = k - 1;
        assert((a + g)[i] == a[i]);
        assert(((a + g).len() - i) % 3 == (a.len() - i) % 3);
    }
}

/// Placing a separator before every digit but the first that has a multiple of three
/// digits from it to the end, one digit at a time, gives the grouped representation:
/// the digit by digit way of writing a value with separators and the group by group
/// way agree for every value.
pub proof fn lemma_digitwise_separators(n: nat)
    ensures
        dotted_upto(decimal_digits(n), decimal_digits(n).len() as int) == with_separators(n),
    decreases n,
{
    if n < 1000 {
        lemma_digits_short(n);
        lemma_dotted_short(decimal_digits(n), decimal_digits(n).len() as int);
        assert(decimal_digits(n).subrange(0, decimal_digits(n).len() as int) =~= decimal_digits(n));
    } else {
        lemma_digitwise_separators(n / 1000);
        lemma_digits_split(n);
        let a = decimal_digits(n / 1000);
        let g = padded_group(n % 1000);
        let d = a + g;
        let l = a.len() as int;
        lemma_dotted_prefix(a, g, l);
        assert(d.len() == l + 3);
        assert(d[l] == g[0] && d[l + 1] == g[1] && d[l + 2] == g[2]);
        assert(l >= 1) by {
            lemma_digits_nonempty(n / 1000);
        }
        assert(dotted_upto(d, l + 1) == dotted_upto(d, l) + seq!['.'] + seq![g[0]]);
        assert(dotted_upto(d, l + 2) == dotted_upto(d, l + 1) + Seq::<char>::empty() + seq![g[1]]);
        assert(dotted_upto(d, l + 3) == dotted_upto(d, l + 2) + Seq::<char>::empty() + seq![g[2]]);
        assert(dotted_upto(d, l + 3) =~= dotted_upto(a, l) + seq!['.'] + g);
    }
}

/// Every value has at least one digit.
proof fn lemma_digits_nonempty(n: nat)
    ensures
        decimal_digits(n).len() >= 1,
    decreases n,
{
    if n >= 10 {
        lemma_digits_nonempty(n / 10);
    }
}

/// Values below one thousand have at most three digits.
proof fn lemma_digits_short(n: nat)
    requires
        n < 1000,
    ensures
        decimal_digits(n).len() <= 3,
{
    if n >= 100 {
        assert(n / 10 >= 10 && (n / 10) / 10 < 10);
        assert(decimal_digits((n / 10) / 10).len() == 1);
        assert(decimal_digits(n / 10).len() == 2);
    } else if n >= 10 {
        assert(decimal_digits(n / 10).len() == 1);
    }
}

} // verus!
