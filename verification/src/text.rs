//! Text building blocks: decimal rendering and slash trimming, each stated
//! over `Seq<char>`.

use vstd::prelude::*;
use vstd::string::*;

verus! {

/// The character of a decimal digit `d` (0 to 9).
pub open spec fn digit_char(d: int) -> char {
    if d == 0 { '0' }
    else if d == 1 { '1' }
    else if d == 2 { '2' }
    else if d == 3 { '3' }
    else if d == 4 { '4' }
    else if d == 5 { '5' }
    else if d == 6 { '6' }
    else if d == 7 { '7' }
    else if d == 8 { '8' }
    else { '9' }
}

/// The decimal digits of a natural number, most significant first.
pub open spec fn digits(n: nat) -> Seq<char>
    decreases n,
{
    if n < 10 {
        seq![digit_char(n as int)]
    } else {
        digits(n / 10).push(digit_char((n % 10) as int))
    }
}

/// The decimal rendering of an integer, with a leading `-` when negative.
pub open spec fn decimal(n: int) -> Seq<char> {
    if n < 0 {
        seq!['-'] + digits((-n) as nat)
    } else {
        digits(n as nat)
    }
}

fn digit_str(d: u64) -> (s: &'static str)
    requires
        d < 10,
    ensures
        s@ == seq![digit_char(d as int)],
{
    match d {
        0 => { proof { reveal_strlit("0"); } "0" },
        1 => { proof { reveal_strlit("1"); } "1" },
        2 => { proof { reveal_strlit("2"); } "2" },
        3 => { proof { reveal_strlit("3"); } "3" },
        4 => { proof { reveal_strlit("4"); } "4" },
        5 => { proof { reveal_strlit("5"); } "5" },
        6 => { proof { reveal_strlit("6"); } "6" },
        7 => { proof { reveal_strlit("7"); } "7" },
        8 => { proof { reveal_strlit("8"); } "8" },
        _ => { proof { reveal_strlit("9"); } "9" },
    }
}

fn append_digits(s: &mut String, n: u64)
    ensures
        final(s)@ == old(s)@ + digits(n as nat),
    decreases n,
{
    if n >= 10 {
        append_digits(s, n / 10);
    }
    let d = digit_str(n % 10);
    s.append(d);
    assert(n >= 10 ==> digits(n as nat) == digits((n / 10) as nat).push(digit_char((n % 10) as int)));
}

/// Appends the decimal rendering of `n` to `s`.
pub fn append_decimal(s: &mut String, n: i64)
    ensures
        final(s)@ == old(s)@ + decimal(n as int),
{
    if n < 0 {
        let minus = "-";
        proof { reveal_strlit("-"); }
        s.append(minus);
        let wide: i128 = n as i128;
        let magnitude: u64 = (0 - wide) as u64;
        append_digits(s, magnitude);
        assert(old(s)@ + decimal(n as int) =~= old(s)@ + seq!['-'] + digits((-n) as nat));
    } else {
        append_digits(s, n as u64);
    }
}


/// `s` with every leading `c` removed.
pub open spec fn trim_leading(s: Seq<char>, c: char) -> Seq<char>
    decreases s.len(),
{
    if s.len() > 0 && s[0] == c {
        trim_leading(s.drop_first(), c)
    } else {
        s
    }
}

/// `s` with every trailing `c` removed.
pub open spec fn trim_trailing(s: Seq<char>, c: char) -> Seq<char>
    decreases s.len(),
{
    if s.len() > 0 && s.last() == c {
        trim_trailing(s.drop_last(), c)
    } else {
        s
    }
}

/// `p` is a prefix of `s`.
pub open spec fn has_prefix(s: Seq<char>, p: Seq<char>) -> bool {
    p.len() <= s.len() && s.take(p.len() as int) == p
}

proof fn lemma_trim_leading_at(s: Seq<char>, c: char, i: int)
    requires
        0 <= i <= s.len(),
        forall|k: int| 0 <= k < i ==> s[k] == c,
        i == s.len() || s[i] != c,
    ensures
        trim_leading(s, c) == s.skip(i),
    decreases i,
{
    if i == 0 {
        assert(s.skip(0) =~= s);
    } else {
        lemma_trim_leading_at(s.drop_first(), c, i - 1);
        assert(s.drop_first().skip(i - 1) =~= s.skip(i));
    }
}

proof fn lemma_trim_trailing_at(s: Seq<char>, c: char, j: int)
    requires
        0 <= j <= s.len(),
        forall|k: int| j <= k < s.len() ==> s[k] == c,
        j == 0 || s[j - 1] != c,
    ensures
        trim_trailing(s, c) == s.take(j),
    decreases s.len() - j,
{
    if j == s.len() {
        assert(s.take(j) =~= s);
    } else {
        lemma_trim_trailing_at(s.drop_last(), c, j);
        assert(s.drop_last().take(j) =~= s.take(j));
    }
}

/// `s` without its leading `c` characters.
pub fn trim_start_char(s: &str, c: char) -> (r: &str)
    ensures
        r@ == trim_leading(s@, c),
{
    let n = s.unicode_len();
    let mut i: usize = 0;
    while i < n && s.get_char(i) == c
        invariant
            n == s@.len(),
            i <= n,
            forall|k: int| 0 <= k < i ==> s@[k] == c,
        decreases n - i,
    {
        i = i + 1;
    }
    proof { lemma_trim_leading_at(s@, c, i as int); }
    s.substring_char(i, n)
}

/// `s` without its trailing `c` characters.
pub fn trim_end_char(s: &str, c: char) -> (r: &str)
    ensures
        r@ == trim_trailing(s@, c),
{
    let n = s.unicode_len();
    let mut j: usize = n;
    while j > 0 && s.get_char(j - 1) == c
        invariant
            n == s@.len(),
            j <= n,
            forall|k: int| j <= k < n ==> s@[k] == c,
        decreases j,
    {
        j = j - 1;
    }
    proof { lemma_trim_trailing_at(s@, c, j as int); }
    s.substring_char(0, j)
}

/// Whether `p` is a prefix of `s`.
pub fn starts_with(s: &str, p: &str) -> (b: bool)
    ensures
        b == has_prefix(s@, p@),
{
    let n = s.unicode_len();
    let m = p.unicode_len();
    if m > n {
        return false;
    }
    let mut i: usize = 0;
    while i < m
        invariant
            n == s@.len(),
            m == p@.len(),
            m <= n,
            i <= m,
            forall|k: int| 0 <= k < i ==> s@[k] == p@[k],
        decreases m - i,
    {
        if s.get_char(i) != p.get_char(i) {
            assert(s@.take(m as int)[i as int] != p@[i as int]);
            return false;
        }
        i = i + 1;
    }
    assert(s@.take(m as int) =~= p@);
    true
}

/// Whether two strings hold the same characters.
pub fn same_text(a: &str, b: &str) -> (r: bool)
    ensures
        r == (a@ == b@),
{
    let n = a.unicode_len();
    let m = b.unicode_len();
    if n != m {
        return false;
    }
    let r = starts_with(a, b);
    proof {
        if r {
            assert(a@ =~= a@.take(m as int));
        }
        if a@ == b@ {
            assert(a@.take(m as int) =~= b@);
        }
    }
    r
}


proof fn lemma_digits_shape(n: nat)
    ensures
        digits(n).len() >= 1,
        n >= 10 ==> digits(n).len() >= 2,
        forall|k: int| 0 <= k < digits(n).len() ==> {
            let ch = #[trigger] digits(n)[k];
            ch != ':' && ch != '-'
        },
    decreases n,
{
    if n >= 10 {
        lemma_digits_shape(n / 10);
        assert forall|k: int| 0 <= k < digits(n).len() implies {
            let ch = #[trigger] digits(n)[k];
            ch != ':' && ch != '-'
        } by {
            if k < digits(n / 10).len() {
                assert(digits(n)[k] == digits(n / 10)[k]);
            }
        }
    }
}

proof fn lemma_digits_injective(n: nat, m: nat)
    requires
        digits(n) == digits(m),
    ensures
        n == m,
    decreases n,
{
    lemma_digits_shape(n);
    lemma_digits_shape(m);
    if n >= 10 && m >= 10 {
        assert(digits(n / 10) =~= digits(n).drop_last());
        assert(digits(m / 10) =~= digits(m).drop_last());
        lemma_digits_injective(n / 10, m / 10);
        assert(digits(n).last() == digit_char((n % 10) as int));
        assert(digits(m).last() == digit_char((m % 10) as int));
    } else {
        assert(digits(n)[0] == digit_char(n as int));
        assert(digits(m)[0] == digit_char(m as int));
    }
}

/// The decimal rendering holds no `:`, and distinct integers render differently.
pub proof fn lemma_decimal_facts(a: int, b: int)
    ensures
        forall|k: int| 0 <= k < decimal(a).len() ==> #[trigger] decimal(a)[k] != ':',
        decimal(a).len() >= 1,
        decimal(a) == decimal(b) ==> a == b,
{
    if a < 0 {
        lemma_digits_shape((-a) as nat);
        assert forall|k: int| 0 <= k < decimal(a).len() implies #[trigger] decimal(a)[k] != ':' by {
            if k > 0 {
                assert(decimal(a)[k] == digits((-a) as nat)[k - 1]);
            }
        }
    } else {
        lemma_digits_shape(a as nat);
    }
    if decimal(a) == decimal(b) {
        if a < 0 { lemma_digits_shape((-a) as nat); } else { lemma_digits_shape(a as nat); }
        if b < 0 { lemma_digits_shape((-b) as nat); } else { lemma_digits_shape(b as nat); }
        if a < 0 && b < 0 {
            assert(digits((-a) as nat) =~= decimal(a).drop_first());
            assert(digits((-b) as nat) =~= decimal(b).drop_first());
            lemma_digits_injective((-a) as nat, (-b) as nat);
        } else if a >= 0 && b >= 0 {
            lemma_digits_injective(a as nat, b as nat);
        } else if a < 0 {
            assert(decimal(a)[0] == '-');
            assert(decimal(b)[0] == digits(b as nat)[0]);
        } else {
            assert(decimal(b)[0] == '-');
            assert(decimal(a)[0] == digits(a as nat)[0]);
        }
    }
}

} // verus!
