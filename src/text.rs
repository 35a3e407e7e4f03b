//! Character-level helpers: splitting argument strings on commas, decimal
//! rendering and parsing of integers.
use vstd::prelude::*;

verus! {

/// The tokens of `s` between commas, in order. A string with `k` commas has
/// `k + 1` tokens; the empty string has one empty token.
pub open spec fn split_commas(s: Seq<char>) -> Seq<Seq<char>>
    decreases s.len(),
{
    if s.len() == 0 {
        seq![Seq::<char>::empty()]
    } else {
        let prev = split_commas(s.drop_last());
        if s.last() == ',' {
            prev.push(Seq::<char>::empty())
        } else {
            prev.update(prev.len() - 1, prev.last().push(s.last()))
        }
    }
}

/// Every string has at least one token.
pub proof fn lemma_split_nonempty(s: Seq<char>)
    ensures
        split_commas(s).len() >= 1,
    decreases s.len(),
{
    if s.len() > 0 {
        lemma_split_nonempty(s.drop_last());
    }
}

/// A string without commas is a list of one token: the string itself.
pub proof fn lemma_split_without_commas(s: Seq<char>)
    requires
        !s.contains(','),
    ensures
        split_commas(s) == seq![s],
    decreases s.len(),
{
    if s.len() > 0 {
        let p = s.drop_last();
        assert(!p.contains(',')) by {
            if p.contains(',') {
                let i = choose|i: int| 0 <= i < p.len() && p[i] == ',';
                assert(s[i] == ',');
            }
        }
        lemma_split_without_commas(p);
        assert(s.last() != ',') by {
            if s.last() == ',' {
                assert(s[s.len() - 1] == ',');
            }
        }
        assert(p.push(s.last()) =~= s);
        assert(split_commas(s) =~= seq![s]);
    } else {
        assert(s =~= Seq::<char>::empty());
    }
}

/// Relies on `String::push`: appends one character.
#[verifier::external_body]
pub(crate) fn push_char(s: &mut String, c: char)
    ensures
        final(s)@ == old(s)@.push(c),
{
    s.push(c);
}

/// Splits `input` on every comma.
pub fn split_on_commas(input: &str) -> (r: Vec<String>)
    ensures
        r@.map_values(|t: String| t@) == split_commas(input@),
{
    let mut tokens: Vec<String> = Vec::new();
    let mut cur: String = String::new();
    proof {
        broadcast use vstd::string::axiom_spec_iter;
    }
    for c in it: input.chars()
        invariant
            it.seq() == input@,
            tokens@.map_values(|t: String| t@).push(cur@) == split_commas(input@.take(it.index() as int)),
    {
        proof {
            lemma_split_nonempty(input@.take(it.index() as int));
        }
        assert(input@.take(it.index() + 1).drop_last() == input@.take(it.index() as int));
        if c == ',' {
            tokens.push(cur);
            cur = String::new();
        } else {
            push_char(&mut cur, c);
        }
        assert(tokens@.map_values(|t: String| t@).push(cur@) =~= split_commas(input@.take(it.index() + 1)));
    }
    assert(input@.take(input@.len() as int) == input@);
    tokens.push(cur);
    assert(tokens@.map_values(|t: String| t@) =~= split_commas(input@));
    tokens
}


/// The decimal digit character for `d` (`0 <= d < 10`).
pub open spec fn digit_char(d: nat) -> char {
    seq!['0', '1', '2', '3', '4', '5', '6', '7', '8', '9'][d as int]
}

/// The decimal digits of `n`, most significant first, without leading zeros.
pub open spec fn nat_digits(n: nat) -> Seq<char>
    decreases n,
{
    if n < 10 {
        seq![digit_char(n)]
    } else {
        nat_digits(n / 10).push(digit_char(n % 10))
    }
}

/// The decimal text of `n`, with a leading `-` when it is negative.
pub open spec fn decimal(n: int) -> Seq<char> {
    if n < 0 {
        seq!['-'] + nat_digits((-n) as nat)
    } else {
        nat_digits(n as nat)
    }
}

fn digit_to_char(d: u64) -> (c: char)
    requires
        d < 10,
    ensures
        c == digit_char(d as nat),
{
    match d {
        0 => '0',
        1 => '1',
        2 => '2',
        3 => '3',
        4 => '4',
        5 => '5',
        6 => '6',
        7 => '7',
        8 => '8',
        _ => '9',
    }
}

/// Writes `n` in decimal.
pub fn int_to_text(n: i64) -> (r: String)
    ensures
        r@ == decimal(n as int),
{
    let negative = n < 0;
    let magnitude: u64 = if negative { (-(n as i128)) as u64 } else { n as u64 };
    let ghost whole = magnitude as nat;
    let mut m: u64 = magnitude;
    // least significant digit first
    let mut low: Vec<char> = Vec::new();
    while m >= 10
        invariant
            nat_digits(whole) == nat_digits(m as nat) + low@.reverse(),
        decreases m,
    {
        let d = m % 10;
        let c = digit_to_char(d);
        assert(nat_digits(m as nat) == nat_digits((m / 10) as nat).push(c));
        assert(low@.push(c).reverse() =~= seq![c] + low@.reverse());
        low.push(c);
        m = m / 10;
    }
    let mut out = String::new();
    if negative {
        push_char(&mut out, '-');
    }
    push_char(&mut out, digit_to_char(m));
    let ghost head = out@;
    let mut i: usize = low.len();
    while i > 0
        invariant
            i <= low.len(),
            out@ == head + low@.reverse().take(low.len() - i),
        decreases i,
    {
        i = i - 1;
        let c = low[i];
        assert(low@.reverse().take(low.len() - i) =~= low@.reverse().take(low.len() - i - 1).push(c));
        push_char(&mut out, c);
    }
    assert(low@.reverse().take(low.len() as int) =~= low@.reverse());
    assert(nat_digits(whole) =~= seq![digit_char(m as nat)] + low@.reverse());
    if negative {
        assert(out@ =~= seq!['-'] + nat_digits(whole));
    } else {
        assert(out@ =~= nat_digits(whole));
    }
    out
}

pub open spec fn is_digit(c: char) -> bool {
    '0' <= c <= '9'
}

pub open spec fn all_digits(s: Seq<char>) -> bool {
    forall|i: int| 0 <= i < s.len() ==> is_digit(#[trigger] s[i])
}

/// The value of a string of decimal digits.
pub open spec fn digits_value(s: Seq<char>) -> nat
    decreases s.len(),
{
    if s.len() == 0 {
        0
    } else {
        digits_value(s.drop_last()) * 10 + (s.last() as nat - '0' as nat) as nat
    }
}

/// The integer written by `s`: an optional `+` or `-` sign followed by at
/// least one decimal digit, and nothing else.
pub open spec fn integer_value(s: Seq<char>) -> Option<int> {
    let negative = s.len() > 0 && s[0] == '-';
    let body = if s.len() > 0 && (s[0] == '-' || s[0] == '+') { s.drop_first() } else { s };
    if body.len() > 0 && all_digits(body) {
        Some(if negative { -digits_value(body) } else { digits_value(body) as int })
    } else {
        None
    }
}

/// The `i32` written by `s`, if `s` is an integer in range.
pub open spec fn parse_i32_value(s: Seq<char>) -> Option<int> {
    match integer_value(s) {
        Some(v) => if i32::MIN <= v <= i32::MAX { Some(v) } else { None },
        None => None,
    }
}

/// The characters of `s`, in order.
pub fn chars_of(s: &str) -> (r: Vec<char>)
    ensures
        r@ == s@,
{
    let mut out: Vec<char> = Vec::new();
    proof {
        broadcast use vstd::string::axiom_spec_iter;
    }
    for c in it: s.chars()
        invariant
            it.seq() == s@,
            out@ == s@.take(it.index() as int),
    {
        assert(s@.take(it.index() + 1) =~= out@.push(c));
        out.push(c);
    }
    assert(s@.take(s@.len() as int) =~= s@);
    out
}

/// One more than the largest magnitude an `i32` can have.
const MAGNITUDE_CAP: u64 = 2147483649;

/// Reads `s` as an `i32` written in decimal, with an optional sign.
pub fn parse_i32(s: &str) -> (r: Option<i32>)
    ensures
        match r {
            Some(v) => parse_i32_value(s@) == Some(v as int),
            None => parse_i32_value(s@) is None,
        },
{
    let cs = chars_of(s);
    let n = cs.len();
    let negative = n > 0 && cs[0] == '-';
    let start: usize = if n > 0 && (cs[0] == '-' || cs[0] == '+') { 1 } else { 0 };
    let ghost body = if s@.len() > 0 && (s@[0] == '-' || s@[0] == '+') { s@.drop_first() } else { s@ };
    assert(body =~= cs@.subrange(start as int, n as int));
    if start >= n {
        return None;
    }
    let mut acc: u64 = 0;
    let mut i: usize = start;
    while i < n
        invariant
            start <= i <= n,
            n == cs@.len(),
            cs@ == s@,
            body =~= cs@.subrange(start as int, n as int),
            body == if s@.len() > 0 && (s@[0] == '-' || s@[0] == '+') { s@.drop_first() } else { s@ },
            negative == (s@.len() > 0 && s@[0] == '-'),
            all_digits(cs@.subrange(start as int, i as int)),
            acc as nat == if digits_value(cs@.subrange(start as int, i as int)) < MAGNITUDE_CAP {
                digits_value(cs@.subrange(start as int, i as int))
            } else {
                MAGNITUDE_CAP as nat
            },
        decreases n - i,
    {
        let c = cs[i];
        if !('0' <= c && c <= '9') {
            assert(body[i - start] == c);
            assert(!is_digit(body[i - start]));
            assert(!all_digits(body));
            return None;
        }
        let d = (c as u32 - '0' as u32) as u64;
        let ghost prev = cs@.subrange(start as int, i as int);
        let ghost next = cs@.subrange(start as int, i + 1);
        assert(next.drop_last() =~= prev);
        assert(next.last() == c);
        acc = if acc >= MAGNITUDE_CAP { MAGNITUDE_CAP } else {
            let v = acc * 10 + d;
            if v >= MAGNITUDE_CAP { MAGNITUDE_CAP } else { v }
        };
        i = i + 1;
        assert(all_digits(next)) by {
            assert forall|j: int| 0 <= j < next.len() implies is_digit(#[trigger] next[j]) by {
                if j < prev.len() {
                    assert(next[j] == prev[j]);
                }
            }
        }
    }
    if negative {
        if acc > 2147483648 {
            None
        } else {
            Some((-(acc as i64)) as i32)
        }
    } else {
        if acc > 2147483647 {
            None
        } else {
            Some(acc as i32)
        }
    }
}

/// Whether `a` and `b` hold the same characters.
pub fn text_equals(a: &str, b: &str) -> (r: bool)
    ensures
        r == (a@ == b@),
{
    let x = chars_of(a);
    let y = chars_of(b);
    if x.len() != y.len() {
        return false;
    }
    let mut i: usize = 0;
    while i < x.len()
        invariant
            x.len() == y.len(),
            x@ == a@,
            y@ == b@,
            i <= x.len(),
            forall|j: int| 0 <= j < i ==> x@[j] == y@[j],
        decreases x.len() - i,
    {
        if x[i] != y[i] {
            assert(a@[i as int] != b@[i as int]);
            return false;
        }
        i = i + 1;
    }
    assert(x@ =~= y@);
    true
}

proof fn lemma_digit_char_value(d: nat)
    requires
        d < 10,
    ensures
        is_digit(digit_char(d)),
        digit_char(d) as nat - '0' as nat == d,
{
    if d == 0 {
    } else if d == 1 {
    } else if d == 2 {
    } else if d == 3 {
    } else if d == 4 {
    } else if d == 5 {
    } else if d == 6 {
    } else if d == 7 {
    } else if d == 8 {
    } else {
    }
}

/// The digits of `n` are decimal digits whose value is `n`.
pub proof fn lemma_nat_digits_value(n: nat)
    ensures
        nat_digits(n).len() > 0,
        all_digits(nat_digits(n)),
        digits_value(nat_digits(n)) == n,
    decreases n,
{
    if n < 10 {
        lemma_digit_char_value(n);
        assert(nat_digits(n).drop_last() =~= Seq::<char>::empty());
        assert(digits_value(nat_digits(n)) == digits_value(Seq::<char>::empty()) * 10 + n);
    } else {
        lemma_nat_digits_value(n / 10);
        lemma_digit_char_value(n % 10);
        let p = nat_digits(n / 10);
        assert(nat_digits(n).drop_last() =~= p);
        assert(nat_digits(n).last() == digit_char(n % 10));
        assert(digits_value(nat_digits(n)) == digits_value(p) * 10 + (n % 10));
        assert((n / 10) * 10 + n % 10 == n);
        assert forall|i: int| 0 <= i < nat_digits(n).len() implies is_digit(#[trigger] nat_digits(n)[i]) by {
            if i < p.len() {
                assert(nat_digits(n)[i] == p[i]);
            }
        }
    }
}

/// Reading the decimal text of an `i32` gives the number back.
pub proof fn lemma_decimal_parses(v: int)
    requires
        i32::MIN <= v <= i32::MAX,
    ensures
        parse_i32_value(decimal(v)) == Some(v),
{
    let m: nat = if v < 0 { (-v) as nat } else { v as nat };
    lemma_nat_digits_value(m);
    let d = nat_digits(m);
    assert(is_digit(d[0]));
    if v < 0 {
        assert(decimal(v).drop_first() =~= d);
    }
}

} // verus!
