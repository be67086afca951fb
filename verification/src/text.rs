//! Text primitives: decimal numbers, prefix and suffix trimming, statement templates.

use vstd::prelude::*;

verus! {

/// The character of a decimal digit.
pub open spec fn digit_char(d: nat) -> char {
    (48 + d) as char
}

/// The shortest decimal writing of `n`, as Rust's `Display` prints it.
pub open spec fn decimal(n: nat) -> Seq<char>
    decreases n,
{
    if n < 10 {
        seq![digit_char(n)]
    } else {
        decimal(n / 10).push(digit_char(n % 10))
    }
}

fn digit_str(d: u64) -> (s: &'static str)
    requires
        d < 10,
    ensures
        s@ == seq![digit_char(d as nat)],
{
    proof {
        reveal_strlit("0");
        reveal_strlit("1");
        reveal_strlit("2");
        reveal_strlit("3");
        reveal_strlit("4");
        reveal_strlit("5");
        reveal_strlit("6");
        reveal_strlit("7");
        reveal_strlit("8");
        reveal_strlit("9");
    }
    match d {
        0 => "0",
        1 => "1",
        2 => "2",
        3 => "3",
        4 => "4",
        5 => "5",
        6 => "6",
        7 => "7",
        8 => "8",
        _ => "9",
    }
}

/// Appends the decimal writing of `n` to `out`.
pub fn push_decimal(out: &mut String, n: u64)
    ensures
        final(out)@ == old(out)@ + decimal(n as nat),
    decreases n,
{
    if n >= 10 {
        push_decimal(out, n / 10);
    }
    out.append(digit_str(n % 10));
    assert(decimal(n as nat) =~= if n < 10 { seq![digit_char(n as nat)] } else { decimal((n / 10) as nat).push(digit_char((n % 10) as nat)) });
}


/// The decimal writing of a signed number: a minus sign, then the magnitude.
pub open spec fn signed_decimal(n: int) -> Seq<char> {
    if n < 0 { seq!['-'] + decimal((-n) as nat) } else { decimal(n as nat) }
}

/// Appends the decimal writing of `n`, with a minus sign when it is negative.
pub fn push_signed_decimal(out: &mut String, n: i64)
    ensures
        final(out)@ == old(out)@ + signed_decimal(n as int),
{
    if n < 0 {
        proof { reveal_strlit("-"); }
        out.append("-");
        let magnitude: u64 = if n == i64::MIN { 9223372036854775808u64 } else { (-n) as u64 };
        push_decimal(out, magnitude);
        assert(out@ =~= old(out)@ + signed_decimal(n as int));
    } else {
        push_decimal(out, n as u64);
    }
}

/// The decimal writing of `n` as a new string.
pub fn decimal_string(n: u64) -> (s: String)
    ensures
        s@ == decimal(n as nat),
{
    let mut s = String::new();
    push_decimal(&mut s, n);
    assert(s@ =~= decimal(n as nat));
    s
}

pub open spec fn is_digit(c: char) -> bool {
    '0' <= c && c <= '9'
}

pub open spec fn all_digits(s: Seq<char>) -> bool {
    forall|i: int| 0 <= i < s.len() ==> #[trigger] is_digit(s[i])
}

/// The number that a sequence of decimal digits denotes.
pub open spec fn digits_value(s: Seq<char>) -> nat
    decreases s.len(),
{
    if s.len() == 0 {
        0
    } else {
        digits_value(s.drop_last()) * 10 + ((s.last() as int - 48) as nat)
    }
}

/// The text after an optional leading `+`.
pub open spec fn unsigned_body(s: Seq<char>) -> Seq<char> {
    if s.len() > 0 && s[0] == '+' { s.drop_first() } else { s }
}

/// What `u32::from_str` accepts: an optional `+`, then at least one decimal digit,
/// denoting a value that fits in 32 bits.
pub open spec fn parse_u32_spec(s: Seq<char>) -> Option<u32> {
    let b = unsigned_body(s);
    if b.len() > 0 && all_digits(b) && digits_value(b) <= u32::MAX {
        Some(digits_value(b) as u32)
    } else {
        None
    }
}

proof fn lemma_digits_value_prefix(s: Seq<char>, k: int)
    requires
        all_digits(s),
        0 <= k <= s.len(),
    ensures
        digits_value(s.take(k)) <= digits_value(s),
    decreases s.len(),
{
    if k < s.len() {
        assert(s.drop_last().take(k) =~= s.take(k));
        lemma_digits_value_prefix(s.drop_last(), k);
    } else {
        assert(s.take(k) =~= s);
    }
}

/// Parses a decimal number exactly as `u32::from_str` does.
pub fn parse_u32(s: &str) -> (r: Option<u32>)
    ensures
        r == parse_u32_spec(s@),
{
    let n = s.unicode_len();
    let mut start: usize = 0;
    if n > 0 && s.get_char(0) == '+' {
        start = 1;
    }
    let ghost b = unsigned_body(s@);
    assert(b =~= s@.skip(start as int));
    if start >= n {
        return None;
    }
    let mut acc: u64 = 0;
    let mut i = start;
    while i < n
        invariant
            n == s@.len(),
            start <= i <= n,
            b == s@.skip(start as int),
            b == unsigned_body(s@),
            all_digits(b.take(i - start)),
            acc == digits_value(b.take(i - start)),
            acc <= u32::MAX,
        decreases n - i,
    {
        let c = s.get_char(i);
        let ghost k = i - start;
        assert(b[k] == c);
        if c < '0' || c > '9' {
            proof { lemma_not_all_digits(b, k); }
            return None;
        }
        let d = (c as u32 - 48) as u64;
        proof { lemma_digits_step(b, k); }
        acc = acc * 10 + d;
        i = i + 1;
        if acc > 4294967295 {
            proof { lemma_overflow_none(s@, b, i - start); }
            return None;
        }
    }
    assert(b.take(i - start) =~= b);
    Some(acc as u32)
}

proof fn lemma_not_all_digits(b: Seq<char>, k: int)
    requires
        0 <= k < b.len(),
        !is_digit(b[k]),
    ensures
        !all_digits(b),
{
}

proof fn lemma_digits_step(b: Seq<char>, k: int)
    requires
        0 <= k < b.len(),
        all_digits(b.take(k)),
        is_digit(b[k]),
    ensures
        all_digits(b.take(k + 1)),
        digits_value(b.take(k + 1)) == digits_value(b.take(k)) * 10 + ((b[k] as int - 48) as nat),
{
    lemma_digits_push(b.take(k), b[k]);
    assert(b.take(k).push(b[k]) =~= b.take(k + 1));
}

proof fn lemma_overflow_none(s: Seq<char>, b: Seq<char>, k: int)
    requires
        b == unsigned_body(s),
        0 <= k <= b.len(),
        all_digits(b.take(k)),
        digits_value(b.take(k)) > u32::MAX,
    ensures
        parse_u32_spec(s) == None::<u32>,
{
    if all_digits(b) {
        lemma_digits_value_prefix(b, k);
    }
}

proof fn lemma_digits_push(t: Seq<char>, c: char)
    ensures
        digits_value(t.push(c)) == digits_value(t) * 10 + ((c as int - 48) as nat),
        all_digits(t) && is_digit(c) ==> all_digits(t.push(c)),
{
    assert(t.push(c).drop_last() =~= t);
    if all_digits(t) && is_digit(c) {
        assert forall|i: int| 0 <= i < t.push(c).len() implies #[trigger] is_digit(t.push(c)[i]) by {
            if i < t.len() {
                assert(t.push(c)[i] == t[i]);
            }
        }
    }
}

proof fn lemma_digit_char(d: nat)
    requires
        d < 10,
    ensures
        digit_char(d) as int == 48 + d,
        is_digit(digit_char(d)),
{
}

proof fn lemma_decimal_digits(n: nat)
    ensures
        all_digits(decimal(n)),
        decimal(n).len() > 0,
        digits_value(decimal(n)) == n,
    decreases n,
{
    lemma_digit_char(n % 10);
    if n < 10 {
        lemma_digits_push(Seq::<char>::empty(), digit_char(n));
        assert(Seq::<char>::empty().push(digit_char(n)) =~= decimal(n));
    }
    if n >= 10 {
        lemma_decimal_digits(n / 10);
        let d = decimal(n);
        assert(d.drop_last() =~= decimal(n / 10));
        assert(d.last() == digit_char(n % 10));
        assert(digits_value(d) == digits_value(decimal(n / 10)) * 10 + n % 10);
        assert(n == (n / 10) * 10 + n % 10);
        assert forall|i: int| 0 <= i < d.len() implies #[trigger] is_digit(d[i]) by {
            if i < d.len() - 1 {
                assert(d[i] == decimal(n / 10)[i]);
            }
        }
    }
}

/// Writing a number in decimal and parsing it back gives the number again.
pub proof fn lemma_parse_decimal_roundtrip(n: u32)
    ensures
        parse_u32_spec(decimal(n as nat)) == Some(n),
{
    lemma_decimal_digits(n as nat);
    assert(is_digit(decimal(n as nat)[0]));
    assert(unsigned_body(decimal(n as nat)) == decimal(n as nat));
}


/// `s` begins with `p`.
pub open spec fn has_prefix(s: Seq<char>, p: Seq<char>) -> bool {
    p.len() <= s.len() && s.take(p.len() as int) == p
}

/// `s` ends with `p`.
pub open spec fn has_suffix(s: Seq<char>, p: Seq<char>) -> bool {
    p.len() <= s.len() && s.skip(s.len() - p.len()) == p
}

/// What `str::trim_start_matches` leaves: every leading copy of `p` removed.
pub open spec fn trim_start_spec(s: Seq<char>, p: Seq<char>) -> Seq<char>
    decreases s.len(),
{
    if p.len() > 0 && has_prefix(s, p) {
        trim_start_spec(s.skip(p.len() as int), p)
    } else {
        s
    }
}

/// What `str::trim_end_matches` leaves: every trailing copy of `p` removed.
pub open spec fn trim_end_spec(s: Seq<char>, p: Seq<char>) -> Seq<char>
    decreases s.len(),
{
    if p.len() > 0 && has_suffix(s, p) {
        trim_end_spec(s.take(s.len() - p.len()), p)
    } else {
        s
    }
}

/// Whether the characters of `s` from position `k` on begin with `p`.
fn matches_at(s: &str, k: usize, p: &str) -> (r: bool)
    requires
        k <= s@.len(),
    ensures
        r == has_prefix(s@.skip(k as int), p@),
{
    let n = s.unicode_len();
    let m = p.unicode_len();
    if m > n - k {
        return false;
    }
    let mut j: usize = 0;
    while j < m
        invariant
            n == s@.len(),
            m == p@.len(),
            k + m <= n,
            j <= m,
            forall|t: int| 0 <= t < j ==> s@[k + t] == p@[t],
        decreases m - j,
    {
        if s.get_char(k + j) != p.get_char(j) {
            assert(s@.skip(k as int).take(m as int)[j as int] != p@[j as int]);
            return false;
        }
        j = j + 1;
    }
    assert(s@.skip(k as int).take(m as int) =~= p@);
    true
}

/// Whether two texts are equal.
pub fn same_text(a: &str, b: &str) -> (r: bool)
    ensures
        r == (a@ == b@),
{
    if a.unicode_len() != b.unicode_len() {
        return false;
    }
    assert(a@.skip(0) =~= a@);
    let r = matches_at(a, 0, b);
    assert(r ==> a@.take(b@.len() as int) =~= a@);
    r
}

/// Whether `s` begins with `p`, as `str::starts_with` answers.
pub fn starts_with(s: &str, p: &str) -> (r: bool)
    ensures
        r == has_prefix(s@, p@),
{
    assert(s@.skip(0) =~= s@);
    matches_at(s, 0, p)
}

/// `s` without its leading copies of `p`, as `str::trim_start_matches` returns it.
pub fn trim_start_matches<'a>(s: &'a str, p: &str) -> (r: &'a str)
    ensures
        r@ == trim_start_spec(s@, p@),
{
    let n = s.unicode_len();
    let m = p.unicode_len();
    let mut k: usize = 0;
    assert(s@.skip(0) =~= s@);
    if m > 0 {
        while m <= n - k && matches_at(s, k, p)
            invariant
                n == s@.len(),
                m == p@.len(),
                m > 0,
                k <= n,
                trim_start_spec(s@.skip(k as int), p@) == trim_start_spec(s@, p@),
            decreases n - k,
        {
            assert(s@.skip(k as int).skip(m as int) =~= s@.skip((k + m) as int));
            k = k + m;
        }
    }
    s.substring_char(k, n)
}

/// `s` without its trailing copies of `p`, as `str::trim_end_matches` returns it.
pub fn trim_end_matches<'a>(s: &'a str, p: &str) -> (r: &'a str)
    ensures
        r@ == trim_end_spec(s@, p@),
{
    let n = s.unicode_len();
    let m = p.unicode_len();
    let mut k: usize = n;
    assert(s@.take(n as int) =~= s@);
    if m > 0 {
        while k >= m && matches_at(s, k - m, p)
            invariant
                n == s@.len(),
                m == p@.len(),
                m > 0,
                k <= n,
                trim_end_spec(s@.take(k as int), p@) == trim_end_spec(s@, p@),
            decreases k,
        {
            assert(s@.take(k as int).skip(k - m) =~= s@.skip(k - m).take(m as int));
            assert(s@.take(k as int).take(k - m) =~= s@.take(k - m));
            k = k - m;
        }
        if k >= m {
            assert(s@.take(k as int).skip(k - m) =~= s@.skip(k - m).take(m as int));
        }
    }
    s.substring_char(0, k)
}

/// The decimal writings of `ids`, separated by `sep`, as `join` on their `to_string` gives them.
pub open spec fn joined(ids: Seq<u32>, sep: Seq<char>) -> Seq<char>
    decreases ids.len(),
{
    if ids.len() == 0 {
        Seq::empty()
    } else if ids.len() == 1 {
        decimal(ids[0] as nat)
    } else {
        joined(ids.drop_last(), sep) + sep + decimal(ids.last() as nat)
    }
}

/// Appends the decimal writings of `ids` separated by `sep`.
pub fn push_joined(out: &mut String, ids: &Vec<u32>, sep: &str)
    ensures
        final(out)@ == old(out)@ + joined(ids@, sep@),
{
    let n = ids.len();
    let mut i: usize = 0;
    assert(ids@.take(0) =~= Seq::<u32>::empty());
    while i < n
        invariant
            n == ids@.len(),
            i <= n,
            out@ == old(out)@ + joined(ids@.take(i as int), sep@),
        decreases n - i,
    {
        let ghost before = out@;
        if i > 0 {
            out.append(sep);
        }
        push_decimal(out, ids[i] as u64);
        proof {
            let t = ids@.take(i + 1);
            assert(t.drop_last() =~= ids@.take(i as int));
            assert(t.last() == ids@[i as int]);
            if i == 0 {
                assert(joined(t, sep@) == decimal(ids@[0] as nat));
            }
            assert(out@ =~= old(out)@ + joined(t, sep@));
        }
        i = i + 1;
    }
    assert(ids@.take(n as int) =~= ids@);
}

/// Joining writes every element, in order, with the separator between neighbours:
/// nothing for no element, the element's decimal writing for one, and appending an
/// element to a non-empty list appends the separator and its writing.
pub proof fn lemma_joined_lists_every_element(ids: Seq<u32>, x: u32, sep: Seq<char>)
    ensures
        joined(Seq::<u32>::empty(), sep) == Seq::<char>::empty(),
        joined(seq![x], sep) == decimal(x as nat),
        ids.len() > 0 ==> joined(ids.push(x), sep) == joined(ids, sep) + sep + decimal(x as nat),
{
    assert(seq![x].len() == 1);
    if ids.len() > 0 {
        assert(ids.push(x).drop_last() =~= ids);
    }
}

} // verus!
