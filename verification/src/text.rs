//! Text helpers: decimal rendering and parsing of numbers, and small string builders.

use vstd::prelude::*;

verus! {

/// The character of a decimal digit.
pub open spec fn digit_char(d: nat) -> char {
    ((d + 48) as u32) as char
}

/// Whether a character is an ASCII decimal digit.
pub open spec fn is_digit(c: char) -> bool {
    '0' <= c && c <= '9'
}

/// The value of a decimal digit character.
pub open spec fn digit_value(c: char) -> nat {
    ((c as u32) - 48) as nat
}

/// The decimal rendering of a natural number, most significant digit first, without
/// leading zeros.
pub open spec fn dec(n: nat) -> Seq<char>
    decreases n,
{
    if n < 10 {
        seq![digit_char(n)]
    } else {
        dec(n / 10).push(digit_char(n % 10))
    }
}

/// The decimal rendering of an integer, with a leading minus sign when it is negative.
pub open spec fn dec_int(n: int) -> Seq<char> {
    if n < 0 {
        seq!['-'].add(dec((-n) as nat))
    } else {
        dec(n as nat)
    }
}

/// `String::push` from the standard library: the string afterwards is the old one with
/// `c` appended.
#[verifier::external_body]
pub(crate) fn push_char(s: &mut String, c: char)
    ensures
        final(s)@ == old(s)@.push(c),
{
    s.push(c);
}

/// Appends the decimal rendering of `n` to `out`.
pub fn push_decimal(out: &mut String, n: u64)
    ensures
        final(out)@ == old(out)@ + dec(n as nat),
    decreases n,
{
    if n < 10 {
        let c = ((n as u8) + 48u8) as char;
        assert(c == digit_char(n as nat));
        push_char(out, c);
        assert(dec(n as nat) =~= seq![c]);
    } else {
        push_decimal(out, n / 10);
        let d = n % 10;
        let c = ((d as u8) + 48u8) as char;
        assert(c == digit_char((n % 10) as nat));
        push_char(out, c);
    }
}

/// The decimal rendering of `n`.
pub fn decimal(n: u64) -> (s: String)
    ensures
        s@ == dec(n as nat),
{
    let mut s = String::new();
    push_decimal(&mut s, n);
    assert(s@ =~= dec(n as nat));
    s
}

/// The decimal rendering of a signed number.
pub fn decimal_signed(n: i64) -> (s: String)
    ensures
        s@ == dec_int(n as int),
{
    let mut s = String::new();
    if n < 0 {
        push_char(&mut s, '-');
        let magnitude: u64 = if n == i64::MIN { 9223372036854775808u64 } else { (-n) as u64 };
        push_decimal(&mut s, magnitude);
        assert(s@ =~= dec_int(n as int));
    } else {
        push_decimal(&mut s, n as u64);
        assert(s@ =~= dec_int(n as int));
    }
    s
}


/// The numeric value of a string of decimal digits.
pub open spec fn dec_value(s: Seq<char>) -> nat
    decreases s.len(),
{
    if s.len() == 0 {
        0
    } else {
        dec_value(s.drop_last()) * 10 + digit_value(s.last())
    }
}

/// Whether every character of `s` is an ASCII decimal digit.
pub open spec fn all_digits(s: Seq<char>) -> bool {
    forall|i: int| 0 <= i < s.len() ==> is_digit(#[trigger] s[i])
}

/// Reading back the decimal rendering of a number gives the number.
pub proof fn lemma_dec_round_trip(n: nat)
    ensures
        dec_value(dec(n)) == n,
    decreases n,
{
    let d = dec(n);
    if n < 10 {
        assert(d.len() == 1);
        assert(d.drop_last() =~= Seq::<char>::empty());
        assert(dec_value(d.drop_last()) == 0);
        assert(d.last() == digit_char(n));
        assert(digit_value(digit_char(n)) == n);
        assert(dec_value(d) == dec_value(d.drop_last()) * 10 + digit_value(d.last()));
    } else {
        lemma_dec_round_trip(n / 10);
        assert(d.drop_last() =~= dec(n / 10));
        assert(d.last() == digit_char((n % 10) as nat));
        assert(digit_value(digit_char((n % 10) as nat)) == n % 10);
        assert(dec_value(d) == dec_value(d.drop_last()) * 10 + digit_value(d.last()));
        assert((n / 10) * 10 + n % 10 == n);
    }
}

/// The decimal rendering of a number is a non-empty string of digits.
pub proof fn lemma_dec_digits(n: nat)
    ensures
        dec(n).len() >= 1,
        all_digits(dec(n)),
    decreases n,
{
    if n >= 10 {
        lemma_dec_digits(n / 10);
        let d = dec(n);
        assert forall|i: int| 0 <= i < d.len() implies is_digit(#[trigger] d[i]) by {
            if i < d.len() - 1 {
                assert(d[i] == dec(n / 10)[i]);
            }
        }
    }
}

/// Two numbers with the same decimal rendering are the same number.
pub proof fn lemma_dec_injective(a: nat, b: nat)
    requires
        dec(a) == dec(b),
    ensures
        a == b,
{
    lemma_dec_round_trip(a);
    lemma_dec_round_trip(b);
}

/// A prefix of a digit string never has a larger value than the whole string.
pub proof fn lemma_dec_value_prefix(s: Seq<char>, i: int)
    requires
        0 <= i <= s.len(),
    ensures
        dec_value(s.take(i)) <= dec_value(s),
    decreases s.len(),
{
    if i < s.len() {
        lemma_dec_value_prefix(s.drop_last(), i);
        assert(s.drop_last().take(i) =~= s.take(i));
    } else {
        assert(s.take(i) =~= s);
    }
}

/// The characters of a string slice.
pub fn chars_of(s: &str) -> (v: Vec<char>)
    ensures
        v@ == s@,
{
    let n = s.unicode_len();
    let mut v: Vec<char> = Vec::new();
    let mut i: usize = 0;
    while i < n
        invariant
            n == s@.len(),
            i <= n,
            v@ == s@.take(i as int),
        decreases n - i,
    {
        let c = s.get_char(i);
        v.push(c);
        i = i + 1;
        assert(v@ =~= s@.take(i as int));
    }
    assert(s@.take(n as int) =~= s@);
    v
}

/// The string made of the characters `v[from..to]`.
pub fn string_of_range(v: &Vec<char>, from: usize, to: usize) -> (s: String)
    requires
        from <= to <= v.len(),
    ensures
        s@ == v@.subrange(from as int, to as int),
{
    let mut s = String::new();
    let mut i = from;
    while i < to
        invariant
            from <= i <= to,
            to <= v.len(),
            s@ == v@.subrange(from as int, i as int),
        decreases to - i,
    {
        push_char(&mut s, v[i]);
        i = i + 1;
        assert(s@ =~= v@.subrange(from as int, i as int));
    }
    s
}

/// The string made of the characters of `v`.
pub fn string_of(v: &Vec<char>) -> (s: String)
    ensures
        s@ == v@,
{
    let s = string_of_range(v, 0, v.len());
    assert(v@.subrange(0, v@.len() as int) =~= v@);
    s
}

/// Appends the characters of `v` to `out`.
pub fn push_chars(out: &mut String, v: &Vec<char>)
    ensures
        final(out)@ == old(out)@ + v@,
{
    let mut i: usize = 0;
    while i < v.len()
        invariant
            i <= v.len(),
            out@ == old(out)@ + v@.take(i as int),
        decreases v.len() - i,
    {
        push_char(out, v[i]);
        i = i + 1;
        assert(out@ =~= old(out)@ + v@.take(i as int));
    }
    assert(v@.take(v@.len() as int) =~= v@);
}

/// Appends a string slice to `out`.
pub fn push_str(out: &mut String, s: &str)
    ensures
        final(out)@ == old(out)@ + s@,
{
    let v = chars_of(s);
    push_chars(out, &v);
}

/// Whether `v[at..]` begins with the characters of `prefix`.
pub fn has_prefix_at(v: &Vec<char>, at: usize, prefix: &str) -> (b: bool)
    requires
        at <= v.len(),
    ensures
        b == (prefix@.len() <= v@.len() - at && v@.subrange(at as int, at + prefix@.len()) == prefix@),
{
    let p = chars_of(prefix);
    if p.len() > v.len() - at {
        return false;
    }
    let mut i: usize = 0;
    while i < p.len()
        invariant
            p@ == prefix@,
            at + p@.len() <= v@.len(),
            v@.len() == v.len(),
            i <= p.len(),
            forall|j: int| 0 <= j < i ==> v@[at + j] == p@[j],
        decreases p.len() - i,
    {
        if v[at + i] != p[i] {
            assert(v@.subrange(at as int, at + p@.len())[i as int] != p@[i as int]);
            return false;
        }
        i = i + 1;
    }
    assert(v@.subrange(at as int, at + p@.len()) =~= p@);
    true
}

/// Whether two character sequences are equal.
pub fn same_chars(a: &Vec<char>, b: &Vec<char>) -> (r: bool)
    ensures
        r == (a@ == b@),
{
    if a.len() != b.len() {
        return false;
    }
    let mut i: usize = 0;
    while i < a.len()
        invariant
            a.len() == b.len(),
            i <= a.len(),
            forall|j: int| 0 <= j < i ==> a@[j] == b@[j],
        decreases a.len() - i,
    {
        if a[i] != b[i] {
            return false;
        }
        i = i + 1;
    }
    assert(a@ =~= b@);
    true
}

/// Whether two strings hold the same text.
pub fn same_text(a: &str, b: &str) -> (r: bool)
    ensures
        r == (a@ == b@),
{
    let x = chars_of(a);
    let y = chars_of(b);
    same_chars(&x, &y)
}

/// The value of the digit string `v[from..to]`, or `None` when it does not fit in a `u32`.
pub fn parse_digits_u32(v: &Vec<char>, from: usize, to: usize) -> (r: Option<u32>)
    requires
        from <= to <= v.len(),
        all_digits(v@.subrange(from as int, to as int)),
    ensures
        r matches Some(n) ==> n as nat == dec_value(v@.subrange(from as int, to as int)),
        r is None <==> dec_value(v@.subrange(from as int, to as int)) > u32::MAX,
{
    let ghost whole = v@.subrange(from as int, to as int);
    let mut acc: u64 = 0;
    let mut i = from;
    while i < to
        invariant
            from <= i <= to,
            to <= v.len(),
            whole == v@.subrange(from as int, to as int),
            all_digits(whole),
            acc as nat == dec_value(whole.take(i - from)),
            acc <= u32::MAX,
        decreases to - i,
    {
        let c = v[i];
        assert(whole[i - from] == c);
        assert(is_digit(c));
        let d = (c as u32 - 48) as u64;
        let next = acc * 10 + d;
        assert(whole.take(i + 1 - from).drop_last() =~= whole.take(i - from));
        assert(next as nat == dec_value(whole.take(i + 1 - from)));
        if next > 4294967295u64 {
            proof {
                lemma_dec_value_prefix(whole, i + 1 - from);
            }
            return None;
        }
        acc = next;
        i = i + 1;
    }
    assert(whole.take(to - from) =~= whole);
    Some(acc as u32)
}

/// The position of the last `c` among the first `i` characters of `s`, or -1.
pub open spec fn last_index(s: Seq<char>, c: char, i: int) -> int
    decreases i,
{
    if i <= 0 {
        -1
    } else if s[i - 1] == c {
        i - 1
    } else {
        last_index(s, c, i - 1)
    }
}

/// The last `c` before position `i` is `c`, lies before `i`, and none follows it there.
pub proof fn lemma_last_index_bounds(s: Seq<char>, c: char, i: int)
    requires
        i <= s.len(),
    ensures
        -1 <= last_index(s, c, i),
        last_index(s, c, i) < i || (i <= 0 && last_index(s, c, i) == -1),
        last_index(s, c, i) >= 0 ==> s[last_index(s, c, i)] == c,
        forall|j: int| last_index(s, c, i) < j < i ==> s[j] != c,
    decreases i,
{
    if i > 0 && s[i - 1] != c {
        lemma_last_index_bounds(s, c, i - 1);
    }
}

/// The last `c` before `i` is the same in any longer prefix that holds no further `c`.
pub proof fn lemma_last_index_take(s: Seq<char>, c: char, i: int)
    requires
        0 <= i <= s.len(),
    ensures
        last_index(s.take(i), c, i) == last_index(s, c, i),
    decreases i,
{
    if i > 0 {
        assert(s.take(i)[i - 1] == s[i - 1]);
        if s[i - 1] != c {
            lemma_last_index_take(s, c, i - 1);
            lemma_last_index_agree(s.take(i), s.take(i - 1), c, i - 1);
        }
    }
}

/// Two sequences that agree on their first `i` characters agree on the last `c` there.
pub proof fn lemma_last_index_agree(a: Seq<char>, b: Seq<char>, c: char, i: int)
    requires
        0 <= i <= a.len(),
        i <= b.len(),
        forall|j: int| 0 <= j < i ==> a[j] == b[j],
    ensures
        last_index(a, c, i) == last_index(b, c, i),
    decreases i,
{
    if i > 0 {
        lemma_last_index_agree(a, b, c, i - 1);
    }
}

} // verus!
