//! Character-level text handling shared by the rest of the library:
//! whitespace trimming, unsigned decimal parsing and printing, splitting on a
//! separator and substring search.  Everything is stated over `Seq<char>`,
//! the view of `str` and `String`.
use vstd::prelude::*;
use vstd::string::*;

verus! {

// ---------------------------------------------------------------------------
// Characters
// ---------------------------------------------------------------------------

/// The Unicode `White_Space` property, which is what `char::is_whitespace` tests.
pub open spec fn is_white_space(c: char) -> bool {
    let v = c as u32;
    ||| (0x9 <= v && v <= 0xd)
    ||| v == 0x20
    ||| v == 0x85
    ||| v == 0xa0
    ||| v == 0x1680
    ||| (0x2000 <= v && v <= 0x200a)
    ||| v == 0x2028
    ||| v == 0x2029
    ||| v == 0x202f
    ||| v == 0x205f
    ||| v == 0x3000
}

/// An ASCII decimal digit `'0'..='9'`.
pub open spec fn is_digit_char(c: char) -> bool {
    48 <= (c as u32) && (c as u32) <= 57
}

/// The numeric value of an ASCII digit.
pub open spec fn digit_value(c: char) -> nat {
    ((c as u32) - 48) as nat
}

/// The ASCII digit that stands for `d` (for `d < 10`).
pub open spec fn digit_char(d: nat) -> char {
    ((d + 48) as u32) as char
}

pub fn is_white_space_char(c: char) -> (r: bool)
    ensures
        r == is_white_space(c),
{
    let v = c as u32;
    (0x9 <= v && v <= 0xd) || v == 0x20 || v == 0x85 || v == 0xa0 || v == 0x1680 || (0x2000
        <= v && v <= 0x200a) || v == 0x2028 || v == 0x2029 || v == 0x202f || v == 0x205f || v
        == 0x3000
}

pub fn is_digit(c: char) -> (r: bool)
    ensures
        r == is_digit_char(c),
{
    let v = c as u32;
    48 <= v && v <= 57
}

/// The ASCII digit character for `d`.
pub fn digit_to_char(d: u8) -> (c: char)
    requires
        d < 10,
    ensures
        c == digit_char(d as nat),
        is_digit_char(c),
        digit_value(c) == d,
{
    let b: u8 = 48 + d;
    let c = b as char;
    assert(c as u32 == b as u32);
    c
}

// ---------------------------------------------------------------------------
// From str / String to characters and back
// ---------------------------------------------------------------------------

/// The characters of `s`, in order.
pub fn chars_of(s: &str) -> (r: Vec<char>)
    ensures
        r@ == s@,
{
    let n = s.unicode_len();
    let mut v: Vec<char> = Vec::new();
    let mut i: usize = 0;
    while i < n
        invariant
            n == s@.len(),
            i <= n,
            v@ == s@.subrange(0, i as int),
        decreases n - i,
    {
        v.push(s.get_char(i));
        i += 1;
        assert(v@ =~= s@.subrange(0, i as int));
    }
    assert(v@ =~= s@);
    v
}

/// Appends one character: `String::push`.
#[verifier::external_body]
pub(crate) fn push_char(s: &mut String, c: char)
    ensures
        final(s)@ == old(s)@.push(c),
{
    s.push(c);
}

/// A `String` holding exactly the characters of `v`.
pub fn string_from_chars(v: &Vec<char>) -> (r: String)
    ensures
        r@ == v@,
{
    let mut s = String::new();
    let mut i: usize = 0;
    while i < v.len()
        invariant
            i <= v.len(),
            s@ == v@.subrange(0, i as int),
        decreases v.len() - i,
    {
        push_char(&mut s, v[i]);
        i += 1;
        assert(s@ =~= v@.subrange(0, i as int));
    }
    assert(s@ =~= v@);
    s
}

/// A copy of `v[lo..hi]`.
pub fn chars_between(v: &Vec<char>, lo: usize, hi: usize) -> (r: Vec<char>)
    requires
        lo <= hi <= v.len(),
    ensures
        r@ == v@.subrange(lo as int, hi as int),
{
    let mut r: Vec<char> = Vec::new();
    let mut i = lo;
    while i < hi
        invariant
            lo <= i <= hi,
            hi <= v.len(),
            r@ == v@.subrange(lo as int, i as int),
        decreases hi - i,
    {
        r.push(v[i]);
        i += 1;
        assert(r@ =~= v@.subrange(lo as int, i as int));
    }
    r
}

/// Whether two character sequences are equal.
pub fn chars_equal(a: &Vec<char>, b: &Vec<char>) -> (r: bool)
    ensures
        r == (a@ == b@),
{
    if a.len() != b.len() {
        return false;
    }
    let mut i: usize = 0;
    while i < a.len()
        invariant
            a.len() == b.len(),
            i <= a.len(),
            forall|j: int| 0 <= j < i ==> a@[j] == b@[j],
        decreases a.len() - i,
    {
        if a[i] != b[i] {
            return false;
        }
        i += 1;
    }
    assert(a@ =~= b@);
    true
}

// ---------------------------------------------------------------------------
// Trimming
// ---------------------------------------------------------------------------

/// `s` without its leading whitespace.
pub open spec fn trim_start(s: Seq<char>) -> Seq<char>
    decreases s.len(),
{
    if s.len() > 0 && is_white_space(s[0]) {
        trim_start(s.drop_first())
    } else {
        s
    }
}

/// `s` without its trailing whitespace.
pub open spec fn trim_end(s: Seq<char>) -> Seq<char>
    decreases s.len(),
{
    if s.len() > 0 && is_white_space(s.last()) {
        trim_end(s.drop_last())
    } else {
        s
    }
}

/// `str::trim`: `s` without leading and trailing whitespace.
pub open spec fn trim(s: Seq<char>) -> Seq<char> {
    trim_end(trim_start(s))
}

proof fn lemma_trim_start_skip(s: Seq<char>, k: int)
    requires
        0 <= k <= s.len(),
        forall|j: int| 0 <= j < k ==> is_white_space(#[trigger] s[j]),
    ensures
        trim_start(s) == trim_start(s.skip(k)),
    decreases k,
{
    if k > 0 {
        assert(is_white_space(s[0]));
        let t = s.drop_first();
        assert forall|j: int| 0 <= j < k - 1 implies is_white_space(#[trigger] t[j]) by {
            assert(t[j] == s[j + 1]);
        }
        lemma_trim_start_skip(t, k - 1);
        assert(t.skip(k - 1) =~= s.skip(k));
    } else {
        assert(s.skip(0) =~= s);
    }
}

proof fn lemma_trim_end_take(s: Seq<char>, k: int)
    requires
        0 <= k <= s.len(),
        forall|j: int| k <= j < s.len() ==> is_white_space(#[trigger] s[j]),
    ensures
        trim_end(s) == trim_end(s.take(k)),
    decreases s.len() - k,
{
    if k < s.len() {
        assert(is_white_space(s[s.len() - 1]));
        let t = s.drop_last();
        assert forall|j: int| k <= j < t.len() implies is_white_space(#[trigger] t[j]) by {
            assert(t[j] == s[j]);
        }
        lemma_trim_end_take(t, k);
        assert(t.take(k) =~= s.take(k));
    } else {
        assert(s.take(k) =~= s);
    }
}

/// The characters of `v` without leading and trailing whitespace.
pub fn trimmed(v: &Vec<char>) -> (r: Vec<char>)
    ensures
        r@ == trim(v@),
{
    let n = v.len();
    let mut lo: usize = 0;
    while lo < n && is_white_space_char(v[lo])
        invariant
            n == v.len(),
            lo <= n,
            forall|j: int| 0 <= j < lo ==> is_white_space(#[trigger] v@[j]),
        decreases n - lo,
    {
        lo += 1;
    }
    proof {
        lemma_trim_start_skip(v@, lo as int);
        let t = v@.skip(lo as int);
        if t.len() > 0 {
            assert(t[0] == v@[lo as int]);
        }
        assert(trim_start(t) == t);
    }
    let mut hi: usize = n;
    while hi > lo && is_white_space_char(v[hi - 1])
        invariant
            n == v.len(),
            lo <= hi <= n,
            forall|j: int| hi <= j < n ==> is_white_space(#[trigger] v@[j]),
        decreases hi,
    {
        hi -= 1;
    }
    let r = chars_between(v, lo, hi);
    proof {
        let t = v@.skip(lo as int);
        let k = hi - lo;
        assert forall|j: int| k <= j < t.len() implies is_white_space(#[trigger] t[j]) by {
            assert(t[j] == v@[j + lo]);
        }
        lemma_trim_end_take(t, k as int);
        let u = t.take(k as int);
        assert(u =~= v@.subrange(lo as int, hi as int));
        if u.len() > 0 {
            assert(u.last() == v@[hi - 1]);
        }
        assert(trim_end(u) == u);
    }
    r
}

// ---------------------------------------------------------------------------
// Unsigned decimal numbers
// ---------------------------------------------------------------------------

/// Every character of `s` is an ASCII digit.
pub open spec fn all_digits(s: Seq<char>) -> bool {
    forall|i: int| 0 <= i < s.len() ==> is_digit_char(#[trigger] s[i])
}

/// The number that the decimal digits `s` denote (most significant first).
pub open spec fn digits_value(s: Seq<char>) -> nat
    decreases s.len(),
{
    if s.len() == 0 {
        0
    } else {
        digits_value(s.drop_last()) * 10 + digit_value(s.last())
    }
}

/// The digits part of an unsigned number: one leading `'+'` is allowed.
pub open spec fn unsigned_digits(s: Seq<char>) -> Seq<char> {
    if s.len() > 0 && s[0] == '+' {
        s.drop_first()
    } else {
        s
    }
}

/// `str::parse` for an unsigned integer, before the range check: an optional
/// `'+'` followed by one or more ASCII digits, and nothing else.
pub open spec fn parse_unsigned(s: Seq<char>) -> Option<nat> {
    let d = unsigned_digits(s);
    if d.len() > 0 && all_digits(d) {
        Some(digits_value(d))
    } else {
        None
    }
}

/// `str::parse` for an unsigned integer type whose largest value is `max`:
/// the text must be a number, and the number must fit.
pub open spec fn parse_unsigned_max(s: Seq<char>, max: nat) -> Option<nat> {
    match parse_unsigned(s) {
        Some(v) => if v <= max {
            Some(v)
        } else {
            None
        },
        None => None,
    }
}

/// Parses `s` as an unsigned number no larger than `max`, as `str::parse` does
/// for the unsigned integer type whose largest value is `max`.
pub fn parse_bounded(s: &Vec<char>, max: u64) -> (r: Option<u64>)
    requires
        max <= u32::MAX,
    ensures
        r is Some == parse_unsigned_max(s@, max as nat) is Some,
        r is Some ==> parse_unsigned_max(s@, max as nat) == Some(r.unwrap() as nat),
{
    let n = s.len();
    let mut start: usize = 0;
    if n > 0 && s[0] == '+' {
        start = 1;
    }
    let ghost d = unsigned_digits(s@);
    assert(d =~= s@.subrange(start as int, n as int));
    if start >= n {
        return None;
    }
    let mut i = start;
    let mut acc: u64 = 0;
    let mut over = false;
    while i < n
        invariant
            n == s.len(),
            max <= u32::MAX,
            start <= i <= n,
            d == s@.subrange(start as int, n as int),
            d == unsigned_digits(s@),
            all_digits(s@.subrange(start as int, i as int)),
            !over ==> acc == digits_value(s@.subrange(start as int, i as int)) && acc <= max,
            over ==> digits_value(s@.subrange(start as int, i as int)) > max,
        decreases n - i,
    {
        let c = s[i];
        if !is_digit(c) {
            assert(d[i - start] == c);
            assert(!is_digit_char(d[i - start]));
            assert(!all_digits(d));
            assert(unsigned_digits(s@) == d);
            assert(parse_unsigned(s@) is None);
            return None;
        }
        let ghost p = s@.subrange(start as int, i as int);
        let ghost q = s@.subrange(start as int, i + 1);
        assert(q.drop_last() =~= p);
        assert(q.last() == c);
        assert(digits_value(q) == digits_value(p) * 10 + digit_value(c));
        let dv = (c as u32 - 48) as u64;
        if !over {
            let next = acc * 10 + dv;
            if next > max {
                over = true;
            } else {
                acc = next;
            }
        }
        i += 1;
        assert forall|j: int| 0 <= j < q.len() implies is_digit_char(#[trigger] q[j]) by {
            if j < p.len() {
                assert(q[j] == p[j]);
            }
        }
    }
    assert(s@.subrange(start as int, n as int) == d);
    if over {
        None
    } else {
        Some(acc)
    }
}

/// `s.parse::<u8>()`, as an option.
pub fn parse_u8(s: &Vec<char>) -> (r: Option<u8>)
    ensures
        r is Some == parse_unsigned_max(s@, u8::MAX as nat) is Some,
        r is Some ==> parse_unsigned_max(s@, u8::MAX as nat) == Some(r.unwrap() as nat),
{
    match parse_bounded(s, 255) {
        Some(v) => Some(v as u8),
        None => None,
    }
}

/// `s.parse::<u16>()`, as an option.
pub fn parse_u16(s: &Vec<char>) -> (r: Option<u16>)
    ensures
        r is Some == parse_unsigned_max(s@, u16::MAX as nat) is Some,
        r is Some ==> parse_unsigned_max(s@, u16::MAX as nat) == Some(r.unwrap() as nat),
{
    match parse_bounded(s, 65535) {
        Some(v) => Some(v as u16),
        None => None,
    }
}

/// `s.parse::<u32>()`, as an option.
pub fn parse_u32(s: &Vec<char>) -> (r: Option<u32>)
    ensures
        r is Some == parse_unsigned_max(s@, u32::MAX as nat) is Some,
        r is Some ==> parse_unsigned_max(s@, u32::MAX as nat) == Some(r.unwrap() as nat),
{
    match parse_bounded(s, 4294967295) {
        Some(v) => Some(v as u32),
        None => None,
    }
}

/// The decimal digits of `n`, most significant first, with no leading zero:
/// what `Display` prints for an unsigned integer.
pub open spec fn decimal(n: nat) -> Seq<char>
    decreases n,
{
    if n < 10 {
        seq![digit_char(n)]
    } else {
        decimal(n / 10).push(digit_char(n % 10))
    }
}

/// `n` printed with at least two digits, as `{:02}` does.
pub open spec fn two_digits(n: nat) -> Seq<char> {
    if n < 10 {
        seq!['0'].add(decimal(n))
    } else {
        decimal(n)
    }
}

proof fn lemma_digit_char(d: nat)
    requires
        d < 10,
    ensures
        is_digit_char(digit_char(d)),
        digit_value(digit_char(d)) == d,
        digit_char(d) != '+',
{
    assert(((d + 48) as u32) as char as u32 == (d + 48) as u32);
}

/// The decimal text of a number consists of digits, does not start with
/// `'+'`, and denotes the number.
pub proof fn lemma_decimal_digits(n: nat)
    ensures
        decimal(n).len() > 0,
        all_digits(decimal(n)),
        decimal(n)[0] != '+',
        digits_value(decimal(n)) == n,
    decreases n,
{
    if n < 10 {
        lemma_digit_char(n);
        assert(decimal(n).drop_last() =~= Seq::<char>::empty());
        assert(decimal(n).last() == digit_char(n));
        assert(digits_value(Seq::<char>::empty()) == 0);
    } else {
        lemma_decimal_digits(n / 10);
        lemma_digit_char(n % 10);
        let s = decimal(n);
        let p = decimal(n / 10);
        assert(s.drop_last() =~= p);
        assert(s.last() == digit_char(n % 10));
        assert((n / 10) * 10 + n % 10 == n);
        assert forall|i: int| 0 <= i < s.len() implies is_digit_char(#[trigger] s[i]) by {
            if i < p.len() {
                assert(s[i] == p[i]);
            }
        }
        assert(s[0] == p[0]);
    }
}

/// Printing a number and parsing the text back gives the number again.
pub proof fn lemma_parse_decimal(n: nat)
    ensures
        parse_unsigned(decimal(n)) == Some(n),
{
    lemma_decimal_digits(n);
    assert(unsigned_digits(decimal(n)) == decimal(n));
}

/// Appends the decimal digits of `n` to `out`.
pub fn push_decimal(out: &mut String, n: u64)
    ensures
        final(out)@ == old(out)@ + decimal(n as nat),
    decreases n,
{
    if n >= 10 {
        push_decimal(out, n / 10);
    }
    push_char(out, digit_to_char((n % 10) as u8));
    assert(out@ =~= old(out)@ + decimal(n as nat));
}

/// `n.to_string()` for an unsigned integer.
pub fn decimal_string(n: u64) -> (r: String)
    ensures
        r@ == decimal(n as nat),
{
    let mut s = String::new();
    push_decimal(&mut s, n);
    assert(s@ =~= decimal(n as nat));
    s
}

/// Appends `n` with at least two digits, as `{:02}` prints it.
pub fn push_two_digits(out: &mut String, n: u64)
    ensures
        final(out)@ == old(out)@ + two_digits(n as nat),
{
    if n < 10 {
        push_char(out, '0');
    }
    let ghost mid = out@;
    push_decimal(out, n);
    assert(out@ =~= old(out)@ + two_digits(n as nat));
}

// ---------------------------------------------------------------------------
// Splitting and searching
// ---------------------------------------------------------------------------

/// The pieces of `s` between occurrences of `sep`, as `str::split` yields
/// them, where `cur` is the piece already begun.
pub open spec fn split_from(s: Seq<char>, sep: char, cur: Seq<char>) -> Seq<Seq<char>>
    decreases s.len(),
{
    if s.len() == 0 {
        seq![cur]
    } else if s[0] == sep {
        seq![cur] + split_from(s.drop_first(), sep, Seq::empty())
    } else {
        split_from(s.drop_first(), sep, cur.push(s[0]))
    }
}

/// `str::split(sep)`: the pieces of `s` between occurrences of `sep`
/// (always at least one piece).
pub open spec fn split_on(s: Seq<char>, sep: char) -> Seq<Seq<char>> {
    split_from(s, sep, Seq::empty())
}

/// The pieces of `v` between occurrences of `sep`.
pub fn split_chars(v: &Vec<char>, sep: char) -> (r: Vec<Vec<char>>)
    ensures
        r@.map_values(|p: Vec<char>| p@) == split_on(v@, sep),
{
    let mut parts: Vec<Vec<char>> = Vec::new();
    let mut cur: Vec<char> = Vec::new();
    let mut i: usize = 0;
    assert(v@.skip(0) =~= v@);
    assert(parts@.map_values(|p: Vec<char>| p@) =~= Seq::<Seq<char>>::empty());
    assert(cur@ =~= Seq::<char>::empty());
    while i < v.len()
        invariant
            i <= v.len(),
            split_on(v@, sep) == parts@.map_values(|p: Vec<char>| p@) + split_from(
                v@.skip(i as int),
                sep,
                cur@,
            ),
        decreases v.len() - i,
    {
        let ghost rest = v@.skip(i as int);
        assert(rest[0] == v@[i as int]);
        assert(rest.drop_first() =~= v@.skip(i + 1));
        let ghost before = parts@.map_values(|p: Vec<char>| p@);
        if v[i] == sep {
            let ghost c = cur@;
            let done = cur;
            parts.push(done);
            cur = Vec::new();
            assert(parts@.map_values(|p: Vec<char>| p@) =~= before.push(c));
            assert(before + (seq![c] + split_from(v@.skip(i + 1), sep, Seq::empty())) =~= before.push(c)
                + split_from(v@.skip(i + 1), sep, Seq::empty()));
        } else {
            cur.push(v[i]);
        }
        i += 1;
    }
    let ghost before = parts@.map_values(|p: Vec<char>| p@);
    let ghost c = cur@;
    assert(v@.skip(i as int) =~= Seq::<char>::empty());
    parts.push(cur);
    assert(parts@.map_values(|p: Vec<char>| p@) =~= before.push(c));
    assert(before + seq![c] =~= before.push(c));
    parts
}

/// `needle` occurs in `hay` starting at position `i`.
pub open spec fn occurs_at(hay: Seq<char>, needle: Seq<char>, i: int) -> bool {
    0 <= i && i + needle.len() <= hay.len() && hay.subrange(i, i + needle.len()) == needle
}

/// `str::contains`: `needle` occurs somewhere in `hay`.
pub open spec fn contains_text(hay: Seq<char>, needle: Seq<char>) -> bool {
    exists|i: int| occurs_at(hay, needle, i)
}

/// Whether `needle` occurs in `hay`.
pub fn contains_chars(hay: &Vec<char>, needle: &Vec<char>) -> (r: bool)
    ensures
        r == contains_text(hay@, needle@),
{
    if needle.len() > hay.len() {
        assert forall|i: int| !occurs_at(hay@, needle@, i) by {}
        return false;
    }
    let last = hay.len() - needle.len();
    let mut i: usize = 0;
    while i <= last
        invariant
            last == hay.len() - needle.len(),
            needle.len() <= hay.len(),
            i <= last + 1,
            forall|k: int| 0 <= k < i ==> !occurs_at(hay@, needle@, k),
        decreases last + 1 - i,
    {
        let mut j: usize = 0;
        let mut same = true;
        while j < needle.len()
            invariant
                i <= last,
                last == hay.len() - needle.len(),
                j <= needle.len(),
                same == (forall|t: int| 0 <= t < j ==> hay@[i + t] == needle@[t]),
            decreases needle.len() - j,
        {
            if hay[i + j] != needle[j] {
                same = false;
            }
            j += 1;
        }
        if same {
            assert(hay@.subrange(i as int, i + needle.len()) =~= needle@);
            assert(occurs_at(hay@, needle@, i as int));
            return true;
        }
        assert(!occurs_at(hay@, needle@, i as int)) by {
            if occurs_at(hay@, needle@, i as int) {
                let t = choose|t: int| 0 <= t < needle.len() && hay@[i + t] != needle@[t];
                assert(hay@.subrange(i as int, i + needle.len())[t] == hay@[i + t]);
            }
        }
        i += 1;
    }
    false
}

} // verus!
