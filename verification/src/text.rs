//! Text: comparison, decimal and hexadecimal notation, and letter case.
//!
//! A string is modelled by the sequence of its characters.
use vstd::prelude::*;
use vstd::string::*;

verus! {

/// Appends one character to the end of a string, as `String::push` is
/// documented to do.
pub assume_specification[ String::push ](s: &mut String, c: char)
    ensures
        final(s)@ == old(s)@.push(c),
;

/// `str::to_lowercase` on any text.
pub uninterp spec fn lowercase(s: Seq<char>) -> Seq<char>;

/// Whether every character of `s` is in the ASCII range.
pub open spec fn all_ascii(s: Seq<char>) -> bool {
    forall|i: int| 0 <= i < s.len() ==> (#[trigger] s[i] as u32) < 128
}

/// An ASCII capital letter becomes the small one; all else stays.
pub open spec fn ascii_lower(c: char) -> char {
    if 'A' <= c && c <= 'Z' {
        ((c as u32) + 32) as char
    } else {
        c
    }
}

/// An ASCII small letter becomes the capital one; all else stays.
pub open spec fn ascii_upper(c: char) -> char {
    if 'a' <= c && c <= 'z' {
        ((c as u32) - 32) as char
    } else {
        c
    }
}

/// `s` with its ASCII capital letters made small.
pub open spec fn lower_ascii(s: Seq<char>) -> Seq<char> {
    s.map_values(|c: char| ascii_lower(c))
}

/// `s` with its ASCII small letters made capital.
pub open spec fn upper_ascii(s: Seq<char>) -> Seq<char> {
    s.map_values(|c: char| ascii_upper(c))
}

/// Calls `str::to_lowercase`: the result is a function of the text alone, and
/// on text that is all ASCII it changes the capital letters `A` to `Z` and
/// nothing else.
#[verifier::external_body]
pub(crate) fn to_lowercase(s: &str) -> (r: String)
    ensures
        r@ == lowercase(s@),
        all_ascii(s@) ==> r@ == lower_ascii(s@),
{
    s.to_lowercase()
}

/// The text that `{:?}` gives for a string: quoted, with escapes.
pub uninterp spec fn quoted(s: Seq<char>) -> Seq<char>;

/// Formats a string with `{:?}`: the result is a function of the text alone.
#[verifier::external_body]
pub(crate) fn quote(s: &str) -> (r: String)
    ensures
        r@ == quoted(s@),
{
    format!("{:?}", s)
}

/// The characters of `s`, in order.
pub fn chars_of(s: &str) -> (r: Vec<char>)
    ensures
        r@ == s@,
{
    let mut r: Vec<char> = Vec::new();
    for c in it: s.chars()
        invariant
            it.seq() == s@,
            r@ == s@.take(it.index() as int),
    {
        assert(s@.take(it.index() + 1) =~= s@.take(it.index() as int).push(c));
        r.push(c);
    }
    assert(s@.take(s@.len() as int) =~= s@);
    r
}

/// Whether the two texts are the same.
pub fn same(a: &str, b: &str) -> (r: bool)
    ensures
        r == (a@ == b@),
{
    let x = chars_of(a);
    let y = chars_of(b);
    if x.len() != y.len() {
        return false;
    }
    for i in 0..x.len()
        invariant
            x@.len() == y@.len(),
            x@ == a@,
            y@ == b@,
            forall|j: int| 0 <= j < i ==> x@[j] == y@[j],
    {
        if x[i] != y[i] {
            return false;
        }
    }
    assert(a@ =~= b@);
    true
}

/// Whether `a` comes before `b` in the order of strings: at the first place
/// where they differ the smaller character decides, and a proper prefix comes
/// first.
pub open spec fn precedes(a: Seq<char>, b: Seq<char>) -> bool
    decreases a.len(),
{
    if b.len() == 0 {
        false
    } else if a.len() == 0 {
        true
    } else if a[0] != b[0] {
        a[0] < b[0]
    } else {
        precedes(a.skip(1), b.skip(1))
    }
}

/// Whether `a` comes before `b`.
pub fn comes_before(a: &str, b: &str) -> (r: bool)
    ensures
        r == precedes(a@, b@),
{
    let x = chars_of(a);
    let y = chars_of(b);
    let mut i: usize = 0;
    assert(x@.skip(0) =~= a@);
    assert(y@.skip(0) =~= b@);
    while i < x.len() && i < y.len() && x[i] == y[i]
        invariant
            i <= x@.len(),
            i <= y@.len(),
            precedes(a@, b@) == precedes(x@.skip(i as int), y@.skip(i as int)),
        decreases x@.len() - i,
    {
        assert(x@.skip(i as int).skip(1) =~= x@.skip(i + 1));
        assert(y@.skip(i as int).skip(1) =~= y@.skip(i + 1));
        i = i + 1;
    }
    if i >= y.len() {
        false
    } else if i >= x.len() {
        true
    } else {
        x[i] < y[i]
    }
}

/// No text comes before itself.
pub proof fn precedes_irreflexive(a: Seq<char>)
    ensures
        !precedes(a, a),
    decreases a.len(),
{
    if a.len() > 0 {
        precedes_irreflexive(a.skip(1));
    }
}

/// Of three texts in order, the first comes before the last.
pub proof fn precedes_transitive(a: Seq<char>, b: Seq<char>, c: Seq<char>)
    requires
        precedes(a, b),
        precedes(b, c),
    ensures
        precedes(a, c),
    decreases a.len(),
{
    if a.len() > 0 && a[0] == b[0] && b[0] == c[0] {
        precedes_transitive(a.skip(1), b.skip(1), c.skip(1));
    }
}

/// Of two different texts one comes before the other.
pub proof fn precedes_total(a: Seq<char>, b: Seq<char>)
    ensures
        a == b || precedes(a, b) || precedes(b, a),
    decreases a.len(),
{
    if a.len() > 0 && b.len() > 0 && a[0] == b[0] {
        precedes_total(a.skip(1), b.skip(1));
        if a.skip(1) == b.skip(1) {
            assert forall|i: int| 0 <= i < a.len() implies a[i] == b[i] by {
                if i > 0 {
                    assert(a.skip(1)[i - 1] == b.skip(1)[i - 1]);
                }
            }
            assert(a.skip(1).len() == b.skip(1).len());
            assert(a =~= b);
        }
    } else if a.len() == 0 && b.len() == 0 {
        assert(a =~= b);
    }
}

/// The decimal digit of `d`, for `d` below ten.
pub open spec fn digit_char(d: nat) -> char {
    (48 + d) as char
}

/// `n` in decimal notation, without leading zeros.
pub open spec fn decimal(n: nat) -> Seq<char>
    decreases n,
{
    if n < 10 {
        seq![digit_char(n)]
    } else {
        decimal(n / 10).push(digit_char(n % 10))
    }
}

/// `n` in decimal notation.
pub fn decimal_text(n: u64) -> (r: String)
    ensures
        r@ == decimal(n as nat),
    decreases n,
{
    let digit: char = (48 + (n % 10) as u8) as char;
    if n < 10 {
        let mut r = String::new();
        r.push(digit);
        assert(r@ =~= decimal(n as nat));
        r
    } else {
        let mut r = decimal_text(n / 10);
        r.push(digit);
        r
    }
}

/// The upper-case hexadecimal digit of `d`, for `d` below sixteen.
pub open spec fn hex_char(d: nat) -> char {
    if d < 10 {
        (48 + d) as char
    } else {
        (55 + d) as char
    }
}

/// `b` as two upper-case hexadecimal digits.
pub open spec fn hex_pair(b: u8) -> Seq<char> {
    seq![hex_char((b / 16) as nat), hex_char((b % 16) as nat)]
}

/// Appends the upper-case hexadecimal digit of `d`.
fn push_hex_digit(s: &mut String, d: u8)
    requires
        d < 16,
    ensures
        final(s)@ == old(s)@.push(hex_char(d as nat)),
{
    if d < 10 {
        s.push((48 + d) as char);
    } else {
        s.push((55 + d) as char);
    }
}

/// Appends `b` as two upper-case hexadecimal digits.
pub fn push_hex_pair(s: &mut String, b: u8)
    ensures
        final(s)@ == old(s)@ + hex_pair(b),
{
    push_hex_digit(s, b / 16);
    push_hex_digit(s, b % 16);
    assert(s@ =~= old(s)@ + hex_pair(b));
}

/// Whether `c` is one of `0`-`9`, `a`-`f`, `A`-`F`.
pub open spec fn is_hex_digit(c: char) -> bool {
    ('0' <= c && c <= '9') || ('a' <= c && c <= 'f') || ('A' <= c && c <= 'F')
}

/// Whether `c` is an ASCII letter or digit.
pub open spec fn is_ascii_alphanumeric(c: char) -> bool {
    ('0' <= c && c <= '9') || ('a' <= c && c <= 'z') || ('A' <= c && c <= 'Z')
}

/// Whether `c` is one of `0`-`9`.
pub open spec fn is_digit(c: char) -> bool {
    '0' <= c && c <= '9'
}

/// The number that a run of decimal digits denotes.
pub open spec fn digits_value(s: Seq<char>) -> nat
    decreases s.len(),
{
    if s.len() == 0 {
        0
    } else {
        digits_value(s.drop_last()) * 10 + (s.last() as nat - 48) as nat
    }
}

/// Whether `s` is a nonempty run of decimal digits.
pub open spec fn all_digits(s: Seq<char>) -> bool {
    s.len() > 0 && forall|i: int| 0 <= i < s.len() ==> is_digit(#[trigger] s[i])
}

/// The text after one leading plus sign, if there is one.
pub open spec fn after_plus(s: Seq<char>) -> Seq<char> {
    if s.len() > 0 && s[0] == '+' {
        s.skip(1)
    } else {
        s
    }
}

/// The 64-bit number that `s` denotes: decimal digits, at least one, after at
/// most one plus sign, and nothing else.
pub open spec fn unsigned_value(s: Seq<char>) -> Option<u64> {
    let body = after_plus(s);
    if all_digits(body) && digits_value(body) <= u64::MAX {
        Some(digits_value(body) as u64)
    } else {
        None
    }
}

/// More digits never make the number smaller.
proof fn digits_value_grows(s: Seq<char>, n: int)
    requires
        0 <= n <= s.len(),
    ensures
        digits_value(s.take(n)) <= digits_value(s),
    decreases s.len() - n,
{
    if n < s.len() {
        assert(s.take(n + 1).drop_last() =~= s.take(n));
        digits_value_grows(s, n + 1);
    } else {
        assert(s.take(n) =~= s);
    }
}

/// Reads an unsigned 64-bit number in decimal notation.
pub fn parse_unsigned(s: &str) -> (r: Option<u64>)
    ensures
        r == unsigned_value(s@),
{
    let x = chars_of(s);
    let start: usize = if x.len() > 0 && x[0] == '+' { 1 } else { 0 };
    let ghost body = after_plus(s@);
    assert(body =~= x@.skip(start as int));
    if start >= x.len() {
        return None;
    }
    let mut value: u64 = 0;
    let mut i: usize = start;
    assert(body.take(0) =~= Seq::<char>::empty());
    while i < x.len()
        invariant
            start <= i <= x@.len(),
            x@ == s@,
            body == after_plus(s@),
            body == x@.skip(start as int),
            body.len() > 0,
            value == digits_value(body.take(i - start)),
            forall|j: int| 0 <= j < i - start ==> is_digit(#[trigger] body[j]),
        decreases x@.len() - i,
    {
        let c = x[i];
        assert(body[i - start] == c);
        if !('0' <= c && c <= '9') {
            return None;
        }
        let d: u64 = c as u64 - 48;
        proof {
            let k = i - start;
            assert(body.take(k + 1).drop_last() =~= body.take(k));
            assert(digits_value(body.take(k + 1)) == value * 10 + d);
            digits_value_grows(body, k + 1);
        }
        if value > (u64::MAX - d) / 10 {
            return None;
        }
        value = value * 10 + d;
        i = i + 1;
    }
    assert(body.take(body.len() as int) =~= body);
    Some(value)
}

/// Whether `pattern` occurs in `s`.
pub open spec fn occurs(pattern: Seq<char>, s: Seq<char>) -> bool {
    exists|i: int| #[trigger] occurs_at(pattern, s, i)
}

/// Whether `pattern` stands in `s` from position `i` on.
pub open spec fn occurs_at(pattern: Seq<char>, s: Seq<char>, i: int) -> bool {
    0 <= i && i + pattern.len() <= s.len() && s.subrange(i, i + pattern.len()) == pattern
}

/// Whether `pattern` occurs in `s`.
pub fn contains(s: &str, pattern: &str) -> (r: bool)
    ensures
        r == occurs(pattern@, s@),
{
    let x = chars_of(s);
    let p = chars_of(pattern);
    let n: usize = x.len();
    if p.len() > n {
        return false;
    }
    if p.len() == 0 {
        assert(s@.subrange(0, 0) =~= pattern@);
        assert(occurs_at(pattern@, s@, 0));
        return true;
    }
    let last: usize = n - p.len();
    let mut i: usize = 0;
    while i <= last
        invariant
            x@ == s@,
            p@ == pattern@,
            n == x@.len(),
            p@.len() > 0,
            last + p@.len() == n,
            i <= last + 1,
            forall|j: int| 0 <= j < i ==> !#[trigger] occurs_at(pattern@, s@, j),
        decreases last + 1 - i,
    {
        let mut k: usize = 0;
        while k < p.len() && x[i + k] == p[k]
            invariant
                k <= p@.len(),
                n == x@.len(),
                i + p@.len() <= n,
                forall|j: int| 0 <= j < k ==> x@[i + j] == p@[j],
            decreases p@.len() - k,
        {
            k = k + 1;
        }
        if k == p.len() {
            assert(s@.subrange(i as int, i + pattern@.len()) =~= pattern@);
            assert(occurs_at(pattern@, s@, i as int));
            return true;
        }
        assert(s@.subrange(i as int, i + pattern@.len())[k as int] != pattern@[k as int]);
        i = i + 1;
    }
    false
}

/// The parts of `s` between the separators `sep`, in order. There is one more
/// part than separators.
pub open spec fn parts(s: Seq<char>, sep: char) -> Seq<Seq<char>>
    decreases s.len(),
{
    if s.len() == 0 {
        seq![Seq::empty()]
    } else {
        let before = parts(s.drop_last(), sep);
        if s.last() == sep {
            before.push(Seq::empty())
        } else {
            before.drop_last().push(before.last().push(s.last()))
        }
    }
}

/// The texts of a list, each by its characters.
pub open spec fn texts(list: Seq<String>) -> Seq<Seq<char>> {
    list.map_values(|t: String| t@)
}

/// The parts of `s` between the separators `sep`.
pub fn split(s: &str, sep: char) -> (r: Vec<String>)
    ensures
        texts(r@) == parts(s@, sep),
{
    let x = chars_of(s);
    let mut done: Vec<String> = Vec::new();
    let mut part = String::new();
    proof {
        assert(x@.take(0) =~= Seq::empty());
        assert(texts(done@).push(part@) =~= parts(x@.take(0), sep));
    }
    for i in 0..x.len()
        invariant
            x@ == s@,
            texts(done@).push(part@) == parts(x@.take(i as int), sep),
    {
        let c = x[i];
        proof {
            assert(x@.take(i + 1).drop_last() =~= x@.take(i as int));
            assert(texts(done@).push(part@).drop_last() =~= texts(done@));
        }
        if c == sep {
            let ghost before = done@;
            let ghost last = part;
            done.push(part);
            assert(texts(done@) =~= texts(before).push(last@));
            part = String::new();
            assert(part@ =~= Seq::empty());
        } else {
            part.push(c);
        }
    }
    proof {
        assert(x@.take(x@.len() as int) =~= x@);
        assert(texts(done@.push(part)) =~= texts(done@).push(part@));
    }
    done.push(part);
    done
}

/// The parts with a comma and a space between each and the next.
pub open spec fn comma_list(parts: Seq<Seq<char>>) -> Seq<char>
    decreases parts.len(),
{
    if parts.len() == 0 {
        Seq::empty()
    } else if parts.len() == 1 {
        parts[0]
    } else {
        comma_list(parts.drop_last()) + ", "@ + parts.last()
    }
}

/// Appends one more part, the `n`-th from zero, to a list of parts.
pub fn push_part(list: &mut String, n: usize, part: &str)
    ensures
        forall|parts: Seq<Seq<char>>|
            parts.len() == n && old(list)@ == #[trigger] comma_list(parts) ==> final(list)@ == comma_list(
                parts.push(part@),
            ),
{
    if n > 0 {
        list.append(", ");
    }
    list.append(part);
    proof {
        assert forall|parts: Seq<Seq<char>>|
            parts.len() == n && old(list)@ == #[trigger] comma_list(parts) implies list@ == comma_list(
            parts.push(part@),
        ) by {
            assert(parts.push(part@).drop_last() =~= parts);
            assert(list@ =~= comma_list(parts.push(part@)));
        }
    }
}

} // verus!
