//! How devices, colors and numbers are written.
use vstd::prelude::*;

use crate::error::ErrorView;
use crate::text;
use crate::types;
use crate::types::BackendType;
use crate::types::Color;
use crate::types::DeviceStateView;

verus! {

/// Whether a character is a hexadecimal digit.
pub open spec fn is_hex(c: char) -> bool {
    ('0' <= c && c <= '9') || ('a' <= c && c <= 'f') || ('A' <= c && c <= 'F')
}

/// A text is an identifier if it is six or eight pairs of hexadecimal digits with
/// colons between them, and in no other case.
pub proof fn identifiers_are_colon_separated_pairs(s: Seq<char>)
    ensures
        types::device_id(s) is Ok <==> (s.len() == 17 || s.len() == 23) && (forall|i: int|
            0 <= i < s.len() && i % 3 != 2 ==> is_hex(#[trigger] s[i])) && (forall|i: int|
            0 <= i < s.len() && i % 3 == 2 ==> #[trigger] s[i] == ':'),
        types::device_id(s) is Err ==> types::device_id(s) == Err::<Seq<char>, ErrorView>(
            ErrorView::InvalidDeviceId(s),
        ),
{
    if (s.len() == 17 || s.len() == 23) && (forall|i: int|
        0 <= i < s.len() && i % 3 != 2 ==> is_hex(#[trigger] s[i])) && (forall|i: int|
        0 <= i < s.len() && i % 3 == 2 ==> #[trigger] s[i] == ':') {
        assert(types::is_mac(s)) by {
            assert forall|i: int| 0 <= i < s.len() implies if i % 3 == 2 {
                #[trigger] s[i] == ':'
            } else {
                text::is_hex_digit(s[i])
            } by {
                if i % 3 != 2 {
                    assert(is_hex(s[i]));
                }
            }
        }
    }
}

/// An identifier is written in capitals: the small letters become capitals, and
/// everything else stays.
pub proof fn identifiers_are_written_in_capitals(s: Seq<char>, i: int)
    requires
        types::device_id(s) is Ok,
        0 <= i < s.len(),
    ensures
        ({
            let id = types::device_id(s)->Ok_0;
            &&& id.len() == s.len()
            &&& 'a' <= s[i] && s[i] <= 'f' ==> id[i] as u32 == s[i] as u32 - 'a' as u32 + 'A' as u32
            &&& !('a' <= s[i] && s[i] <= 'f') ==> id[i] == s[i]
        }),
{
    assert(types::is_mac(s));
    if i % 3 == 2 {
        assert(s[i] == ':');
    } else {
        assert(s[i] == s[i] && text::is_hex_digit(s[i]));
    }
}

/// The value of a hexadecimal digit in capitals.
pub open spec fn hex_value(c: char) -> int {
    if c <= '9' {
        c as u32 - '0' as u32
    } else {
        c as u32 - 'A' as u32 + 10
    }
}

/// A color is written as a hash and two hexadecimal digits in capitals for each
/// of its components, red first.
pub proof fn colors_are_written_in_hexadecimal(c: Color)
    ensures
        ({
            let n = c.notation();
            &&& n.len() == 7
            &&& n[0] == '#'
            &&& hex_value(n[1]) * 16 + hex_value(n[2]) == c.r
            &&& hex_value(n[3]) * 16 + hex_value(n[4]) == c.g
            &&& hex_value(n[5]) * 16 + hex_value(n[6]) == c.b
            &&& forall|i: int|
                1 <= i < 7 ==> ('0' <= #[trigger] n[i] && n[i] <= '9') || ('A' <= n[i] && n[i] <= 'F')
        }),
{
    hex_pair_value(c.r);
    hex_pair_value(c.g);
    hex_pair_value(c.b);
    let n = c.notation();
    assert(n[1] == text::hex_pair(c.r)[0] && n[2] == text::hex_pair(c.r)[1]);
    assert(n[3] == text::hex_pair(c.g)[0] && n[4] == text::hex_pair(c.g)[1]);
    assert(n[5] == text::hex_pair(c.b)[0] && n[6] == text::hex_pair(c.b)[1]);
}

proof fn hex_pair_value(b: u8)
    ensures
        ({
            let p = text::hex_pair(b);
            &&& p.len() == 2
            &&& hex_value(p[0]) * 16 + hex_value(p[1]) == b
            &&& forall|i: int|
                0 <= i < 2 ==> ('0' <= #[trigger] p[i] && p[i] <= '9') || ('A' <= p[i] && p[i] <= 'F')
        }),
{
    let h = (b / 16) as nat;
    let l = (b % 16) as nat;
    assert(h < 16 && l < 16 && h * 16 + l == b);
    assert(text::hex_pair(b)[0] == text::hex_char(h));
    assert(text::hex_pair(b)[1] == text::hex_char(l));
    hex_char_value(h);
    hex_char_value(l);
}

proof fn hex_char_value(d: nat)
    requires
        d < 16,
    ensures
        hex_value(text::hex_char(d)) == d,
        ('0' <= text::hex_char(d) && text::hex_char(d) <= '9') || ('A' <= text::hex_char(d) && text::hex_char(d)
            <= 'F'),
{
}

/// A packed color has blue in its lowest eight bits, green above it and red above
/// that; unpacking takes them from there and ignores the rest.
pub proof fn colors_are_packed(c: Color, n: nat)
    ensures
        c.packed() == c.b + 256 * (c.g + 256 * c.r),
        types::unpacked(n).b == n % 256,
        types::unpacked(n).g == n / 256 % 256,
        types::unpacked(n).r == n / 256 / 256 % 256,
{
    vstd::arithmetic::div_mod::lemma_div_denominator(n as int, 256, 256);
}

/// A state with a brightness of up to 100 is kept as it is, and any other is
/// refused.
pub proof fn states_are_checked(state: DeviceStateView)
    ensures
        types::checked_state(state) == (if state.brightness <= 100 {
            Ok::<DeviceStateView, ErrorView>(state)
        } else {
            Err(ErrorView::InvalidBrightness(state.brightness))
        }),
{
}

/// The names of the backends.
pub proof fn backends_are_named(backend: BackendType)
    ensures
        backend.name() == (match backend {
            BackendType::Cloud => "cloud"@,
            BackendType::Local => "local"@,
        }),
{
}

/// A number that is written in decimal is read back, with or without a plus sign,
/// and is written without zeros in front.
pub proof fn numbers_are_read_back(n: u64)
    ensures
        text::unsigned_value(text::decimal(n as nat)) == Some(n),
        text::unsigned_value(seq!['+'] + text::decimal(n as nat)) == Some(n),
        n > 0 ==> text::decimal(n as nat)[0] != '0',
        n == 0 ==> text::decimal(n as nat) == seq!['0'],
{
    decimal_value(n as nat);
    let d = text::decimal(n as nat);
    assert(text::is_digit(d[0]));
    assert(text::after_plus(d) == d);
    assert((seq!['+'] + d).skip(1) =~= d);
}

proof fn decimal_value(n: nat)
    ensures
        text::all_digits(text::decimal(n)),
        text::digits_value(text::decimal(n)) == n,
        n > 0 ==> text::decimal(n)[0] != '0',
        text::decimal(0) == seq!['0'],
    decreases n,
{
    let d = text::decimal(n);
    reveal_with_fuel(text::digits_value, 2);
    if n < 10 {
        assert(d.drop_last().len() == 0);
        assert(d[0] as nat == 48 + n);
    } else {
        decimal_value(n / 10);
        let rest = text::decimal(n / 10);
        assert(d.drop_last() =~= rest);
        assert(d.last() as nat == 48 + n % 10);
        assert forall|i: int| 0 <= i < d.len() implies text::is_digit(#[trigger] d[i]) by {
            if i < rest.len() {
                assert(text::is_digit(rest[i]));
            }
        }
    }
}

/// One more digit makes a number ten times as large and adds the digit, as long
/// as the number fits in 64 bits.
pub proof fn one_more_digit(s: Seq<char>, c: char, n: u64)
    requires
        s.len() > 0,
        text::unsigned_value(s) == Some(n),
    ensures
        '0' <= c && c <= '9' && n * 10 + (c as u32 - '0' as u32) <= u64::MAX ==> text::unsigned_value(
            s.push(c),
        ) == Some((n * 10 + (c as u32 - '0' as u32)) as u64),
        '0' <= c && c <= '9' && n * 10 + (c as u32 - '0' as u32) > u64::MAX ==> text::unsigned_value(
            s.push(c),
        ) is None,
        !('0' <= c && c <= '9') ==> text::unsigned_value(s.push(c)) is None,
{
    let body = text::after_plus(s);
    let longer = text::after_plus(s.push(c));
    if s[0] == '+' {
        assert(s.push(c)[0] == '+');
        assert(s.push(c).skip(1) =~= s.skip(1).push(c));
    } else {
        assert(s.push(c)[0] == s[0]);
    }
    assert(longer == body.push(c));
    assert(longer.drop_last() =~= body);
    assert(longer.last() == c);
    if '0' <= c && c <= '9' {
        assert forall|i: int| 0 <= i < longer.len() implies text::is_digit(#[trigger] longer[i]) by {
            if i < body.len() {
                assert(text::is_digit(body[i]));
            }
        }
    } else {
        assert(!text::is_digit(longer[longer.len() - 1]));
    }
}

/// A text without a digit is no number, and neither is one with anything but
/// digits after the sign.
pub proof fn other_texts_are_no_numbers(s: Seq<char>, i: int)
    requires
        s.len() == 0 || s == seq!['+'] || (0 <= i < s.len() && !('0' <= s[i] && s[i] <= '9') && !(i == 0 && s[0]
            == '+')),
    ensures
        text::unsigned_value(s) is None,
{
    let body = text::after_plus(s);
    if s.len() > 0 && s != seq!['+'] {
        if s[0] == '+' {
            assert(body[i - 1] == s[i]);
            assert(!text::is_digit(body[i - 1]));
        } else {
            assert(!text::is_digit(body[i]));
        }
    } else if s.len() > 0 {
        assert(body.len() == 0);
    }
}

/// Texts are in order by the first character that differs, and a text comes
/// before every longer one that begins with it.
pub proof fn texts_are_in_order(start: Seq<char>, a: char, b: char, x: Seq<char>, y: Seq<char>)
    ensures
        a < b ==> text::precedes(start + seq![a] + x, start + seq![b] + y),
        a < b ==> !text::precedes(start + seq![b] + y, start + seq![a] + x),
        text::precedes(start, start + seq![a] + x),
        !text::precedes(start + seq![a] + x, start),
    decreases start.len(),
{
    let p = start + seq![a] + x;
    let q = start + seq![b] + y;
    if start.len() > 0 {
        let rest = start.skip(1);
        texts_are_in_order(rest, a, b, x, y);
        assert(p.skip(1) =~= rest + seq![a] + x);
        assert(q.skip(1) =~= rest + seq![b] + y);
        assert(p[0] == start[0] && q[0] == start[0]);
    } else {
        assert(p[0] == a && q[0] == b);
    }
}

/// Letters of ASCII are made small and large one by one, and nothing else
/// changes.
pub proof fn letters_change_case(s: Seq<char>, i: int)
    requires
        0 <= i < s.len(),
    ensures
        ({
            let small = text::lower_ascii(s);
            let large = text::upper_ascii(s);
            &&& small.len() == s.len()
            &&& large.len() == s.len()
            &&& 'A' <= s[i] && s[i] <= 'Z' ==> small[i] as u32 == s[i] as u32 + 32
            &&& !('A' <= s[i] && s[i] <= 'Z') ==> small[i] == s[i]
            &&& 'a' <= s[i] && s[i] <= 'z' ==> large[i] as u32 + 32 == s[i] as u32
            &&& !('a' <= s[i] && s[i] <= 'z') ==> large[i] == s[i]
        }),
{
}

} // verus!
