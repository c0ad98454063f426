//! Which addresses are local.
use vstd::prelude::*;

use crate::net;
use crate::net::IpAddr;
use crate::text;

verus! {

/// The parts of a text, put together again with the separator between them.
pub open spec fn put_together(parts: Seq<Seq<char>>, sep: char) -> Seq<char>
    decreases parts.len(),
{
    if parts.len() == 0 {
        Seq::empty()
    } else if parts.len() == 1 {
        parts[0]
    } else {
        put_together(parts.drop_last(), sep) + seq![sep] + parts.last()
    }
}

/// Taking a text apart loses nothing, and no part has a separator in it.
pub proof fn parts_make_up_the_text(s: Seq<char>, sep: char)
    ensures
        put_together(text::parts(s, sep), sep) == s,
        text::parts(s, sep).len() >= 1,
        forall|i: int|
            0 <= i < text::parts(s, sep).len() ==> !(#[trigger] text::parts(s, sep)[i]).contains(sep),
    decreases s.len(),
{
    reveal_with_fuel(put_together, 2);
    let p = text::parts(s, sep);
    if s.len() == 0 {
        assert(p =~= seq![Seq::<char>::empty()]);
        assert(p[0] =~= Seq::empty());
    } else {
        let rest = s.drop_last();
        let before = text::parts(rest, sep);
        parts_make_up_the_text(rest, sep);
        if s.last() == sep {
            assert(p.drop_last() =~= before);
            assert(put_together(p, sep) =~= rest + seq![sep] + Seq::empty());
            assert(s =~= rest + seq![sep]);
            assert forall|i: int| 0 <= i < p.len() implies !(#[trigger] p[i]).contains(sep) by {
                if i < before.len() {
                    assert(!before[i].contains(sep));
                }
            }
        } else {
            let longer = before.last().push(s.last());
            assert(p.drop_last() =~= before.drop_last());
            assert(p.last() == longer);
            assert(s =~= rest.push(s.last()));
            if before.len() == 1 {
                assert(put_together(p, sep) == longer);
                assert(before.last() == before[0]);
            } else {
                assert(put_together(p, sep) =~= (put_together(before.drop_last(), sep) + seq![sep]
                    + before.last()).push(s.last()));
            }
            assert forall|i: int| 0 <= i < p.len() implies !(#[trigger] p[i]).contains(sep) by {
                if i < before.len() - 1 {
                    assert(!before[i].contains(sep));
                } else {
                    assert(!before[before.len() - 1].contains(sep));
                    if longer.contains(sep) {
                        let k = choose|k: int| 0 <= k < longer.len() && longer[k] == sep;
                        if k < before.last().len() {
                            assert(before.last()[k] == sep);
                        }
                    }
                }
            }
        }
    }
}

/// A dotted address of this machine begins with 127 and a dot.
pub proof fn loopback_quads_begin_alike(s: Seq<char>)
    ensures
        net::is_loopback_quad(s) ==> s.len() >= 4 && s[0] == '1' && s[1] == '2' && s[2] == '7' && s[3] == '.',
{
    if net::is_loopback_quad(s) {
        reveal_strlit("127");
        let p = text::parts(s, '.');
        parts_make_up_the_text(s, '.');
        let three = p.drop_last();
        let two = three.drop_last();
        let one = two.drop_last();
        reveal_with_fuel(put_together, 5);
        assert(one.len() == 1 && one[0] == p[0]);
        assert(put_together(one, '.') == "127"@);
        assert(put_together(two, '.') == "127"@ + seq!['.'] + p[1]);
        assert(put_together(three, '.') == put_together(two, '.') + seq!['.'] + p[2]);
        assert(s == put_together(three, '.') + seq!['.'] + p[3]);
        assert(s[0] == "127"@[0] && s[1] == "127"@[1] && s[2] == "127"@[2] && s[3] == '.');
    }
}

/// An address of this machine is written as 127 and three more numbers, each of
/// one to three digits, at most 255 and without a zero in front.
pub proof fn loopback_quads(b: Seq<char>, c: Seq<char>, d: Seq<char>)
    requires
        is_octet(b),
        is_octet(c),
        is_octet(d),
    ensures
        net::is_loopback_host("127"@ + seq!['.'] + b + seq!['.'] + c + seq!['.'] + d),
{
    let a = "127"@;
    reveal_strlit("127");
    assert(a.len() == 3 && a[0] == '1' && a[1] == '2' && a[2] == '7');
    no_dots(a);
    let one = a;
    let two = one + seq!['.'] + b;
    let three = two + seq!['.'] + c;
    let four = three + seq!['.'] + d;
    plain_part(a, '.');
    one_more_part(one, b, '.');
    one_more_part(two, c, '.');
    one_more_part(three, d, '.');
    let p = text::parts(four, '.');
    assert(p =~= seq![a, b, c, d]);
    octet_is_read(b);
    octet_is_read(c);
    octet_is_read(d);
}

/// Whether a text is a number of at most 255, written as in a dotted address.
pub open spec fn is_octet(s: Seq<char>) -> bool {
    let digit = |i: int| '0' <= s[i] && s[i] <= '9';
    let v = |i: int| s[i] as int - 48;
    ||| s.len() == 1 && digit(0)
    ||| s.len() == 2 && digit(0) && digit(1) && s[0] != '0'
    ||| s.len() == 3 && digit(0) && digit(1) && digit(2) && s[0] != '0' && 100 * v(0) + 10 * v(1) + v(2) <= 255
}

/// The two ways to say what an octet is.
pub proof fn octet_is_read(s: Seq<char>)
    ensures
        net::is_octet(s) <==> is_octet(s),
{
    reveal_with_fuel(text::digits_value, 4);
    if s.len() == 1 {
        assert(s.drop_last().len() == 0);
    } else if s.len() == 2 {
        assert(s.drop_last().last() == s[0]);
        assert(s.drop_last().drop_last().len() == 0);
    } else if s.len() == 3 {
        assert(s.drop_last().last() == s[1]);
        assert(s.drop_last().drop_last().last() == s[0]);
        assert(s.drop_last().drop_last().drop_last().len() == 0);
    }
    if is_octet(s) {
        assert(text::all_digits(s));
    }
    if net::is_octet(s) {
        assert(text::is_digit(s[0]));
        assert(s.len() > 1 ==> text::is_digit(s[1]));
        assert(s.len() > 2 ==> text::is_digit(s[2]));
    }
}

proof fn no_dots(s: Seq<char>)
    requires
        forall|i: int| 0 <= i < s.len() ==> '0' <= #[trigger] s[i] && s[i] <= '9',
    ensures
        !s.contains('.'),
{
}

/// A text without a separator is its only part.
pub proof fn plain_part(s: Seq<char>, sep: char)
    requires
        !s.contains(sep),
    ensures
        text::parts(s, sep) == seq![s],
    decreases s.len(),
{
    if s.len() == 0 {
        assert(s =~= Seq::empty());
    } else {
        let rest = s.drop_last();
        assert(!rest.contains(sep)) by {
            if rest.contains(sep) {
                let k = choose|k: int| 0 <= k < rest.len() && rest[k] == sep;
                assert(s[k] == sep);
            }
        }
        plain_part(rest, sep);
        assert(s[s.len() - 1] != sep);
        assert(rest.push(s.last()) =~= s);
        assert(text::parts(s, sep) =~= seq![s]);
    }
}

/// A separator begins a new part.
pub proof fn one_more_part(s: Seq<char>, part: Seq<char>, sep: char)
    requires
        !part.contains(sep) || (sep == '.' && is_octet(part)),
    ensures
        text::parts(s + seq![sep] + part, sep) == text::parts(s, sep).push(part),
    decreases part.len(),
{
    if is_octet(part) {
        assert forall|i: int| 0 <= i < part.len() implies '0' <= #[trigger] part[i] && part[i] <= '9' by {}
    }
    assert(sep == '.' && is_octet(part) ==> !part.contains(sep));
    after_separator(s, part, sep);
}

proof fn after_separator(s: Seq<char>, part: Seq<char>, sep: char)
    requires
        !part.contains(sep),
    ensures
        text::parts(s + seq![sep] + part, sep) == text::parts(s, sep).push(part),
    decreases part.len(),
{
    let whole = s + seq![sep] + part;
    let before = text::parts(s, sep);
    if part.len() == 0 {
        assert(whole.drop_last() =~= s);
        assert(part =~= Seq::empty());
    } else {
        let rest = part.drop_last();
        assert(!rest.contains(sep)) by {
            if rest.contains(sep) {
                let k = choose|k: int| 0 <= k < rest.len() && rest[k] == sep;
                assert(part[k] == sep);
            }
        }
        after_separator(s, rest, sep);
        assert(whole.drop_last() =~= s + seq![sep] + rest);
        assert(part[part.len() - 1] != sep);
        assert(whole.last() == part.last());
        assert(before.push(rest).drop_last() =~= before);
        assert(rest.push(part.last()) =~= part);
    }
}

/// A host name is this machine only if it is one of the two names that it has, or
/// a dotted address that begins with 127.
pub proof fn other_hosts_are_elsewhere(host: Seq<char>)
    requires
        net::is_loopback_host(host),
    ensures
        host == "localhost"@ || host == "[::1]"@ || (host.len() >= 4 && host[0] == '1' && host[1] == '2' && host[2]
            == '7' && host[3] == '.'),
{
    loopback_quads_begin_alike(host);
}

/// The two names of this machine.
pub proof fn names_of_this_machine()
    ensures
        net::is_loopback_host("localhost"@),
        net::is_loopback_host("[::1]"@),
{
}

/// An address is local if it is in one of the private ranges, link-local or of
/// this machine, and in no other case.
pub proof fn local_addresses(ip: IpAddr)
    ensures
        net::is_local(ip) <==> (match ip {
            IpAddr::V4(v4) => {
                ||| v4.a == 10
                ||| v4.a == 127
                ||| v4.a == 169 && v4.b == 254
                ||| v4.a == 172 && 16 <= v4.b && v4.b < 32
                ||| v4.a == 192 && v4.b == 168
            },
            IpAddr::V6(v6) => v6.high == 0 && v6.low == 1,
        }),
{
}

} // verus!
