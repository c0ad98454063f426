//! Network addresses.
use vstd::prelude::*;

use crate::text;
use crate::text::parse_unsigned;
use crate::text::same;
use crate::text::split;

verus! {

/// The address of a host.
#[derive(Debug, Clone, Copy, PartialEq, Eq, Structural)]
pub enum IpAddr {
    V4(Ipv4Addr),
    V6(Ipv6Addr),
}

/// An IPv4 address, by its four octets.
#[derive(Debug, Clone, Copy, PartialEq, Eq, Structural)]
pub struct Ipv4Addr {
    pub a: u8,
    pub b: u8,
    pub c: u8,
    pub d: u8,
}

/// An IPv6 address, by its high and its low 64 bits.
#[derive(Debug, Clone, Copy, PartialEq, Eq, Structural)]
pub struct Ipv6Addr {
    pub high: u64,
    pub low: u64,
}

impl View for IpAddr {
    type V = IpAddr;

    open spec fn view(&self) -> IpAddr {
        *self
    }
}

impl Ipv4Addr {
    pub fn new(a: u8, b: u8, c: u8, d: u8) -> (r: Ipv4Addr)
        ensures
            r == (Ipv4Addr { a, b, c, d }),
    {
        Ipv4Addr { a, b, c, d }
    }

    /// Whether the address is in one of 10/8, 172.16/12 and 192.168/16.
    pub open spec fn private(self) -> bool {
        self.a == 10 || (self.a == 172 && 16 <= self.b <= 31) || (self.a == 192 && self.b == 168)
    }

    /// Whether the address is in 169.254/16.
    pub open spec fn link_local(self) -> bool {
        self.a == 169 && self.b == 254
    }

    /// Whether the address is in 127/8.
    pub open spec fn loopback(self) -> bool {
        self.a == 127
    }
}

/// Whether an address is local: for IPv4 private, link-local or loopback, for
/// IPv6 only `::1`.
pub open spec fn is_local(ip: IpAddr) -> bool {
    match ip {
        IpAddr::V4(v4) => v4.private() || v4.link_local() || v4.loopback(),
        IpAddr::V6(v6) => v6.high == 0 && v6.low == 1,
    }
}

impl IpAddr {
    /// Whether the address is local.
    pub fn is_local(&self) -> (r: bool)
        ensures
            r == is_local(*self),
    {
        match self {
            IpAddr::V4(v4) => v4.a == 10 || (v4.a == 172 && 16 <= v4.b && v4.b <= 31) || (v4.a == 192
                && v4.b == 168) || (v4.a == 169 && v4.b == 254) || v4.a == 127,
            IpAddr::V6(v6) => v6.high == 0 && v6.low == 1,
        }
    }
}

/// Whether `s` is a number from 0 to 255 in decimal notation, without leading
/// zeros.
pub open spec fn is_octet(s: Seq<char>) -> bool {
    &&& text::all_digits(s)
    &&& s.len() <= 3
    &&& s.len() > 1 ==> s[0] != '0'
    &&& text::digits_value(s) <= 255
}

/// Whether `s` is an IPv4 address in 127/8: four octets with dots between
/// them, of which the first is 127.
pub open spec fn is_loopback_quad(s: Seq<char>) -> bool {
    let p = text::parts(s, '.');
    p.len() == 4 && p[0] == "127"@ && is_octet(p[1]) && is_octet(p[2]) && is_octet(p[3])
}

/// Whether the host of a URL is this machine.
pub open spec fn is_loopback_host(host: Seq<char>) -> bool {
    host == "localhost"@ || host == "[::1]"@ || is_loopback_quad(host)
}

fn octet(s: &str) -> (r: bool)
    ensures
        r == is_octet(s@),
{
    let x = text::chars_of(s);
    if x.len() == 0 || x.len() > 3 {
        return false;
    }
    if x[0] == '+' {
        assert(!text::is_digit(s@[0]));
        return false;
    }
    if x.len() > 1 && x[0] == '0' {
        return false;
    }
    assert(text::after_plus(s@) == s@);
    match parse_unsigned(s) {
        Some(n) => n <= 255,
        None => {
            proof {
                short_digits(s@);
            }
            false
        },
    }
}

/// Three digits denote a small number.
proof fn short_digits(s: Seq<char>)
    requires
        0 < s.len() <= 3,
    ensures
        text::all_digits(s) ==> text::digits_value(s) < 1000,
{
    reveal_with_fuel(text::digits_value, 4);
    if text::all_digits(s) {
        assert(text::is_digit(s[0]));
        assert(text::is_digit(s.last()));
        if s.len() == 3 {
            assert(text::is_digit(s[1]));
        }
    }
}

/// Whether the host of a URL is this machine.
pub fn loopback_host(host: &str) -> (r: bool)
    ensures
        r == is_loopback_host(host@),
{
    if same(host, "localhost") || same(host, "[::1]") {
        return true;
    }
    let p = split(host, '.');
    assert(p@.len() == text::parts(host@, '.').len());
    if p.len() != 4 {
        return false;
    }
    assert(forall|i: int| 0 <= i < 4 ==> text::parts(host@, '.')[i] == #[trigger] p@[i]@);
    same(p[0].as_str(), "127") && octet(p[1].as_str()) && octet(p[2].as_str()) && octet(p[3].as_str())
}

} // verus!
