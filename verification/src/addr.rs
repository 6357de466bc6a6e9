//! Network addresses as plain values.
use vstd::prelude::*;
use vstd::string::StringExecFns;

use crate::text::{chars_of, decimal_string};

verus! {

/// An IPv4 address, first octet first: `a.b.c.d`.
#[derive(Debug, Clone, Copy, PartialEq, Eq, Structural)]
pub struct Ipv4Address {
    pub a: u8,
    pub b: u8,
    pub c: u8,
    pub d: u8,
}

/// An IPv4 address and a port.
#[derive(Debug, Clone, Copy, PartialEq, Eq, Structural)]
pub struct SocketAddressV4 {
    pub ip: Ipv4Address,
    pub port: u16,
}

/// An IPv6 address as a number, its first byte most significant, a port, and the flow
/// information and scope of an IPv6 socket address.
#[derive(Debug, Clone, Copy, PartialEq, Eq, Structural)]
pub struct SocketAddressV6 {
    pub ip: u128,
    pub port: u16,
    pub flowinfo: u32,
    pub scope_id: u32,
}

/// A socket address of either family.
#[derive(Debug, Clone, Copy, PartialEq, Eq, Structural)]
pub enum SocketAddress {
    V4(SocketAddressV4),
    V6(SocketAddressV6),
}

/// The socket address that a text spells, if it spells one: what `SocketAddr` of the standard
/// library reads it as.
pub uninterp spec fn socket_addr_value(text: Seq<char>) -> Option<SocketAddress>;

/// Reads a socket address by `<core::net::SocketAddr as FromStr>::from_str`, and takes the parts
/// of what it reads. Trusted: the result is a function of the text alone. Which texts spell
/// which addresses is not stated here.
#[verifier::external_body]
pub(crate) fn parse_socket_addr(text: &str) -> (addr: Option<SocketAddress>)
    ensures
        addr == socket_addr_value(text@),
{
    match text.parse::<core::net::SocketAddr>() {
        Ok(core::net::SocketAddr::V4(v4)) => {
            let [a, b, c, d] = v4.ip().octets();
            let ip = Ipv4Address { a, b, c, d };
            Some(SocketAddress::V4(SocketAddressV4 { ip, port: v4.port() }))
        },
        Ok(core::net::SocketAddr::V6(v6)) => {
            let ip = u128::from(*v6.ip());
            let (port, flowinfo, scope_id) = (v6.port(), v6.flowinfo(), v6.scope_id());
            Some(SocketAddress::V6(SocketAddressV6 { ip, port, flowinfo, scope_id }))
        },
        Err(_) => None,
    }
}

/// `head`, a dot, and the decimal numeral of `n`.
pub open spec fn dotted(head: Seq<char>, n: u8) -> Seq<char> {
    head.push('.') + crate::text::decimal(n as nat)
}

impl Ipv4Address {
    /// The address in dotted decimal notation.
    pub open spec fn text(self) -> Seq<char> {
        dotted(dotted(dotted(crate::text::decimal(self.a as nat), self.b), self.c), self.d)
    }

    /// Whether the address lies in 127.0.0.0/8.
    pub open spec fn is_loopback_spec(self) -> bool {
        self.a == 127
    }

    /// Whether the address lies in 127.0.0.0/8.
    pub fn is_loopback(&self) -> (yes: bool)
        ensures
            yes == self.is_loopback_spec(),
    {
        self.a == 127
    }

    /// Writes the address in dotted decimal notation.
    pub fn to_text(&self) -> (s: String)
        ensures
            s@ == self.text(),
    {
        let mut s = decimal_string(self.a as u64);
        append_dotted(&mut s, self.b);
        append_dotted(&mut s, self.c);
        append_dotted(&mut s, self.d);
        s
    }
}

/// Appends a dot and the numeral of `n`.
fn append_dotted(s: &mut String, n: u8)
    ensures
        final(s)@ == dotted(old(s)@, n),
{
    proof {
        reveal_strlit(".");
    }
    s.append(".");
    assert(s@ =~= old(s)@.push('.'));
    s.append(decimal_string(n as u64).as_str());
}

/// The address whose dotted decimal notation `s` is, if there is one.
pub open spec fn ipv4_value(s: Seq<char>) -> Option<Ipv4Address> {
    if exists|ip: Ipv4Address| s == #[trigger] ip.text() {
        Some(choose|ip: Ipv4Address| s == #[trigger] ip.text())
    } else {
        None
    }
}

/// Whether the digits of `s` that start at `start` end just before `end`.
spec fn digit_run(s: Seq<char>, start: int, end: int) -> bool {
    &&& 0 <= start <= end <= s.len()
    &&& crate::text::all_digits(s.subrange(start, end))
    &&& end < s.len() ==> !crate::text::is_digit(s[end])
}

/// Whether the whole run of digits at `start` ends just before `end` and is the numeral of `n`.
spec fn octet_at(s: Seq<char>, start: int, end: int, n: u8) -> bool {
    &&& digit_run(s, start, end)
    &&& s.subrange(start, end) == crate::text::decimal(n as nat)
}

/// Reads the octet at `start`: the whole run of digits there, in decimal without leading
/// zeros. Returns the octet and the index just behind it.
fn take_octet(chars: &Vec<char>, start: usize) -> (res: Option<(u8, usize)>)
    requires
        start <= chars@.len(),
    ensures
        match res {
            Some((n, end)) => octet_at(chars@, start as int, end as int, n),
            None => forall|n: u8, end: int| !#[trigger] octet_at(chars@, start as int, end, n),
        },
{
    let mut end: usize = start;
    while end < chars.len() && '0' <= chars[end] && chars[end] <= '9'
        invariant
            start <= end <= chars@.len(),
            forall|i: int| start <= i < end ==> crate::text::is_digit(#[trigger] chars@[i]),
        decreases chars@.len() - end,
    {
        end = end + 1;
    }
    let ghost run = chars@.subrange(start as int, end as int);
    assert(digit_run(chars@, start as int, end as int));
    proof {
        assert forall|e: int| digit_run(chars@, start as int, e) implies e == end by {
            if e < end {
                assert(crate::text::is_digit(chars@[e]));
            }
            if e > end {
                assert(chars@.subrange(start as int, e)[end - start] == chars@[end as int]);
            }
        }
        assert forall|n: u8| run == #[trigger] crate::text::decimal(n as nat) implies {
            &&& 1 <= run.len() <= 3
            &&& run.len() > 1 ==> run[0] != '0'
            &&& crate::text::digits_value(run) == n
        } by {
            lemma_octet_numeral(n);
        }
    }
    let len: usize = end - start;
    if len == 0 || len > 3 || (len > 1 && chars[start] == '0') {
        assert(len > 1 ==> run[0] == chars@[start as int]);
        return None;
    }
    let mut value: u32 = 0;
    let mut i: usize = start;
    assert(run.take(0) =~= Seq::<char>::empty());
    while i < end
        invariant
            start <= i <= end <= chars@.len(),
            end - start <= 3,
            run == chars@.subrange(start as int, end as int),
            crate::text::all_digits(run),
            value == crate::text::digits_value(run.take(i - start)),
            i == start ==> value == 0,
            i == start + 1 ==> value < 10,
            i == start + 2 ==> value < 100,
            i == start + 3 ==> value < 1000,
        decreases end - i,
    {
        let c = chars[i];
        assert(run[i - start] == c);
        assert(crate::text::is_digit(run[i - start]));
        assert(run.take(i + 1 - start).drop_last() =~= run.take(i - start));
        assert(run.take(i + 1 - start).last() == c);
        value = value * 10 + (c as u32 - 48);
        i = i + 1;
    }
    assert(run.take(run.len() as int) =~= run);
    if value > 255 {
        return None;
    }
    proof {
        assert(len > 1 ==> run[0] == chars@[start as int]);
        crate::text::lemma_canonical_digits(run);
    }
    Some((value as u8, end))
}

/// An octet has a numeral of at most three digits.
proof fn lemma_octet_numeral(n: u8)
    ensures
        1 <= crate::text::decimal(n as nat).len() <= 3,
        crate::text::decimal(n as nat).len() > 1 ==> crate::text::decimal(n as nat)[0] != '0',
        crate::text::digits_value(crate::text::decimal(n as nat)) == n,
{
    crate::text::lemma_decimal_digits(n as nat);
    crate::text::lemma_decimal_leading_zero(n as nat);
    crate::text::lemma_decimal_leading_zero(n as nat / 10);
    reveal_with_fuel(crate::text::decimal, 3);
}

/// At most one octet stands at an index.
proof fn lemma_octet_unique(s: Seq<char>, start: int, e1: int, n1: u8, e2: int, n2: u8)
    requires
        octet_at(s, start, e1, n1),
        octet_at(s, start, e2, n2),
    ensures
        e1 == e2,
        n1 == n2,
{
    if e1 < e2 {
        assert(s.subrange(start, e2)[e1 - start] == s[e1]);
    }
    if e2 < e1 {
        assert(s.subrange(start, e1)[e2 - start] == s[e2]);
    }
    lemma_octet_numeral(n1);
    lemma_octet_numeral(n2);
}

/// Whether `s` is four octets with a dot between each two, where `ends` are the indices just
/// behind the octets.
spec fn laid_out(s: Seq<char>, ip: Ipv4Address, ends: (int, int, int, int)) -> bool {
    &&& octet_at(s, 0, ends.0, ip.a)
    &&& ends.0 < s.len() && s[ends.0] == '.'
    &&& octet_at(s, ends.0 + 1, ends.1, ip.b)
    &&& ends.1 < s.len() && s[ends.1] == '.'
    &&& octet_at(s, ends.1 + 1, ends.2, ip.c)
    &&& ends.2 < s.len() && s[ends.2] == '.'
    &&& octet_at(s, ends.2 + 1, ends.3, ip.d)
    &&& ends.3 == s.len()
}

/// Where the octets of an address end in its dotted notation.
spec fn octet_ends(ip: Ipv4Address) -> (int, int, int, int) {
    let pa = crate::text::decimal(ip.a as nat).len() as int;
    let pb = pa + 1 + crate::text::decimal(ip.b as nat).len();
    let pc = pb + 1 + crate::text::decimal(ip.c as nat).len();
    let pd = pc + 1 + crate::text::decimal(ip.d as nat).len();
    (pa, pb, pc, pd)
}

/// The dotted notation of an address is four octets with dots between them.
proof fn lemma_text_is_laid_out(ip: Ipv4Address)
    ensures
        laid_out(ip.text(), ip, octet_ends(ip)),
{
    let s = ip.text();
    let ends = octet_ends(ip);
    crate::text::lemma_decimal_digits(ip.a as nat);
    crate::text::lemma_decimal_digits(ip.b as nat);
    crate::text::lemma_decimal_digits(ip.c as nat);
    crate::text::lemma_decimal_digits(ip.d as nat);
    assert(s.subrange(0, ends.0) =~= crate::text::decimal(ip.a as nat));
    assert(s.subrange(ends.0 + 1, ends.1) =~= crate::text::decimal(ip.b as nat));
    assert(s.subrange(ends.1 + 1, ends.2) =~= crate::text::decimal(ip.c as nat));
    assert(s.subrange(ends.2 + 1, ends.3) =~= crate::text::decimal(ip.d as nat));
}

/// Four octets with dots between them are the dotted notation of their address.
proof fn lemma_laid_out_is_text(s: Seq<char>, ip: Ipv4Address, ends: (int, int, int, int))
    requires
        laid_out(s, ip, ends),
    ensures
        s == ip.text(),
{
    assert(crate::text::decimal(ip.a as nat) == s.subrange(0, ends.0));
    assert(dotted(s.subrange(0, ends.0), ip.b) =~= s.subrange(0, ends.1));
    assert(dotted(s.subrange(0, ends.1), ip.c) =~= s.subrange(0, ends.2));
    assert(dotted(s.subrange(0, ends.2), ip.d) =~= s);
}

/// Two addresses with the same dotted notation are the same.
pub proof fn law_ipv4_text_is_injective(x: Ipv4Address, y: Ipv4Address)
    requires
        x.text() == y.text(),
    ensures
        x == y,
{
    lemma_text_is_laid_out(x);
    lemma_text_is_laid_out(y);
    let s = x.text();
    let (ex, ey) = (octet_ends(x), octet_ends(y));
    lemma_octet_unique(s, 0, ex.0, x.a, ey.0, y.a);
    lemma_octet_unique(s, ex.0 + 1, ex.1, x.b, ey.1, y.b);
    lemma_octet_unique(s, ex.1 + 1, ex.2, x.c, ey.2, y.c);
    lemma_octet_unique(s, ex.2 + 1, ex.3, x.d, ey.3, y.d);
}

/// An address in dotted decimal notation is read back as itself.
pub proof fn law_ipv4_text_reads_back(ip: Ipv4Address)
    ensures
        ipv4_value(ip.text()) == Some(ip),
{
    let read = choose|x: Ipv4Address| ip.text() == #[trigger] x.text();
    law_ipv4_text_is_injective(read, ip);
}

/// Reads an octet that a dot follows. Returns the octet and the index behind the dot.
fn take_octet_and_dot(chars: &Vec<char>, start: usize) -> (res: Option<(u8, usize)>)
    requires
        start <= chars@.len(),
    ensures
        match res {
            Some((n, next)) => 0 < next <= chars@.len() && chars@[next - 1] == '.' && octet_at(
                chars@,
                start as int,
                next - 1,
                n,
            ),
            None => forall|n: u8, end: int|
                #[trigger] octet_at(chars@, start as int, end, n) ==> end == chars@.len()
                    || chars@[end] != '.',
        },
{
    match take_octet(chars, start) {
        Some((n, end)) => {
            if end < chars.len() && chars[end] == '.' {
                Some((n, end + 1))
            } else {
                proof {
                    assert forall|m: u8, e: int| #[trigger]
                        octet_at(chars@, start as int, e, m) implies e == chars@.len() || chars@[e]
                        != '.' by {
                        lemma_octet_unique(chars@, start as int, end as int, n, e, m);
                    }
                }
                None
            }
        },
        None => None,
    }
}

/// Where a text begins with one octet, the first octet of an address that it spells ends there.
proof fn lemma_first_octet(s: Seq<char>, ip: Ipv4Address, p: int, a: u8)
    requires
        s == ip.text(),
        octet_at(s, 0, p, a),
    ensures
        laid_out(s, ip, octet_ends(ip)),
        octet_ends(ip).0 == p,
{
    lemma_text_is_laid_out(ip);
    lemma_octet_unique(s, 0, p, a, octet_ends(ip).0, ip.a);
}

/// Where a text begins with two octets, those of an address that it spells end there.
proof fn lemma_two_octets(s: Seq<char>, ip: Ipv4Address, p: int, a: u8, q: int, b: u8)
    requires
        s == ip.text(),
        octet_at(s, 0, p, a),
        octet_at(s, p + 1, q, b),
    ensures
        laid_out(s, ip, octet_ends(ip)),
        octet_ends(ip).1 == q,
{
    lemma_first_octet(s, ip, p, a);
    lemma_octet_unique(s, p + 1, q, b, octet_ends(ip).1, ip.b);
}

/// Where a text begins with three octets, those of an address that it spells end there.
proof fn lemma_three_octets(
    s: Seq<char>,
    ip: Ipv4Address,
    p: int,
    a: u8,
    q: int,
    b: u8,
    r: int,
    c: u8,
)
    requires
        s == ip.text(),
        octet_at(s, 0, p, a),
        octet_at(s, p + 1, q, b),
        octet_at(s, q + 1, r, c),
    ensures
        octet_at(s, r + 1, s.len() as int, ip.d),
{
    lemma_two_octets(s, ip, p, a, q, b);
    lemma_octet_unique(s, q + 1, r, c, octet_ends(ip).2, ip.c);
}

/// Reads an IPv4 address in dotted decimal notation: four octets from 0 to 255, each without
/// leading zeros, with a dot between each two and nothing else.
#[verifier::spinoff_prover]
pub fn parse_ipv4(text: &str) -> (ip: Option<Ipv4Address>)
    ensures
        ip == ipv4_value(text@),
{
    let chars = chars_of(text);
    let ghost s = chars@;
    let (a, i) = match take_octet_and_dot(&chars, 0) {
        Some((a, i)) => (a, i),
        None => {
            assert forall|ip: Ipv4Address| s != #[trigger] ip.text() by {
                if s == ip.text() {
                    lemma_text_is_laid_out(ip);
                    assert(octet_at(s, 0, octet_ends(ip).0, ip.a));
                }
            }
            return None;
        },
    };
    let (b, j) = match take_octet_and_dot(&chars, i) {
        Some((b, j)) => (b, j),
        None => {
            assert forall|ip: Ipv4Address| s != #[trigger] ip.text() by {
                if s == ip.text() {
                    lemma_first_octet(s, ip, i - 1, a);
                    assert(octet_at(s, i as int, octet_ends(ip).1, ip.b));
                }
            }
            return None;
        },
    };
    let (c, k) = match take_octet_and_dot(&chars, j) {
        Some((c, k)) => (c, k),
        None => {
            assert forall|ip: Ipv4Address| s != #[trigger] ip.text() by {
                if s == ip.text() {
                    lemma_two_octets(s, ip, i - 1, a, j - 1, b);
                    assert(octet_at(s, j as int, octet_ends(ip).2, ip.c));
                }
            }
            return None;
        },
    };
    let last = take_octet(&chars, k);
    if let Some((d, end)) = last {
        if end == chars.len() {
            let ip = Ipv4Address { a, b, c, d };
            proof {
                lemma_laid_out_is_text(s, ip, (i - 1, j - 1, k - 1, end as int));
                law_ipv4_text_reads_back(ip);
            }
            return Some(ip);
        }
    }
    assert forall|ip: Ipv4Address| s != #[trigger] ip.text() by {
        if s == ip.text() {
            lemma_three_octets(s, ip, i - 1, a, j - 1, b, k - 1, c);
            assert(octet_at(s, k as int, s.len() as int, ip.d));
            if let Some((d, end)) = last {
                lemma_octet_unique(s, k as int, end as int, d, s.len() as int, ip.d);
            }
        }
    }
    None
}

/// The notation of an address is the numerals of its octets, first octet first, with a dot
/// between each two; a text is read as an address exactly where it is that address's notation.
/// The loopback addresses are those whose first octet is 127.
pub proof fn law_ipv4_notation(ip: Ipv4Address, s: Seq<char>)
    ensures
        ip.text() == crate::text::decimal(ip.a as nat) + seq!['.'] + crate::text::decimal(
            ip.b as nat,
        ) + seq!['.'] + crate::text::decimal(ip.c as nat) + seq!['.'] + crate::text::decimal(
            ip.d as nat,
        ),
        ipv4_value(s) == Some(ip) <==> s == ip.text(),
        ip.is_loopback_spec() <==> ip.a == 127,
{
    assert(ip.text() =~= crate::text::decimal(ip.a as nat) + seq!['.'] + crate::text::decimal(
        ip.b as nat,
    ) + seq!['.'] + crate::text::decimal(ip.c as nat) + seq!['.'] + crate::text::decimal(
        ip.d as nat,
    ));
    law_ipv4_text_reads_back(ip);
    if ipv4_value(s) == Some(ip) {
        assert(exists|x: Ipv4Address| s == #[trigger] x.text());
    }
}

}
