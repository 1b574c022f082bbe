//! IP addresses and socket addresses, and their text form.
//!
//! The text form is the usual one: four decimal octets for IPv4; for IPv6
//! eight groups of hexadecimal digits, where `::` stands for one or more
//! groups of zeros and the last two groups may be written as an IPv4 address.
//! A socket address is `ipv4:port` or `[ipv6]:port`, the latter with an
//! optional `%scope` before the bracket.

use vstd::prelude::*;
use vstd::slice::slice_subrange;
use vstd::utf8::*;

use crate::number;
use crate::number::parse_number;
use crate::text;

verus! {

/// An IP address, by its value as a big-endian number.
#[derive(Debug, Clone, Copy, PartialEq, Eq, Structural)]
pub enum IpAddress {
    V4 { bits: u32 },
    V6 { bits: u128 },
}

/// An IP address with a port.
#[derive(Debug, Clone, Copy, PartialEq, Eq, Structural)]
pub struct SocketAddress {
    pub ip: IpAddress,
    pub port: u16,
}

impl IpAddress {
    /// Whether this is an IPv4 address.
    pub open spec fn spec_is_ipv4(self) -> bool {
        self is V4
    }

    /// 224.0.0.0/4, and ff00::/8.
    pub open spec fn spec_is_multicast(self) -> bool {
        match self {
            IpAddress::V4 { bits } => 0xE000_0000 <= bits < 0xF000_0000,
            IpAddress::V6 { bits } => bits >= 0xFF00_0000_0000_0000_0000_0000_0000_0000,
        }
    }

    /// 0.0.0.0, and `::`.
    pub open spec fn spec_is_unspecified(self) -> bool {
        match self {
            IpAddress::V4 { bits } => bits == 0,
            IpAddress::V6 { bits } => bits == 0,
        }
    }

    /// Whether this is an IPv4 address.
    pub fn is_ipv4(self) -> (r: bool)
        ensures
            r == self.spec_is_ipv4(),
    {
        matches!(self, IpAddress::V4 { .. })
    }

    /// Whether this is a multicast address.
    pub fn is_multicast(self) -> (r: bool)
        ensures
            r == self.spec_is_multicast(),
    {
        match self {
            IpAddress::V4 { bits } => 0xE000_0000 <= bits && bits < 0xF000_0000,
            IpAddress::V6 { bits } => bits >= 0xFF00_0000_0000_0000_0000_0000_0000_0000,
        }
    }

    /// Whether this is the address that stands for any address.
    pub fn is_unspecified(self) -> (r: bool)
        ensures
            r == self.spec_is_unspecified(),
    {
        match self {
            IpAddress::V4 { bits } => bits == 0,
            IpAddress::V6 { bits } => bits == 0,
        }
    }
}

// ---------------------------------------------------------------------------
// Numbers
// ---------------------------------------------------------------------------

/// An IPv4 octet: up to three digits, no superfluous zero in front.
pub open spec fn octet(s: Seq<u8>) -> Option<nat> {
    if s.len() <= 3 && (s.len() > 1 ==> s[0] != 0x30) {
        number::number(s, 10, 255)
    } else {
        None
    }
}

/// An IPv6 group: up to four hexadecimal digits.
pub open spec fn group(s: Seq<u8>) -> Option<nat> {
    if s.len() <= 4 {
        number::number(s, 16, 0xFFFF)
    } else {
        None
    }
}

/// The port that some digits write.
pub open spec fn port_number(s: Seq<u8>) -> Option<nat> {
    number::number(s, 10, 0xFFFF)
}

fn parse_octet(s: &[u8]) -> (r: Option<u32>)
    ensures
        r matches Some(v) ==> octet(s@) == Some(v as nat) && v <= 255,
        r is None ==> octet(s@) is None,
{
    if s.len() > 3 || (s.len() > 1 && s[0] == 0x30) {
        None
    } else {
        parse_number(s, 10, 255)
    }
}

fn parse_group(s: &[u8]) -> (r: Option<u32>)
    ensures
        r matches Some(v) ==> group(s@) == Some(v as nat) && v <= 0xFFFF,
        r is None ==> group(s@) is None,
{
    if s.len() > 4 {
        None
    } else {
        parse_number(s, 16, 0xFFFF)
    }
}

fn parse_port(s: &[u8]) -> (r: Option<u16>)
    ensures
        r matches Some(v) ==> port_number(s@) == Some(v as nat),
        r is None ==> port_number(s@) is None,
{
    match parse_number(s, 10, 0xFFFF) {
        Some(v) => Some(v as u16),
        None => None,
    }
}

// ---------------------------------------------------------------------------
// Splitting
// ---------------------------------------------------------------------------

/// The place of the first `sep` in `s`, or the length of `s` if there is none.
pub open spec fn first_at(s: Seq<u8>, sep: u8) -> int
    decreases s.len(),
{
    if s.len() == 0 || s[0] == sep {
        0
    } else {
        1 + first_at(s.skip(1), sep)
    }
}

/// The place of the first `::` in `s`, or the length of `s` if there is none.
pub open spec fn double_colon_at(s: Seq<u8>) -> int
    decreases s.len(),
{
    if s.len() < 2 {
        s.len() as int
    } else if s[0] == 0x3A && s[1] == 0x3A {
        0
    } else {
        1 + double_colon_at(s.skip(1))
    }
}

/// The pieces of `s` between the separators.
pub open spec fn split(s: Seq<u8>, sep: u8) -> Seq<Seq<u8>>
    decreases s.len(),
{
    let i = first_at(s, sep);
    if 0 <= i < s.len() {
        seq![s.take(i)] + split(s.skip(i + 1), sep)
    } else {
        seq![s]
    }
}

proof fn lemma_first_at(s: Seq<u8>, sep: u8)
    ensures
        0 <= first_at(s, sep) <= s.len(),
        first_at(s, sep) < s.len() ==> s[first_at(s, sep)] == sep,
        forall|j: int| 0 <= j < first_at(s, sep) ==> s[j] != sep,
    decreases s.len(),
{
    if s.len() > 0 && s[0] != sep {
        lemma_first_at(s.skip(1), sep);
        assert forall|j: int| 0 <= j < first_at(s, sep) implies s[j] != sep by {
            if j > 0 {
                assert(s.skip(1)[j - 1] == s[j]);
            }
        }
    }
}

proof fn lemma_double_colon_at(s: Seq<u8>)
    ensures
        0 <= double_colon_at(s) <= s.len(),
        double_colon_at(s) < s.len() ==> double_colon_at(s) + 1 < s.len() && s[double_colon_at(s)]
            == 0x3A && s[double_colon_at(s) + 1] == 0x3A,
        forall|j: int|
            0 <= j < double_colon_at(s) && j + 1 < s.len() ==> !(s[j] == 0x3A && #[trigger] s[j + 1]
                == 0x3A),
    decreases s.len(),
{
    if s.len() >= 2 && !(s[0] == 0x3A && s[1] == 0x3A) {
        let t = s.skip(1);
        lemma_double_colon_at(t);
        assert forall|j: int|
            0 <= j < double_colon_at(s) && j + 1 < s.len() implies !(s[j] == 0x3A
            && #[trigger] s[j + 1] == 0x3A) by {
            if j > 0 {
                assert(t[j - 1] == s[j]);
                assert(t[(j - 1) + 1] == s[j + 1]);
            }
        }
    }
}

fn find_byte(s: &[u8], sep: u8) -> (r: usize)
    ensures
        r == first_at(s@, sep),
        r <= s@.len(),
{
    let n: usize = s.len();
    let mut i: usize = 0;
    proof {
        lemma_first_at(s@, sep);
    }
    while i < n
        invariant
            n == s@.len(),
            i <= first_at(s@, sep) <= n,
            first_at(s@, sep) < n ==> s@[first_at(s@, sep)] == sep,
            forall|j: int| 0 <= j < first_at(s@, sep) ==> s@[j] != sep,
        decreases n - i,
    {
        if s[i] == sep {
            return i;
        }
        i = i + 1;
    }
    i
}

fn find_double_colon(s: &[u8]) -> (r: usize)
    ensures
        r == double_colon_at(s@),
        r < s@.len() ==> r + 1 < s@.len(),
        r <= s@.len(),
{
    let n: usize = s.len();
    let mut i: usize = 0;
    proof {
        lemma_double_colon_at(s@);
    }
    while n >= 2 && i < n - 1
        invariant
            n == s@.len(),
            i <= double_colon_at(s@) <= n,
            double_colon_at(s@) < n ==> double_colon_at(s@) + 1 < n && s@[double_colon_at(s@)]
                == 0x3A && s@[double_colon_at(s@) + 1] == 0x3A,
            forall|j: int|
                0 <= j < double_colon_at(s@) && j + 1 < s@.len() ==> !(s@[j] == 0x3A
                    && #[trigger] s@[j + 1] == 0x3A),
        decreases n - i,
    {
        if s[i] == 0x3A && s[i + 1] == 0x3A {
            assert(s@[i as int] == 0x3A && s@[i as int + 1] == 0x3A);
            return i;
        }
        i = i + 1;
    }
    n
}

/// The views of a list of byte slices.
pub open spec fn views(pieces: Seq<&[u8]>) -> Seq<Seq<u8>> {
    pieces.map_values(|p: &[u8]| p@)
}

fn split_bytes<'a>(s: &'a [u8], sep: u8) -> (r: Vec<&'a [u8]>)
    ensures
        views(r@) == split(s@, sep),
        r@.len() >= 1,
{
    let mut pieces: Vec<&'a [u8]> = Vec::new();
    let mut rest: &'a [u8] = s;
    assert(views(pieces@) + split(rest@, sep) =~= split(s@, sep));
    loop
        invariant
            views(pieces@) + split(rest@, sep) == split(s@, sep),
        decreases rest@.len(),
    {
        let i: usize = find_byte(rest, sep);
        let ghost before = pieces@;
        let ghost tail = rest@;
        if i >= rest.len() {
            pieces.push(rest);
            assert(views(pieces@) =~= views(before) + seq![tail]);
            return pieces;
        }
        pieces.push(slice_subrange(rest, 0, i));
        rest = slice_subrange(rest, i + 1, rest.len());
        assert(tail.subrange(0, i as int) =~= tail.take(i as int));
        assert(tail.subrange(i + 1, tail.len() as int) =~= tail.skip(i + 1));
        assert(views(pieces@) =~= views(before) + seq![tail.take(i as int)]);
        assert(views(pieces@) + split(rest@, sep) =~= views(before) + (seq![tail.take(i as int)]
            + split(rest@, sep)));
    }
}

// ---------------------------------------------------------------------------
// Addresses
// ---------------------------------------------------------------------------

/// The value of a dotted IPv4 address.
pub open spec fn ipv4_value(s: Seq<u8>) -> Option<nat> {
    let p = split(s, 0x2E);
    if p.len() == 4 && octet(p[0]) is Some && octet(p[1]) is Some && octet(p[2]) is Some && octet(
        p[3],
    ) is Some {
        Some(
            octet(p[0])->0 * 0x100_0000 + octet(p[1])->0 * 0x1_0000 + octet(p[2])->0 * 0x100
                + octet(p[3])->0,
        )
    } else {
        None
    }
}

/// The groups that a list of pieces writes. Where `v4_tail` holds, the last
/// piece may be an IPv4 address, which counts as two groups.
pub open spec fn piece_groups(pieces: Seq<Seq<u8>>, v4_tail: bool) -> Option<Seq<nat>>
    decreases pieces.len(),
{
    if pieces.len() == 0 {
        Some(Seq::empty())
    } else if pieces.len() == 1 && v4_tail && ipv4_value(pieces[0]) is Some {
        let v = ipv4_value(pieces[0])->0;
        Some(seq![v / 0x1_0000, v % 0x1_0000])
    } else {
        match (group(pieces[0]), piece_groups(pieces.skip(1), v4_tail)) {
            (Some(g), Some(rest)) => Some(seq![g] + rest),
            _ => None,
        }
    }
}

/// The groups on one side of a `::`, or of an address without one.
pub open spec fn side_groups(s: Seq<u8>, v4_tail: bool) -> Option<Seq<nat>> {
    if s.len() == 0 {
        Some(Seq::empty())
    } else {
        piece_groups(split(s, 0x3A), v4_tail)
    }
}

/// A run of zeros.
pub open spec fn zeros(n: nat) -> Seq<nat> {
    Seq::new(n, |i: int| 0nat)
}

/// The eight groups of an IPv6 address.
pub open spec fn ipv6_groups(s: Seq<u8>) -> Option<Seq<nat>> {
    let i = double_colon_at(s);
    if 0 <= i < s.len() {
        match (side_groups(s.take(i), false), side_groups(s.skip(i + 2), true)) {
            (Some(head), Some(tail)) => if head.len() + tail.len() <= 7 {
                Some(head + zeros((8 - head.len() - tail.len()) as nat) + tail)
            } else {
                None
            },
            _ => None,
        }
    } else {
        match side_groups(s, true) {
            Some(g) => if g.len() == 8 {
                Some(g)
            } else {
                None
            },
            None => None,
        }
    }
}

/// The value of eight groups.
pub open spec fn groups_value(g: Seq<nat>) -> nat {
    g[0] * 0x1_0000_0000_0000_0000_0000_0000_0000 + g[1] * 0x1_0000_0000_0000_0000_0000_0000 + g[2]
        * 0x1_0000_0000_0000_0000_0000 + g[3] * 0x1_0000_0000_0000_0000 + g[4] * 0x1_0000_0000_0000
        + g[5] * 0x1_0000_0000 + g[6] * 0x1_0000 + g[7]
}

/// The IP address that the bytes of a text write.
pub open spec fn ip_address_of(s: Seq<u8>) -> Option<IpAddress> {
    match ipv4_value(s) {
        Some(v) => Some(IpAddress::V4 { bits: v as u32 }),
        None => match ipv6_groups(s) {
            Some(g) => Some(IpAddress::V6 { bits: groups_value(g) as u128 }),
            None => None,
        },
    }
}

/// An IPv6 address with an optional scope number behind a `%`.
pub open spec fn scoped_ipv6(s: Seq<u8>) -> Option<Seq<nat>> {
    let p = first_at(s, 0x25);
    if p < s.len() && number::number(s.skip(p + 1), 10, 0xFFFF_FFFF) is None {
        None
    } else {
        ipv6_groups(s.take(p))
    }
}

/// The socket address that the bytes of a text write.
pub open spec fn socket_address_of(s: Seq<u8>) -> Option<SocketAddress> {
    if s.len() > 0 && s[0] == 0x5B {
        let body = s.skip(1);
        let k = first_at(body, 0x5D);
        let after = body.skip(k + 1);
        if k + 1 < body.len() && after[0] == 0x3A {
            match (scoped_ipv6(body.take(k)), port_number(after.skip(1))) {
                (Some(g), Some(port)) => Some(
                    SocketAddress {
                        ip: IpAddress::V6 { bits: groups_value(g) as u128 },
                        port: port as u16,
                    },
                ),
                _ => None,
            }
        } else {
            None
        }
    } else {
        let k = first_at(s, 0x3A);
        if k < s.len() {
            match (ipv4_value(s.take(k)), port_number(s.skip(k + 1))) {
                (Some(v), Some(port)) => Some(
                    SocketAddress { ip: IpAddress::V4 { bits: v as u32 }, port: port as u16 },
                ),
                _ => None,
            }
        } else {
            None
        }
    }
}

/// The IP address that a text writes.
#[verifier::opaque]
pub open spec fn ip_of(s: Seq<char>) -> Option<IpAddress> {
    ip_address_of(encode_utf8(s))
}

/// The socket address that a text writes.
#[verifier::opaque]
pub open spec fn socket_of(s: Seq<char>) -> Option<SocketAddress> {
    socket_address_of(encode_utf8(s))
}

fn parse_ipv4(s: &[u8]) -> (r: Option<u32>)
    ensures
        r matches Some(v) ==> ipv4_value(s@) == Some(v as nat),
        r is None ==> ipv4_value(s@) is None,
{
    let p = split_bytes(s, 0x2E);
    assert(forall|i: int| 0 <= i < p@.len() ==> #[trigger] views(p@)[i] == p@[i]@);
    if p.len() != 4 {
        return None;
    }
    assert(views(p@)[0] == p@[0]@ && views(p@)[1] == p@[1]@ && views(p@)[2] == p@[2]@
        && views(p@)[3]
        == p@[3]@);
    match (parse_octet(p[0]), parse_octet(p[1]), parse_octet(p[2]), parse_octet(p[3])) {
        (Some(a), Some(b), Some(c), Some(d)) => Some(a * 0x100_0000 + b * 0x1_0000 + c * 0x100 + d),
        _ => None,
    }
}

/// The groups as mathematical numbers.
pub open spec fn as_nats(g: Seq<u32>) -> Seq<nat> {
    g.map_values(|v: u32| v as nat)
}

fn parse_piece_groups(pieces: &Vec<&[u8]>, v4_tail: bool) -> (r: Option<Vec<u32>>)
    ensures
        r matches Some(g) ==> piece_groups(views(pieces@), v4_tail) == Some(as_nats(g@)),
        r matches Some(g) ==> forall|i: int| 0 <= i < g@.len() ==> #[trigger] g@[i] <= 0xFFFF,
        r is None ==> piece_groups(views(pieces@), v4_tail) is None,
{
    let mut out: Vec<u32> = Vec::new();
    let mut i: usize = 0;
    let ghost all = views(pieces@);
    assert(all.skip(0) =~= all);
    assert(as_nats(out@) =~= Seq::<nat>::empty());
    proof {
        match piece_groups(all, v4_tail) {
            Some(rest) => {
                assert(as_nats(out@) + rest =~= rest);
            },
            None => {},
        }
    }
    while i < pieces.len()
        invariant
            i <= pieces@.len(),
            all == views(pieces@),
            forall|j: int| 0 <= j < out@.len() ==> #[trigger] out@[j] <= 0xFFFF,
            match piece_groups(all.skip(i as int), v4_tail) {
                Some(rest) => piece_groups(all, v4_tail) == Some(as_nats(out@) + rest),
                None => piece_groups(all, v4_tail) is None,
            },
        decreases pieces.len() - i,
    {
        let ghost tail = all.skip(i as int);
        assert(tail[0] == pieces@[i as int]@);
        assert(tail.skip(1) =~= all.skip(i + 1));
        let ghost before = as_nats(out@);
        if v4_tail && pieces.len() - i == 1 {
            match parse_ipv4(pieces[i]) {
                Some(v) => {
                    out.push(v / 0x1_0000);
                    out.push(v % 0x1_0000);
                    assert(as_nats(out@) =~= before + seq![
                        (v as nat) / 0x1_0000,
                        (v as nat) % 0x1_0000,
                    ]);
                    return Some(out);
                },
                None => {},
            }
        }
        match parse_group(pieces[i]) {
            Some(g) => {
                out.push(g);
                assert(as_nats(out@) =~= before + seq![g as nat]);
                proof {
                    match piece_groups(tail.skip(1), v4_tail) {
                        Some(rest) => {
                            assert(as_nats(out@) + rest =~= before + (seq![g as nat] + rest));
                        },
                        None => {},
                    }
                }
            },
            None => {
                return None;
            },
        }
        i = i + 1;
    }
    assert(all.skip(i as int) =~= Seq::<Seq<u8>>::empty());
    assert(as_nats(out@) + Seq::<nat>::empty() =~= as_nats(out@));
    Some(out)
}

fn parse_side(s: &[u8], v4_tail: bool) -> (r: Option<Vec<u32>>)
    ensures
        r matches Some(g) ==> side_groups(s@, v4_tail) == Some(as_nats(g@)),
        r matches Some(g) ==> forall|i: int| 0 <= i < g@.len() ==> #[trigger] g@[i] <= 0xFFFF,
        r is None ==> side_groups(s@, v4_tail) is None,
{
    if s.len() == 0 {
        let out: Vec<u32> = Vec::new();
        assert(as_nats(out@) =~= Seq::<nat>::empty());
        Some(out)
    } else {
        let pieces = split_bytes(s, 0x3A);
        parse_piece_groups(&pieces, v4_tail)
    }
}

fn parse_ipv6(s: &[u8]) -> (r: Option<u128>)
    ensures
        r matches Some(v) ==> ipv6_groups(s@) is Some && groups_value(ipv6_groups(s@)->0)
            == v as nat,
        r is None ==> ipv6_groups(s@) is None,
{
    let i: usize = find_double_colon(s);
    let groups: Vec<u32>;
    if i < s.len() {
        let head = match parse_side(slice_subrange(s, 0, i), false) {
            Some(g) => g,
            None => {
                assert(s@.subrange(0, i as int) =~= s@.take(i as int));
                return None;
            },
        };
        assert(s@.subrange(0, i as int) =~= s@.take(i as int));
        let tail = match parse_side(slice_subrange(s, i + 2, s.len()), true) {
            Some(g) => g,
            None => {
                assert(s@.subrange(i + 2, s@.len() as int) =~= s@.skip(i + 2));
                return None;
            },
        };
        assert(s@.subrange(i + 2, s@.len() as int) =~= s@.skip(i + 2));
        if head.len() > 7 || tail.len() > 7 || head.len() + tail.len() > 7 {
            return None;
        }
        let mut all: Vec<u32> = Vec::new();
        let mut k: usize = 0;
        while k < 8
            invariant
                k <= 8,
                all@.len() == k,
                head@.len() + tail@.len() <= 7,
                forall|j: int| 0 <= j < head@.len() ==> #[trigger] head@[j] <= 0xFFFF,
                forall|j: int| 0 <= j < tail@.len() ==> #[trigger] tail@[j] <= 0xFFFF,
                forall|j: int|
                    0 <= j < k ==> #[trigger] all@[j] == if j < head@.len() {
                        head@[j]
                    } else if j < 8 - tail@.len() {
                        0
                    } else {
                        tail@[j - (8 - tail@.len())]
                    },
            decreases 8 - k,
        {
            if k < head.len() {
                all.push(head[k]);
            } else if k < 8 - tail.len() {
                all.push(0);
            } else {
                all.push(tail[k - (8 - tail.len())]);
            }
            k = k + 1;
        }
        assert(as_nats(all@) =~= as_nats(head@) + zeros((8 - head@.len() - tail@.len()) as nat)
            + as_nats(tail@));
        assert forall|j: int| 0 <= j < all@.len() implies #[trigger] all@[j] <= 0xFFFF by {
            if j < head@.len() {
                assert(head@[j] <= 0xFFFF);
            } else if j >= 8 - tail@.len() {
                assert(tail@[j - (8 - tail@.len())] <= 0xFFFF);
            }
        }
        groups = all;
    } else {
        groups =
        match parse_side(s, true) {
            Some(g) => {
                if g.len() != 8 {
                    return None;
                }
                g
            },
            None => {
                return None;
            },
        };
    }
    assert(ipv6_groups(s@) == Some(as_nats(groups@)));
    let ghost g = as_nats(groups@);
    assert(groups@[0] <= 0xFFFF && groups@[1] <= 0xFFFF && groups@[2] <= 0xFFFF && groups@[3]
        <= 0xFFFF && groups@[4] <= 0xFFFF && groups@[5] <= 0xFFFF && groups@[6] <= 0xFFFF
        && groups@[7] <= 0xFFFF);
    assert(g[0] == groups@[0] && g[1] == groups@[1] && g[2] == groups@[2] && g[3] == groups@[3]
        && g[4] == groups@[4] && g[5] == groups@[5] && g[6] == groups@[6] && g[7] == groups@[7]);
    let v: u128 = (groups[0] as u128) * 0x1_0000_0000_0000_0000_0000_0000_0000 + (groups[1] as u128)
        * 0x1_0000_0000_0000_0000_0000_0000 + (groups[2] as u128) * 0x1_0000_0000_0000_0000_0000
        + (groups[3] as u128) * 0x1_0000_0000_0000_0000 + (groups[4] as u128) * 0x1_0000_0000_0000
        + (groups[5] as u128) * 0x1_0000_0000 + (groups[6] as u128) * 0x1_0000 + groups[7] as u128;
    Some(v)
}

/// The IP address that `s` writes, if it writes one.
pub fn parse_ip(s: &str) -> (r: Option<IpAddress>)
    ensures
        r == ip_of(s@),
{
    proof {
        reveal(ip_of);
    }
    let b = s.as_bytes();
    match parse_ipv4(b) {
        Some(bits) => Some(IpAddress::V4 { bits }),
        None => match parse_ipv6(b) {
            Some(bits) => Some(IpAddress::V6 { bits }),
            None => None,
        },
    }
}

fn parse_bracketed(b: &[u8]) -> (r: Option<SocketAddress>)
    requires
        b@.len() > 0,
        b@[0] == 0x5B,
    ensures
        r == socket_address_of(b@),
{
    let body = slice_subrange(b, 1, b.len());
    assert(body@ =~= b@.skip(1));
    let k: usize = find_byte(body, 0x5D);
    if k >= body.len() || k + 1 >= body.len() || body[k + 1] != 0x3A {
        assert(k + 1 < body@.len() ==> body@.skip(k + 1)[0] == body@[k + 1]);
        return None;
    }
    assert(body@.skip(k + 1)[0] == body@[k + 1]);
    let inside = slice_subrange(body, 0, k);
    assert(inside@ =~= body@.take(k as int));
    let port_text = slice_subrange(body, k + 2, body.len());
    assert(port_text@ =~= body@.skip(k + 1).skip(1));
    let p: usize = find_byte(inside, 0x25);
    if p < inside.len() {
        let scope = slice_subrange(inside, p + 1, inside.len());
        assert(scope@ =~= inside@.skip(p + 1));
        if parse_number(scope, 10, 0xFFFF_FFFF).is_none() {
            return None;
        }
    }
    let ip_text = slice_subrange(inside, 0, p);
    assert(ip_text@ =~= inside@.take(p as int));
    match (parse_ipv6(ip_text), parse_port(port_text)) {
        (Some(bits), Some(port)) => Some(SocketAddress { ip: IpAddress::V6 { bits }, port }),
        _ => None,
    }
}

/// The socket address that `s` writes, if it writes one.
pub fn parse_socket(s: &str) -> (r: Option<SocketAddress>)
    ensures
        r == socket_of(s@),
{
    proof {
        reveal(socket_of);
    }
    let b = s.as_bytes();
    if b.len() > 0 && b[0] == 0x5B {
        return parse_bracketed(b);
    }
    let k: usize = find_byte(b, 0x3A);
    if k >= b.len() {
        return None;
    }
    let ip_text = slice_subrange(b, 0, k);
    assert(ip_text@ =~= b@.take(k as int));
    let port_text = slice_subrange(b, k + 1, b.len());
    assert(port_text@ =~= b@.skip(k + 1));
    match (parse_ipv4(ip_text), parse_port(port_text)) {
        (Some(bits), Some(port)) => Some(SocketAddress { ip: IpAddress::V4 { bits }, port }),
        _ => None,
    }
}

// ---------------------------------------------------------------------------
// Text of an IP address
// ---------------------------------------------------------------------------

/// An IPv4 address in dotted decimal.
pub open spec fn ipv4_text(bits: nat) -> Seq<char> {
    text::dec(bits / 0x100_0000) + "."@ + text::dec(bits / 0x1_0000 % 0x100) + "."@ + text::dec(
        bits / 0x100 % 0x100,
    ) + "."@ + text::dec(bits % 0x100)
}

/// The eight groups of an IPv6 address.
pub open spec fn groups_of(bits: nat) -> Seq<nat> {
    seq![
        bits / 0x1_0000_0000_0000_0000_0000_0000_0000 % 0x1_0000,
        bits / 0x1_0000_0000_0000_0000_0000_0000 % 0x1_0000,
        bits / 0x1_0000_0000_0000_0000_0000 % 0x1_0000,
        bits / 0x1_0000_0000_0000_0000 % 0x1_0000,
        bits / 0x1_0000_0000_0000 % 0x1_0000,
        bits / 0x1_0000_0000 % 0x1_0000,
        bits / 0x1_0000 % 0x1_0000,
        bits % 0x1_0000,
    ]
}

/// How many zeros stand in a row from place `i` on.
pub open spec fn zero_run(g: Seq<nat>, i: int) -> nat
    decreases g.len() - i,
{
    if 0 <= i < g.len() && g[i] == 0 {
        1 + zero_run(g, i + 1)
    } else {
        0
    }
}

/// The first of the longest rows of zeros from place `i` on: its place and its
/// length.
pub open spec fn longest_run(g: Seq<nat>, i: int) -> (int, nat)
    decreases g.len() - i,
{
    if 0 <= i < g.len() {
        let rest = longest_run(g, i + 1);
        if zero_run(g, i) >= rest.1 {
            (i, zero_run(g, i))
        } else {
            rest
        }
    } else {
        (i, 0)
    }
}

/// The groups in hexadecimal, with colons between them.
pub open spec fn hex_join(g: Seq<nat>) -> Seq<char>
    decreases g.len(),
{
    if g.len() == 0 {
        Seq::empty()
    } else if g.len() == 1 {
        text::hex(g[0])
    } else {
        hex_join(g.drop_last()) + ":"@ + text::hex(g.last())
    }
}

/// The shortest form: the first longest row of two or more zero groups is
/// written `::`, and an IPv4-mapped address shows the IPv4 address.
pub open spec fn ipv6_text(bits: nat) -> Seq<char> {
    let g = groups_of(bits);
    let run = longest_run(g, 0);
    if zero_run(g, 0) == 5 && g[5] == 0xFFFF {
        "::ffff:"@ + ipv4_text(bits % 0x1_0000_0000)
    } else if run.1 > 1 {
        hex_join(g.take(run.0)) + "::"@ + hex_join(g.skip(run.0 + run.1))
    } else {
        hex_join(g)
    }
}

/// The text of an IP address.
#[verifier::opaque]
pub open spec fn ip_text(ip: IpAddress) -> Seq<char> {
    match ip {
        IpAddress::V4 { bits } => ipv4_text(bits as nat),
        IpAddress::V6 { bits } => ipv6_text(bits as nat),
    }
}

fn ipv4_string(bits: u32) -> (r: String)
    ensures
        r@ == ipv4_text(bits as nat),
{
    let a = text::dec_string((bits / 0x100_0000) as u64);
    let b = text::dec_string((bits / 0x1_0000 % 0x100) as u64);
    let c = text::dec_string((bits / 0x100 % 0x100) as u64);
    let d = text::dec_string((bits % 0x100) as u64);
    text::cat7(a.as_str(), ".", b.as_str(), ".", c.as_str(), ".", d.as_str())
}

fn zero_run_at(g: &Vec<u64>, i: usize) -> (r: usize)
    requires
        i <= g@.len(),
    ensures
        r == zero_run(nat_groups(g@), i as int),
        i + r <= g@.len(),
    decreases g@.len() - i,
{
    if i < g.len() && g[i] == 0 {
        1 + zero_run_at(g, i + 1)
    } else {
        0
    }
}

/// The groups as mathematical numbers.
pub open spec fn nat_groups(g: Seq<u64>) -> Seq<nat> {
    g.map_values(|v: u64| v as nat)
}

fn longest_run_at(g: &Vec<u64>, i: usize) -> (r: (usize, usize))
    requires
        i <= g@.len(),
    ensures
        r.0 == longest_run(nat_groups(g@), i as int).0,
        r.1 == longest_run(nat_groups(g@), i as int).1,
        r.0 + r.1 <= g@.len(),
    decreases g@.len() - i,
{
    if i < g.len() {
        let rest = longest_run_at(g, i + 1);
        let here: usize = zero_run_at(g, i);
        if here >= rest.1 {
            (i, here)
        } else {
            rest
        }
    } else {
        (i, 0)
    }
}

fn hex_join_string(g: &Vec<u64>, from: usize, to: usize) -> (r: String)
    requires
        from <= to <= g@.len(),
    ensures
        r@ == hex_join(nat_groups(g@).subrange(from as int, to as int)),
    decreases to - from,
{
    let ghost part = nat_groups(g@).subrange(from as int, to as int);
    if from == to {
        String::new()
    } else if to - from == 1 {
        text::hex_string(g[from])
    } else {
        let head = hex_join_string(g, from, to - 1);
        assert(part.drop_last() =~= nat_groups(g@).subrange(from as int, to - 1));
        let last = text::hex_string(g[to - 1]);
        text::cat3(head.as_str(), ":", last.as_str())
    }
}

fn ipv6_string(bits: u128) -> (r: String)
    ensures
        r@ == ipv6_text(bits as nat),
{
    let mut g: Vec<u64> = Vec::new();
    g.push((bits / 0x1_0000_0000_0000_0000_0000_0000_0000 % 0x1_0000) as u64);
    g.push((bits / 0x1_0000_0000_0000_0000_0000_0000 % 0x1_0000) as u64);
    g.push((bits / 0x1_0000_0000_0000_0000_0000 % 0x1_0000) as u64);
    g.push((bits / 0x1_0000_0000_0000_0000 % 0x1_0000) as u64);
    g.push((bits / 0x1_0000_0000_0000 % 0x1_0000) as u64);
    g.push((bits / 0x1_0000_0000 % 0x1_0000) as u64);
    g.push((bits / 0x1_0000 % 0x1_0000) as u64);
    g.push((bits % 0x1_0000) as u64);
    assert(nat_groups(g@) =~= groups_of(bits as nat));
    let run = longest_run_at(&g, 0);
    if zero_run_at(&g, 0) == 5 && g[5] == 0xFFFF {
        let low = ipv4_string((bits % 0x1_0000_0000) as u32);
        text::cat2("::ffff:", low.as_str())
    } else if run.1 > 1 {
        let head = hex_join_string(&g, 0, run.0);
        let tail = hex_join_string(&g, run.0 + run.1, 8);
        assert(nat_groups(g@).subrange(0, run.0 as int) =~= groups_of(bits as nat).take(run.0 as int));
        assert(nat_groups(g@).subrange(run.0 + run.1, 8) =~= groups_of(bits as nat).skip(
            run.0 + run.1,
        ));
        text::cat3(head.as_str(), "::", tail.as_str())
    } else {
        assert(nat_groups(g@).subrange(0, 8) =~= groups_of(bits as nat));
        hex_join_string(&g, 0, 8)
    }
}

/// The text of an IP address.
pub fn ip_string(ip: IpAddress) -> (r: String)
    ensures
        r@ == ip_text(ip),
{
    proof {
        reveal(ip_text);
    }
    match ip {
        IpAddress::V4 { bits } => ipv4_string(bits),
        IpAddress::V6 { bits } => ipv6_string(bits),
    }
}

// ---------------------------------------------------------------------------
// Laws
// ---------------------------------------------------------------------------

/// An IPv4 address is multicast exactly when its first four bits are 1110, an IPv6 address
/// exactly when its first eight are ones; only the address of all zeros is unspecified.
pub proof fn lemma_kinds_of_addresses(v4: u32, v6: u128)
    ensures
        (IpAddress::V4 { bits: v4 }).spec_is_multicast() <==> v4 / 0x1000_0000 == 0xE,
        (IpAddress::V6 { bits: v6 }).spec_is_multicast() <==> v6
            / 0x100_0000_0000_0000_0000_0000_0000_0000 == 0xFF,
        (IpAddress::V4 { bits: v4 }).spec_is_unspecified() <==> v4 == 0,
        (IpAddress::V6 { bits: v6 }).spec_is_unspecified() <==> v6 == 0,
        (IpAddress::V4 { bits: v4 }).spec_is_ipv4(),
        !(IpAddress::V6 { bits: v6 }).spec_is_ipv4(),
{
}

/// A part of an IPv4 address is one to three decimal digits, at most 255 together, and
/// without a leading zero but in zero itself.
pub proof fn lemma_octets(s: Seq<u8>)
    ensures
        octet(s) is Some <==> {
            &&& 1 <= s.len() <= 3
            &&& s.len() > 1 ==> s[0] != 0x30
            &&& forall|i: int| 0 <= i < s.len() ==> 0x30 <= #[trigger] s[i] <= 0x39
            &&& number::digits_value(s, 10) <= 255
        },
        octet(s) is Some ==> octet(s)->0 == number::digits_value(s, 10),
        group(s) is Some ==> 1 <= s.len() <= 4 && group(s)->0 == number::digits_value(s, 16),
        port_number(s) is Some ==> s.len() >= 1 && port_number(s)->0 <= 65535 && port_number(s)->0
            == number::digits_value(s, 10),
{
    assert(number::all_digits(s, 10) <==> forall|i: int|
        0 <= i < s.len() ==> 0x30 <= #[trigger] s[i] <= 0x39) by {
        if number::all_digits(s, 10) {
            assert forall|i: int| 0 <= i < s.len() implies 0x30 <= #[trigger] s[i] <= 0x39 by {
                assert(number::digit_value(s[i]) < 10);
            }
        }
    }
}

/// A text splits at the first separator.
proof fn lemma_split_head(head: Seq<u8>, sep: u8, rest: Seq<u8>)
    requires
        forall|i: int| 0 <= i < head.len() ==> #[trigger] head[i] != sep,
    ensures
        first_at(head + seq![sep] + rest, sep) == head.len(),
        split(head + seq![sep] + rest, sep) == seq![head] + split(rest, sep),
{
    let s = head + seq![sep] + rest;
    let k = first_at(s, sep);
    lemma_first_at(s, sep);
    assert(s[head.len() as int] == sep);
    if k < head.len() {
        assert(s[k] == head[k]);
    }
    assert(k == head.len());
    assert(s.take(k) =~= head);
    assert(s.skip(k + 1) =~= rest);
}

proof fn lemma_split_none(s: Seq<u8>, sep: u8)
    requires
        forall|i: int| 0 <= i < s.len() ==> #[trigger] s[i] != sep,
    ensures
        split(s, sep) == seq![s],
{
    lemma_first_at(s, sep);
}

/// The bytes of a number's decimal text.
#[verifier::opaque]
spec fn dec_bytes(n: nat) -> Seq<u8> {
    Seq::new(text::dec(n).len(), |i: int| text::dec(n)[i] as u8)
}

/// The bytes of an IPv4 address in text form.
#[verifier::opaque]
spec fn ipv4_bytes(bits: nat) -> Seq<u8> {
    dec_bytes(bits / 0x100_0000) + seq![0x2Eu8] + (dec_bytes(bits / 0x1_0000 % 0x100)
        + seq![0x2Eu8] + (dec_bytes(bits / 0x100 % 0x100) + seq![0x2Eu8] + dec_bytes(
        bits % 0x100,
    )))
}

proof fn lemma_octet_reads_back(n: nat)
    requires
        n <= 255,
    ensures
        octet(dec_bytes(n)) == Some(n),
        forall|i: int| 0 <= i < dec_bytes(n).len() ==> #[trigger] dec_bytes(n)[i] != 0x2E,
        forall|i: int| 0 <= i < dec_bytes(n).len() ==> #[trigger] dec_bytes(n)[i] != 0x3A,
        dec_bytes(n).len() > 0 && dec_bytes(n)[0] != 0x5B,
{
    reveal(dec_bytes);
    number::lemma_decimal_bytes(n);
}

proof fn lemma_ipv4_bytes_read_back(bits: u32)
    ensures
        ipv4_value(ipv4_bytes(bits as nat)) == Some(bits as nat),
        forall|i: int|
            0 <= i < ipv4_bytes(bits as nat).len() ==> #[trigger] ipv4_bytes(bits as nat)[i]
                != 0x3A,
        ipv4_bytes(bits as nat).len() > 0 && ipv4_bytes(bits as nat)[0] != 0x5B,
{
    reveal(ipv4_bytes);
    let n = bits as nat;
    let (a, b, c, d) = (n / 0x100_0000, n / 0x1_0000 % 0x100, n / 0x100 % 0x100, n % 0x100);
    assert(a <= 255 && b <= 255 && c <= 255 && d <= 255);
    assert(n == a * 0x100_0000 + b * 0x1_0000 + c * 0x100 + d);
    lemma_octet_reads_back(a);
    lemma_octet_reads_back(b);
    lemma_octet_reads_back(c);
    lemma_octet_reads_back(d);
    let dot = 0x2Eu8;
    let r3 = dec_bytes(d);
    let r2 = dec_bytes(c) + seq![dot] + r3;
    let r1 = dec_bytes(b) + seq![dot] + r2;
    lemma_split_head(dec_bytes(a), dot, r1);
    lemma_split_head(dec_bytes(b), dot, r2);
    lemma_split_head(dec_bytes(c), dot, r3);
    lemma_split_none(r3, dot);
    let p = split(ipv4_bytes(n), dot);
    assert(p =~= seq![dec_bytes(a), dec_bytes(b), dec_bytes(c), dec_bytes(d)]);
    assert forall|i: int| 0 <= i < r2.len() implies #[trigger] r2[i] != 0x3A by {
        if i < dec_bytes(c).len() {
            assert(r2[i] == dec_bytes(c)[i]);
        } else if i > dec_bytes(c).len() {
            assert(r2[i] == r3[i - dec_bytes(c).len() - 1]);
        }
    }
    assert forall|i: int| 0 <= i < r1.len() implies #[trigger] r1[i] != 0x3A by {
        if i < dec_bytes(b).len() {
            assert(r1[i] == dec_bytes(b)[i]);
        } else if i > dec_bytes(b).len() {
            assert(r1[i] == r2[i - dec_bytes(b).len() - 1]);
        }
    }
    let s = ipv4_bytes(n);
    assert forall|i: int| 0 <= i < s.len() implies #[trigger] s[i] != 0x3A by {
        if i < dec_bytes(a).len() {
            assert(s[i] == dec_bytes(a)[i]);
        } else if i > dec_bytes(a).len() {
            assert(s[i] == r1[i - dec_bytes(a).len() - 1]);
        }
    }
    assert(s[0] == dec_bytes(a)[0]);
}

proof fn lemma_ipv4_text_bytes(bits: u32)
    ensures
        is_ascii_chars(ipv4_text(bits as nat)),
        encode_utf8(ipv4_text(bits as nat)) == ipv4_bytes(bits as nat),
{
    reveal(dec_bytes);
    reveal(ipv4_bytes);
    let n = bits as nat;
    reveal_strlit(".");
    number::lemma_decimal_bytes(n / 0x100_0000);
    number::lemma_decimal_bytes(n / 0x1_0000 % 0x100);
    number::lemma_decimal_bytes(n / 0x100 % 0x100);
    number::lemma_decimal_bytes(n % 0x100);
    let s = ipv4_text(n);
    assert("."@ =~= seq!['.']);
    let b = Seq::new(s.len(), |i: int| s[i] as u8);
    assert('.' as u8 == 0x2E);
    assert(b =~= ipv4_bytes(n));
    assert forall|i: int| 0 <= i < s.len() implies '\0' <= #[trigger] s[i] <= '\u{7f}' by {
        let (w, x, y, z) = (
            text::dec(n / 0x100_0000),
            text::dec(n / 0x1_0000 % 0x100),
            text::dec(n / 0x100 % 0x100),
            text::dec(n % 0x100),
        );
        let (i1, i2, i3) = (
            w.len() as int,
            w.len() + 1 + x.len(),
            w.len() + 1 + x.len() + 1 + y.len(),
        );
        if i < i1 {
            assert(s[i] == w[i]);
        } else if i1 < i < i2 {
            assert(s[i] == x[i - i1 - 1]);
        } else if i2 < i < i3 {
            assert(s[i] == y[i - i2 - 1]);
        } else if i > i3 {
            assert(s[i] == z[i - i3 - 1]);
        }
    }
    lemma_ascii_bytes(s);
}

proof fn lemma_socket_of_parts(ip: Seq<u8>, port: Seq<u8>, v: nat, p: nat)
    requires
        ip.len() > 0,
        ip[0] != 0x5B,
        forall|i: int| 0 <= i < ip.len() ==> #[trigger] ip[i] != 0x3A,
        ipv4_value(ip) == Some(v),
        port_number(port) == Some(p),
    ensures
        socket_address_of(ip + seq![0x3Au8] + port) == Some(
            SocketAddress { ip: IpAddress::V4 { bits: v as u32 }, port: p as u16 },
        ),
{
    let all = ip + seq![0x3Au8] + port;
    lemma_split_head(ip, 0x3A, port);
    let k = first_at(all, 0x3A);
    assert(all.take(k) =~= ip);
    assert(all.skip(k + 1) =~= port);
    assert(all[0] == ip[0]);
}

proof fn lemma_ascii_bytes(s: Seq<char>)
    requires
        is_ascii_chars(s),
    ensures
        encode_utf8(s) == Seq::new(s.len(), |i: int| s[i] as u8),
{
    is_ascii_chars_encode_utf8(s);
    assert(encode_utf8(s) =~= Seq::new(s.len(), |i: int| s[i] as u8));
}

proof fn lemma_socket_text_bytes(ip: Seq<char>, port: nat)
    requires
        is_ascii_chars(ip),
    ensures
        encode_utf8(ip + ":"@ + text::dec(port)) == encode_utf8(ip) + seq![0x3Au8] + dec_bytes(
            port,
        ),
{
    reveal(dec_bytes);
    reveal_strlit(":");
    number::lemma_decimal_bytes(port);
    lemma_ascii_bytes(ip);
    let d = text::dec(port);
    let s = ip + ":"@ + d;
    assert(":"@ =~= seq![':']);
    assert forall|i: int| 0 <= i < s.len() implies '\0' <= #[trigger] s[i] <= '\u{7f}' by {
        if i < ip.len() {
            assert(s[i] == ip[i]);
        } else if i > ip.len() {
            assert(s[i] == d[i - ip.len() - 1]);
        }
    }
    lemma_ascii_bytes(s);
    assert(':' as u8 == 0x3A);
    assert(encode_utf8(s) =~= encode_utf8(ip) + seq![0x3Au8] + dec_bytes(port));
}

proof fn lemma_port_reads_back(port: u16)
    ensures
        port_number(dec_bytes(port as nat)) == Some(port as nat),
{
    reveal(dec_bytes);
    number::lemma_decimal_bytes(port as nat);
}

proof fn lemma_read_as_bytes(s: Seq<char>, b: Seq<u8>, bits: u32)
    requires
        encode_utf8(s) == b,
        ipv4_value(b) == Some(bits as nat),
    ensures
        ip_of(s) == Some(IpAddress::V4 { bits }),
{
    reveal(ip_of);
}

proof fn lemma_read_socket_as_bytes(s: Seq<char>, b: Seq<u8>)
    requires
        encode_utf8(s) == b,
    ensures
        socket_of(s) == socket_address_of(b),
{
    reveal(socket_of);
}

/// An IPv4 address that is written out is read back as itself.
pub proof fn lemma_ipv4_reads_back(bits: u32)
    ensures
        ip_of(ipv4_text(bits as nat)) == Some(IpAddress::V4 { bits }),
{
    let b = ipv4_bytes(bits as nat);
    lemma_ipv4_text_bytes(bits);
    lemma_ipv4_bytes_read_back(bits);
    lemma_read_as_bytes(ipv4_text(bits as nat), b, bits);
}

/// An IPv4 address that is written out with a port after a colon is read back as that
/// socket address.
pub proof fn lemma_ipv4_socket_reads_back(bits: u32, port: u16)
    ensures
        socket_of(ipv4_text(bits as nat) + ":"@ + text::dec(port as nat)) == Some(
            SocketAddress { ip: IpAddress::V4 { bits }, port },
        ),
{
    let ip = ipv4_text(bits as nat);
    let b = ipv4_bytes(bits as nat);
    let d = dec_bytes(port as nat);
    lemma_ipv4_text_bytes(bits);
    lemma_ipv4_bytes_read_back(bits);
    lemma_socket_text_bytes(ip, port as nat);
    lemma_port_reads_back(port);
    lemma_read_socket_as_bytes(ip + ":"@ + text::dec(port as nat), b + seq![0x3Au8] + d);
    lemma_socket_of_parts(b, d, bits as nat, port as nat);
}

/// A socket address in brackets is IPv6, and one without is IPv4.
pub proof fn lemma_brackets_mean_ipv6(s: Seq<char>)
    requires
        s.len() > 0,
        is_ascii_chars(s),
    ensures
        socket_of(s) matches Some(at) ==> (at.ip is V6 <==> s[0] == '['),
{
    reveal(socket_of);
    lemma_ascii_bytes(s);
    assert(encode_utf8(s)[0] == s[0] as u8);
    assert('[' as u8 == 0x5B);
}

} // verus!
