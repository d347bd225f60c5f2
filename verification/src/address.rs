//! The target of a CONNECT request: one of three kinds of host, and a port.

use crate::text::{decimal, hex, push_decimal, push_hex};
use vstd::prelude::*;
use vstd::string::*;

verus! {

/// The host of a target, in the form the client sent it.
#[derive(Clone, Debug, PartialEq, Eq)]
pub enum Host {
    /// The four octets of an IPv4 address.
    Ipv4([u8; 4]),
    /// A domain name.
    Domain(String),
    /// The sixteen bytes of an IPv6 address.
    Ipv6([u8; 16]),
}

/// What a [`Host`] holds, as sequences.
pub enum HostView {
    Ipv4(Seq<u8>),
    Domain(Seq<char>),
    Ipv6(Seq<u8>),
}

impl View for Host {
    type V = HostView;

    open spec fn view(&self) -> HostView {
        match self {
            Host::Ipv4(octets) => HostView::Ipv4(octets@),
            Host::Domain(name) => HostView::Domain(name@),
            Host::Ipv6(bytes) => HostView::Ipv6(bytes@),
        }
    }
}

/// Where a client asks to be connected. Port 0 is a port like any other.
#[derive(Clone, Debug, PartialEq, Eq)]
pub struct TargetAddress {
    pub host: Host,
    pub port: u16,
}

/// What a [`TargetAddress`] holds, as sequences.
pub struct TargetView {
    pub host: HostView,
    pub port: u16,
}

impl View for TargetAddress {
    type V = TargetView;

    open spec fn view(&self) -> TargetView {
        TargetView { host: self.host@, port: self.port }
    }
}

/// Four octets in dotted decimal.
pub open spec fn dotted(octets: Seq<u8>) -> Seq<char>
    recommends
        octets.len() == 4,
{
    decimal(octets[0] as nat) + "."@ + decimal(octets[1] as nat) + "."@ + decimal(
        octets[2] as nat,
    ) + "."@ + decimal(octets[3] as nat)
}

/// The eight 16-bit groups of sixteen bytes, each big-endian.
pub open spec fn groups(bytes: Seq<u8>) -> Seq<u16>
    recommends
        bytes.len() == 16,
{
    Seq::new(8, |i: int| (bytes[2 * i] as int * 256 + bytes[2 * i + 1] as int) as u16)
}

/// Whether sixteen bytes are an IPv4 address mapped into IPv6: ten zero
/// bytes, two bytes `0xff`, then the four octets.
pub open spec fn is_v4_mapped(bytes: Seq<u8>) -> bool
    recommends
        bytes.len() == 16,
{
    &&& forall|i: int| 0 <= i < 10 ==> bytes[i] == 0
    &&& bytes[10] == 0xff
    &&& bytes[11] == 0xff
}

/// How many groups from index `i` on are zero, up to the first that is not.
pub open spec fn zero_run(g: Seq<u16>, i: int) -> nat
    decreases g.len() - i,
{
    if 0 <= i < g.len() && g[i] == 0 {
        1 + zero_run(g, i + 1)
    } else {
        0
    }
}

/// Among the indices below `n`, the first at which the longest run of zero
/// groups begins.
pub open spec fn longest_run_start(g: Seq<u16>, n: int) -> int
    decreases n,
{
    if n <= 1 {
        0
    } else {
        let before = longest_run_start(g, n - 1);
        if zero_run(g, n - 1) > zero_run(g, before) {
            n - 1
        } else {
            before
        }
    }
}

/// Groups in hexadecimal with a colon between neighbours.
pub open spec fn join_hex(g: Seq<u16>) -> Seq<char>
    decreases g.len(),
{
    if g.len() == 0 {
        Seq::empty()
    } else if g.len() == 1 {
        hex(g[0] as nat)
    } else {
        join_hex(g.drop_last()) + ":"@ + hex(g.last() as nat)
    }
}

/// Sixteen bytes as IPv6 text in canonical form: a mapped IPv4 address as
/// `::ffff:` and the dotted octets; otherwise the groups in hexadecimal, with
/// the first longest run of two or more zero groups written as `::`.
pub open spec fn ipv6_text(bytes: Seq<u8>) -> Seq<char>
    recommends
        bytes.len() == 16,
{
    let g = groups(bytes);
    let start = longest_run_start(g, 8);
    let len = zero_run(g, start);
    if is_v4_mapped(bytes) {
        "::ffff:"@ + dotted(bytes.subrange(12, 16))
    } else if len >= 2 {
        join_hex(g.subrange(0, start)) + "::"@ + join_hex(g.subrange(start + len, 8))
    } else {
        join_hex(g)
    }
}

/// The host as the text that names it to the edge.
pub open spec fn host_text(host: HostView) -> Seq<char> {
    match host {
        HostView::Ipv4(octets) => dotted(octets),
        HostView::Domain(name) => name,
        HostView::Ipv6(bytes) => ipv6_text(bytes),
    }
}

/// The run that [`longest_run_start`] picks is at least as long as every run
/// that begins below `n`, and longer than every run that begins before it.
pub proof fn lemma_longest_run_is_first_longest(g: Seq<u16>, n: int, i: int)
    requires
        0 <= i < n,
    ensures
        0 <= longest_run_start(g, n) < n,
        zero_run(g, i) <= zero_run(g, longest_run_start(g, n)),
        i < longest_run_start(g, n) ==> zero_run(g, i) < zero_run(g, longest_run_start(g, n)),
    decreases n,
{
    if n > 1 {
        if i < n - 1 {
            lemma_longest_run_is_first_longest(g, n - 1, i);
        } else {
            lemma_longest_run_is_first_longest(g, n - 1, 0);
        }
    }
}

/// Appends the dotted decimal of four octets.
fn push_dotted(out: &mut String, a: u8, b: u8, c: u8, d: u8)
    ensures
        final(out)@ == old(out)@ + dotted(seq![a, b, c, d]),
{
    push_decimal(out, a as u16);
    out.append(".");
    push_decimal(out, b as u16);
    out.append(".");
    push_decimal(out, c as u16);
    out.append(".");
    push_decimal(out, d as u16);
    assert(out@ =~= old(out)@ + dotted(seq![a, b, c, d]));
}

/// Appends the groups from `from` up to `to`, colons between them.
fn push_groups(out: &mut String, g: &Vec<u16>, from: usize, to: usize)
    requires
        from <= to <= g.len(),
    ensures
        final(out)@ == old(out)@ + join_hex(g@.subrange(from as int, to as int)),
{
    let mut k: usize = from;
    while k < to
        invariant
            from <= k <= to <= g.len(),
            out@ == old(out)@ + join_hex(g@.subrange(from as int, k as int)),
        decreases to - k,
    {
        if k > from {
            out.append(":");
        }
        push_hex(out, g[k]);
        proof {
            let next = g@.subrange(from as int, k as int + 1);
            assert(next.drop_last() =~= g@.subrange(from as int, k as int));
            assert(out@ =~= old(out)@ + join_hex(next));
        }
        k += 1;
    }
}

/// The big-endian groups of sixteen bytes.
fn split_groups(bytes: &[u8; 16]) -> (g: Vec<u16>)
    ensures
        g@ == groups(bytes@),
{
    let mut g: Vec<u16> = Vec::new();
    let mut i: usize = 0;
    while i < 8
        invariant
            i <= 8,
            g@.len() == i,
            forall|k: int| 0 <= k < i ==> g@[k] == groups(bytes@)[k],
        decreases 8 - i,
    {
        let hi: u16 = bytes[2 * i] as u16;
        let lo: u16 = bytes[2 * i + 1] as u16;
        g.push(hi * 256 + lo);
        i += 1;
    }
    assert(g@ =~= groups(bytes@));
    g
}

/// The length of the run of zero groups that begins at `i`.
fn run_length(g: &Vec<u16>, i: usize) -> (n: usize)
    requires
        i <= g.len(),
    ensures
        n == zero_run(g@, i as int),
        i + n <= g.len(),
{
    let mut j: usize = i;
    while j < g.len() && g[j] == 0
        invariant
            i <= j <= g.len(),
            zero_run(g@, i as int) == (j - i) + zero_run(g@, j as int),
        decreases g.len() - j,
    {
        j += 1;
    }
    j - i
}

/// Whether the bytes are an IPv4 address mapped into IPv6.
fn v4_mapped(bytes: &[u8; 16]) -> (r: bool)
    ensures
        r == is_v4_mapped(bytes@),
{
    let mut i: usize = 0;
    while i < 10
        invariant
            i <= 10,
            forall|k: int| 0 <= k < i ==> bytes@[k] == 0,
        decreases 10 - i,
    {
        if bytes[i] != 0 {
            return false;
        }
        i += 1;
    }
    bytes[10] == 0xff && bytes[11] == 0xff
}

/// Appends the canonical IPv6 text of sixteen bytes.
fn push_ipv6(out: &mut String, bytes: &[u8; 16])
    ensures
        final(out)@ == old(out)@ + ipv6_text(bytes@),
{
    if v4_mapped(bytes) {
        out.append("::ffff:");
        push_dotted(out, bytes[12], bytes[13], bytes[14], bytes[15]);
        assert(bytes@.subrange(12, 16) =~= seq![bytes[12], bytes[13], bytes[14], bytes[15]]);
        assert(out@ =~= old(out)@ + ipv6_text(bytes@));
        return ;
    }
    let g = split_groups(bytes);
    let mut start: usize = 0;
    let mut len: usize = run_length(&g, 0);
    let mut i: usize = 1;
    while i < 8
        invariant
            1 <= i <= 8,
            g@.len() == 8,
            start == longest_run_start(g@, i as int),
            start < i,
            len == zero_run(g@, start as int),
            start + len <= 8,
        decreases 8 - i,
    {
        let n: usize = run_length(&g, i);
        if n > len {
            start = i;
            len = n;
        }
        i += 1;
    }
    if len >= 2 {
        push_groups(out, &g, 0, start);
        out.append("::");
        push_groups(out, &g, start + len, 8);
    } else {
        push_groups(out, &g, 0, 8);
        assert(g@.subrange(0, 8) =~= g@);
    }
    assert(out@ =~= old(out)@ + ipv6_text(bytes@));
}

impl Host {
    /// The host as text: an IPv4 address in dotted decimal, a domain name as
    /// it is, an IPv6 address in canonical form.
    pub fn text(&self) -> (s: String)
        ensures
            s@ == host_text(self@),
    {
        let mut out = String::new();
        match self {
            Host::Ipv4(octets) => {
                push_dotted(&mut out, octets[0], octets[1], octets[2], octets[3]);
                assert(octets@ =~= seq![octets[0], octets[1], octets[2], octets[3]]);
            },
            Host::Domain(name) => {
                out.append(name.as_str());
            },
            Host::Ipv6(bytes) => {
                push_ipv6(&mut out, bytes);
            },
        }
        assert(out@ =~= host_text(self@));
        out
    }
}

} // verus!
