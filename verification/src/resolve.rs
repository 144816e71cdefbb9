//! The consumer's pure logic: picking the first IPv4 address out of what the
//! resolver returned, and formatting the lines of the two output logs.
//!
//! The resolver itself is an outside collaborator that performs network
//! lookups; the caller converts each address it returns into a
//! [`ResolvedAddr`], keeping the resolver's order, and hands the list to
//! [`first_ipv4`].

use vstd::prelude::*;
use vstd::string::StringExecFns;
use crate::decimal::dec_str;
use crate::decimal::u64_to_string;

verus! {

/// An IPv4 address as its four octets, most significant first.
#[derive(Clone, Copy, Debug, PartialEq, Eq, Structural)]
pub struct Ipv4 {
    pub a: u8,
    pub b: u8,
    pub c: u8,
    pub d: u8,
}

/// One address in the list a resolver returned, in the resolver's order:
/// either an IPv4 address or an address of some other family.
#[derive(Clone, Copy, Debug, PartialEq, Eq, Structural)]
pub enum ResolvedAddr {
    V4(Ipv4),
    OtherFamily,
}

/// The first IPv4 address in a list of resolver addresses, if any.
pub open spec fn spec_first_ipv4(addrs: Seq<ResolvedAddr>) -> Option<Ipv4>
    decreases addrs.len(),
{
    if addrs.len() == 0 {
        None
    } else {
        match addrs.first() {
            ResolvedAddr::V4(ip) => Some(ip),
            ResolvedAddr::OtherFamily => spec_first_ipv4(addrs.drop_first()),
        }
    }
}

/// Selects the first IPv4 address among the addresses a resolver returned,
/// in the resolver's order; a list with no IPv4 address counts as
/// unresolved.
pub fn first_ipv4(addrs: &Vec<ResolvedAddr>) -> (r: Option<Ipv4>)
    ensures
        r == spec_first_ipv4(addrs@),
{
    let len = addrs.len();
    let mut i: usize = 0;
    proof {
        assert(addrs@.subrange(0, len as int) =~= addrs@);
    }
    while i < len
        invariant
            len == addrs@.len(),
            i <= len,
            spec_first_ipv4(addrs@) == spec_first_ipv4(addrs@.subrange(i as int, len as int)),
        decreases len - i,
    {
        let tail = Ghost(addrs@.subrange(i as int, len as int));
        match addrs[i] {
            ResolvedAddr::V4(ip) => {
                proof {
                    assert(tail@.first() == addrs@[i as int]);
                }
                return Some(ip);
            },
            ResolvedAddr::OtherFamily => {
                proof {
                    assert(tail@.first() == addrs@[i as int]);
                    assert(tail@.drop_first() =~= addrs@.subrange(i + 1, len as int));
                }
                i = i + 1;
            },
        }
    }
    proof {
        assert(addrs@.subrange(len as int, len as int).len() == 0);
    }
    None
}

/// The dotted-decimal text of an IPv4 address.
pub open spec fn ipv4_str(ip: Ipv4) -> Seq<char> {
    dec_str(ip.a as nat) + "."@ + dec_str(ip.b as nat) + "."@
        + dec_str(ip.c as nat) + "."@ + dec_str(ip.d as nat)
}

/// Writes an IPv4 address in dotted-decimal form.
pub fn ipv4_to_string(ip: &Ipv4) -> (s: String)
    ensures
        s@ == ipv4_str(*ip),
{
    let s = u64_to_string(ip.a as u64)
        .concat(".")
        .concat(u64_to_string(ip.b as u64).as_str())
        .concat(".")
        .concat(u64_to_string(ip.c as u64).as_str())
        .concat(".")
        .concat(u64_to_string(ip.d as u64).as_str());
    s
}

/// The serviced-log record for one hostname: the hostname and a newline.
pub open spec fn serviced_line_spec(hostname: Seq<char>) -> Seq<char> {
    hostname + "\n"@
}

/// Formats the line a producer appends to the serviced-log after pushing a
/// hostname into the buffer.
pub fn serviced_line(hostname: &str) -> (s: String)
    ensures
        s@ == serviced_line_spec(hostname@),
{
    <String as StringExecFns>::from_str(hostname).concat("\n")
}

/// The resolved-log record for one resolution attempt: the hostname and
/// either the first IPv4 address found or the unresolved marker.
pub open spec fn resolved_line_spec(hostname: Seq<char>, outcome: Option<Ipv4>) -> Seq<char> {
    match outcome {
        Some(ip) => hostname + ", "@ + ipv4_str(ip) + "\n"@,
        None => hostname + ", NOT_RESOLVED\n"@,
    }
}

/// Formats the line a consumer appends to the resolved-log: the outcome is
/// the first IPv4 address among the resolver's answers, or `None` when the
/// lookup failed or yielded no IPv4 address.
pub fn resolved_line(hostname: &str, outcome: &Option<Ipv4>) -> (s: String)
    ensures
        s@ == resolved_line_spec(hostname@, *outcome),
{
    let base = <String as StringExecFns>::from_str(hostname);
    match outcome {
        Some(ip) => base.concat(", ").concat(ipv4_to_string(ip).as_str()).concat("\n"),
        None => base.concat(", NOT_RESOLVED\n"),
    }
}

} // verus!
