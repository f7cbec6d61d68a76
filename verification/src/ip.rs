//! Address families and verified syntactic validation of textual IP
//! addresses, used to judge the answers that public-IP lookup mechanisms
//! return.

use vstd::prelude::*;
use vstd::string::*;

verus! {

/// The address family a run works in: it selects both the resolver set and
/// the DNS record type (`A` for IPv4, `AAAA` for IPv6).
#[derive(Clone, Copy, Debug, PartialEq, Eq, Structural)]
pub enum IpType {
    IPV4,
    IPV6,
}

/// Scanner state while reading a dotted-quad IPv4 address.
pub enum V4State {
    /// The read text cannot be extended to a valid address.
    Dead,
    /// An octet must start here; `seen` octets are already complete.
    ExpectOctet { seen: u8 },
    /// Inside an octet: `seen` earlier octets are complete, the current one
    /// has value `val` after `len` digits.
    InOctet { seen: u8, val: u16, len: u8 },
}

/// One step of the IPv4 scanner. An octet is one to three decimal digits,
/// has value at most 255, and has no leading zero; four octets are joined
/// by single dots.
pub open spec fn v4_step(st: V4State, c: char) -> V4State {
    let u = c as u32;
    match st {
        V4State::Dead => V4State::Dead,
        V4State::ExpectOctet { seen } => {
            if '0' <= c && c <= '9' {
                V4State::InOctet { seen, val: (u - 48) as u16, len: 1 }
            } else {
                V4State::Dead
            }
        },
        V4State::InOctet { seen, val, len } => {
            if '0' <= c && c <= '9' {
                if val == 0 && len == 1 {
                    V4State::Dead
                } else if val * 10 + (u - 48) <= 255 && len < 3 {
                    V4State::InOctet {
                        seen,
                        val: (val * 10 + (u - 48)) as u16,
                        len: (len + 1) as u8,
                    }
                } else {
                    V4State::Dead
                }
            } else if c == '.' {
                if seen < 3 {
                    V4State::ExpectOctet { seen: (seen + 1) as u8 }
                } else {
                    V4State::Dead
                }
            } else {
                V4State::Dead
            }
        },
    }
}

/// The scanner state after reading the first `i` characters of `s`.
pub open spec fn v4_scan(s: Seq<char>, i: int) -> V4State
    decreases i,
{
    if i <= 0 {
        V4State::ExpectOctet { seen: 0 }
    } else {
        v4_step(v4_scan(s, i - 1), s[i - 1])
    }
}

/// Whether the scanner may stop here: the fourth octet has just been read.
pub open spec fn v4_accept(st: V4State) -> bool {
    match st {
        V4State::InOctet { seen, .. } => seen == 3,
        _ => false,
    }
}

/// `s` is a syntactically valid dotted-quad IPv4 address.
pub open spec fn valid_ipv4(s: Seq<char>) -> bool {
    v4_accept(v4_scan(s, s.len() as int))
}

fn v4_step_exec(st: V4State, c: char) -> (r: V4State)
    ensures
        r == v4_step(st, c),
{
    let u = c as u32;
    match st {
        V4State::Dead => V4State::Dead,
        V4State::ExpectOctet { seen } => {
            if '0' <= c && c <= '9' {
                V4State::InOctet { seen, val: (u - 48) as u16, len: 1 }
            } else {
                V4State::Dead
            }
        },
        V4State::InOctet { seen, val, len } => {
            if '0' <= c && c <= '9' {
                let next: u32 = (val as u32) * 10 + (u - 48);
                if val == 0 && len == 1 {
                    V4State::Dead
                } else if next <= 255 && len < 3 {
                    V4State::InOctet { seen, val: next as u16, len: len + 1 }
                } else {
                    V4State::Dead
                }
            } else if c == '.' {
                if seen < 3 {
                    V4State::ExpectOctet { seen: seen + 1 }
                } else {
                    V4State::Dead
                }
            } else {
                V4State::Dead
            }
        },
    }
}

/// Decides whether `s` is a syntactically valid IPv4 address.
pub fn is_valid_ipv4(s: &str) -> (r: bool)
    ensures
        r == valid_ipv4(s@),
{
    let n = s.unicode_len();
    let mut st = V4State::ExpectOctet { seen: 0 };
    let mut i: usize = 0;
    while i < n
        invariant
            n == s@.len(),
            i <= n,
            st == v4_scan(s@, i as int),
        decreases n - i,
    {
        let c = s.get_char(i);
        st = v4_step_exec(st, c);
        i = i + 1;
    }
    match st {
        V4State::InOctet { seen, .. } => seen == 3,
        _ => false,
    }
}

/// Scanner state while reading a colon-separated IPv6 address.
pub enum V6State {
    /// The read text cannot be extended to a valid address.
    Dead,
    /// Nothing read yet.
    Start,
    /// Exactly one leading colon read; only a second may follow.
    LeadColon,
    /// Inside a group of hex digits: `len` digits so far, `groups` earlier
    /// groups complete, `dc` whether a `::` was read.
    InGroup { len: u8, groups: u8, dc: bool },
    /// Right after a single separating colon.
    AfterColon { groups: u8, dc: bool },
    /// Right after a `::`.
    AfterDc { groups: u8 },
}

/// `c` is a hexadecimal digit.
pub open spec fn is_hex_digit(c: char) -> bool {
    ('0' <= c && c <= '9') || ('a' <= c && c <= 'f') || ('A' <= c && c <= 'F')
}

/// One step of the IPv6 scanner. A group is one to four hex digits; groups
/// are joined by single colons; at most one `::` stands for one or more
/// zero groups.
pub open spec fn v6_step(st: V6State, c: char) -> V6State {
    match st {
        V6State::Dead => V6State::Dead,
        V6State::Start => {
            if is_hex_digit(c) {
                V6State::InGroup { len: 1, groups: 0, dc: false }
            } else if c == ':' {
                V6State::LeadColon
            } else {
                V6State::Dead
            }
        },
        V6State::LeadColon => {
            if c == ':' {
                V6State::AfterDc { groups: 0 }
            } else {
                V6State::Dead
            }
        },
        V6State::InGroup { len, groups, dc } => {
            if is_hex_digit(c) {
                if len < 4 {
                    V6State::InGroup { len: (len + 1) as u8, groups, dc }
                } else {
                    V6State::Dead
                }
            } else if c == ':' {
                if groups < 7 {
                    V6State::AfterColon { groups: (groups + 1) as u8, dc }
                } else {
                    V6State::Dead
                }
            } else {
                V6State::Dead
            }
        },
        V6State::AfterColon { groups, dc } => {
            if is_hex_digit(c) {
                V6State::InGroup { len: 1, groups, dc }
            } else if c == ':' {
                if dc {
                    V6State::Dead
                } else {
                    V6State::AfterDc { groups }
                }
            } else {
                V6State::Dead
            }
        },
        V6State::AfterDc { groups } => {
            if is_hex_digit(c) {
                V6State::InGroup { len: 1, groups, dc: true }
            } else {
                V6State::Dead
            }
        },
    }
}

/// The scanner state after reading the first `i` characters of `s`.
pub open spec fn v6_scan(s: Seq<char>, i: int) -> V6State
    decreases i,
{
    if i <= 0 {
        V6State::Start
    } else {
        v6_step(v6_scan(s, i - 1), s[i - 1])
    }
}

/// Whether the scanner may stop here: without a `::` exactly eight groups
/// were read; with one, at most seven, and the text may end on the `::`.
pub open spec fn v6_accept(st: V6State) -> bool {
    match st {
        V6State::InGroup { groups, dc, .. } => {
            if dc {
                groups + 1 <= 7
            } else {
                groups + 1 == 8
            }
        },
        V6State::AfterDc { groups } => groups <= 7,
        _ => false,
    }
}

/// `s` is a syntactically valid IPv6 address (hex groups and `::`
/// compression; the embedded-IPv4 notation is not part of this grammar).
pub open spec fn valid_ipv6(s: Seq<char>) -> bool {
    v6_accept(v6_scan(s, s.len() as int))
}

fn is_hex_digit_exec(c: char) -> (r: bool)
    ensures
        r == is_hex_digit(c),
{
    ('0' <= c && c <= '9') || ('a' <= c && c <= 'f') || ('A' <= c && c <= 'F')
}

fn v6_step_exec(st: V6State, c: char) -> (r: V6State)
    ensures
        r == v6_step(st, c),
{
    match st {
        V6State::Dead => V6State::Dead,
        V6State::Start => {
            if is_hex_digit_exec(c) {
                V6State::InGroup { len: 1, groups: 0, dc: false }
            } else if c == ':' {
                V6State::LeadColon
            } else {
                V6State::Dead
            }
        },
        V6State::LeadColon => {
            if c == ':' {
                V6State::AfterDc { groups: 0 }
            } else {
                V6State::Dead
            }
        },
        V6State::InGroup { len, groups, dc } => {
            if is_hex_digit_exec(c) {
                if len < 4 {
                    V6State::InGroup { len: len + 1, groups, dc }
                } else {
                    V6State::Dead
                }
            } else if c == ':' {
                if groups < 7 {
                    V6State::AfterColon { groups: groups + 1, dc }
                } else {
                    V6State::Dead
                }
            } else {
                V6State::Dead
            }
        },
        V6State::AfterColon { groups, dc } => {
            if is_hex_digit_exec(c) {
                V6State::InGroup { len: 1, groups, dc }
            } else if c == ':' {
                if dc {
                    V6State::Dead
                } else {
                    V6State::AfterDc { groups }
                }
            } else {
                V6State::Dead
            }
        },
        V6State::AfterDc { groups } => {
            if is_hex_digit_exec(c) {
                V6State::InGroup { len: 1, groups, dc: true }
            } else {
                V6State::Dead
            }
        },
    }
}

/// Decides whether `s` is a syntactically valid IPv6 address.
pub fn is_valid_ipv6(s: &str) -> (r: bool)
    ensures
        r == valid_ipv6(s@),
{
    let n = s.unicode_len();
    let mut st = V6State::Start;
    let mut i: usize = 0;
    while i < n
        invariant
            n == s@.len(),
            i <= n,
            st == v6_scan(s@, i as int),
        decreases n - i,
    {
        let c = s.get_char(i);
        st = v6_step_exec(st, c);
        i = i + 1;
    }
    match st {
        V6State::InGroup { groups, dc, .. } => {
            if dc {
                groups < 7
            } else {
                groups == 7
            }
        },
        V6State::AfterDc { groups } => groups <= 7,
        _ => false,
    }
}

/// `s` is a syntactically valid address of family `family`.
pub open spec fn valid_for_family(s: Seq<char>, family: IpType) -> bool {
    match family {
        IpType::IPV4 => valid_ipv4(s),
        IpType::IPV6 => valid_ipv6(s),
    }
}

/// Decides whether `s` is a syntactically valid address of family `family`.
pub fn is_valid_for_family(s: &str, family: &IpType) -> (r: bool)
    ensures
        r == valid_for_family(s@, *family),
{
    match family {
        IpType::IPV4 => is_valid_ipv4(s),
        IpType::IPV6 => is_valid_ipv6(s),
    }
}

} // verus!
