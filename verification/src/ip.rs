//! Textual IP addresses. The accepted notation is dotted decimal for IPv4
//! (four octets, no leading zeros) and the full eight-group hexadecimal
//! colon notation for IPv6 (no `::` compression). Anything else is
//! malformed.

use vstd::prelude::*;

verus! {

/// An IP address, version 4 or 6.
#[derive(Clone, Copy, Debug, PartialEq, Eq, Structural)]
pub enum PeerAddr {
    V4(u8, u8, u8, u8),
    V6(u16, u16, u16, u16, u16, u16, u16, u16),
}

/// An ASCII decimal digit.
pub open spec fn is_dec(b: u8) -> bool {
    48 <= b && b <= 57
}

/// One decimal octet starting at `i`: one to three digits, value at most
/// 255, and no leading zero (a zero octet is the single digit `0`).
/// Returns the value and the position after it.
pub open spec fn spec_parse_octet(s: Seq<u8>, i: int) -> Option<(u8, int)> {
    if !(0 <= i < s.len() && is_dec(s[i])) {
        None
    } else if s[i] == 48 {
        Some((0u8, i + 1))
    } else if i + 1 < s.len() && is_dec(s[i + 1]) {
        if i + 2 < s.len() && is_dec(s[i + 2]) {
            if 100 * (s[i] - 48) + 10 * (s[i + 1] - 48) + (s[i + 2] - 48) <= 255 {
                Some(((100 * (s[i] - 48) + 10 * (s[i + 1] - 48) + (s[i + 2] - 48)) as u8, i + 3))
            } else {
                None
            }
        } else {
            Some(((10 * (s[i] - 48) + (s[i + 1] - 48)) as u8, i + 2))
        }
    } else {
        Some(((s[i] - 48) as u8, i + 1))
    }
}

/// A dotted-decimal IPv4 address covering the whole of `s`.
pub open spec fn spec_parse_ipv4(s: Seq<u8>) -> Option<PeerAddr> {
    match spec_parse_octet(s, 0) {
        None => None,
        Some((a, i)) => if i < s.len() && s[i] == 46 {
            match spec_parse_octet(s, i + 1) {
                None => None,
                Some((b, j)) => if j < s.len() && s[j] == 46 {
                    match spec_parse_octet(s, j + 1) {
                        None => None,
                        Some((c, k)) => if k < s.len() && s[k] == 46 {
                            match spec_parse_octet(s, k + 1) {
                                None => None,
                                Some((d, m)) => if m == s.len() {
                                    Some(PeerAddr::V4(a, b, c, d))
                                } else {
                                    None
                                },
                            }
                        } else {
                            None
                        },
                    }
                } else {
                    None
                },
            }
        } else {
            None
        },
    }
}

/// The value of an ASCII hexadecimal digit, or 16 when `b` is none.
pub open spec fn hex_val(b: u8) -> u8 {
    if 48 <= b && b <= 57 {
        (b - 48) as u8
    } else if 97 <= b && b <= 102 {
        (b - 87) as u8
    } else if 65 <= b && b <= 70 {
        (b - 55) as u8
    } else {
        16u8
    }
}

/// One hexadecimal group starting at `i`: one to four hex digits, read
/// greedily, leading zeros allowed. Returns the value and the position
/// after it.
pub open spec fn spec_parse_hexgroup(s: Seq<u8>, i: int) -> Option<(u16, int)> {
    if !(0 <= i < s.len() && hex_val(s[i]) < 16) {
        None
    } else if i + 1 < s.len() && hex_val(s[i + 1]) < 16 {
        if i + 2 < s.len() && hex_val(s[i + 2]) < 16 {
            if i + 3 < s.len() && hex_val(s[i + 3]) < 16 {
                Some((
                    (4096 * hex_val(s[i]) + 256 * hex_val(s[i + 1]) + 16 * hex_val(s[i + 2])
                        + hex_val(s[i + 3])) as u16,
                    i + 4,
                ))
            } else {
                Some(((256 * hex_val(s[i]) + 16 * hex_val(s[i + 1]) + hex_val(s[i + 2])) as u16, i + 3))
            }
        } else {
            Some(((16 * hex_val(s[i]) + hex_val(s[i + 1])) as u16, i + 2))
        }
    } else {
        Some((hex_val(s[i]) as u16, i + 1))
    }
}

/// `count` hexadecimal groups separated by `:`, starting at `i`. Returns
/// the group values and the position after the last one.
pub open spec fn spec_parse_groups(s: Seq<u8>, i: int, count: nat) -> Option<(Seq<u16>, int)>
    decreases count,
{
    if count == 0 {
        Some((Seq::empty(), i))
    } else {
        match spec_parse_hexgroup(s, i) {
            None => None,
            Some((v, j)) => if count == 1 {
                Some((seq![v], j))
            } else if j < s.len() && s[j] == 58 {
                match spec_parse_groups(s, j + 1, (count - 1) as nat) {
                    None => None,
                    Some((vs, m)) => Some((seq![v] + vs, m)),
                }
            } else {
                None
            },
        }
    }
}

/// A full-form IPv6 address covering the whole of `s`: eight hexadecimal
/// groups separated by `:`.
pub open spec fn spec_parse_ipv6(s: Seq<u8>) -> Option<PeerAddr> {
    match spec_parse_groups(s, 0, 8) {
        None => None,
        Some((vs, m)) => if m == s.len() {
            Some(PeerAddr::V6(vs[0], vs[1], vs[2], vs[3], vs[4], vs[5], vs[6], vs[7]))
        } else {
            None
        },
    }
}

/// The address that the text `s` denotes: dotted decimal gives an IPv4
/// address, the full colon notation gives an IPv6 address.
pub open spec fn spec_parse_ip(s: Seq<u8>) -> Option<PeerAddr> {
    if spec_parse_ipv4(s) is Some {
        spec_parse_ipv4(s)
    } else {
        spec_parse_ipv6(s)
    }
}

fn parse_octet(s: &Vec<u8>, i: usize) -> (r: Option<(u8, usize)>)
    ensures
        match r {
            Some((v, j)) => spec_parse_octet(s@, i as int) == Some((v, j as int)),
            None => spec_parse_octet(s@, i as int) is None,
        },
{
    if !(i < s.len() && 48 <= s[i] && s[i] <= 57) {
        None
    } else if s[i] == 48 {
        Some((0u8, i + 1))
    } else if i + 1 < s.len() && 48 <= s[i + 1] && s[i + 1] <= 57 {
        if i + 2 < s.len() && 48 <= s[i + 2] && s[i + 2] <= 57 {
            let v: u16 = 100 * ((s[i] - 48) as u16) + 10 * ((s[i + 1] - 48) as u16) + ((s[i + 2]
                - 48) as u16);
            if v <= 255 {
                Some((v as u8, i + 3))
            } else {
                None
            }
        } else {
            Some((10 * (s[i] - 48) + (s[i + 1] - 48), i + 2))
        }
    } else {
        Some((s[i] - 48, i + 1))
    }
}

fn parse_ipv4(s: &Vec<u8>) -> (r: Option<PeerAddr>)
    ensures
        r == spec_parse_ipv4(s@),
{
    let o1 = parse_octet(s, 0);
    match o1 {
        None => None,
        Some((a, i)) => {
            if !(i < s.len() && s[i] == 46) {
                return None;
            }
            match parse_octet(s, i + 1) {
                None => None,
                Some((b, j)) => {
                    if !(j < s.len() && s[j] == 46) {
                        return None;
                    }
                    match parse_octet(s, j + 1) {
                        None => None,
                        Some((c, k)) => {
                            if !(k < s.len() && s[k] == 46) {
                                return None;
                            }
                            match parse_octet(s, k + 1) {
                                None => None,
                                Some((d, m)) => {
                                    if m == s.len() {
                                        Some(PeerAddr::V4(a, b, c, d))
                                    } else {
                                        None
                                    }
                                },
                            }
                        },
                    }
                },
            }
        },
    }
}

fn hex_val_at(s: &Vec<u8>, i: usize) -> (v: u8)
    requires
        i < s@.len(),
    ensures
        v == hex_val(s@[i as int]),
{
    let b = s[i];
    if 48 <= b && b <= 57 {
        b - 48
    } else if 97 <= b && b <= 102 {
        b - 87
    } else if 65 <= b && b <= 70 {
        b - 55
    } else {
        16
    }
}

fn parse_hexgroup(s: &Vec<u8>, i: usize) -> (r: Option<(u16, usize)>)
    ensures
        match r {
            Some((v, j)) => spec_parse_hexgroup(s@, i as int) == Some((v, j as int)),
            None => spec_parse_hexgroup(s@, i as int) is None,
        },
{
    if !(i < s.len() && hex_val_at(s, i) < 16) {
        None
    } else if i + 1 < s.len() && hex_val_at(s, i + 1) < 16 {
        if i + 2 < s.len() && hex_val_at(s, i + 2) < 16 {
            if i + 3 < s.len() && hex_val_at(s, i + 3) < 16 {
                Some((
                    4096 * (hex_val_at(s, i) as u16) + 256 * (hex_val_at(s, i + 1) as u16) + 16 * (
                    hex_val_at(s, i + 2) as u16) + (hex_val_at(s, i + 3) as u16),
                    i + 4,
                ))
            } else {
                Some((
                    256 * (hex_val_at(s, i) as u16) + 16 * (hex_val_at(s, i + 1) as u16) + (
                    hex_val_at(s, i + 2) as u16),
                    i + 3,
                ))
            }
        } else {
            Some((16 * (hex_val_at(s, i) as u16) + (hex_val_at(s, i + 1) as u16), i + 2))
        }
    } else {
        Some((hex_val_at(s, i) as u16, i + 1))
    }
}

fn parse_groups(s: &Vec<u8>, i: usize, count: usize) -> (r: Option<(Vec<u16>, usize)>)
    ensures
        match r {
            Some((vs, j)) => spec_parse_groups(s@, i as int, count as nat) == Some((vs@, j as int)),
            None => spec_parse_groups(s@, i as int, count as nat) is None,
        },
    decreases count,
{
    if count == 0 {
        let vs: Vec<u16> = Vec::new();
        proof {
            assert(vs@ =~= Seq::<u16>::empty());
        }
        return Some((vs, i));
    }
    match parse_hexgroup(s, i) {
        None => None,
        Some((v, j)) => {
            if count == 1 {
                let mut vs: Vec<u16> = Vec::new();
                vs.push(v);
                proof {
                    assert(vs@ =~= seq![v]);
                }
                Some((vs, j))
            } else if j < s.len() && s[j] == 58 {
                match parse_groups(s, j + 1, count - 1) {
                    None => None,
                    Some((rest, m)) => {
                        let mut vs: Vec<u16> = Vec::new();
                        vs.push(v);
                        let mut k: usize = 0;
                        while k < rest.len()
                            invariant
                                k <= rest@.len(),
                                vs@.len() == k + 1,
                                vs@[0] == v,
                                forall|t: int| 0 <= t < k ==> vs@[t + 1] == rest@[t],
                            decreases rest@.len() - k,
                        {
                            vs.push(rest[k]);
                            k += 1;
                        }
                        proof {
                            assert(vs@ =~= seq![v] + rest@);
                        }
                        Some((vs, m))
                    },
                }
            } else {
                None
            }
        },
    }
}

fn parse_ipv6(s: &Vec<u8>) -> (r: Option<PeerAddr>)
    ensures
        r == spec_parse_ipv6(s@),
{
    match parse_groups(s, 0, 8) {
        None => None,
        Some((vs, m)) => {
            if m == s.len() {
                proof {
                    assert(vs@.len() == 8) by {
                        lemma_groups_count(s@, 0, 8);
                    }
                }
                Some(
                    PeerAddr::V6(vs[0], vs[1], vs[2], vs[3], vs[4], vs[5], vs[6], vs[7]),
                )
            } else {
                None
            }
        },
    }
}

/// A successful group parse yields exactly `count` values.
proof fn lemma_groups_count(s: Seq<u8>, i: int, count: nat)
    ensures
        spec_parse_groups(s, i, count) matches Some(p) ==> p.0.len() == count,
    decreases count,
{
    if count > 0 {
        match spec_parse_hexgroup(s, i) {
            Some((v, j)) => {
                if count > 1 && j < s.len() && s[j] == 58 {
                    lemma_groups_count(s, j + 1, (count - 1) as nat);
                }
            },
            None => {},
        }
    }
}

/// Parses the textual address `s`: dotted decimal IPv4 or full-form IPv6.
pub fn parse_ip(s: &Vec<u8>) -> (r: Option<PeerAddr>)
    ensures
        r == spec_parse_ip(s@),
{
    match parse_ipv4(s) {
        Some(a) => Some(a),
        None => parse_ipv6(s),
    }
}

} // verus!
