//! Server endpoints and the textual address grammar.
//!
//! A server endpoint is an IP address together with a port. It is obtained by
//! parsing an operator-supplied address string: a dotted-decimal IPv4 address
//! followed by `:` and a decimal port, or an IPv6 address in square brackets
//! followed by `:` and a decimal port. An IPv6 address is written as
//! hexadecimal groups of at most four digits separated by `:`, eight groups
//! in full, or fewer with one `::` standing for the missing zero groups; the
//! last two groups may instead be written as an embedded dotted-decimal IPv4
//! address. Decimal numbers carry no leading zero; no name resolution is
//! performed.
//!
//! The grammar and the value of every form are pinned down by the spec
//! functions below, all reading an index window `[lo, hi)` of one character
//! sequence; [`endpoint_of_text`] is the whole grammar, and the executable
//! parser is proved to decide it exactly.

use vstd::prelude::*;
use vstd::string::StrSliceExecFns;

verus! {

/// An IP address held as plain numeric parts.
#[derive(Clone, Copy, PartialEq, Eq, Structural, Debug)]
pub enum IpRepr {
    /// The four dotted-decimal octets, left to right.
    V4 { a: u8, b: u8, c: u8, d: u8 },
    /// The eight hexadecimal groups, left to right.
    V6 { g0: u16, g1: u16, g2: u16, g3: u16, g4: u16, g5: u16, g6: u16, g7: u16 },
}

/// An IP address and port pair naming the server to connect to.
#[derive(Clone, Copy, PartialEq, Eq, Structural, Debug)]
pub struct ServerEndpoint {
    pub ip: IpRepr,
    pub port: u16,
}

/// A fatal error raised synchronously while setting a session up.
#[derive(Clone, Copy, PartialEq, Eq, Structural, Debug)]
pub enum SetupError {
    /// The supplied server address string does not follow the address
    /// grammar.
    InvalidAddress,
}

/// The data a fresh connection attempt authenticates with: where to connect,
/// as whom, under which protocol identifier, and optional opaque user data.
/// Built fresh per attempt and never persisted.
#[derive(PartialEq, Eq, Debug)]
pub struct AuthToken {
    pub endpoint: ServerEndpoint,
    pub client_id: u64,
    pub user_data: Option<Vec<u8>>,
    pub protocol_id: u64,
}

pub open spec fn is_dec_digit(c: char) -> bool {
    '0' <= c && c <= '9'
}

pub open spec fn dec_digit_val(c: char) -> int {
    (c as u32) - ('0' as u32)
}

pub open spec fn is_hex_digit(c: char) -> bool {
    is_dec_digit(c) || ('a' <= c && c <= 'f') || ('A' <= c && c <= 'F')
}

pub open spec fn hex_digit_val(c: char) -> int {
    if is_dec_digit(c) {
        dec_digit_val(c)
    } else if 'a' <= c && c <= 'f' {
        10 + (c as u32) - ('a' as u32)
    } else {
        10 + (c as u32) - ('A' as u32)
    }
}

/// The value of the decimal digits in `[lo, hi)`.
pub open spec fn dec_value_in(s: Seq<char>, lo: int, hi: int) -> int
    decreases hi - lo,
{
    if hi <= lo {
        0
    } else {
        10 * dec_value_in(s, lo, hi - 1) + dec_digit_val(s[hi - 1])
    }
}

/// The value of the hexadecimal digits in `[lo, hi)`.
pub open spec fn hex_value_in(s: Seq<char>, lo: int, hi: int) -> int
    decreases hi - lo,
{
    if hi <= lo {
        0
    } else {
        16 * hex_value_in(s, lo, hi - 1) + hex_digit_val(s[hi - 1])
    }
}

pub open spec fn all_dec_in(s: Seq<char>, lo: int, hi: int) -> bool {
    forall|j: int| lo <= j < hi ==> is_dec_digit(#[trigger] s[j])
}

pub open spec fn all_hex_in(s: Seq<char>, lo: int, hi: int) -> bool {
    forall|j: int| lo <= j < hi ==> is_hex_digit(#[trigger] s[j])
}

/// A decimal number in `[lo, hi)`: nonempty, digits only, no leading zero,
/// value at most `max`.
pub open spec fn valid_dec_in(s: Seq<char>, lo: int, hi: int, max: int) -> bool {
    lo < hi && all_dec_in(s, lo, hi) && (hi - lo == 1 || s[lo] != '0') && dec_value_in(s, lo, hi)
        <= max
}

/// A hexadecimal group in `[lo, hi)`: one to four hexadecimal digits.
pub open spec fn valid_group_in(s: Seq<char>, lo: int, hi: int) -> bool {
    lo < hi && hi - lo <= 4 && all_hex_in(s, lo, hi)
}

/// The first index in `[from, to)` holding `c`.
pub open spec fn find_in(s: Seq<char>, c: char, from: int, to: int) -> Option<int>
    decreases to - from,
{
    if from >= to {
        None
    } else if s[from] == c {
        Some(from)
    } else {
        find_in(s, c, from + 1, to)
    }
}

/// The first index `p` in `[from, to - 1)` where `::` starts.
pub open spec fn find_colon_pair_in(s: Seq<char>, from: int, to: int) -> Option<int>
    decreases to - from,
{
    if from + 1 >= to {
        None
    } else if s[from] == ':' && s[from + 1] == ':' {
        Some(from)
    } else {
        find_colon_pair_in(s, from + 1, to)
    }
}

/// The values of the `:`-separated hexadecimal groups filling `[lo, hi)`
/// exactly, or `None` where the window is not such a list. With `quad_tail`
/// the last piece may instead be an embedded dotted-decimal IPv4 address,
/// standing for two groups.
pub open spec fn groups_value_in(s: Seq<char>, lo: int, hi: int, quad_tail: bool) -> Option<
    Seq<u16>,
>
    decreases hi - lo,
{
    if lo >= hi {
        None
    } else {
        match find_in(s, ':', lo, hi) {
            None => if valid_group_in(s, lo, hi) {
                Some(seq![hex_value_in(s, lo, hi) as u16])
            } else if quad_tail {
                match v4_octets_in(s, lo, hi) {
                    Some(o) => Some(seq![(o.0 * 256 + o.1) as u16, (o.2 * 256 + o.3) as u16]),
                    None => None,
                }
            } else {
                None
            },
            Some(p) => if !(lo <= p < hi) {
                None
            } else if valid_group_in(s, lo, p) {
                match groups_value_in(s, p + 1, hi, quad_tail) {
                    Some(rest) => Some(seq![hex_value_in(s, lo, p) as u16] + rest),
                    None => None,
                }
            } else {
                None
            },
        }
    }
}

/// Group values of one side of a `::`: the empty window stands for no groups.
pub open spec fn side_groups_in(s: Seq<char>, lo: int, hi: int, quad_tail: bool) -> Option<
    Seq<u16>,
> {
    if lo >= hi {
        Some(Seq::<u16>::empty())
    } else {
        groups_value_in(s, lo, hi, quad_tail)
    }
}

/// The eight group values of the IPv6 address text in `[lo, hi)`: either
/// eight groups in full, or two shorter sides of one `::` with zero groups
/// between them.
pub open spec fn v6_groups_in(s: Seq<char>, lo: int, hi: int) -> Option<Seq<u16>> {
    match find_colon_pair_in(s, lo, hi) {
        None => match groups_value_in(s, lo, hi, true) {
            Some(gs) => if gs.len() == 8 {
                Some(gs)
            } else {
                None
            },
            None => None,
        },
        Some(p) => if !(lo <= p && p + 2 <= hi) {
            None
        } else if find_colon_pair_in(s, p + 2, hi) is Some {
            None
        } else {
            match (side_groups_in(s, lo, p, false), side_groups_in(s, p + 2, hi, true)) {
                (Some(a), Some(b)) => if a.len() + b.len() <= 7 {
                    Some(a + Seq::new((8 - a.len() - b.len()) as nat, |i| 0u16) + b)
                } else {
                    None
                },
                _ => None,
            }
        },
    }
}

/// The four octet values of the dotted-decimal IPv4 address text in
/// `[lo, hi)`.
pub open spec fn v4_octets_in(s: Seq<char>, lo: int, hi: int) -> Option<(int, int, int, int)> {
    match find_in(s, '.', lo, hi) {
        None => None,
        Some(d1) => match find_in(s, '.', d1 + 1, hi) {
            None => None,
            Some(d2) => match find_in(s, '.', d2 + 1, hi) {
                None => None,
                Some(d3) => if find_in(s, '.', d3 + 1, hi) is Some {
                    None
                } else if valid_dec_in(s, lo, d1, 255) && valid_dec_in(s, d1 + 1, d2, 255)
                    && valid_dec_in(s, d2 + 1, d3, 255) && valid_dec_in(s, d3 + 1, hi, 255) {
                    Some(
                        (
                            dec_value_in(s, lo, d1),
                            dec_value_in(s, d1 + 1, d2),
                            dec_value_in(s, d2 + 1, d3),
                            dec_value_in(s, d3 + 1, hi),
                        ),
                    )
                } else {
                    None
                },
            },
        },
    }
}

/// The address built from eight group values.
pub open spec fn ip_v6_of(gs: Seq<u16>) -> IpRepr {
    IpRepr::V6 {
        g0: gs[0],
        g1: gs[1],
        g2: gs[2],
        g3: gs[3],
        g4: gs[4],
        g5: gs[5],
        g6: gs[6],
        g7: gs[7],
    }
}

/// The whole address grammar: the endpoint a text denotes, or `None` where
/// the text follows neither the bracketed IPv6 form nor the IPv4 form.
pub open spec fn endpoint_of_text(s: Seq<char>) -> Option<ServerEndpoint> {
    let n = s.len() as int;
    if n == 0 {
        None
    } else if s[0] == '[' {
        match find_in(s, ']', 0, n) {
            None => None,
            Some(rb) => if rb + 1 < n && s[rb + 1] == ':' && valid_dec_in(s, rb + 2, n, 65535) {
                match v6_groups_in(s, 1, rb) {
                    Some(gs) => Some(
                        (ServerEndpoint {
                            ip: ip_v6_of(gs),
                            port: dec_value_in(s, rb + 2, n) as u16,
                        }),
                    ),
                    None => None,
                }
            } else {
                None
            },
        }
    } else {
        match find_in(s, ':', 0, n) {
            None => None,
            Some(cp) => if find_in(s, ':', cp + 1, n) is Some {
                None
            } else if valid_dec_in(s, cp + 1, n, 65535) {
                match v4_octets_in(s, 0, cp) {
                    Some(o) => Some(
                        (ServerEndpoint {
                            ip: IpRepr::V4 {
                                a: o.0 as u8,
                                b: o.1 as u8,
                                c: o.2 as u8,
                                d: o.3 as u8,
                            },
                            port: dec_value_in(s, cp + 1, n) as u16,
                        }),
                    ),
                    None => None,
                }
            } else {
                None
            },
        }
    }
}

proof fn lemma_dec_value_nonneg(s: Seq<char>, lo: int, hi: int)
    requires
        all_dec_in(s, lo, hi),
    ensures
        dec_value_in(s, lo, hi) >= 0,
    decreases hi - lo,
{
    if hi > lo {
        lemma_dec_value_nonneg(s, lo, hi - 1);
    }
}

/// Appending digits never lowers the value.
proof fn lemma_dec_value_mono(s: Seq<char>, lo: int, mid: int, hi: int)
    requires
        lo <= mid <= hi,
        all_dec_in(s, lo, hi),
    ensures
        dec_value_in(s, lo, hi) >= dec_value_in(s, lo, mid),
    decreases hi - mid,
{
    if mid < hi {
        lemma_dec_value_mono(s, lo, mid, hi - 1);
        lemma_dec_value_nonneg(s, lo, hi - 1);
    }
}

proof fn lemma_hex_value_bound(s: Seq<char>, lo: int, hi: int)
    requires
        all_hex_in(s, lo, hi),
    ensures
        0 <= hex_value_in(s, lo, hi),
        hi - lo <= 1 ==> hex_value_in(s, lo, hi) < 0x10,
        hi - lo <= 2 ==> hex_value_in(s, lo, hi) < 0x100,
        hi - lo <= 3 ==> hex_value_in(s, lo, hi) < 0x1000,
        hi - lo <= 4 ==> hex_value_in(s, lo, hi) < 0x10000,
    decreases hi - lo,
{
    if hi > lo {
        lemma_hex_value_bound(s, lo, hi - 1);
    }
}

/// The first match in `[from, to)`, found by scanning from `from`.
fn find_from(s: &str, c: char, from: usize, to: usize) -> (r: Option<usize>)
    requires
        from <= to <= s@.len(),
    ensures
        match r {
            Some(i) => from <= i < to && s@[i as int] == c && find_in(s@, c, from as int, to as int)
                == Some(i as int),
            None => find_in(s@, c, from as int, to as int) is None,
        },
{
    let mut i = from;
    while i < to
        invariant
            from <= i <= to <= s@.len(),
            find_in(s@, c, from as int, to as int) == find_in(s@, c, i as int, to as int),
        decreases to - i,
    {
        if s.get_char(i) == c {
            return Some(i);
        }
        i += 1;
    }
    None
}

/// The first start of `::` in `[from, to)`, found by scanning from `from`.
fn find_colon_pair_from(s: &str, from: usize, to: usize) -> (r: Option<usize>)
    requires
        from <= to <= s@.len(),
    ensures
        match r {
            Some(i) => from <= i && i + 2 <= to && find_colon_pair_in(s@, from as int, to as int)
                == Some(i as int),
            None => find_colon_pair_in(s@, from as int, to as int) is None,
        },
{
    let mut i = from;
    while to - i > 1
        invariant
            from <= i <= to <= s@.len(),
            find_colon_pair_in(s@, from as int, to as int) == find_colon_pair_in(
                s@,
                i as int,
                to as int,
            ),
        decreases to - i,
    {
        if s.get_char(i) == ':' && s.get_char(i + 1) == ':' {
            return Some(i);
        }
        i += 1;
    }
    None
}

/// Decides `valid_dec_in` on `[lo, hi)` and returns the value.
fn parse_dec(s: &str, lo: usize, hi: usize, max: u32) -> (r: Option<u32>)
    requires
        lo <= hi <= s@.len(),
        max <= 0xffff,
    ensures
        match r {
            Some(v) => valid_dec_in(s@, lo as int, hi as int, max as int) && v == dec_value_in(
                s@,
                lo as int,
                hi as int,
            ),
            None => !valid_dec_in(s@, lo as int, hi as int, max as int),
        },
{
    if lo == hi {
        return None;
    }
    if hi - lo > 1 && s.get_char(lo) == '0' {
        return None;
    }
    let mut acc: u32 = 0;
    let mut i = lo;
    while i < hi
        invariant
            lo <= i <= hi <= s@.len(),
            max <= 0xffff,
            all_dec_in(s@, lo as int, i as int),
            acc == dec_value_in(s@, lo as int, i as int),
            acc <= max,
        decreases hi - i,
    {
        let ch = s.get_char(i);
        if !('0' <= ch && ch <= '9') {
            return None;
        }
        let d: u32 = (ch as u32) - ('0' as u32);
        acc = acc * 10 + d;
        i += 1;
        if acc > max {
            proof {
                if all_dec_in(s@, lo as int, hi as int) {
                    lemma_dec_value_mono(s@, lo as int, i as int, hi as int);
                }
            }
            return None;
        }
    }
    Some(acc)
}

/// Decides `valid_group_in` on `[lo, hi)` and returns the group value.
fn parse_hex_group(s: &str, lo: usize, hi: usize) -> (r: Option<u16>)
    requires
        lo <= hi <= s@.len(),
    ensures
        match r {
            Some(v) => valid_group_in(s@, lo as int, hi as int) && v == hex_value_in(
                s@,
                lo as int,
                hi as int,
            ),
            None => !valid_group_in(s@, lo as int, hi as int),
        },
{
    if lo == hi || hi - lo > 4 {
        return None;
    }
    let mut acc: u32 = 0;
    let mut i = lo;
    while i < hi
        invariant
            lo <= i <= hi <= s@.len(),
            hi - lo <= 4,
            all_hex_in(s@, lo as int, i as int),
            acc == hex_value_in(s@, lo as int, i as int),
            acc < 0x10000,
        decreases hi - i,
    {
        let ch = s.get_char(i);
        let d: u32 = if '0' <= ch && ch <= '9' {
            (ch as u32) - ('0' as u32)
        } else if 'a' <= ch && ch <= 'f' {
            10 + (ch as u32) - ('a' as u32)
        } else if 'A' <= ch && ch <= 'F' {
            10 + (ch as u32) - ('A' as u32)
        } else {
            return None;
        };
        acc = acc * 16 + d;
        i += 1;
        proof {
            lemma_hex_value_bound(s@, lo as int, i as int);
        }
    }
    Some(acc as u16)
}

/// Decides `groups_value_in` on `[lo, hi)` and returns the group values.
fn parse_groups(s: &str, lo: usize, hi: usize, quad_tail: bool) -> (r: Option<Vec<u16>>)
    requires
        lo <= hi <= s@.len(),
    ensures
        match groups_value_in(s@, lo as int, hi as int, quad_tail) {
            Some(gs) => r matches Some(v) && v@ == gs,
            None => r is None,
        },
{
    let mut out: Vec<u16> = Vec::new();
    let mut cur = lo;
    loop
        invariant_except_break
            (match groups_value_in(s@, cur as int, hi as int, quad_tail) {
                Some(rest) => groups_value_in(s@, lo as int, hi as int, quad_tail) == Some(
                    out@ + rest,
                ),
                None => groups_value_in(s@, lo as int, hi as int, quad_tail) is None,
            }),
        invariant
            lo <= cur <= hi <= s@.len(),
        ensures
            (match groups_value_in(s@, lo as int, hi as int, quad_tail) {
                Some(gs) => out@ == gs,
                None => false,
            }),
        decreases hi - cur,
    {
        match find_from(s, ':', cur, hi) {
            None => {
                match parse_hex_group(s, cur, hi) {
                    Some(v) => {
                        proof {
                            assert(groups_value_in(s@, cur as int, hi as int, quad_tail) == Some(
                                seq![hex_value_in(s@, cur as int, hi as int) as u16],
                            ));
                            assert(out@ + seq![v] =~= out@.push(v));
                        }
                        out.push(v);
                        break ;
                    },
                    None => {
                        if !quad_tail {
                            return None;
                        }
                        match parse_v4_octets(s, cur, hi) {
                            Some((a, b, c, d)) => {
                                let g1: u16 = (a as u16) * 256 + (b as u16);
                                let g2: u16 = (c as u16) * 256 + (d as u16);
                                proof {
                                    assert(out@ + seq![g1, g2] =~= out@.push(g1).push(g2));
                                }
                                out.push(g1);
                                out.push(g2);
                                break ;
                            },
                            None => {
                                return None;
                            },
                        }
                    },
                }
            },
            Some(p) => {
                match parse_hex_group(s, cur, p) {
                    Some(v) => {
                        proof {
                            match groups_value_in(s@, p + 1, hi as int, quad_tail) {
                                Some(rest) => {
                                    assert(groups_value_in(s@, cur as int, hi as int, quad_tail)
                                        == Some(seq![v] + rest));
                                    assert(out@ + (seq![v] + rest) =~= out@.push(v) + rest);
                                },
                                None => {},
                            }
                        }
                        out.push(v);
                        cur = p + 1;
                    },
                    None => {
                        return None;
                    },
                }
            },
        }
    }
    Some(out)
}

/// Decides `v6_groups_in` on `[lo, hi)` and builds the address.
fn parse_v6(s: &str, lo: usize, hi: usize) -> (r: Option<IpRepr>)
    requires
        lo <= hi <= s@.len(),
    ensures
        match v6_groups_in(s@, lo as int, hi as int) {
            Some(gs) => r == Some(ip_v6_of(gs)),
            None => r is None,
        },
{
    match find_colon_pair_from(s, lo, hi) {
        None => {
            match parse_groups(s, lo, hi, true) {
                Some(v) => {
                    if v.len() == 8 {
                        Some(
                            IpRepr::V6 {
                                g0: v[0],
                                g1: v[1],
                                g2: v[2],
                                g3: v[3],
                                g4: v[4],
                                g5: v[5],
                                g6: v[6],
                                g7: v[7],
                            },
                        )
                    } else {
                        None
                    }
                },
                None => None,
            }
        },
        Some(p) => {
            if find_colon_pair_from(s, p + 2, hi).is_some() {
                return None;
            }
            let left: Option<Vec<u16>> = if lo == p {
                Some(Vec::new())
            } else {
                parse_groups(s, lo, p, false)
            };
            let right: Option<Vec<u16>> = if p + 2 == hi {
                Some(Vec::new())
            } else {
                parse_groups(s, p + 2, hi, true)
            };
            match (left, right) {
                (Some(a), Some(b)) => {
                    if a.len() <= 7 && b.len() <= 7 - a.len() {
                        let mut all: Vec<u16> = Vec::new();
                        let mut k: usize = 0;
                        while k < a.len()
                            invariant
                                k <= a.len(),
                                all@ == a@.subrange(0, k as int),
                            decreases a.len() - k,
                        {
                            all.push(a[k]);
                            proof {
                                assert(all@ =~= a@.subrange(0, k + 1 as int));
                            }
                            k += 1;
                        }
                        proof {
                            assert(all@ =~= a@);
                        }
                        let zeros = 8 - a.len() - b.len();
                        let mut z: usize = 0;
                        while z < zeros
                            invariant
                                z <= zeros,
                                zeros == 8 - a@.len() - b@.len(),
                                all@ == a@ + Seq::new(z as nat, |i| 0u16),
                            decreases zeros - z,
                        {
                            all.push(0);
                            proof {
                                assert(all@ =~= a@ + Seq::new((z + 1) as nat, |i| 0u16));
                            }
                            z += 1;
                        }
                        let mut m: usize = 0;
                        while m < b.len()
                            invariant
                                m <= b.len(),
                                all@ == a@ + Seq::new((8 - a@.len() - b@.len()) as nat, |i| 0u16)
                                    + b@.subrange(0, m as int),
                            decreases b.len() - m,
                        {
                            all.push(b[m]);
                            proof {
                                assert(all@ =~= a@ + Seq::new(
                                    (8 - a@.len() - b@.len()) as nat,
                                    |i| 0u16,
                                ) + b@.subrange(0, m + 1 as int));
                            }
                            m += 1;
                        }
                        proof {
                            assert(b@.subrange(0, b@.len() as int) =~= b@);
                            assert(all@ =~= a@ + Seq::new(
                                (8 - a@.len() - b@.len()) as nat,
                                |i| 0u16,
                            ) + b@);
                            assert(all@.len() == 8);
                        }
                        Some(
                            IpRepr::V6 {
                                g0: all[0],
                                g1: all[1],
                                g2: all[2],
                                g3: all[3],
                                g4: all[4],
                                g5: all[5],
                                g6: all[6],
                                g7: all[7],
                            },
                        )
                    } else {
                        None
                    }
                },
                _ => None,
            }
        },
    }
}

/// Decides `v4_octets_in` on `[lo, hi)` and returns the four octet values.
fn parse_v4_octets(s: &str, lo: usize, hi: usize) -> (r: Option<(u8, u8, u8, u8)>)
    requires
        lo <= hi <= s@.len(),
    ensures
        match r {
            Some(o) => v4_octets_in(s@, lo as int, hi as int) == Some(
                ((o.0 as int, o.1 as int, o.2 as int, o.3 as int)),
            ),
            None => v4_octets_in(s@, lo as int, hi as int) is None,
        },
{
    let d1 = match find_from(s, '.', lo, hi) {
        Some(d) => d,
        None => {
            return None;
        },
    };
    let d2 = match find_from(s, '.', d1 + 1, hi) {
        Some(d) => d,
        None => {
            return None;
        },
    };
    let d3 = match find_from(s, '.', d2 + 1, hi) {
        Some(d) => d,
        None => {
            return None;
        },
    };
    if find_from(s, '.', d3 + 1, hi).is_some() {
        return None;
    }
    let a = match parse_dec(s, lo, d1, 255) {
        Some(v) => v,
        None => {
            return None;
        },
    };
    let b = match parse_dec(s, d1 + 1, d2, 255) {
        Some(v) => v,
        None => {
            return None;
        },
    };
    let c = match parse_dec(s, d2 + 1, d3, 255) {
        Some(v) => v,
        None => {
            return None;
        },
    };
    let d = match parse_dec(s, d3 + 1, hi, 255) {
        Some(v) => v,
        None => {
            return None;
        },
    };
    Some((a as u8, b as u8, c as u8, d as u8))
}

/// Parses a textual server address. Returns the endpoint the text denotes
/// under the address grammar, and the one setup error exactly on the texts
/// the grammar refuses.
pub fn parse_server_endpoint(s: &str) -> (r: Result<ServerEndpoint, SetupError>)
    ensures
        match r {
            Ok(ep) => endpoint_of_text(s@) == Some(ep),
            Err(e) => e == SetupError::InvalidAddress && endpoint_of_text(s@) is None,
        },
{
    let n = s.unicode_len();
    if n == 0 {
        return Err(SetupError::InvalidAddress);
    }
    if s.get_char(0) == '[' {
        let rb = match find_from(s, ']', 0, n) {
            Some(i) => i,
            None => {
                return Err(SetupError::InvalidAddress);
            },
        };
        if rb + 1 >= n || s.get_char(rb + 1) != ':' {
            return Err(SetupError::InvalidAddress);
        }
        let port = match parse_dec(s, rb + 2, n, 65535) {
            Some(p) => p,
            None => {
                return Err(SetupError::InvalidAddress);
            },
        };
        match parse_v6(s, 1, rb) {
            Some(ip) => Ok(ServerEndpoint { ip, port: port as u16 }),
            None => Err(SetupError::InvalidAddress),
        }
    } else {
        let cp = match find_from(s, ':', 0, n) {
            Some(i) => i,
            None => {
                return Err(SetupError::InvalidAddress);
            },
        };
        if find_from(s, ':', cp + 1, n).is_some() {
            return Err(SetupError::InvalidAddress);
        }
        let port = match parse_dec(s, cp + 1, n, 65535) {
            Some(p) => p,
            None => {
                return Err(SetupError::InvalidAddress);
            },
        };
        match parse_v4_octets(s, 0, cp) {
            Some((a, b, c, d)) => Ok(
                ServerEndpoint { ip: IpRepr::V4 { a, b, c, d }, port: port as u16 },
            ),
            None => Err(SetupError::InvalidAddress),
        }
    }
}

} // verus!
