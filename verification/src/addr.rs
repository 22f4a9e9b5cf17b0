//! Dotted-quad IPv4 address literals: the grammar, and a parser for it.
//!
//! A literal is four groups separated by single dots with nothing before,
//! between, or after; each group is one to three ASCII digits, carries no
//! surplus leading zero, and names a value at most 255.

use vstd::prelude::*;

verus! {

/// ASCII code of `'.'`.
pub const DOT: u8 = 46;

/// ASCII code of `'0'`.
pub const DIGIT_0: u8 = 48;

/// ASCII code of `'9'`.
pub const DIGIT_9: u8 = 57;

/// Whether `b` is an ASCII decimal digit.
pub open spec fn is_ascii_digit(b: u8) -> bool {
    DIGIT_0 <= b <= DIGIT_9
}

/// Numeric value of the ASCII digit `b`.
pub open spec fn digit_value(b: u8) -> int
    recommends
        is_ascii_digit(b),
{
    b - DIGIT_0
}

/// Length of the run of ASCII digits that starts at offset `i` of `b`.
pub open spec fn digit_run_len(b: Seq<u8>, i: int) -> int
    recommends
        0 <= i <= b.len(),
    decreases b.len() - i when 0 <= i <= b.len()
{
    if i < b.len() && is_ascii_digit(b[i]) {
        1 + digit_run_len(b, i + 1)
    } else {
        0
    }
}

/// Offset just past the digit run that starts at offset `i`.
pub open spec fn group_end(b: Seq<u8>, i: int) -> int {
    i + digit_run_len(b, i)
}

/// The digit run that starts at offset `i`, as its own sequence.
pub open spec fn group_at(b: Seq<u8>, i: int) -> Seq<u8> {
    b.subrange(i, group_end(b, i))
}

/// Numeric value of a group of one to three digits.
pub open spec fn group_value(g: Seq<u8>) -> int
    recommends
        1 <= g.len() <= 3,
        forall|j: int| 0 <= j < g.len() ==> is_ascii_digit(g[j]),
{
    if g.len() == 1 {
        digit_value(g[0])
    } else if g.len() == 2 {
        10 * digit_value(g[0]) + digit_value(g[1])
    } else {
        100 * digit_value(g[0]) + 10 * digit_value(g[1]) + digit_value(g[2])
    }
}

/// A well-formed dotted-quad group: one to three digits, no surplus
/// leading zero, value at most 255.
pub open spec fn is_octet_group(g: Seq<u8>) -> bool {
    &&& 1 <= g.len() <= 3
    &&& (forall|j: int| 0 <= j < g.len() ==> is_ascii_digit(g[j]))
    &&& (g.len() > 1 ==> g[0] != DIGIT_0)
    &&& group_value(g) <= 255
}

/// The octets named by the dotted-quad IPv4 literal `b`, or `None` when
/// `b` is not one. Each group is the maximal digit run at its position,
/// so any stray character, missing group, or trailing text rejects.
pub open spec fn ipv4_octets(b: Seq<u8>) -> Option<Seq<u8>> {
    let e0 = group_end(b, 0);
    let g0 = group_at(b, 0);
    if !(is_octet_group(g0) && e0 < b.len() && b[e0] == DOT) {
        None
    } else {
        let e1 = group_end(b, e0 + 1);
        let g1 = group_at(b, e0 + 1);
        if !(is_octet_group(g1) && e1 < b.len() && b[e1] == DOT) {
            None
        } else {
            let e2 = group_end(b, e1 + 1);
            let g2 = group_at(b, e1 + 1);
            if !(is_octet_group(g2) && e2 < b.len() && b[e2] == DOT) {
                None
            } else {
                let e3 = group_end(b, e2 + 1);
                let g3 = group_at(b, e2 + 1);
                if !(is_octet_group(g3) && e3 == b.len()) {
                    None
                } else {
                    Some(
                        seq![
                            group_value(g0) as u8,
                            group_value(g1) as u8,
                            group_value(g2) as u8,
                            group_value(g3) as u8,
                        ],
                    )
                }
            }
        }
    }
}

/// Scans the digit run that starts at offset `i` and returns the group's
/// value with the offset just past it, or `None` when the run is not a
/// well-formed group.
fn parse_group(b: &[u8], i: usize) -> (r: Option<(u8, usize)>)
    requires
        i <= b@.len(),
    ensures
        match r {
            Some(v) => {
                &&& v.1 == group_end(b@, i as int)
                &&& i < v.1 <= b@.len()
                &&& is_octet_group(group_at(b@, i as int))
                &&& v.0 == group_value(group_at(b@, i as int))
            },
            None => !is_octet_group(group_at(b@, i as int)),
        },
{
    let mut j = i;
    while j < b.len() && b[j] >= DIGIT_0 && b[j] <= DIGIT_9
        invariant
            i <= j <= b@.len(),
            forall|k: int| i <= k < j ==> is_ascii_digit(b@[k]),
            digit_run_len(b@, i as int) == (j - i) + digit_run_len(b@, j as int),
        decreases b@.len() - j,
    {
        proof {
            assert(digit_run_len(b@, j as int) == 1 + digit_run_len(b@, j as int + 1));
        }
        j = j + 1;
    }
    proof {
        assert(digit_run_len(b@, j as int) == 0);
        assert(group_at(b@, i as int).len() == j - i);
    }
    let len = j - i;
    if len == 0 || len > 3 {
        return None;
    }
    if len > 1 && b[i] == DIGIT_0 {
        proof {
            assert(group_at(b@, i as int)[0] == b@[i as int]);
        }
        return None;
    }
    let value: u32 = if len == 1 {
        (b[i] - DIGIT_0) as u32
    } else if len == 2 {
        10 * ((b[i] - DIGIT_0) as u32) + ((b[i + 1] - DIGIT_0) as u32)
    } else {
        100 * ((b[i] - DIGIT_0) as u32) + 10 * ((b[i + 1] - DIGIT_0) as u32) + ((b[i + 2]
            - DIGIT_0) as u32)
    };
    proof {
        let g = group_at(b@, i as int);
        assert(forall|k: int| 0 <= k < g.len() ==> g[k] == b@[i + k]);
        assert(value == group_value(g));
    }
    if value > 255 {
        None
    } else {
        Some((value as u8, j))
    }
}

/// Parses a dotted-quad IPv4 literal into its four octets.
pub fn parse_ipv4(b: &[u8]) -> (r: Option<[u8; 4]>)
    ensures
        r matches Some(octets) ==> ipv4_octets(b@) == Some(octets@),
        r is None ==> ipv4_octets(b@) is None,
{
    let (v0, e0) = match parse_group(b, 0) {
        None => {
            return None;
        },
        Some(x) => x,
    };
    if e0 >= b.len() || b[e0] != DOT {
        return None;
    }
    let (v1, e1) = match parse_group(b, e0 + 1) {
        None => {
            return None;
        },
        Some(x) => x,
    };
    if e1 >= b.len() || b[e1] != DOT {
        return None;
    }
    let (v2, e2) = match parse_group(b, e1 + 1) {
        None => {
            return None;
        },
        Some(x) => x,
    };
    if e2 >= b.len() || b[e2] != DOT {
        return None;
    }
    let (v3, e3) = match parse_group(b, e2 + 1) {
        None => {
            return None;
        },
        Some(x) => x,
    };
    if e3 != b.len() {
        return None;
    }
    let octets = [v0, v1, v2, v3];
    proof {
        assert(octets@ =~= seq![v0, v1, v2, v3]);
    }
    Some(octets)
}

} // verus!
