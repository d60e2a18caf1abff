//! Parsing of the datagram destination, written `IP:PORT` with a dotted-quad
//! IPv4 address.
//!
//! The accepted grammar: four decimal octets (no leading zeros, value at
//! most 255) separated by dots (ASCII 46), then a colon (ASCII 58) and a
//! decimal port (no leading zeros, value at most 65535).  Anything else is
//! rejected, before any bus access is attempted.

use vstd::prelude::*;

verus! {

/// A validated datagram destination.
#[derive(Clone, Copy, Debug, PartialEq, Eq, Structural)]
pub struct Endpoint {
    pub a: u8,
    pub b: u8,
    pub c: u8,
    pub d: u8,
    pub port: u16,
}

/// ASCII decimal digit.
pub open spec fn is_digit(c: u8) -> bool {
    48 <= c <= 57
}

/// First position at or after `from` that does not hold a digit (the length
/// of the text if every remaining byte is a digit).
pub open spec fn digit_run_end(s: Seq<u8>, from: int) -> int
    decreases s.len() - from,
{
    if from < 0 || from >= s.len() {
        s.len() as int
    } else if !is_digit(s[from]) {
        from
    } else {
        digit_run_end(s, from + 1)
    }
}

/// A canonical decimal representation: non-empty, all digits, and no
/// leading zero unless the number is the single digit `0`.
pub open spec fn dec_rep(s: Seq<u8>) -> bool {
    &&& s.len() >= 1
    &&& forall|i: int| 0 <= i < s.len() ==> is_digit(#[trigger] s[i])
    &&& (s.len() > 1 ==> s[0] != 48)
}

/// The value of a decimal digit string.
pub open spec fn dec_val(s: Seq<u8>) -> int
    decreases s.len(),
{
    if s.len() == 0 {
        0
    } else {
        dec_val(s.drop_last()) * 10 + (s.last() - 48)
    }
}

/// A canonical decimal octet: value at most 255.
pub open spec fn octet_ok(s: Seq<u8>) -> bool {
    dec_rep(s) && dec_val(s) <= 255
}

/// A canonical decimal port: value at most 65535.
pub open spec fn port_ok(s: Seq<u8>) -> bool {
    dec_rep(s) && dec_val(s) <= 65535
}

/// What parsing a destination text yields: the endpoint if the text is a
/// well-formed `A.B.C.D:PORT`, nothing otherwise.
pub open spec fn endpoint_of(s: Seq<u8>) -> Option<Endpoint> {
    let p1 = digit_run_end(s, 0);
    let p2 = digit_run_end(s, p1 + 1);
    let p3 = digit_run_end(s, p2 + 1);
    let pc = digit_run_end(s, p3 + 1);
    if p1 < s.len() && s[p1] == 46 && p2 < s.len() && s[p2] == 46 && p3 < s.len() && s[p3] == 46
        && pc < s.len() && s[pc] == 58 && octet_ok(s.subrange(0, p1)) && octet_ok(
        s.subrange(p1 + 1, p2),
    ) && octet_ok(s.subrange(p2 + 1, p3)) && octet_ok(s.subrange(p3 + 1, pc)) && port_ok(
        s.subrange(pc + 1, s.len() as int),
    ) {
        Some(
            Endpoint {
                a: dec_val(s.subrange(0, p1)) as u8,
                b: dec_val(s.subrange(p1 + 1, p2)) as u8,
                c: dec_val(s.subrange(p2 + 1, p3)) as u8,
                d: dec_val(s.subrange(p3 + 1, pc)) as u8,
                port: dec_val(s.subrange(pc + 1, s.len() as int)) as u16,
            },
        )
    } else {
        None
    }
}

/// A digit string has a nonnegative value.
proof fn lemma_dec_val_nonneg(s: Seq<u8>)
    requires
        forall|i: int| 0 <= i < s.len() ==> is_digit(#[trigger] s[i]),
    ensures
        dec_val(s) >= 0,
    decreases s.len(),
{
    if s.len() > 0 {
        lemma_dec_val_nonneg(s.drop_last());
    }
}

/// Extending a digit string to the right never decreases its value.
proof fn lemma_dec_val_prefix(u: Seq<u8>, k: int)
    requires
        forall|i: int| 0 <= i < u.len() ==> is_digit(#[trigger] u[i]),
        0 <= k <= u.len(),
    ensures
        dec_val(u.take(k)) <= dec_val(u),
    decreases u.len(),
{
    if k == u.len() {
        assert(u.take(k) =~= u);
    } else {
        let dl = u.drop_last();
        lemma_dec_val_prefix(dl, k);
        lemma_dec_val_nonneg(dl);
        assert(u.take(k) =~= dl.take(k));
    }
}

/// Scan the digit run starting at `from`.
#[verifier::loop_isolation(false)]
fn digit_run(s: &Vec<u8>, from: usize) -> (r: usize)
    requires
        from <= s@.len(),
    ensures
        r == digit_run_end(s@, from as int),
        from <= r <= s@.len(),
{
    let mut i = from;
    while i < s.len() && s[i] >= 48 && s[i] <= 57
        invariant
            from <= i <= s@.len(),
            digit_run_end(s@, from as int) == digit_run_end(s@, i as int),
        decreases s@.len() - i,
    {
        i = i + 1;
    }
    i
}

/// Parse the decimal text in `[from, to)` as a number of at most `max`.
/// Yields the value exactly when the text is a canonical decimal
/// representation within the bound.
#[verifier::loop_isolation(false)]
fn parse_decimal(s: &Vec<u8>, from: usize, to: usize, max: u32) -> (r: Option<u32>)
    requires
        from <= to <= s@.len(),
        max <= 65535,
    ensures
        ({
            let sub = s@.subrange(from as int, to as int);
            match r {
                Some(v) => dec_rep(sub) && dec_val(sub) <= max && v == dec_val(sub),
                None => !(dec_rep(sub) && dec_val(sub) <= max),
            }
        }),
{
    let ghost sub = s@.subrange(from as int, to as int);
    if to == from {
        return None;
    }
    if to - from > 1 && s[from] == 48 {
        return None;
    }
    let mut v: u32 = 0;
    let mut i = from;
    while i < to
        invariant
            from <= i <= to,
            forall|j: int| from <= j < i ==> is_digit(#[trigger] s@[j]),
            v == dec_val(s@.subrange(from as int, i as int)),
            v <= max,
        decreases to - i,
    {
        let c = s[i];
        if c < 48 || c > 57 {
            assert(!is_digit(sub[i - from]));
            return None;
        }
        let v2 = v * 10 + (c - 48) as u32;
        proof {
            assert(s@.subrange(from as int, i + 1).drop_last() =~= s@.subrange(
                from as int,
                i as int,
            ));
        }
        if v2 > max {
            proof {
                assert(forall|j: int|
                    0 <= j < sub.len() && !is_digit(#[trigger] sub[j]) ==> !dec_rep(sub));
                if forall|j: int| 0 <= j < sub.len() ==> is_digit(#[trigger] sub[j]) {
                    lemma_dec_val_prefix(sub, i + 1 - from);
                    assert(sub.take(i + 1 - from) =~= s@.subrange(from as int, i + 1));
                }
            }
            return None;
        }
        v = v2;
        i = i + 1;
    }
    proof {
        assert(s@.subrange(from as int, to as int) =~= sub);
    }
    Some(v)
}

/// Parse a destination written `A.B.C.D:PORT`.  Accepts exactly the texts
/// the grammar allows and yields exactly the denoted endpoint; a malformed
/// destination (a non-numeric field, an octet over 255, a port over 65535)
/// is rejected.
pub fn parse_endpoint(s: &Vec<u8>) -> (r: Option<Endpoint>)
    ensures
        r == endpoint_of(s@),
{
    let p1 = digit_run(s, 0);
    if p1 >= s.len() || s[p1] != 46 {
        return None;
    }
    let p2 = digit_run(s, p1 + 1);
    if p2 >= s.len() || s[p2] != 46 {
        return None;
    }
    let p3 = digit_run(s, p2 + 1);
    if p3 >= s.len() || s[p3] != 46 {
        return None;
    }
    let pc = digit_run(s, p3 + 1);
    if pc >= s.len() || s[pc] != 58 {
        return None;
    }
    let a = match parse_decimal(s, 0, p1, 255) {
        Some(v) => v,
        None => {
            return None;
        },
    };
    let b = match parse_decimal(s, p1 + 1, p2, 255) {
        Some(v) => v,
        None => {
            return None;
        },
    };
    let c = match parse_decimal(s, p2 + 1, p3, 255) {
        Some(v) => v,
        None => {
            return None;
        },
    };
    let d = match parse_decimal(s, p3 + 1, pc, 255) {
        Some(v) => v,
        None => {
            return None;
        },
    };
    let port = match parse_decimal(s, pc + 1, s.len(), 65535) {
        Some(v) => v,
        None => {
            return None;
        },
    };
    Some(Endpoint { a: a as u8, b: b as u8, c: c as u8, d: d as u8, port: port as u16 })
}

} // verus!
