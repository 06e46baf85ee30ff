use vstd::prelude::*;
use vstd::string::StringSliceAdditionalSpecFns;

verus! {

/// An ASCII decimal digit.
pub open spec fn is_digit(b: u8) -> bool {
    48 <= b && b <= 57
}

/// The number written by the decimal digits `d`, most significant first.
pub open spec fn decimal_value(d: Seq<u8>) -> nat
    decreases d.len(),
{
    if d.len() == 0 {
        0
    } else {
        decimal_value(d.drop_last()) * 10 + (d.last() - 48) as nat
    }
}

/// The part of a segment that must be digits: all of it, less one leading `+`.
pub open spec fn digits_part(s: Seq<u8>) -> Seq<u8> {
    if s.len() > 0 && s[0] == 43 {
        s.drop_first()
    } else {
        s
    }
}

/// The id that a path segment denotes: one or more decimal digits, after an
/// optional `+`, whose value fits in a `u64`; none for anything else.
pub open spec fn segment_id(s: Seq<u8>) -> Option<u64> {
    let d = digits_part(s);
    if d.len() > 0 && (forall|i: int| 0 <= i < d.len() ==> is_digit(#[trigger] d[i]))
        && decimal_value(d) <= u64::MAX {
        Some(decimal_value(d) as u64)
    } else {
        None
    }
}

/// A prefix of a run of digits denotes at most what the whole run does.
proof fn lemma_prefix_value_le(d: Seq<u8>, j: int)
    requires
        0 <= j <= d.len(),
        forall|i: int| 0 <= i < d.len() ==> is_digit(#[trigger] d[i]),
    ensures
        decimal_value(d.subrange(0, j)) <= decimal_value(d),
    decreases d.len(),
{
    if j < d.len() {
        let p = d.drop_last();
        assert(d.subrange(0, j) =~= p.subrange(0, j));
        assert forall|i: int| 0 <= i < p.len() implies is_digit(#[trigger] p[i]) by {
            assert(p[i] == d[i]);
        }
        lemma_prefix_value_le(p, j);
    } else {
        assert(d.subrange(0, j) =~= d);
    }
}

/// Reads the id written in a URL path segment, given as its UTF-8 bytes.
pub fn parse_id(segment: &[u8]) -> (r: Option<u64>)
    ensures
        r == segment_id(segment@),
{
    let n = segment.len();
    let start: usize = if n > 0 && segment[0] == 43u8 {
        1
    } else {
        0
    };
    let ghost d = digits_part(segment@);
    assert(d =~= segment@.subrange(start as int, n as int));
    if start == n {
        return None;
    }
    let mut i: usize = start;
    while i < n
        invariant
            start <= i <= n,
            n == segment@.len(),
            d == digits_part(segment@),
            d =~= segment@.subrange(start as int, n as int),
            forall|k: int| 0 <= k < i - start ==> is_digit(#[trigger] d[k]),
        decreases n - i,
    {
        if !(48u8 <= segment[i] && segment[i] <= 57u8) {
            assert(!is_digit(d[i - start]));
            return None;
        }
        i = i + 1;
    }
    let mut acc: u64 = 0;
    let mut j: usize = start;
    while j < n
        invariant
            start <= j <= n,
            n == segment@.len(),
            d == digits_part(segment@),
            d =~= segment@.subrange(start as int, n as int),
            forall|k: int| 0 <= k < d.len() ==> is_digit(#[trigger] d[k]),
            acc as nat == decimal_value(d.subrange(0, j - start)),
        decreases n - j,
    {
        assert(is_digit(d[j - start]));
        let digit = (segment[j] - 48u8) as u64;
        proof {
            let p = d.subrange(0, j - start + 1);
            assert(p.drop_last() =~= d.subrange(0, j - start));
            assert(p.last() == segment@[j as int]);
        }
        match acc.checked_mul(10) {
            None => {
                proof {
                    lemma_prefix_value_le(d, j - start + 1);
                }
                return None;
            },
            Some(m) => match m.checked_add(digit) {
                None => {
                    proof {
                        lemma_prefix_value_le(d, j - start + 1);
                    }
                    return None;
                },
                Some(v) => {
                    acc = v;
                },
            },
        }
        j = j + 1;
    }
    assert(d.subrange(0, n - start) =~= d);
    Some(acc)
}

/// Reads the id written in a URL path segment.
pub fn parse_id_str(segment: &str) -> (r: Option<u64>)
    ensures
        r == segment_id(segment.spec_bytes()),
{
    parse_id(segment.as_bytes())
}

} // verus!
