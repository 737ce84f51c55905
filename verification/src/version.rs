//! Kernel capability detection: deciding from the running kernel's release
//! string whether multi-queue tunnel interfaces are available.
//!
//! Multi-queue support needs a kernel of version 3.8 or later. The release
//! string is read as `major.minor...`: the bytes before the first dot and the
//! bytes between the first and the second dot (or the end). Each part counts
//! as a version number only when it is a non-empty run of decimal digits whose
//! value fits in `usize`; anything else makes the whole string unparsable, and
//! an unparsable string degrades to "unsupported" — never an error.

use vstd::prelude::*;

use crate::bytes::{find_byte, first_occurrence};

verus! {

pub open spec fn is_digit(b: u8) -> bool {
    48 <= b && b <= 57
}

pub open spec fn all_digits(s: Seq<u8>) -> bool {
    forall|i: int| 0 <= i < s.len() ==> is_digit(s[i])
}

/// The number a run of decimal digits denotes, most significant first.
pub open spec fn digits_val(s: Seq<u8>) -> nat
    decreases s.len(),
{
    if s.len() == 0 {
        0
    } else {
        digits_val(s.drop_last()) * 10 + (s.last() - 48) as nat
    }
}

/// A byte run parses as a version number when it is non-empty, all digits,
/// and its value fits the machine's word.
pub open spec fn parses_as_number(s: Seq<u8>) -> bool {
    s.len() > 0 && all_digits(s) && digits_val(s) <= usize::MAX
}

/// The major part of a release string: the bytes before the first dot.
pub open spec fn major_part(s: Seq<u8>) -> Seq<u8> {
    s.take(first_occurrence(s, 46))
}

/// The minor part: the bytes between the first dot and the second (or the
/// end). A string without any dot has no minor part at all.
pub open spec fn minor_part(s: Seq<u8>) -> Seq<u8> {
    if first_occurrence(s, 46) == s.len() {
        Seq::empty()
    } else {
        let rest = s.skip(first_occurrence(s, 46) + 1);
        rest.take(first_occurrence(rest, 46))
    }
}

/// Whether a release string reports a kernel that supports multi-queue
/// tunnel interfaces: both parts parse, and the version is at least 3.8.
pub open spec fn spec_multiqueue_supported(s: Seq<u8>) -> bool {
    &&& parses_as_number(major_part(s))
    &&& parses_as_number(minor_part(s))
    &&& (digits_val(major_part(s)) > 3 || (digits_val(major_part(s)) == 3
        && digits_val(minor_part(s)) >= 8))
}

/// A digit run's value only grows as the run is extended to the right.
proof fn lemma_digits_val_prefix(s: Seq<u8>, k: int)
    requires
        0 <= k <= s.len(),
    ensures
        digits_val(s.take(k)) <= digits_val(s),
    decreases s.len(),
{
    if k == s.len() {
        assert(s.take(k) =~= s);
    } else {
        lemma_digits_val_prefix(s.drop_last(), k);
        assert(s.drop_last().take(k) =~= s.take(k));
    }
}

/// Parses `s[start..end]` as a decimal number: `Some` exactly when the run is
/// non-empty, all digits, and fits in `usize`, and then it is the run's value.
fn parse_number(s: &[u8], start: usize, end: usize) -> (r: Option<usize>)
    requires
        start <= end <= s@.len(),
    ensures
        r is Some <==> parses_as_number(s@.subrange(start as int, end as int)),
        r matches Some(v) ==> v == digits_val(s@.subrange(start as int, end as int)),
{
    let ghost part = s@.subrange(start as int, end as int);
    if start == end {
        return None;
    }
    let mut acc: usize = 0;
    let mut i = start;
    while i < end
        invariant
            start <= i <= end <= s@.len(),
            part == s@.subrange(start as int, end as int),
            all_digits(part.take(i - start)),
            acc == digits_val(part.take(i - start)),
        decreases end - i,
    {
        let b = s[i];
        if b < 48 || b > 57 {
            proof {
                assert(!is_digit(part[i - start]));
            }
            return None;
        }
        let d = (b - 48) as usize;
        if acc > (usize::MAX - d) / 10 {
            proof {
                // the run through position i already exceeds the word
                let grown = part.take(i - start + 1);
                assert(grown.drop_last() =~= part.take(i - start));
                assert(grown.last() == b);
                assert(digits_val(grown) == acc * 10 + d);
                assert(acc * 10 + d > usize::MAX) by (nonlinear_arith)
                    requires
                        acc > (usize::MAX - d) / 10,
                        d <= 9,
                ;
                lemma_digits_val_prefix(part, i - start + 1);
            }
            return None;
        }
        proof {
            let grown = part.take(i - start + 1);
            assert(grown.drop_last() =~= part.take(i - start));
            assert(grown.last() == b);
            assert(acc * 10 + d <= usize::MAX) by (nonlinear_arith)
                requires
                    acc <= (usize::MAX - d) / 10,
                    d <= 9,
            ;
        }
        acc = acc * 10 + d;
        i = i + 1;
    }
    proof {
        assert(part.take(end - start) =~= part);
    }
    Some(acc)
}

/// Decides multi-queue support from the kernel release bytes.
///
/// `"3.7"` and every unparsable string report `false`; `"3.8"`, `"4.0"` and
/// every later version report `true`. Degradation is graceful: no input is an
/// error.
pub fn multiqueue_supported(release: &[u8]) -> (b: bool)
    ensures
        b == spec_multiqueue_supported(release@),
{
    let n = release.len();
    let d1 = find_byte(release, 0, 46);
    proof {
        assert(release@.skip(0) =~= release@);
        assert(major_part(release@) =~= release@.subrange(0, d1 as int));
    }
    let major = parse_number(release, 0, d1);
    if d1 == n {
        // no dot: there is no minor part, so the version cannot be read
        proof {
            assert(minor_part(release@).len() == 0);
        }
        return false;
    }
    let d2 = find_byte(release, d1 + 1, 46);
    proof {
        let rest = release@.skip(d1 + 1);
        assert(minor_part(release@) =~= rest.take(first_occurrence(rest, 46)));
        assert(minor_part(release@) =~= release@.subrange(d1 + 1, d2 as int));
    }
    let minor = parse_number(release, d1 + 1, d2);
    match (major, minor) {
        (Some(ma), Some(mi)) => ma > 3 || (ma == 3 && mi >= 8),
        _ => false,
    }
}

} // verus!
