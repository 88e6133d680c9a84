//! Page-numbering patterns for output file names.
//!
//! A backend writes its pages as files whose names carry the 1-based page
//! number, e.g. `out-3.png`. A pattern is a literal prefix and a literal
//! suffix around one captured run of decimal digits; a name matches when it
//! contains, at its leftmost such position, the prefix followed by a maximal
//! non-empty digit run followed by the suffix. Different backends number
//! their outputs differently, so the collector takes the pattern as a
//! parameter.

use vstd::prelude::*;
use vstd::string::StrSliceExecFns;
use vstd::string::StringSliceAdditionalSpecFns;
use crate::decimal::spec_is_digit;
use crate::decimal::spec_all_digits;
use crate::decimal::spec_digits_value;
use crate::decimal::lemma_digits_value_nonneg;
use crate::decimal::parse_decimal;

verus! {

/// The largest accepted captured page number; the numbers are read as
/// 32-bit values, and a longer digit run fails the match.
pub const MAX_PAGE_NUMBER: u32 = 2_147_483_647;

/// A page-numbering pattern: a literal prefix and suffix around one
/// captured decimal digit run.
#[derive(Clone, Debug)]
pub struct NamePattern {
    /// The bytes that must stand directly before the digit run.
    pub prefix: Vec<u8>,
    /// The bytes that must stand directly after the digit run.
    pub suffix: Vec<u8>,
}

/// Whether `part` occurs in `name` starting at position `i`.
pub open spec fn spec_starts_with_at(name: Seq<u8>, part: Seq<u8>, i: int) -> bool {
    0 <= i && i + part.len() <= name.len() && name.subrange(i, i + part.len() as int) == part
}

/// The end of the maximal digit run of `name` that starts at `j`.
pub open spec fn spec_digit_run_end(name: Seq<u8>, j: int) -> int
    recommends
        0 <= j <= name.len(),
    decreases name.len() - j when 0 <= j <= name.len()
{
    if j < name.len() && spec_is_digit(name[j]) {
        spec_digit_run_end(name, j + 1)
    } else {
        j
    }
}

/// Every byte of a digit run is a digit.
pub proof fn lemma_digit_run_all_digits(name: Seq<u8>, j: int)
    requires
        0 <= j <= name.len(),
    ensures
        forall|t: int|
            j <= t < spec_digit_run_end(name, j) ==> spec_is_digit(#[trigger] name[t]),
    decreases name.len() - j,
{
    if j < name.len() && spec_is_digit(name[j]) {
        lemma_digit_run_all_digits(name, j + 1);
    }
}

/// Whether the pattern matches `name` at position `i`: the prefix stands at
/// `i`, a non-empty maximal digit run follows it, and the suffix stands
/// directly after the run.
pub open spec fn spec_match_at(name: Seq<u8>, prefix: Seq<u8>, suffix: Seq<u8>, i: int) -> bool {
    spec_starts_with_at(name, prefix, i) && {
        let j = i + prefix.len();
        let k = spec_digit_run_end(name, j);
        j < k && spec_starts_with_at(name, suffix, k)
    }
}

/// The digits captured by the leftmost match of the pattern at or after
/// position `i`, if any.
pub open spec fn spec_capture_from(name: Seq<u8>, prefix: Seq<u8>, suffix: Seq<u8>, i: int) -> Option<
    Seq<u8>,
>
    decreases name.len() - i when 0 <= i
{
    if spec_match_at(name, prefix, suffix, i) {
        Some(name.subrange(i + prefix.len(), spec_digit_run_end(name, i + prefix.len())))
    } else if i >= name.len() {
        None
    } else {
        spec_capture_from(name, prefix, suffix, i + 1)
    }
}

/// The digits captured by the leftmost match of the pattern on `name`.
pub open spec fn spec_capture(name: Seq<u8>, prefix: Seq<u8>, suffix: Seq<u8>) -> Option<Seq<u8>> {
    spec_capture_from(name, prefix, suffix, 0)
}

/// The page number a name carries under a pattern: the value of the
/// captured digit run of the leftmost match, accepted only when it fits the
/// 32-bit bound.
pub open spec fn spec_page_number(name: Seq<u8>, prefix: Seq<u8>, suffix: Seq<u8>) -> Option<int> {
    match spec_capture(name, prefix, suffix) {
        Option::None => None,
        Option::Some(ds) => if spec_digits_value(ds) <= MAX_PAGE_NUMBER {
            Some(spec_digits_value(ds))
        } else {
            None
        },
    }
}

impl NamePattern {
    /// Build a pattern from its literal prefix and suffix.
    pub fn new(prefix: &str, suffix: &str) -> (r: NamePattern)
        ensures
            r.prefix@ == prefix.spec_bytes(),
            r.suffix@ == suffix.spec_bytes(),
    {
        NamePattern { prefix: prefix.as_bytes_vec(), suffix: suffix.as_bytes_vec() }
    }

    /// The numbering convention of the shared environment's backends:
    /// `out-<N>.png`.
    pub fn out_numbered() -> (r: NamePattern)
        ensures
            r.prefix@ == "out-".spec_bytes(),
            r.suffix@ == ".png".spec_bytes(),
    {
        NamePattern::new("out-", ".png")
    }

    /// The numbering convention of the legacy per-binary backends, whose
    /// outputs end in `-<N>.png`.
    pub fn dash_numbered() -> (r: NamePattern)
        ensures
            r.prefix@ == "-".spec_bytes(),
            r.suffix@ == ".png".spec_bytes(),
    {
        NamePattern::new("-", ".png")
    }
}

/// Whether `part` stands in `name` at position `i`.
fn starts_with_at(name: &[u8], part: &[u8], i: usize) -> (r: bool)
    requires
        i <= name@.len(),
    ensures
        r == spec_starts_with_at(name@, part@, i as int),
{
    if name.len() - i < part.len() {
        return false;
    }
    let mut j: usize = 0;
    while j < part.len()
        invariant
            0 <= j <= part@.len(),
            i + part@.len() <= name@.len(),
            name@.len() <= usize::MAX,
            forall|t: int| 0 <= t < j ==> name@[i + t] == part@[t],
        decreases part@.len() - j,
    {
        if name[i + j] != part[j] {
            proof {
                assert(name@.subrange(i as int, i + part@.len() as int)[j as int] == name@[i + j]);
            }
            return false;
        }
        j += 1;
    }
    proof {
        assert(name@.subrange(i as int, i + part@.len() as int) =~= part@);
    }
    true
}

/// The end of the maximal digit run of `name` that starts at `j`.
fn digit_run_end(name: &[u8], j: usize) -> (r: usize)
    requires
        j <= name@.len(),
    ensures
        r == spec_digit_run_end(name@, j as int),
        j <= r <= name@.len(),
{
    let mut k: usize = j;
    while k < name.len() && 48 <= name[k] && name[k] <= 57
        invariant
            j <= k <= name@.len(),
            spec_digit_run_end(name@, j as int) == spec_digit_run_end(name@, k as int),
        decreases name@.len() - k,
    {
        k += 1;
    }
    k
}

/// Read the page number out of a file name under a pattern.
///
/// Returns the value of the digit run captured by the leftmost match, or
/// nothing when the pattern does not match or the number does not fit the
/// 32-bit bound. A name that does not match is simply not one of the
/// backend's output pages.
pub fn capture_page_number(name: &[u8], pat: &NamePattern) -> (r: Option<u32>)
    ensures
        match r {
            Some(v) => spec_page_number(name@, pat.prefix@, pat.suffix@) == Some(v as int),
            None => spec_page_number(name@, pat.prefix@, pat.suffix@) is None,
        },
{
    let mut i: usize = 0;
    while i < name.len()
        invariant
            0 <= i <= name@.len(),
            spec_capture(name@, pat.prefix@, pat.suffix@) == spec_capture_from(
                name@,
                pat.prefix@,
                pat.suffix@,
                i as int,
            ),
        decreases name@.len() - i,
    {
        if starts_with_at(name, pat.prefix.as_slice(), i) {
            let j = i + pat.prefix.len();
            let k = digit_run_end(name, j);
            if k > j && starts_with_at(name, pat.suffix.as_slice(), k) {
                let mut digits: Vec<u8> = Vec::new();
                let mut t = j;
                while t < k
                    invariant
                        j <= t <= k <= name@.len(),
                        digits@ =~= name@.subrange(j as int, t as int),
                    decreases k - t,
                {
                    digits.push(name[t]);
                    t += 1;
                }
                proof {
                    assert(digits@ =~= name@.subrange(j as int, k as int));
                    lemma_digit_run_all_digits(name@, j as int);
                    assert(spec_all_digits(digits@));
                    lemma_digits_value_nonneg(digits@);
                }
                let num = parse_decimal(digits.as_slice());
                match num {
                    Some(v) => {
                        if v <= MAX_PAGE_NUMBER as u64 {
                            return Some(v as u32);
                        } else {
                            return None;
                        }
                    },
                    None => {
                        return None;
                    },
                }
            }
        }
        i += 1;
    }
    None
}

} // verus!
