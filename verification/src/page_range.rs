//! Page-range selection, as understood by the in-environment render
//! helper: a single 1-based page number, or `start-end` with both bounds
//! inclusive, checked against the document's page count and returned
//! 0-indexed.

use vstd::prelude::*;
use vstd::string::StringExecFns;
use vstd::string::StringSliceAdditionalSpecFns;
use crate::decimal::spec_all_digits;
use crate::decimal::spec_digits_value;
use crate::decimal::spec_decimal;
use crate::decimal::parse_decimal;
use crate::decimal::decimal_string;

verus! {

/// Why a page-range string was rejected.
#[derive(Clone, Copy, PartialEq, Eq, Structural, Debug)]
pub enum PageRangeError {
    /// More than one dash: the form must be `start-end`.
    BadFormat,
    /// The text before the dash is not a number.
    BadStart,
    /// The text after the dash is not a number.
    BadEnd,
    /// Page numbers are 1-indexed, so zero is not a page.
    ZeroPage,
    /// The start page comes after the end page.
    StartAfterEnd,
    /// The range reaches past the document's last page.
    RangeExceeds {
        /// How many pages the document has.
        total_pages: u64,
    },
    /// The single requested page lies past the document's last page.
    PageExceeds {
        /// The requested page.
        page: u64,
        /// How many pages the document has.
        total_pages: u64,
    },
    /// The whole text is not a number.
    BadPage,
}

/// The diagnostic text of each rejection.
pub open spec fn spec_range_message(e: PageRangeError) -> Seq<char> {
    match e {
        PageRangeError::BadFormat => "invalid page range format, use start-end"@,
        PageRangeError::BadStart => "invalid start page"@,
        PageRangeError::BadEnd => "invalid end page"@,
        PageRangeError::ZeroPage => "page numbers must be 1-indexed"@,
        PageRangeError::StartAfterEnd => "start page must be <= end page"@,
        PageRangeError::RangeExceeds { total_pages } => "page range exceeds document pages (1-"@
            + spec_decimal(total_pages as nat) + ")"@,
        PageRangeError::PageExceeds { page, total_pages } => "page "@ + spec_decimal(page as nat)
            + " exceeds document pages (1-"@ + spec_decimal(total_pages as nat) + ")"@,
        PageRangeError::BadPage => "invalid page number"@,
    }
}

impl PageRangeError {
    /// The diagnostic text of this rejection.
    pub fn message(&self) -> (r: String)
        ensures
            r@ == spec_range_message(*self),
    {
        match self {
            PageRangeError::BadFormat => "invalid page range format, use start-end".to_owned(),
            PageRangeError::BadStart => "invalid start page".to_owned(),
            PageRangeError::BadEnd => "invalid end page".to_owned(),
            PageRangeError::ZeroPage => "page numbers must be 1-indexed".to_owned(),
            PageRangeError::StartAfterEnd => "start page must be <= end page".to_owned(),
            PageRangeError::RangeExceeds { total_pages } => {
                let mut m = "page range exceeds document pages (1-".to_owned();
                m.append(decimal_string(*total_pages).as_str());
                m.append(")");
                m
            },
            PageRangeError::PageExceeds { page, total_pages } => {
                let mut m = "page ".to_owned();
                m.append(decimal_string(*page).as_str());
                m.append(" exceeds document pages (1-");
                m.append(decimal_string(*total_pages).as_str());
                m.append(")");
                m
            },
            PageRangeError::BadPage => "invalid page number".to_owned(),
        }
    }
}

/// How many dash bytes `s` holds.
pub open spec fn spec_count_dashes(s: Seq<u8>) -> int
    decreases s.len(),
{
    if s.len() == 0 {
        0
    } else {
        spec_count_dashes(s.drop_last()) + if s.last() == 45 {
            1int
        } else {
            0int
        }
    }
}

/// The position of the first dash of `s`, or its length when it has none.
pub open spec fn spec_first_dash(s: Seq<u8>) -> int
    decreases s.len(),
{
    if s.len() == 0 {
        0
    } else if s[0] == 45 {
        0
    } else {
        1 + spec_first_dash(s.drop_first())
    }
}

/// A string with no dash before position `d` and a dash at `d` has its
/// first dash at `d`.
proof fn lemma_first_dash_at(s: Seq<u8>, d: int)
    requires
        0 <= d < s.len(),
        s[d] == 45,
        forall|t: int| 0 <= t < d ==> (#[trigger] s[t]) != 45,
    ensures
        spec_first_dash(s) == d,
    decreases d,
{
    if d > 0 {
        lemma_first_dash_at(s.drop_first(), d - 1);
    }
}

/// Whether a range part is a usable page number: non-empty, all digits,
/// and small enough to read.
pub open spec fn spec_part_ok(p: Seq<u8>) -> bool {
    p.len() > 0 && spec_all_digits(p) && spec_digits_value(p) <= u64::MAX
}

/// The digits before the first dash.
pub open spec fn spec_range_start(s: Seq<u8>) -> Seq<u8> {
    s.take(spec_first_dash(s))
}

/// The digits after the first dash.
pub open spec fn spec_range_end(s: Seq<u8>) -> Seq<u8> {
    s.subrange(spec_first_dash(s) + 1, s.len() as int)
}

/// Copy `s[from..to]` into an owned vector.
fn sub_vec(s: &[u8], from: usize, to: usize) -> (r: Vec<u8>)
    requires
        from <= to <= s@.len(),
    ensures
        r@ == s@.subrange(from as int, to as int),
{
    let mut out: Vec<u8> = Vec::new();
    let mut t: usize = from;
    while t < to
        invariant
            from <= t <= to <= s@.len(),
            out@ =~= s@.subrange(from as int, t as int),
        decreases to - t,
    {
        out.push(s[t]);
        t += 1;
    }
    proof {
        assert(out@ =~= s@.subrange(from as int, to as int));
    }
    out
}

/// Read a page selection against a document of `total_pages` pages.
///
/// `start-end` selects an inclusive 1-based range, a bare number selects
/// one page; the result is returned 0-indexed as `(start, end)`. Every
/// malformed or out-of-bounds selection is rejected with the reason.
pub fn parse_page_range(range_str: &str, total_pages: usize) -> (r: Result<
    (usize, usize),
    PageRangeError,
>)
    ensures
        ({
            let s = range_str.spec_bytes();
            let d = spec_count_dashes(s);
            if d >= 2 {
                r == Err::<(usize, usize), PageRangeError>(PageRangeError::BadFormat)
            } else if d == 1 {
                let sp = spec_range_start(s);
                let ep = spec_range_end(s);
                if !spec_part_ok(sp) {
                    r == Err::<(usize, usize), PageRangeError>(PageRangeError::BadStart)
                } else if !spec_part_ok(ep) {
                    r == Err::<(usize, usize), PageRangeError>(PageRangeError::BadEnd)
                } else {
                    let sv = spec_digits_value(sp);
                    let ev = spec_digits_value(ep);
                    if sv < 1 || ev < 1 {
                        r == Err::<(usize, usize), PageRangeError>(PageRangeError::ZeroPage)
                    } else if sv > total_pages || ev > total_pages {
                        r == Err::<(usize, usize), PageRangeError>(
                            PageRangeError::RangeExceeds { total_pages: total_pages as u64 },
                        )
                    } else if sv > ev {
                        r == Err::<(usize, usize), PageRangeError>(PageRangeError::StartAfterEnd)
                    } else {
                        r == Ok::<(usize, usize), PageRangeError>(
                            ((sv - 1) as usize, (ev - 1) as usize),
                        )
                    }
                }
            } else {
                if !spec_part_ok(s) {
                    r == Err::<(usize, usize), PageRangeError>(PageRangeError::BadPage)
                } else {
                    let v = spec_digits_value(s);
                    if v < 1 {
                        r == Err::<(usize, usize), PageRangeError>(PageRangeError::ZeroPage)
                    } else if v > total_pages {
                        r == Err::<(usize, usize), PageRangeError>(
                            PageRangeError::PageExceeds {
                                page: v as u64,
                                total_pages: total_pages as u64,
                            },
                        )
                    } else {
                        r == Ok::<(usize, usize), PageRangeError>(
                            ((v - 1) as usize, (v - 1) as usize),
                        )
                    }
                }
            }
        }),
{
    let bytes = range_str.as_bytes();
    let ghost s = range_str.spec_bytes();
    let mut count: usize = 0;
    let mut first: usize = 0;
    let mut i: usize = 0;
    while i < bytes.len()
        invariant
            0 <= i <= s.len(),
            bytes@ == s,
            count == spec_count_dashes(s.take(i as int)),
            count > 0 ==> first < i && s[first as int] == 45 && forall|t: int|
                0 <= t < first ==> (#[trigger] s[t]) != 45,
            count == 0 ==> forall|t: int| 0 <= t < i ==> (#[trigger] s[t]) != 45,
            count <= i,
        decreases s.len() - i,
    {
        proof {
            assert(s.take(i + 1).drop_last() =~= s.take(i as int));
            assert(s.take(i + 1).last() == s[i as int]);
        }
        if bytes[i] == 45 {
            if count == 0 {
                first = i;
            }
            count += 1;
        }
        i += 1;
    }
    proof {
        assert(s.take(s.len() as int) =~= s);
    }
    if count >= 2 {
        return Err(PageRangeError::BadFormat);
    }
    if count == 1 {
        proof {
            lemma_first_dash_at(s, first as int);
        }
        let start_part = sub_vec(bytes, 0, first);
        let end_part = sub_vec(bytes, first + 1, bytes.len());
        proof {
            assert(start_part@ == spec_range_start(s));
            assert(end_part@ == spec_range_end(s));
        }
        let sv = match parse_decimal(start_part.as_slice()) {
            Some(v) => v,
            None => {
                return Err(PageRangeError::BadStart);
            },
        };
        let ev = match parse_decimal(end_part.as_slice()) {
            Some(v) => v,
            None => {
                return Err(PageRangeError::BadEnd);
            },
        };
        if sv < 1 || ev < 1 {
            return Err(PageRangeError::ZeroPage);
        }
        if sv > total_pages as u64 || ev > total_pages as u64 {
            return Err(PageRangeError::RangeExceeds { total_pages: total_pages as u64 });
        }
        if sv > ev {
            return Err(PageRangeError::StartAfterEnd);
        }
        Ok(((sv - 1) as usize, (ev - 1) as usize))
    } else {
        let v = match parse_decimal(bytes) {
            Some(v) => v,
            None => {
                return Err(PageRangeError::BadPage);
            },
        };
        if v < 1 {
            return Err(PageRangeError::ZeroPage);
        }
        if v > total_pages as u64 {
            return Err(PageRangeError::PageExceeds { page: v, total_pages: total_pages as u64 });
        }
        Ok(((v - 1) as usize, (v - 1) as usize))
    }
}

} // verus!
