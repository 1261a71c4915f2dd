//! System configuration limits for message queues: reading the plain-text
//! integer files the kernel exposes, and the verified decimal parser applied
//! to their content.

use crate::error::Error;
use crate::sys;
use vstd::prelude::*;

verus! {

/// ASCII whitespace, the bytes the trimming step removes from either end.
pub open spec fn is_space(b: u8) -> bool {
    b == 0x20 || b == 0x09 || b == 0x0a || b == 0x0b || b == 0x0c || b == 0x0d
}

/// An ASCII decimal digit.
pub open spec fn is_digit(b: u8) -> bool {
    0x30 <= b <= 0x39
}

pub open spec fn all_digits(b: Seq<u8>) -> bool {
    forall|i: int| 0 <= i < b.len() ==> is_digit(#[trigger] b[i])
}

/// The numeric value of a sequence of decimal digit bytes, most significant
/// first.
pub open spec fn digits_value(b: Seq<u8>) -> int
    decreases b.len(),
{
    if b.len() == 0 {
        0
    } else {
        digits_value(b.drop_last()) * 10 + (b.last() - 0x30)
    }
}

/// The sequence with leading and trailing ASCII whitespace removed.
pub open spec fn trimmed(b: Seq<u8>) -> Seq<u8>
    decreases b.len(),
{
    if b.len() > 0 && is_space(b.first()) {
        trimmed(b.drop_first())
    } else if b.len() > 0 && is_space(b.last()) {
        trimmed(b.drop_last())
    } else {
        b
    }
}

/// What parsing a configuration value means: trim ASCII whitespace from both
/// ends, allow a single leading sign, then require one or more decimal
/// digits; the signed value must fit in an `i64`.
pub open spec fn spec_parse_i64(b: Seq<u8>) -> Option<i64> {
    let t = trimmed(b);
    if t.len() == 0 {
        None
    } else {
        let neg = t.first() == 0x2d;
        let d = if t.first() == 0x2d || t.first() == 0x2b {
            t.drop_first()
        } else {
            t
        };
        if d.len() == 0 || !all_digits(d) {
            None
        } else {
            let v: int = if neg {
                -digits_value(d)
            } else {
                digits_value(d)
            };
            if i64::MIN <= v <= i64::MAX {
                Some(v as i64)
            } else {
                None
            }
        }
    }
}

proof fn lemma_digits_value_nonneg(b: Seq<u8>)
    requires
        all_digits(b),
    ensures
        digits_value(b) >= 0,
    decreases b.len(),
{
    if b.len() > 0 {
        lemma_digits_value_nonneg(b.drop_last());
    }
}

/// The value of a digit string never shrinks as more digits are appended.
proof fn lemma_digits_value_prefix_le(b: Seq<u8>, k: int)
    requires
        all_digits(b),
        0 <= k <= b.len(),
    ensures
        digits_value(b.take(k)) <= digits_value(b),
    decreases b.len() - k,
{
    if k < b.len() {
        assert(b.take(k + 1).drop_last() =~= b.take(k));
        assert(all_digits(b.take(k)));
        lemma_digits_value_nonneg(b.take(k));
        assert(digits_value(b.take(k + 1)) >= digits_value(b.take(k)));
        lemma_digits_value_prefix_le(b, k + 1);
    } else {
        assert(b.take(k) =~= b);
    }
}

fn is_space_byte(b: u8) -> (r: bool)
    ensures
        r == is_space(b),
{
    b == 0x20 || b == 0x09 || b == 0x0a || b == 0x0b || b == 0x0c || b == 0x0d
}

/// Parse a decimal integer, with optional sign and surrounding ASCII
/// whitespace, exactly as [`spec_parse_i64`] describes.
pub fn parse_i64(bytes: &[u8]) -> (r: Option<i64>)
    ensures
        r == spec_parse_i64(bytes@),
{
    let len = bytes.len();
    proof {
        assert(bytes@.subrange(0, len as int) =~= bytes@);
    }
    let mut lo: usize = 0;
    while lo < len && is_space_byte(bytes[lo])
        invariant
            0 <= lo <= len,
            len == bytes@.len(),
            trimmed(bytes@) == trimmed(bytes@.subrange(lo as int, len as int)),
        decreases len - lo,
    {
        proof {
            let s = bytes@.subrange(lo as int, len as int);
            assert(s.first() == bytes@[lo as int]);
            assert(s.drop_first() =~= bytes@.subrange(lo + 1, len as int));
        }
        lo = lo + 1;
    }

    let mut hi: usize = len;
    while hi > lo && is_space_byte(bytes[hi - 1])
        invariant
            0 <= lo <= hi <= len,
            len == bytes@.len(),
            lo < len ==> !is_space(bytes@[lo as int]),
            trimmed(bytes@) == trimmed(bytes@.subrange(lo as int, hi as int)),
        decreases hi,
    {
        proof {
            let s = bytes@.subrange(lo as int, hi as int);
            assert(s.first() == bytes@[lo as int]);
            assert(s.last() == bytes@[hi - 1]);
            assert(s.drop_last() =~= bytes@.subrange(lo as int, hi - 1));
        }
        hi = hi - 1;
    }

    let ghost t = bytes@.subrange(lo as int, hi as int);
    proof {
        if lo < hi {
            assert(t.first() == bytes@[lo as int]);
            assert(t.last() == bytes@[hi - 1]);
        }
        assert(trimmed(t) == t);
        assert(trimmed(bytes@) == t);
    }

    if lo == hi {
        return None;
    }

    let first = bytes[lo];
    let mut neg = false;
    let mut ds: usize = lo;
    if first == 0x2d {
        neg = true;
        ds = lo + 1;
    } else if first == 0x2b {
        ds = lo + 1;
    }

    let ghost d = bytes@.subrange(ds as int, hi as int);
    proof {
        if ds > lo {
            assert(t.drop_first() =~= d);
        }
    }

    if ds == hi {
        return None;
    }

    let limit: u64 = if neg {
        9223372036854775808
    } else {
        9223372036854775807
    };
    let mut acc: u64 = 0;
    let mut j: usize = ds;
    while j < hi
        invariant
            lo <= ds <= j <= hi <= len,
            len == bytes@.len(),
            d == bytes@.subrange(ds as int, hi as int),
            t == bytes@.subrange(lo as int, hi as int),
            trimmed(bytes@) == t,
            lo < hi,
            ds < hi,
            t.first() == bytes@[lo as int],
            neg == (t.first() == 0x2d),
            d == (if t.first() == 0x2d || t.first() == 0x2b {
                t.drop_first()
            } else {
                t
            }),
            limit == (if neg {
                9223372036854775808u64
            } else {
                9223372036854775807u64
            }),
            all_digits(bytes@.subrange(ds as int, j as int)),
            acc == digits_value(bytes@.subrange(ds as int, j as int)),
            acc <= limit,
        decreases hi - j,
    {
        let c = bytes[j];
        if c < 0x30 || c > 0x39 {
            proof {
                assert(d[j - ds] == c);
                assert(!all_digits(d));
            }
            return None;
        }
        let dgt = (c - 0x30) as u64;
        proof {
            assert(bytes@.subrange(ds as int, j + 1).drop_last() =~= bytes@.subrange(
                ds as int,
                j as int,
            ));
            assert(bytes@.subrange(ds as int, j + 1).last() == c);
        }
        let next = match acc.checked_mul(10) {
            Some(m) => m.checked_add(dgt),
            None => None,
        };
        match next {
            Some(v) => {
                if v > limit {
                    proof {
                        lemma_parse_overflow(bytes@, t, d, lo as int, ds as int, j as int, hi as int, neg, limit);
                    }
                    return None;
                }
                acc = v;
            },
            None => {
                proof {
                    lemma_parse_overflow(bytes@, t, d, lo as int, ds as int, j as int, hi as int, neg, limit);
                }
                return None;
            },
        }
        j = j + 1;
    }

    proof {
        assert(bytes@.subrange(ds as int, j as int) =~= d);
    }

    if neg {
        if acc == 9223372036854775808 {
            Some(i64::MIN)
        } else {
            Some(0i64 - (acc as i64))
        }
    } else {
        Some(acc as i64)
    }
}

/// The file holding the default maximum number of pending messages.
pub fn msg_default_path() -> &'static str {
    "/proc/sys/fs/mqueue/msg_default"
}

/// The file holding the system maximum number of pending messages.
pub fn msg_max_path() -> &'static str {
    "/proc/sys/fs/mqueue/msg_max"
}

/// The file holding the default maximum message size.
pub fn msgsize_default_path() -> &'static str {
    "/proc/sys/fs/mqueue/msgsize_default"
}

/// The file holding the system maximum message size.
pub fn msgsize_max_path() -> &'static str {
    "/proc/sys/fs/mqueue/msgsize_max"
}

/// A vector of the given length, ready to serve as a read buffer.
pub(crate) fn zeroed(n: usize) -> (r: Vec<u8>)
    ensures
        r@.len() == n,
{
    let mut v: Vec<u8> = Vec::new();
    let mut i: usize = 0;
    while i < n
        invariant
            0 <= i <= n,
            v@.len() == i,
        decreases n - i,
    {
        v.push(0);
        i = i + 1;
    }
    v
}

/// Read a whole plain-text configuration file and parse its content as a
/// decimal integer. A failure to open or read the file is a
/// [`Error::ValueReadingError`] carrying the errno; content that is not an
/// integer is [`Error::UnknownInternalError`], since the platform is assumed
/// broken if these files do not hold numbers.
pub fn read_i64_from_file(path: &str) -> (r: Result<i64, Error>)
    ensures
        r matches Err(e) ==> (e matches Error::ValueReadingError(_) || e
            == Error::UnknownInternalError),
{
    let fd = match sys::open_read(path) {
        Ok(fd) => fd,
        Err(e) => {
            return Err(Error::ValueReadingError(e));
        },
    };

    // A plain-text integer is a handful of bytes; a file that still has not
    // ended after this many reads does not hold one.
    let max_reads: usize = 64;
    let mut content: Vec<u8> = Vec::new();
    let mut chunk: Vec<u8> = zeroed(64);
    let mut reads: usize = 0;
    let mut saw_eof = false;
    while !saw_eof && reads < max_reads
        invariant
            chunk@.len() == 64,
            reads <= max_reads,
        decreases max_reads - reads,
    {
        let n = match sys::read_fd(fd, &mut chunk) {
            Ok(n) => n,
            Err(e) => {
                sys::close_fd(fd);
                return Err(Error::ValueReadingError(e));
            },
        };
        if n == 0 {
            saw_eof = true;
        }
        let mut j: usize = 0;
        while j < n
            invariant
                0 <= j <= n <= chunk@.len(),
            decreases n - j,
        {
            content.push(chunk[j]);
            j = j + 1;
        }
        reads = reads + 1;
    }
    sys::close_fd(fd);

    if !saw_eof {
        return Err(Error::UnknownInternalError);
    }

    match parse_i64(content.as_slice()) {
        Some(v) => Ok(v),
        None => Err(Error::UnknownInternalError),
    }
}

/// When one more digit pushes the accumulated value past the range limit, the
/// whole digit string's value is past it too, so parsing yields nothing.
proof fn lemma_parse_overflow(
    b: Seq<u8>,
    t: Seq<u8>,
    d: Seq<u8>,
    lo: int,
    ds: int,
    j: int,
    hi: int,
    neg: bool,
    limit: u64,
)
    requires
        0 <= lo <= ds <= j < hi <= b.len(),
        t == b.subrange(lo, hi),
        d == b.subrange(ds, hi),
        trimmed(b) == t,
        t.first() == b[lo],
        neg == (t.first() == 0x2d),
        d == (if t.first() == 0x2d || t.first() == 0x2b {
            t.drop_first()
        } else {
            t
        }),
        limit == (if neg {
            9223372036854775808u64
        } else {
            9223372036854775807u64
        }),
        all_digits(b.subrange(ds, j)),
        is_digit(b[j]),
        digits_value(b.subrange(ds, j)) * 10 + (b[j] - 0x30) > limit,
    ensures
        spec_parse_i64(b) is None,
{
    if all_digits(d) {
        assert(b.subrange(ds, j + 1).drop_last() =~= b.subrange(ds, j));
        assert(b.subrange(ds, j + 1).last() == b[j]);
        assert(d.take(j + 1 - ds) =~= b.subrange(ds, j + 1));
        lemma_digits_value_prefix_le(d, j + 1 - ds);
        assert(digits_value(d) > limit);
    }
}

} // verus!
