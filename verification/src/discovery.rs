//! Object-discovery decisions for ranged downloads: picking the discovery
//! strategy from an optional range header, and computing the range of data
//! that remains to be fetched once discovery has answered. The requests
//! themselves are sent by the embedding program; everything here is pure
//! computation on plain values.

use vstd::prelude::*;

verus! {

/// A byte range of an HTTP `Range` header: both ends, everything from an
/// offset, or the last `n` bytes.
#[derive(Clone, Copy, Debug, PartialEq, Eq, Structural)]
pub enum ByteRange {
    Inclusive(u64, u64),
    AllFrom(u64),
    Last(u64),
}

/// How the object's metadata (and possibly its first chunk) is discovered.
#[derive(Clone, Copy, Debug, PartialEq, Eq)]
pub enum ObjectDiscoveryStrategy {
    /// Send a metadata-only request; the overall transfer is optionally
    /// constrained to the given range.
    HeadObject(Option<ByteRange>),
    /// Fetch the first part of a multipart object.
    FirstPart,
    /// Send a ranged get; the overall transfer is optionally constrained to
    /// the given inclusive range.
    RangedGet(Option<(u64, u64)>),
}

/// The header string could not be parsed as a byte range.
#[derive(Clone, Copy, Debug, PartialEq, Eq, Structural)]
pub struct InvalidRange {
}

/// What the discovery logic reads from a download request: the optional
/// `Range` header value.
#[derive(Clone, Debug, PartialEq, Eq)]
pub struct DownloadRequest {
    pub range: Option<String>,
}

/// A decimal digit.
pub open spec fn is_digit(c: char) -> bool {
    '0' <= c && c <= '9'
}

/// Its numeric value.
pub open spec fn digit_val(c: char) -> int {
    c as int - '0' as int
}

pub open spec fn all_digits(s: Seq<char>) -> bool {
    forall|i: int| 0 <= i < s.len() ==> is_digit(#[trigger] s[i])
}

/// The number written by a digit sequence, most significant digit first.
pub open spec fn digits_val(s: Seq<char>) -> int
    decreases s.len(),
{
    if s.len() == 0 {
        0
    } else {
        digits_val(s.drop_last()) * 10 + digit_val(s.last())
    }
}

/// The index of the first `'-'`, or the length if there is none.
pub open spec fn first_dash(s: Seq<char>) -> int
    decreases s.len(),
{
    if s.len() == 0 {
        0
    } else if s[0] == '-' {
        0
    } else {
        1 + first_dash(s.drop_first())
    }
}

/// The range-header grammar: `bytes=` followed by `first-last`, `first-` or
/// `-suffix`, where each part is a run of decimal digits whose value fits in
/// a `u64`. The parts are split at the first `'-'`, so a second dash makes
/// the header invalid.
pub open spec fn spec_parse_byte_range(s: Seq<char>) -> Option<ByteRange> {
    if !(s.len() > 6 && s.take(6) == seq!['b', 'y', 't', 'e', 's', '=']) {
        None
    } else {
        let body = s.skip(6);
        let d = first_dash(body);
        if d == body.len() {
            None
        } else {
            let left = body.take(d);
            let right = body.skip(d + 1);
            if left.len() > 0 && right.len() > 0 && all_digits(left) && all_digits(right)
                && digits_val(left) <= u64::MAX && digits_val(right) <= u64::MAX {
                Some(ByteRange::Inclusive(digits_val(left) as u64, digits_val(right) as u64))
            } else if left.len() > 0 && right.len() == 0 && all_digits(left) && digits_val(left)
                <= u64::MAX {
                Some(ByteRange::AllFrom(digits_val(left) as u64))
            } else if left.len() == 0 && right.len() > 0 && all_digits(right) && digits_val(right)
                <= u64::MAX {
                Some(ByteRange::Last(digits_val(right) as u64))
            } else {
                None
            }
        }
    }
}

/// Extending a digit run never shrinks its value: the value of a prefix
/// bounds the value of the whole run from below (and both are non-negative).
proof fn lemma_digits_val_prefix_bound(s: Seq<char>, i: int)
    requires
        all_digits(s),
        0 <= i <= s.len(),
    ensures
        0 <= digits_val(s.take(i)) <= digits_val(s),
    decreases s.len(),
{
    if s.len() == 0 {
        assert(s.take(i) =~= s);
    } else if i == s.len() {
        assert(s.take(i) =~= s);
        lemma_digits_val_prefix_bound(s.drop_last(), s.len() - 1);
        assert(s.drop_last().take(s.len() - 1) =~= s.drop_last());
    } else {
        assert(s.drop_last().take(i) =~= s.take(i));
        lemma_digits_val_prefix_bound(s.drop_last(), i);
        assert(is_digit(s.last()));
    }
}

/// Where the scan that found (or missed) the first dash pins `first_dash`.
proof fn lemma_first_dash_at(s: Seq<char>, i: int)
    requires
        0 <= i <= s.len(),
        forall|k: int| 0 <= k < i ==> s[k] != '-',
        i == s.len() || s[i] == '-',
    ensures
        first_dash(s) == i,
    decreases s.len(),
{
    if s.len() == 0 {
    } else if s[0] == '-' {
        assert(i == 0);
    } else {
        assert(forall|k: int| 0 <= k < i - 1 ==> s.drop_first()[k] == s[k + 1]);
        lemma_first_dash_at(s.drop_first(), i - 1);
    }
}

/// Parses the digit run `s[from..to]` as a `u64`. Returns `None` exactly when
/// the run holds a non-digit or its value does not fit. An empty run parses
/// as zero; callers reject empty parts themselves.
fn parse_u64_digits(s: &str, from: usize, to: usize) -> (r: Option<u64>)
    requires
        from <= to <= s@.len(),
    ensures
        match r {
            Some(v) => all_digits(s@.subrange(from as int, to as int)) && v == digits_val(
                s@.subrange(from as int, to as int),
            ),
            None => !(all_digits(s@.subrange(from as int, to as int)) && digits_val(
                s@.subrange(from as int, to as int),
            ) <= u64::MAX),
        },
{
    let ghost sub = s@.subrange(from as int, to as int);
    let mut val: u64 = 0;
    let mut i: usize = from;
    while i < to
        invariant
            from <= i <= to <= s@.len(),
            sub == s@.subrange(from as int, to as int),
            all_digits(sub.take(i - from)),
            val == digits_val(sub.take(i - from)),
        decreases to - i,
    {
        let c = s.get_char(i);
        let u = c as u32;
        assert(sub[i - from] == s@[i as int]);
        if u < 48 || u > 57 {
            proof {
                assert(!is_digit(sub[i - from]));
            }
            return None;
        }
        let d: u64 = ((u - 48) as u8) as u64;
        proof {
            assert(is_digit(sub[i - from]));
            assert(d == digit_val(sub[i - from]));
        }
        if val > (u64::MAX - d) / 10 {
            proof {
                assert(sub.take(i - from + 1).drop_last() =~= sub.take(i - from));
                assert(sub.take(i - from + 1).last() == sub[i - from]);
                assert(digits_val(sub.take(i - from + 1)) == val * 10 + d);
                assert(val * 10 + d > u64::MAX) by (nonlinear_arith)
                    requires
                        val > (u64::MAX - d) / 10,
                        0 <= d <= 9,
                        val <= u64::MAX,
                ;
                if all_digits(sub) {
                    lemma_digits_val_prefix_bound(sub, i - from + 1);
                }
            }
            return None;
        }
        proof {
            assert(val * 10 + d <= u64::MAX) by (nonlinear_arith)
                requires
                    val <= (u64::MAX - d) / 10,
                    0 <= d <= 9,
            ;
            assert(sub.take(i - from + 1).drop_last() =~= sub.take(i - from));
            assert(sub.take(i - from + 1).last() == sub[i - from]);
        }
        val = val * 10 + d;
        i = i + 1;
    }
    proof {
        assert(sub.take(to - from) =~= sub);
    }
    Some(val)
}

impl ByteRange {
    /// Parses a `Range` header value such as `bytes=100-200`, `bytes=100-`
    /// or `bytes=-500`. Returns `Ok` exactly on the strings the grammar
    /// accepts, with the parsed range.
    pub fn from_str(s: &str) -> (r: Result<ByteRange, InvalidRange>)
        ensures
            match r {
                Ok(br) => spec_parse_byte_range(s@) == Some(br),
                Err(_) => spec_parse_byte_range(s@) is None,
            },
    {
        let ghost pre = seq!['b', 'y', 't', 'e', 's', '='];
        let n = s.unicode_len();
        if n <= 6 {
            return Err(InvalidRange {  });
        }
        if s.get_char(0) != 'b' || s.get_char(1) != 'y' || s.get_char(2) != 't' || s.get_char(3)
            != 'e' || s.get_char(4) != 's' || s.get_char(5) != '=' {
            proof {
                assert(s@.take(6)[0] == s@[0]);
                assert(s@.take(6)[1] == s@[1]);
                assert(s@.take(6)[2] == s@[2]);
                assert(s@.take(6)[3] == s@[3]);
                assert(s@.take(6)[4] == s@[4]);
                assert(s@.take(6)[5] == s@[5]);
                assert(s@.take(6) != pre);
            }
            return Err(InvalidRange {  });
        }
        proof {
            assert(s@.take(6) =~= pre);
        }
        let ghost body = s@.skip(6);
        // find the first dash after the prefix
        let mut dash: usize = 6;
        while dash < n && s.get_char(dash) != '-'
            invariant
                6 <= dash <= n == s@.len(),
                forall|k: int| 6 <= k < dash ==> s@[k] != '-',
            decreases n - dash,
        {
            dash = dash + 1;
        }
        proof {
            assert(body.len() == n - 6);
            assert(forall|k: int| 0 <= k < body.len() ==> body[k] == s@[k + 6]);
            lemma_first_dash_at(body, dash - 6);
        }
        if dash == n {
            return Err(InvalidRange {  });
        }
        let left = parse_u64_digits(s, 6, dash);
        let right = parse_u64_digits(s, dash + 1, n);
        proof {
            assert(body.take(dash - 6) =~= s@.subrange(6, dash as int));
            assert(body.skip(dash - 6 + 1) =~= s@.subrange(dash + 1, n as int));
        }
        let has_left = dash > 6;
        let has_right = dash + 1 < n;
        match (left, right) {
            (Some(a), Some(b)) => {
                if has_left && has_right {
                    Ok(ByteRange::Inclusive(a, b))
                } else if has_left {
                    Ok(ByteRange::AllFrom(a))
                } else if has_right {
                    Ok(ByteRange::Last(b))
                } else {
                    Err(InvalidRange {  })
                }
            },
            (Some(a), None) => {
                if has_left && !has_right {
                    Ok(ByteRange::AllFrom(a))
                } else {
                    Err(InvalidRange {  })
                }
            },
            (None, Some(b)) => {
                if !has_left && has_right {
                    Ok(ByteRange::Last(b))
                } else {
                    Err(InvalidRange {  })
                }
            },
            (None, None) => Err(InvalidRange {  }),
        }
    }
}

impl ObjectDiscoveryStrategy {
    /// Picks the discovery strategy for a download request: no range header
    /// means a ranged get over the whole object; a fully bounded range is
    /// fetched with a ranged get; an open-ended range needs the object's
    /// size first, so it is discovered with a metadata-only request. A range
    /// header that does not parse is an error.
    pub fn from_request(request: &DownloadRequest) -> (r: Result<
        ObjectDiscoveryStrategy,
        InvalidRange,
    >)
        ensures
            match request.range {
                None => r == Ok::<_, InvalidRange>(ObjectDiscoveryStrategy::RangedGet(None)),
                Some(h) => match spec_parse_byte_range(h@) {
                    Some(ByteRange::Inclusive(a, b)) => r == Ok::<_, InvalidRange>(
                        ObjectDiscoveryStrategy::RangedGet(Some((a, b))),
                    ),
                    Some(br) => r == Ok::<_, InvalidRange>(
                        ObjectDiscoveryStrategy::HeadObject(Some(br)),
                    ),
                    None => r is Err,
                },
            },
    {
        match &request.range {
            Some(h) => {
                let byte_range = ByteRange::from_str(h.as_str())?;
                match byte_range {
                    ByteRange::Inclusive(start, end) => Ok(
                        ObjectDiscoveryStrategy::RangedGet(Some((start, end))),
                    ),
                    _ => Ok(ObjectDiscoveryStrategy::HeadObject(Some(byte_range))),
                }
            },
            None => Ok(ObjectDiscoveryStrategy::RangedGet(None)),
        }
    }
}

/// The byte range a `HeadObject` discovery leaves to fetch: the requested
/// range, completed with the discovered total size where it was open-ended.
/// A `Last(n)` request must name at least one byte and at most the whole
/// object.
pub fn remaining_after_head_discovery(byte_range: Option<ByteRange>, total_size: u64) -> (r: (
    u64,
    u64,
))
    requires
        byte_range matches Some(ByteRange::Last(n)) ==> 1 <= n <= total_size,
    ensures
        match byte_range {
            Some(ByteRange::Inclusive(start, end)) => r == (start, end),
            Some(ByteRange::AllFrom(start)) => r == (start, total_size),
            Some(ByteRange::Last(n)) => r == ((total_size - n + 1) as u64, total_size),
            None => r == (0u64, total_size),
        },
{
    match byte_range {
        Some(range) => match range {
            ByteRange::Inclusive(start, end) => (start, end),
            ByteRange::AllFrom(start) => (start, total_size),
            ByteRange::Last(n) => (total_size - n + 1, total_size),
        },
        None => (0, total_size),
    }
}

/// The byte range a ranged-get discovery leaves to fetch, after its response
/// carried the first `chunk_len` bytes: the rest of the requested range, or
/// of the whole object when none was requested.
pub fn remaining_after_get_discovery(range: Option<(u64, u64)>, chunk_len: u64, total_size: u64)
    -> (r: (u64, u64))
    requires
        range matches Some((start, end)) ==> start + chunk_len + 1 <= u64::MAX,
    ensures
        match range {
            Some((start, end)) => r == ((start + chunk_len + 1) as u64, end),
            None => r == (chunk_len, total_size),
        },
{
    match range {
        Some((start, end)) => (start + chunk_len + 1, end),
        None => (chunk_len, total_size),
    }
}

/// The byte range the discovery get itself asks for: the first
/// `target_part_size` bytes of the requested range, or of the object.
pub fn discovery_get_range(range: Option<(u64, u64)>, target_part_size: u64) -> (r: ByteRange)
    requires
        target_part_size >= 1,
        range matches Some((start, end)) ==> start + target_part_size - 1 <= u64::MAX,
    ensures
        match range {
            Some((start, end)) => r == ByteRange::Inclusive(
                start,
                (start + target_part_size - 1) as u64,
            ),
            None => r == ByteRange::Inclusive(0, (target_part_size - 1) as u64),
        },
{
    match range {
        Some((start, _)) => ByteRange::Inclusive(start, start + (target_part_size - 1)),
        None => ByteRange::Inclusive(0, target_part_size - 1),
    }
}

} // verus!
