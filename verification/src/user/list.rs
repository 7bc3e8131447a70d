use vstd::prelude::*;

use crate::error::ApiError;
use vstd::string::StringSliceAdditionalSpecFns;

verus! {

/// An ASCII decimal digit.
pub open spec fn is_digit(b: u8) -> bool {
    48 <= b && b <= 57
}

/// The number that a string of decimal digits spells.
pub open spec fn digits_value(s: Seq<u8>) -> nat
    decreases s.len(),
{
    if s.len() == 0 {
        0
    } else {
        digits_value(s.drop_last()) * 10 + (s.last() - 48) as nat
    }
}

/// Length of the sign that may lead a decimal number: one for `-` or `+`.
pub open spec fn sign_len(s: Seq<u8>) -> int {
    if s.len() > 0 && (s[0] == 45u8 || s[0] == 43u8) {
        1
    } else {
        0
    }
}

/// Every byte of `d` is a decimal digit.
pub open spec fn all_digits(d: Seq<u8>) -> bool {
    forall|i: int| 0 <= i < d.len() ==> is_digit(#[trigger] d[i])
}

/// The digits of a decimal number, after its sign.
pub open spec fn digits_of(s: Seq<u8>) -> Seq<u8> {
    s.subrange(sign_len(s), s.len() as int)
}

/// The signed value that the bytes `s` spell, read as a decimal number.
pub open spec fn signed_value(s: Seq<u8>) -> int {
    if s.len() > 0 && s[0] == 45u8 {
        -digits_value(digits_of(s))
    } else {
        digits_value(digits_of(s)) as int
    }
}

/// The value of `i64::from_str` on the bytes `s`: an optional `+` or `-`
/// followed by at least one decimal digit and nothing else, whose value fits
/// in an `i64`.
pub open spec fn spec_parse_i64(s: Seq<u8>) -> Option<i64> {
    if digits_of(s).len() == 0 || !all_digits(digits_of(s)) {
        None
    } else if i64::MIN <= signed_value(s) && signed_value(s) <= i64::MAX {
        Some(signed_value(s) as i64)
    } else {
        None
    }
}

proof fn lemma_digits_value_grows(s: Seq<u8>, k: int)
    requires
        0 <= k <= s.len(),
    ensures
        digits_value(s.take(k)) <= digits_value(s),
    decreases s.len() - k,
{
    if k < s.len() {
        lemma_digits_value_grows(s, k + 1);
        assert(s.take(k + 1).drop_last() =~= s.take(k));
    } else {
        assert(s.take(k) =~= s);
    }
}

/// Parses a decimal `i64` the way `str::parse::<i64>` does.
pub fn parse_i64(s: &str) -> (r: Option<i64>)
    ensures
        r == spec_parse_i64(s.spec_bytes()),
{
    let bytes = s.as_bytes();
    let n = bytes.len();
    let ghost b = bytes@;
    if n == 0 {
        return None;
    }
    let negative = bytes[0] == 45u8;
    let start: usize = if bytes[0] == 45u8 || bytes[0] == 43u8 {
        1
    } else {
        0
    };
    let ghost digits = digits_of(b);
    assert(start == sign_len(b));
    if start == n {
        return None;
    }
    let mut acc: i64 = 0;
    let mut i: usize = start;
    while i < n
        invariant
            b == bytes@,
            b == s.spec_bytes(),
            n == b.len(),
            negative == (b[0] == 45u8),
            (start == 1) == (b[0] == 45u8 || b[0] == 43u8),
            start == 0 || start == 1,
            start <= i <= n,
            start < n,
            digits == b.subrange(start as int, n as int),
            forall|j: int| 0 <= j < i - start ==> is_digit(#[trigger] digits[j]),
            negative ==> acc == -digits_value(digits.take(i - start)),
            !negative ==> acc == digits_value(digits.take(i - start)),
        decreases n - i,
    {
        let c = bytes[i];
        if c < 48u8 || c > 57u8 {
            proof {
                assert(!is_digit(digits[i - start]));
                assert(spec_parse_i64(b) is None);
            }
            return None;
        }
        let d = (c - 48u8) as i64;
        let ghost k = i - start;
        proof {
            assert(digits.take(k + 1).drop_last() =~= digits.take(k));
        }
        let next: i128 = if negative {
            acc as i128 * 10 - d as i128
        } else {
            acc as i128 * 10 + d as i128
        };
        assert(digits_value(digits.take(k + 1)) == digits_value(digits.take(k)) * 10 + d);
        if next < i64::MIN as i128 || next > i64::MAX as i128 {
            proof {
                lemma_digits_value_grows(digits, k + 1);
                assert(spec_parse_i64(b) is None);
            }
            return None;
        }
        acc = next as i64;
        i = i + 1;
    }
    assert(digits.take(n - start) =~= digits);
    Some(acc)
}

/// The paging and ordering of a user listing.
pub struct ListParams<O, D> {
    pub offset: i64,
    pub limit: i64,
    pub order_by: O,
    pub direction: D,
}

/// The parameters of a user listing: `offset` and `limit` as decimal
/// numbers, and the ordering column and direction as parsed by their own
/// types (`None` when they did not parse). Anything that does not parse is
/// an internal error.
pub fn list_params<O, D>(
    offset: &str,
    limit: &str,
    order_by: Option<O>,
    direction: Option<D>,
) -> (r: Result<ListParams<O, D>, ApiError>)
    ensures
        match (
            spec_parse_i64(offset.spec_bytes()),
            spec_parse_i64(limit.spec_bytes()),
            order_by,
            direction,
        ) {
            (Some(o), Some(l), Some(ob), Some(dir)) => r matches Ok(p) && p.offset == o && p.limit
                == l && p.order_by == ob && p.direction == dir,
            _ => r matches Err(e) && e == ApiError::InternalServerError,
        },
{
    let offset = match parse_i64(offset) {
        None => return Err(ApiError::InternalServerError),
        Some(offset) => offset,
    };
    let limit = match parse_i64(limit) {
        None => return Err(ApiError::InternalServerError),
        Some(limit) => limit,
    };
    let order_by = match order_by {
        None => return Err(ApiError::InternalServerError),
        Some(order) => order,
    };
    let direction = match direction {
        None => return Err(ApiError::InternalServerError),
        Some(sort) => sort,
    };
    Ok(ListParams { offset, limit, order_by, direction })
}

/// The body of a user listing.
pub struct Response<T> {
    pub items: Vec<T>,
}

impl<T> Response<T> {
    /// A listing of `items`, in the given order.
    pub fn new(items: Vec<T>) -> (r: Response<T>)
        ensures
            r.items@ == items@,
    {
        Response { items }
    }
}

} // verus!
