//! Monthly message buckets. Messages of a channel are partitioned by the UTC month
//! in which their id was minted; a bucket is the number `year * 100 + month`.
use vstd::prelude::*;
use crate::clock::{
    spec_utc_year_month, utc_now_year_month, utc_year_month, MAX_YEAR, MIN_YEAR,
};
use crate::uuids::{spec_uuid_timestamp, uuid_unix_timestamp};

verus! {

/// Quotient of `a / b` rounded toward zero, as Rust's `/` on integers computes it.
pub open spec fn trunc_div(a: int, b: int) -> int {
    if a >= 0 { a / b } else { -((-a) / b) }
}

/// Remainder that goes with `trunc_div`: it takes the sign of `a`.
pub open spec fn trunc_rem(a: int, b: int) -> int {
    a - b * trunc_div(a, b)
}

/// The bucket that holds the messages of `month` in `year`.
pub open spec fn bucket_of(year: int, month: int) -> int {
    year * 100 + month
}

/// `b` encodes a calendar month of a year that `chrono` can hold.
pub open spec fn is_month_bucket(b: int) -> bool {
    exists|y: int, m: int|
        MIN_YEAR <= y <= MAX_YEAR && 1 <= m <= 12 && b == #[trigger] bucket_of(y, m)
}

/// The bucket that `previous_bucket` gives for `bucket`.
pub open spec fn spec_previous_bucket(bucket: int) -> int {
    let year = trunc_div(bucket, 100);
    let month = trunc_rem(bucket, 100);
    if month == 1 { (year - 1) * 100 + 12 } else { bucket - 1 }
}

/// The bucket of the UUID `id`: that of the UTC month of the timestamp in it.
pub open spec fn spec_uuid_bucket(id: u128) -> Option<int> {
    match spec_uuid_timestamp(id) {
        Some((secs, nanos)) => match spec_utc_year_month(secs as i64, nanos) {
            Some((y, m)) => Some(bucket_of(y as int, m as int)),
            None => None,
        },
        None => None,
    }
}

/// The bucket of `month` in `year`.
pub fn bucket_from_year_month(year: i32, month: u32) -> (r: i32)
    requires
        MIN_YEAR <= year <= MAX_YEAR,
        1 <= month <= 12,
    ensures
        r == bucket_of(year as int, month as int),
        is_month_bucket(r as int),
{
    let r = year * 100 + month as i32;
    assert(bucket_of(year as int, month as int) == r);
    r
}

/// The bucket of the message whose id is `id`.
///
/// The id must carry a timestamp (UUID version 1, 6 or 7) that falls in a month
/// that `chrono` can hold: the service only mints version 7 ids.
pub fn get_bucket_from_uuidv7(id: u128) -> (r: i32)
    requires
        spec_uuid_bucket(id) is Some,
    ensures
        spec_uuid_bucket(id) == Some(r as int),
        is_month_bucket(r as int),
{
    let ts = uuid_unix_timestamp(id);
    match ts {
        Some((secs, nanos)) => {
            let ym = utc_year_month(secs as i64, nanos);
            match ym {
                Some((y, m)) => bucket_from_year_month(y, m),
                None => {
                    assert(false);
                    0
                },
            }
        },
        None => {
            assert(false);
            0
        },
    }
}

/// The bucket of `id` where it has one, else `None`: `get_bucket_from_uuidv7`
/// for callers that cannot know beforehand whether the id carries a usable timestamp.
pub fn try_bucket_from_uuid(id: u128) -> (r: Option<i32>)
    ensures
        r matches Some(b) ==> spec_uuid_bucket(id) == Some(b as int),
        r is None <==> spec_uuid_bucket(id) is None,
{
    let ts = uuid_unix_timestamp(id);
    match ts {
        Some((secs, nanos)) => {
            let ym = utc_year_month(secs as i64, nanos);
            match ym {
                Some((_, _)) => Some(get_bucket_from_uuidv7(id)),
                None => None,
            }
        },
        None => None,
    }
}

/// The bucket of the current UTC month.
pub fn current_bucket() -> (r: i32)
    ensures
        is_month_bucket(r as int),
{
    let (y, m) = utc_now_year_month();
    bucket_from_year_month(y, m)
}

/// The bucket of the month before the one that `bucket` encodes.
pub fn previous_bucket(bucket: i32) -> (r: i32)
    requires
        bucket > i32::MIN,
    ensures
        r == spec_previous_bucket(bucket as int),
{
    let year = bucket / 100;
    let month = bucket % 100;
    assert(year == trunc_div(bucket as int, 100));
    assert(month == trunc_rem(bucket as int, 100));
    if month == 1 {
        (year - 1) * 100 + 12
    } else {
        bucket - 1
    }
}

proof fn lemma_bucket_parts(y: int, m: int)
    requires
        y >= 0,
        1 <= m <= 12,
    ensures
        trunc_div(bucket_of(y, m), 100) == y,
        trunc_rem(bucket_of(y, m), 100) == m,
{
    let b = bucket_of(y, m);
    assert(b >= 0) by (nonlinear_arith)
        requires y >= 0, b == y * 100 + m, m >= 1;
    vstd::arithmetic::div_mod::lemma_fundamental_div_mod_converse(b, 100, y, m);
}

/// Stepping back from a month of a year from 0 on gives the month before it: December
/// of the year before for January, else the preceding month of the same year.
pub proof fn law_previous_bucket_steps_back_one_month(year: int, month: int)
    requires
        0 <= year <= MAX_YEAR,
        1 <= month <= 12,
    ensures
        spec_previous_bucket(bucket_of(year, month)) == (if month == 1 {
            bucket_of(year - 1, 12)
        } else {
            bucket_of(year, month - 1)
        }),
{
    lemma_bucket_parts(year, month);
}

/// Distinct months give distinct buckets.
pub proof fn law_bucket_of_is_injective(y1: int, m1: int, y2: int, m2: int)
    requires
        1 <= m1 <= 12,
        1 <= m2 <= 12,
        bucket_of(y1, m1) == bucket_of(y2, m2),
    ensures
        y1 == y2,
        m1 == m2,
{
    if y1 < y2 {
        assert(y1 * 100 + 100 <= y2 * 100) by (nonlinear_arith)
            requires y1 < y2;
    } else if y2 < y1 {
        assert(y2 * 100 + 100 <= y1 * 100) by (nonlinear_arith)
            requires y2 < y1;
    }
}

} // verus!
