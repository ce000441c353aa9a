//! Paged listings: how many items a page holds, where a page starts,
//! whether another page follows, and which timestamps a page of
//! server statistics covers.
use vstd::prelude::*;

verus! {

/// How many updates a page lists.
pub const UPDATES_PER_PAGE: u64 = 100;

/// How many alerts a page lists.
pub const ALERTS_PER_PAGE: u64 = 100;

/// How many statistics records a page lists.
pub const STATS_PER_PAGE: u64 = 200;

/// How many items come before page `page` (pages count from 0).
pub fn page_skip(page: u64, per_page: u64) -> (skip: u64)
    requires
        page * per_page <= u64::MAX,
    ensures
        skip == page * per_page,
{
    page * per_page
}

/// The next page of updates or statistics: there is one when this page
/// came back full.
pub fn next_page_when_full(page: u64, count: usize, per_page: u64) -> (next: Option<u64>)
    requires
        page < u64::MAX,
    ensures
        next == (if count == per_page {
            Some((page + 1) as u64)
        } else {
            None
        }),
{
    if count as u64 == per_page {
        Some(page + 1)
    } else {
        None
    }
}

/// The next page of alerts: there is one unless this page came back
/// short.
pub fn next_alerts_page(page: u64, count: usize) -> (next: Option<u64>)
    requires
        page < u64::MAX,
    ensures
        next == (if count < ALERTS_PER_PAGE {
            None
        } else {
            Some((page + 1) as u64)
        }),
{
    if (count as u64) < ALERTS_PER_PAGE {
        None
    } else {
        Some(page + 1)
    }
}

/// The name shown for the operator of an update: a service user's own
/// name, else the username recorded for the operator's id, else
/// `unknown`.
pub fn update_username(operator: &str, is_service_user: bool, recorded: Option<String>) -> (name: String)
    ensures
        is_service_user ==> name@ == operator@,
        !is_service_user ==> name@ == match recorded {
            Some(u) => u@,
            None => "unknown"@,
        },
{
    if is_service_user {
        operator.to_owned()
    } else {
        match recorded {
            Some(u) => u,
            None => "unknown".to_owned(),
        }
    }
}

/// The timestamp of the `i`-th statistics record of page `page` at
/// time `now`: counted back from the start of the current interval of
/// length `granularity`, one interval per record.
pub open spec fn stats_timestamp(now: int, granularity: int, page: int, i: int) -> int {
    now - now % granularity - granularity * (STATS_PER_PAGE as int) * page - granularity * i
}

/// The timestamps of the statistics records of page `page` at time
/// `now`, newest first, `granularity` milliseconds apart.
pub fn stats_page_timestamps(now: i64, granularity: i64, page: u32) -> (ts: Vec<i64>)
    requires
        now >= 0,
        granularity > 0,
        granularity * (STATS_PER_PAGE as int) * (page + 1) <= i64::MAX,
    ensures
        ts@.len() == STATS_PER_PAGE,
        forall|i: int| 0 <= i < ts@.len() ==> #[trigger] ts@[i] == stats_timestamp(now as int, granularity as int, page as int, i),
{
    let per_page: i64 = 200;
    let ghost g = granularity as int;
    let ghost p = page as int;
    assert(g * 200 * p <= g * 200 * (p + 1)) by (nonlinear_arith)
        requires
            g > 0,
            p >= 0,
    ;
    assert(g * 200 * p >= 0) by (nonlinear_arith)
        requires
            g > 0,
            p >= 0,
    ;
    assert(g * 200 <= g * 200 * (p + 1)) by (nonlinear_arith)
        requires
            g > 0,
            p >= 0,
    ;
    let step = granularity * per_page;
    assert(step * p == g * 200 * p);
    let back = step * (page as i64);
    proof {
        vstd::arithmetic::div_mod::lemma_mod_decreases(now as nat, granularity as nat);
    }
    assert(now - now % granularity >= 0);
    let mut curr = now - now % granularity - back;
    let mut ts: Vec<i64> = Vec::new();
    let mut i: i64 = 0;
    while i < per_page
        invariant
            per_page == 200,
            now >= 0,
            g == granularity,
            g > 0,
            p == page,
            back == g * 200 * p,
            g * 200 * (p + 1) <= i64::MAX,
            0 <= i <= 200,
            ts@.len() == i,
            curr == stats_timestamp(now as int, g, p, i as int),
            now - now % granularity >= 0,
            forall|j: int| 0 <= j < i ==> #[trigger] ts@[j] == stats_timestamp(now as int, g, p, j),
        decreases per_page - i,
    {
        assert(g * (i + 1) <= g * 200) by (nonlinear_arith)
            requires
                g > 0,
                i + 1 <= 200,
        ;
        assert(g * 200 * (p + 1) == g * 200 * p + g * 200) by (nonlinear_arith);
        ts.push(curr);
        assert(stats_timestamp(now as int, g, p, i + 1) == stats_timestamp(now as int, g, p, i as int) - g)
            by (nonlinear_arith);
        curr = curr - granularity;
        i = i + 1;
    }
    assert(STATS_PER_PAGE == 200);
    ts
}

/// The length in milliseconds of the timelength written `timelength`
/// (such as `15-sec`, `5-min` or `1-day`), or `None` where it names none.
pub uninterp spec fn timelength_ms(timelength: Seq<char>) -> Option<int>;

/// Parses `timelength` as an `async_timing_util::Timelength` (the form
/// it is written in, such as `1-day`) and calls
/// `async_timing_util::get_timelength_in_ms` on it. Claimed: the outcome
/// is `timelength_ms` of the argument; every timelength lies between one
/// second and thirty days, and `1-day` is 86 400 000 ms, as the crate's
/// table of lengths shows.
#[verifier::external_body]
pub(crate) fn timelength_in_ms(timelength: &str) -> (ms: Option<u128>)
    ensures
        match ms {
            Some(m) => timelength_ms(timelength@) == Some(m as int),
            None => timelength_ms(timelength@) is None,
        },
        ms matches Some(m) ==> 1000 <= m <= 2_592_000_000,
        timelength@ == "1-day"@ ==> ms == Some(86_400_000u128),
{
    match timelength.parse::<async_timing_util::Timelength>() {
        Ok(t) => Some(async_timing_util::get_timelength_in_ms(t)),
        Err(_) => None,
    }
}

/// The timestamps a page of historical statistics at granularity
/// `granularity` covers at time `now`; `None` where the granularity names
/// no timelength, or the page lies so far back that its timestamps do not
/// fit in an `i64`.
pub fn historical_stats_timestamps(granularity: &str, now: i64, page: u32) -> (r: Option<Vec<i64>>)
    requires
        now >= 0,
    ensures
        match timelength_ms(granularity@) {
            None => r is None,
            Some(g) => if g * (STATS_PER_PAGE as int) * (page + 1) <= i64::MAX {
                r matches Some(ts) && ts@.len() == STATS_PER_PAGE && forall|i: int|
                    0 <= i < ts@.len() ==> #[trigger] ts@[i] == stats_timestamp(now as int, g, page as int, i)
            } else {
                r is None
            },
        },
{
    let ms = match timelength_in_ms(granularity) {
        Some(ms) => ms,
        None => return None,
    };
    let g: i64 = ms as i64;
    let pages: i64 = page as i64 + 1;
    // At most thirty days of milliseconds times 200 fits in an i64.
    let per_page_span: i64 = g * 200;
    if per_page_span > i64::MAX / pages {
        proof {
            assert(per_page_span * pages > i64::MAX) by (nonlinear_arith)
                requires
                    per_page_span > i64::MAX / pages,
                    pages > 0,
            ;
        }
        return None;
    }
    proof {
        assert(per_page_span * pages <= i64::MAX) by (nonlinear_arith)
            requires
                per_page_span <= i64::MAX / pages,
                pages > 0,
        ;
    }
    Some(stats_page_timestamps(now, g, page))
}

} // verus!
