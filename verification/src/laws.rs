use vstd::prelude::*;

use crate::limits::{CodexLimitData, ParsedLimits, RateLimitsResult, ResetCredit};
use crate::reset_credits::ResetDetails;

verus! {

/// The used and the remaining percentage both lie in 0..=100 and add up to
/// 100, and the available reset count is never negative.
pub proof fn percentages_complement(d: CodexLimitData, p: ParsedLimits, now: i64)
    requires
        p.well_formed(),
        crate::limits::limit_data_from(d, p, now),
    ensures
        0 <= d.used_percent <= 100,
        0 <= d.remaining_percent <= 100,
        d.used_percent + d.remaining_percent == 100,
        d.reset_available_count >= 0,
{
}

/// The expiry list shown depends only on which expiry times were reported,
/// not on the order they came in: limit data made from expiry lists with the
/// same elements holds the very same (ascending) list.
pub proof fn expiry_order_is_determined(
    d1: CodexLimitData,
    p1: ParsedLimits,
    now1: i64,
    d2: CodexLimitData,
    p2: ParsedLimits,
    now2: i64,
)
    requires
        crate::limits::limit_data_from(d1, p1, now1),
        crate::limits::limit_data_from(d2, p2, now2),
        p1.reset_expiries@.to_multiset() == p2.reset_expiries@.to_multiset(),
    ensures
        d1.reset_expiries@ == d2.reset_expiries@,
{
    let leq = |a: i64, b: i64| a <= b;
    assert(vstd::relations::total_ordering(leq));
    assert(vstd::relations::sorted_by(d1.reset_expiries@, leq));
    assert(vstd::relations::sorted_by(d2.reset_expiries@, leq));
    vstd::seq_lib::lemma_sorted_unique(d1.reset_expiries@, d2.reset_expiries@, leq);
}

/// Every expiry time the app-server lists belongs to an available credit:
/// redeemed or otherwise unavailable credits never contribute one.
pub proof fn listed_expiries_are_available(credits: Seq<ResetCredit>, t: i64)
    requires
        crate::limits::available_expiries(credits).contains(t),
    ensures
        exists|c: ResetCredit|
            #[trigger] credits.contains(c) && crate::limits::is_available(c) && c.expires_at
                == Some(t),
{
    credits.lemma_filter_map_contains(|c: ResetCredit| crate::limits::available_expiry(c), t);
}

/// A fetch that gets the reset-credit details whenever it needs them ends with
/// expiry details available whenever resets are available.
pub proof fn available_resets_come_with_details(r: RateLimitsResult, p: ParsedLimits, x: ResetDetails)
    requires
        crate::limits::parsed_from(p, r),
    ensures
        ({
            let settled = if crate::fetch::needs_reset_details(r) {
                crate::limits::with_details(p, x)
            } else {
                p
            };
            settled.reset_available_count > 0 ==> settled.expiry_details_available
        }),
{
}

/// Where the app-server reports a Codex snapshot, the general snapshot has no
/// bearing on what is read.
pub proof fn codex_snapshot_takes_precedence(r1: RateLimitsResult, r2: RateLimitsResult, p: ParsedLimits)
    requires
        r1.codex_limit is Some,
        r2.codex_limit == r1.codex_limit,
        r2.reset_available_count == r1.reset_available_count,
        r2.reset_credits == r1.reset_credits,
    ensures
        crate::limits::parse_error(r1) == crate::limits::parse_error(r2),
        crate::limits::parsed_from(p, r1) <==> crate::limits::parsed_from(p, r2),
{
}

/// Taking the reset-credit details changes only the reset count, the
/// expiries and the details flag: the usage figures, the reset time, the
/// window length and the plan stay as the app-server reported them, the count
/// is the endpoint's (0 where negative) and the expiries are the endpoint's.
pub proof fn details_keep_app_server_figures(p: ParsedLimits, x: ResetDetails)
    ensures
        ({
            let q = crate::limits::with_details(p, x);
            &&& q.used_percent == p.used_percent
            &&& q.weekly_reset_at == p.weekly_reset_at
            &&& q.window_duration_mins == p.window_duration_mins
            &&& q.plan_type == p.plan_type
            &&& x.available_count >= 0 ==> q.reset_available_count == x.available_count
            &&& x.available_count < 0 ==> q.reset_available_count == 0
            &&& q.reset_expiries@ == x.expiries@
            &&& q.expiry_details_available
        }),
{
}

/// The data a fetch finishes with is the limit data of what the app-server
/// result reads as: whatever limits are read from `r`, their limit data is
/// what `reported_from` describes.
pub proof fn finished_data_is_parsed_data(
    d: CodexLimitData,
    p: ParsedLimits,
    r: RateLimitsResult,
    now: i64,
)
    requires
        crate::limits::parse_error(r) is None,
        crate::limits::parsed_from(p, r),
        crate::limits::limit_data_from(d, p, now),
    ensures
        crate::fetch::reported_from(d, r, now),
{
}

proof fn filter_map_keeps<A, B>(s: Seq<A>, f: spec_fn(A) -> Option<B>, a: A, b: B)
    requires
        s.contains(a),
        f(a) == Some(b),
    ensures
        s.filter_map(f).contains(b),
    decreases s.len(),
{
    let rest = s.drop_last();
    let last = s.last();
    if last == a {
        assert(s.filter_map(f) == rest.filter_map(f) + seq![b]);
        assert(s.filter_map(f)[s.filter_map(f).len() - 1] == b);
    } else {
        let i = choose|i: int| 0 <= i < s.len() && s[i] == a;
        assert(rest[i] == a);
        filter_map_keeps(rest, f, a, b);
        let j = choose|j: int| 0 <= j < rest.filter_map(f).len() && rest.filter_map(f)[j] == b;
        match f(last) {
            Some(y) => {
                assert(s.filter_map(f) == rest.filter_map(f) + seq![y]);
                assert(s.filter_map(f)[j] == b);
            },
            None => {},
        }
    }
}

/// Every available credit that the app-server lists with an expiry time has
/// that time shown once a fetch finishes on the app-server's figures.
pub proof fn every_available_expiry_is_shown(
    d: CodexLimitData,
    r: RateLimitsResult,
    now: i64,
    c: ResetCredit,
    t: i64,
)
    requires
        crate::fetch::reported_from(d, r, now),
        r.reset_credits matches Some(cs) && cs@.contains(c),
        crate::limits::is_available(c),
        c.expires_at == Some(t),
    ensures
        d.reset_expiries@.contains(t),
{
    broadcast use vstd::seq_lib::group_to_multiset_ensures;

    let cs = r.reset_credits->0;
    filter_map_keeps(cs@, |c: ResetCredit| crate::limits::available_expiry(c), c, t);
    let listed = crate::limits::listed_expiries(r.reset_credits);
    assert(listed.to_multiset().count(t) > 0);
    assert(d.reset_expiries@.to_multiset().count(t) > 0);
}

/// Without a Codex snapshot the general one is read exactly as a Codex
/// snapshot would be: copying it into the Codex slot changes nothing.
pub proof fn general_snapshot_reads_like_codex_snapshot(
    r1: RateLimitsResult,
    r2: RateLimitsResult,
    p: ParsedLimits,
)
    requires
        r1.codex_limit is None,
        r2.codex_limit == r1.rate_limits,
        r2.rate_limits == r1.rate_limits,
        r2.reset_available_count == r1.reset_available_count,
        r2.reset_credits == r1.reset_credits,
    ensures
        crate::limits::parse_error(r1) == crate::limits::parse_error(r2),
        crate::limits::parsed_from(p, r1) <==> crate::limits::parsed_from(p, r2),
{
}

/// Keeping the present values drops exactly the missing ones: each value
/// occurs in the result as often as it occurs present in the input.
pub proof fn present_values_keep_every_value(values: Seq<Option<i64>>, v: i64)
    ensures
        crate::reset_credits::present_values(values).to_multiset().count(v) == values.to_multiset().count(
            Some(v),
        ),
    decreases values.len(),
{
    broadcast use vstd::seq_lib::group_to_multiset_ensures;
    broadcast use vstd::multiset::group_multiset_properties;

    if values.len() == 0 {
        let kept = crate::reset_credits::present_values(values);
        assert(kept.len() == 0);
        vstd::multiset::axiom_count_le_len(kept.to_multiset(), v);
        vstd::multiset::axiom_count_le_len(values.to_multiset(), Some(v));
    } else {
        let rest = values.drop_last();
        let last = values.last();
        present_values_keep_every_value(rest, v);
        assert(values =~= rest.push(last));
        let kept_rest = crate::reset_credits::present_values(rest);
        match last {
            Some(x) => {
                assert(crate::reset_credits::present_values(values) =~= kept_rest.push(x));
            },
            None => {
                assert(crate::reset_credits::present_values(values) =~= kept_rest);
            },
        }
    }
}

} // verus!
