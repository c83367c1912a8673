use vstd::prelude::*;

use crate::limits::{
    finish_limit_data, parse_limit_data, CodexLimitData, ParsedLimits, RateLimitsResult,
};
use crate::reset_credits::ResetDetails;

verus! {

/// The id under which the monitor sends `account/rateLimits/read`.
pub const RATE_LIMITS_REQUEST_ID: i64 = 1;

/// Whether an app-server message with this `id` answers the rate-limits request.
pub fn is_rate_limits_reply(id: Option<i64>) -> (answers: bool)
    ensures
        answers == (id == Some(RATE_LIMITS_REQUEST_ID)),
{
    match id {
        Some(n) => n == RATE_LIMITS_REQUEST_ID,
        None => false,
    }
}

/// The message for an app-server reply that reports an error; `error_text` is
/// the error as the reply wrote it.
pub open spec fn reply_error_message(error_text: Seq<char>) -> Seq<char> {
    "Codexの利用枠を取得できません: "@ + error_text
}

/// The message for an app-server reply without a result.
pub open spec fn empty_reply_message() -> Seq<char> {
    "Codexの利用枠レスポンスが空です"@
}

/// The outcome of the app-server's reply to the rate-limits request: its error
/// where it has one, else its result, else the empty-reply error.
pub fn app_server_outcome(error: Option<String>, result: Option<RateLimitsResult>) -> (outcome:
    Result<RateLimitsResult, String>)
    ensures
        match error {
            Some(e) => outcome matches Err(m) && m@ == reply_error_message(e@),
            None => match result {
                Some(r) => outcome == Ok::<RateLimitsResult, String>(r),
                None => outcome matches Err(m) && m@ == empty_reply_message(),
            },
        },
{
    match error {
        Some(e) => Err("Codexの利用枠を取得できません: ".to_string().concat(e.as_str())),
        None => match result {
            Some(r) => Ok(r),
            None => Err("Codexの利用枠レスポンスが空です".to_string()),
        },
    }
}

/// The available reset count that the app-server reports, 0 where it reports
/// none or a negative one.
pub open spec fn reported_reset_count(r: RateLimitsResult) -> i64 {
    crate::limits::non_negative(
        match r.reset_available_count {
            Some(c) => c,
            None => 0,
        },
    )
}

/// Whether the expiry times of a result must be asked of the reset-credits
/// endpoint: resets are available but the app-server listed no credits.
pub open spec fn needs_reset_details(r: RateLimitsResult) -> bool {
    r.reset_credits is None && reported_reset_count(r) > 0
}

/// `d` is the limit data that the result `r` alone gives, stamped with `now`.
pub open spec fn reported_from(d: CodexLimitData, r: RateLimitsResult, now: i64) -> bool {
    let s = crate::limits::chosen_snapshot(r)->0;
    let w = s.primary->0;
    let used = crate::limits::clamp_percent(w.used_percent->0);
    &&& d.used_percent == used
    &&& d.remaining_percent == 100 - used
    &&& d.weekly_reset_at == w.resets_at->0
    &&& d.window_duration_mins == match w.window_duration_mins {
        Some(m) => m,
        None => crate::limits::DEFAULT_WINDOW_DURATION_MINS,
    }
    &&& d.reset_available_count == reported_reset_count(r)
    &&& crate::sorting::is_ascending(d.reset_expiries@)
    &&& d.reset_expiries@.to_multiset() == crate::limits::listed_expiries(
        r.reset_credits,
    ).to_multiset()
    &&& d.expiry_details_available == (r.reset_credits is Some)
    &&& d.plan_type == s.plan_type
    &&& d.last_updated_at == now
}

/// Where a fetch stands once the app-server has answered.
pub enum FetchStep {
    /// The fetch is over, with this outcome.
    Finished(Result<CodexLimitData, String>),
    /// The reset-credits endpoint must be asked; its answer goes to
    /// `complete_fetch` with these limits.
    NeedResetDetails(ParsedLimits),
}

/// Decides a fetch from the app-server's outcome: an error is passed on; a
/// result that lacks a piece fails with that piece's message; a result that
/// needs the reset-credit details asks for them; any other gives its limit
/// data, stamped with the current time.
pub fn fetch_blocking(app_server: Result<RateLimitsResult, String>) -> (step: FetchStep)
    ensures
        match app_server {
            Err(msg) => step matches FetchStep::Finished(Err(m)) && m == msg,
            Ok(r) => match crate::limits::parse_error(r) {
                Some(e) => step matches FetchStep::Finished(Err(m)) && m@
                    == crate::limits::error_message(e),
                None => match step {
                    FetchStep::NeedResetDetails(p) => needs_reset_details(r)
                        && crate::limits::parsed_from(p, r) && p.well_formed(),
                    FetchStep::Finished(Ok(d)) => !needs_reset_details(r) && reported_from(
                        d,
                        r,
                        d.last_updated_at,
                    ) && (exists|p: ParsedLimits|
                        #[trigger] crate::limits::parsed_from(p, r) && p.well_formed()
                            && crate::limits::limit_data_from(d, p, d.last_updated_at)),
                    FetchStep::Finished(Err(_)) => false,
                },
            },
        },
{
    let result = match app_server {
        Err(msg) => return FetchStep::Finished(Err(msg)),
        Ok(r) => r,
    };
    match parse_limit_data(&result) {
        Err(e) => FetchStep::Finished(Err(e.message())),
        Ok(parsed) => {
            if parsed.needs_reset_details() {
                FetchStep::NeedResetDetails(parsed)
            } else {
                let ghost p = parsed;
                let data = finish_limit_data(parsed);
                assert(crate::limits::parsed_from(p, result) && p.well_formed()
                    && crate::limits::limit_data_from(data, p, data.last_updated_at));
                FetchStep::Finished(Ok(data))
            }
        },
    }
}

/// Ends a fetch that waited for the reset-credit details: where they came, the
/// limits take them; where asking failed, the limits stay as the app-server
/// gave them. The data is stamped with the current time.
pub fn complete_fetch(parsed: ParsedLimits, details: Result<ResetDetails, String>) -> (data:
    CodexLimitData)
    requires
        parsed.well_formed(),
    ensures
        match details {
            Ok(d) => crate::limits::limit_data_from(
                data,
                crate::limits::with_details(parsed, d),
                data.last_updated_at,
            ),
            Err(_) => crate::limits::limit_data_from(data, parsed, data.last_updated_at),
        },
        data.used_percent == parsed.used_percent,
        data.remaining_percent == 100 - parsed.used_percent,
        data.weekly_reset_at == parsed.weekly_reset_at,
        data.window_duration_mins == parsed.window_duration_mins,
        data.plan_type == parsed.plan_type,
        crate::sorting::is_ascending(data.reset_expiries@),
        match details {
            Ok(d) => {
                &&& data.reset_available_count == (if d.available_count < 0 {
                    0
                } else {
                    d.available_count
                })
                &&& data.reset_expiries@.to_multiset() == d.expiries@.to_multiset()
                &&& data.expiry_details_available
            },
            Err(_) => {
                &&& data.reset_available_count == parsed.reset_available_count
                &&& data.reset_expiries@.to_multiset() == parsed.reset_expiries@.to_multiset()
                &&& data.expiry_details_available == parsed.expiry_details_available
            },
        },
{
    match details {
        Ok(d) => finish_limit_data(parsed.with_reset_details(d)),
        Err(_) => finish_limit_data(parsed),
    }
}

} // verus!
