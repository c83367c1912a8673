use vstd::prelude::*;

use crate::clock::current_unix_timestamp;
use crate::reset_credits::ResetDetails;
use crate::sorting::sort_ascending;

verus! {

/// Window length, in minutes, assumed when the app-server omits it (one week).
pub const DEFAULT_WINDOW_DURATION_MINS: i64 = 10_080;

/// The usage window of a rate-limit snapshot, as far as the monitor reads it.
/// A field is `None` when the app-server sent no integer under its key.
#[derive(Clone, Debug, PartialEq)]
pub struct UsageWindow {
    pub used_percent: Option<i64>,
    pub resets_at: Option<i64>,
    pub window_duration_mins: Option<i64>,
}

/// One rate-limit snapshot of the app-server. `primary` is `None` when the
/// snapshot has no `primary` entry; `plan_type` when it has no string `planType`.
#[derive(Clone, Debug, PartialEq)]
pub struct RateLimitSnapshot {
    pub primary: Option<UsageWindow>,
    pub plan_type: Option<String>,
}

/// One reset credit as the app-server lists it.
#[derive(Clone, Debug, PartialEq)]
pub struct ResetCredit {
    pub status: Option<String>,
    pub expires_at: Option<i64>,
}

/// What the monitor reads of the result of `account/rateLimits/read`.
///
/// `codex_limit` is the snapshot under `rateLimitsByLimitId.codex`,
/// `rate_limits` the one under `rateLimits`; `reset_available_count` and
/// `reset_credits` come from `rateLimitResetCredits` (`availableCount` as an
/// integer, `credits` as an array).
#[derive(Clone, Debug, PartialEq)]
pub struct RateLimitsResult {
    pub codex_limit: Option<RateLimitSnapshot>,
    pub rate_limits: Option<RateLimitSnapshot>,
    pub reset_available_count: Option<i64>,
    pub reset_credits: Option<Vec<ResetCredit>>,
}

/// Why a rate-limits result cannot be turned into limit data.
#[derive(Clone, Copy, Debug, PartialEq, Eq, Structural)]
pub enum LimitError {
    SnapshotMissing,
    WindowMissing,
    UsedPercentUnknown,
    ResetTimeUnknown,
}

/// The message shown to the user for each error.
pub open spec fn error_message(e: LimitError) -> Seq<char> {
    match e {
        LimitError::SnapshotMissing => "Codexの週次利用枠が見つかりません"@,
        LimitError::WindowMissing => "Codexの週次利用枠ウィンドウが見つかりません"@,
        LimitError::UsedPercentUnknown => "Codexの使用率が不明です"@,
        LimitError::ResetTimeUnknown => "Codexの次回リセット日時が不明です"@,
    }
}

impl LimitError {
    /// The user-facing message of this error.
    pub fn message(&self) -> (msg: String)
        ensures
            msg@ == error_message(*self),
    {
        match self {
            LimitError::SnapshotMissing => "Codexの週次利用枠が見つかりません".to_string(),
            LimitError::WindowMissing => "Codexの週次利用枠ウィンドウが見つかりません".to_string(),
            LimitError::UsedPercentUnknown => "Codexの使用率が不明です".to_string(),
            LimitError::ResetTimeUnknown => "Codexの次回リセット日時が不明です".to_string(),
        }
    }
}

/// `v` limited to the range 0..=100.
pub open spec fn clamp_percent(v: i64) -> i64 {
    if v < 0 {
        0
    } else if v > 100 {
        100
    } else {
        v
    }
}

/// `v`, or 0 where `v` is negative.
pub open spec fn non_negative(v: i64) -> i64 {
    if v < 0 {
        0
    } else {
        v
    }
}

/// The snapshot the monitor reports on: the Codex one where present, else the
/// general one.
pub open spec fn chosen_snapshot(r: RateLimitsResult) -> Option<RateLimitSnapshot> {
    match r.codex_limit {
        Some(s) => Some(s),
        None => r.rate_limits,
    }
}

/// A credit counts as available when its status is the string `available`.
pub open spec fn is_available(c: ResetCredit) -> bool {
    c.status matches Some(s) && s@ == "available"@
}

/// The expiry time that a credit contributes: its own, where it is available.
pub open spec fn available_expiry(c: ResetCredit) -> Option<i64> {
    if is_available(c) {
        c.expires_at
    } else {
        None
    }
}

/// The expiry times of the available credits that carry one, in list order.
pub open spec fn available_expiries(credits: Seq<ResetCredit>) -> Seq<i64> {
    credits.filter_map(|c: ResetCredit| available_expiry(c))
}

/// The expiry times that the app-server itself lists; none without a credit list.
pub open spec fn listed_expiries(credits: Option<Vec<ResetCredit>>) -> Seq<i64> {
    match credits {
        Some(c) => available_expiries(c@),
        None => Seq::empty(),
    }
}

/// The first thing missing from a result, in the order the monitor checks:
/// the snapshot, its window, the used percentage, the reset time.
pub open spec fn parse_error(r: RateLimitsResult) -> Option<LimitError> {
    match chosen_snapshot(r) {
        None => Some(LimitError::SnapshotMissing),
        Some(s) => match s.primary {
            None => Some(LimitError::WindowMissing),
            Some(w) => if w.used_percent is None {
                Some(LimitError::UsedPercentUnknown)
            } else if w.resets_at is None {
                Some(LimitError::ResetTimeUnknown)
            } else {
                None
            },
        },
    }
}

/// The limits read from an app-server result, before the reset-credit details
/// are settled, the expiries sorted and the time stamped.
#[derive(Clone, Debug, PartialEq)]
pub struct ParsedLimits {
    pub used_percent: i64,
    pub weekly_reset_at: i64,
    pub window_duration_mins: i64,
    pub reset_available_count: i64,
    pub reset_expiries: Vec<i64>,
    pub expiry_details_available: bool,
    pub plan_type: Option<String>,
}

impl ParsedLimits {
    /// The ranges that reading a result guarantees.
    pub open spec fn well_formed(self) -> bool {
        &&& 0 <= self.used_percent <= 100
        &&& 0 <= self.reset_available_count
    }
}

/// `p` is what the monitor reads from `r`, where `parse_error(r)` is `None`.
pub open spec fn parsed_from(p: ParsedLimits, r: RateLimitsResult) -> bool {
    let s = chosen_snapshot(r)->0;
    let w = s.primary->0;
    &&& p.used_percent == clamp_percent(w.used_percent->0)
    &&& p.weekly_reset_at == w.resets_at->0
    &&& p.window_duration_mins == match w.window_duration_mins {
        Some(m) => m,
        None => DEFAULT_WINDOW_DURATION_MINS,
    }
    &&& p.reset_available_count == non_negative(
        match r.reset_available_count {
            Some(c) => c,
            None => 0,
        },
    )
    &&& p.reset_expiries@ == listed_expiries(r.reset_credits)
    &&& p.expiry_details_available == (r.reset_credits is Some)
    &&& p.plan_type == s.plan_type
}

/// The expiry times of the available credits in the app-server's own list,
/// in list order; empty where the result has no credit list.
pub fn parse_app_server_expiries(credits: &Option<Vec<ResetCredit>>) -> (expiries: Vec<i64>)
    ensures
        expiries@ == listed_expiries(*credits),
{
    let mut expiries: Vec<i64> = Vec::new();
    match credits {
        None => {},
        Some(list) => {
            let available = "available".to_string();
            let mut i: usize = 0;
            while i < list.len()
                invariant
                    i <= list.len(),
                    available@ == "available"@,
                    expiries@ == available_expiries(list@.take(i as int)),
                decreases list.len() - i,
            {
                let credit = &list[i];
                assert(list@.take(i + 1).drop_last() =~= list@.take(i as int));
                let keep = match &credit.status {
                    Some(status) => *status == available,
                    None => false,
                };
                if keep {
                    match credit.expires_at {
                        Some(at) => {
                            assert(available_expiries(list@.take(i as int)).push(at)
                                =~= available_expiries(list@.take(i as int)) + seq![at]);
                            expiries.push(at);
                        },
                        None => {},
                    }
                }
                i = i + 1;
            }
            assert(list@.take(list.len() as int) =~= list@);
        },
    }
    expiries
}

/// Reads the limits from an app-server result.
///
/// Fails with the first missing piece (`parse_error`); otherwise the used
/// percentage is clamped to 0..=100, the window length defaults to a week, the
/// available reset count defaults to 0 and is raised to 0 where negative, and
/// the expiry details count as available exactly when the result lists credits.
pub fn parse_limit_data(result: &RateLimitsResult) -> (parsed: Result<ParsedLimits, LimitError>)
    ensures
        parsed is Err <==> parse_error(*result) is Some,
        parsed matches Err(e) ==> parse_error(*result) == Some(e),
        parsed matches Ok(p) ==> parsed_from(p, *result) && p.well_formed(),
        parsed matches Ok(p) ==> {
            let s = chosen_snapshot(*result)->0;
            &&& p.plan_type == s.plan_type
            &&& p.weekly_reset_at == s.primary->0.resets_at->0
            &&& s.primary->0.used_percent matches Some(u) && (0 <= u <= 100
                ==> p.used_percent == u)
        },
{
    let snapshot = match &result.codex_limit {
        Some(s) => s,
        None => match &result.rate_limits {
            Some(s) => s,
            None => return Err(LimitError::SnapshotMissing),
        },
    };
    let primary = match &snapshot.primary {
        Some(w) => w,
        None => return Err(LimitError::WindowMissing),
    };
    let raw_used = match primary.used_percent {
        Some(u) => u,
        None => return Err(LimitError::UsedPercentUnknown),
    };
    let used_percent = if raw_used < 0 {
        0
    } else if raw_used > 100 {
        100
    } else {
        raw_used
    };
    let weekly_reset_at = match primary.resets_at {
        Some(t) => t,
        None => return Err(LimitError::ResetTimeUnknown),
    };
    let window_duration_mins = match primary.window_duration_mins {
        Some(m) => m,
        None => DEFAULT_WINDOW_DURATION_MINS,
    };
    let raw_count = match result.reset_available_count {
        Some(c) => c,
        None => 0,
    };
    let reset_available_count = if raw_count < 0 {
        0
    } else {
        raw_count
    };
    let reset_expiries = parse_app_server_expiries(&result.reset_credits);
    let expiry_details_available = result.reset_credits.is_some();
    let plan_type = match &snapshot.plan_type {
        Some(p) => Some(p.clone()),
        None => None,
    };
    Ok(
        ParsedLimits {
            used_percent,
            weekly_reset_at,
            window_duration_mins,
            reset_available_count,
            reset_expiries,
            expiry_details_available,
            plan_type,
        },
    )
}

/// The figures the monitor shows.
#[derive(Clone, Debug, PartialEq)]
pub struct CodexLimitData {
    pub remaining_percent: i64,
    pub used_percent: i64,
    pub weekly_reset_at: i64,
    pub window_duration_mins: i64,
    pub reset_available_count: i64,
    pub reset_expiries: Vec<i64>,
    pub expiry_details_available: bool,
    pub plan_type: Option<String>,
    pub last_updated_at: i64,
}

/// `p` with the reset-credit details `d` in place of what the app-server
/// listed: their count (raised to 0 where negative) and their expiry times.
pub open spec fn with_details(p: ParsedLimits, d: ResetDetails) -> ParsedLimits {
    ParsedLimits {
        used_percent: p.used_percent,
        weekly_reset_at: p.weekly_reset_at,
        window_duration_mins: p.window_duration_mins,
        reset_available_count: non_negative(d.available_count),
        reset_expiries: d.expiries,
        expiry_details_available: true,
        plan_type: p.plan_type,
    }
}

/// `d` is the limit data of `p` stamped with time `now`: the remaining
/// percentage complements the used one and the expiries are `p`'s in
/// ascending order.
pub open spec fn limit_data_from(d: CodexLimitData, p: ParsedLimits, now: i64) -> bool {
    &&& d.remaining_percent == 100 - p.used_percent
    &&& d.used_percent == p.used_percent
    &&& d.weekly_reset_at == p.weekly_reset_at
    &&& d.window_duration_mins == p.window_duration_mins
    &&& d.reset_available_count == p.reset_available_count
    &&& crate::sorting::is_ascending(d.reset_expiries@)
    &&& d.reset_expiries@.to_multiset() == p.reset_expiries@.to_multiset()
    &&& d.expiry_details_available == p.expiry_details_available
    &&& d.plan_type == p.plan_type
    &&& d.last_updated_at == now
}

impl ParsedLimits {
    /// Whether the expiry times must be asked of the reset-credits endpoint:
    /// the app-server reported available resets but listed no credits.
    pub fn needs_reset_details(&self) -> (needed: bool)
        ensures
            needed == (!self.expiry_details_available && self.reset_available_count > 0),
    {
        !self.expiry_details_available && self.reset_available_count > 0
    }

    /// Takes the available count and the expiry times from the reset-credit
    /// details; the count is raised to 0 where negative.
    pub fn with_reset_details(self, details: ResetDetails) -> (updated: ParsedLimits)
        ensures
            updated == with_details(self, details),
            self.well_formed() ==> updated.well_formed(),
            updated.used_percent == self.used_percent,
            updated.weekly_reset_at == self.weekly_reset_at,
            updated.window_duration_mins == self.window_duration_mins,
            updated.plan_type == self.plan_type,
            updated.reset_available_count == (if details.available_count < 0 {
                0
            } else {
                details.available_count
            }),
            updated.reset_expiries@ == details.expiries@,
            updated.expiry_details_available,
    {
        let count = if details.available_count < 0 {
            0
        } else {
            details.available_count
        };
        ParsedLimits {
            used_percent: self.used_percent,
            weekly_reset_at: self.weekly_reset_at,
            window_duration_mins: self.window_duration_mins,
            reset_available_count: count,
            reset_expiries: details.expiries,
            expiry_details_available: true,
            plan_type: self.plan_type,
        }
    }
}

/// The limit data of `parsed`, stamped with `now`.
pub fn limit_data_at(parsed: ParsedLimits, now: i64) -> (data: CodexLimitData)
    requires
        parsed.well_formed(),
    ensures
        limit_data_from(data, parsed, now),
{
    let reset_expiries = sort_ascending(&parsed.reset_expiries);
    CodexLimitData {
        remaining_percent: 100 - parsed.used_percent,
        used_percent: parsed.used_percent,
        weekly_reset_at: parsed.weekly_reset_at,
        window_duration_mins: parsed.window_duration_mins,
        reset_available_count: parsed.reset_available_count,
        reset_expiries,
        expiry_details_available: parsed.expiry_details_available,
        plan_type: parsed.plan_type,
        last_updated_at: now,
    }
}

/// The limit data of `parsed`, stamped with the current time; of that time
/// nothing is known here.
pub fn finish_limit_data(parsed: ParsedLimits) -> (data: CodexLimitData)
    requires
        parsed.well_formed(),
    ensures
        limit_data_from(data, parsed, data.last_updated_at),
{
    let now = current_unix_timestamp();
    limit_data_at(parsed, now)
}

} // verus!
