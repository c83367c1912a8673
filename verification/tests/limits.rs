use codex_limit_monitor::fetch::{
    app_server_outcome, complete_fetch, fetch_blocking, is_rate_limits_reply, FetchStep,
};
use codex_limit_monitor::limits::{
    finish_limit_data, limit_data_at, parse_app_server_expiries, parse_limit_data, LimitError,
    RateLimitSnapshot, RateLimitsResult, ResetCredit, UsageWindow,
};
use codex_limit_monitor::reset_credits::ResetDetails;

fn window(used: Option<i64>, resets: Option<i64>, minutes: Option<i64>) -> UsageWindow {
    UsageWindow { used_percent: used, resets_at: resets, window_duration_mins: minutes }
}

fn snapshot(primary: Option<UsageWindow>, plan: Option<&str>) -> RateLimitSnapshot {
    RateLimitSnapshot { primary, plan_type: plan.map(|p| p.to_string()) }
}

fn credit(status: &str, expires_at: Option<i64>) -> ResetCredit {
    ResetCredit { status: Some(status.to_string()), expires_at }
}

fn result_with(
    codex: Option<RateLimitSnapshot>,
    general: Option<RateLimitSnapshot>,
    count: Option<i64>,
    credits: Option<Vec<ResetCredit>>,
) -> RateLimitsResult {
    RateLimitsResult {
        codex_limit: codex,
        rate_limits: general,
        reset_available_count: count,
        reset_credits: credits,
    }
}

fn basic_result() -> RateLimitsResult {
    result_with(
        Some(snapshot(Some(window(Some(40), Some(1_800_000_000), Some(300))), Some("plus"))),
        None,
        Some(0),
        Some(vec![]),
    )
}

#[test]
fn parses_weekly_remaining_and_sorted_expiries() {
    let result = result_with(
        Some(snapshot(
            Some(window(Some(27), Some(1784598710), Some(10080))),
            Some("pro"),
        )),
        None,
        Some(2),
        Some(vec![
            credit("available", Some(1786000000)),
            credit("available", Some(1785000000)),
            credit("redeemed", Some(1784000000)),
        ]),
    );

    let parsed = parse_limit_data(&result).expect("valid rate limit payload");
    assert!(!parsed.needs_reset_details());
    let parsed = finish_limit_data(parsed);

    assert_eq!(parsed.remaining_percent, 73);
    assert_eq!(parsed.used_percent, 27);
    assert_eq!(parsed.reset_available_count, 2);
    assert_eq!(parsed.reset_expiries, vec![1785000000, 1786000000]);
    assert!(parsed.expiry_details_available);
}

#[test]
fn reads_every_field_of_the_codex_snapshot() {
    let parsed = parse_limit_data(&basic_result()).expect("complete result");
    assert_eq!(parsed.used_percent, 40);
    assert_eq!(parsed.weekly_reset_at, 1_800_000_000);
    assert_eq!(parsed.window_duration_mins, 300);
    assert_eq!(parsed.reset_available_count, 0);
    assert!(parsed.reset_expiries.is_empty());
    assert!(parsed.expiry_details_available);
    assert_eq!(parsed.plan_type, Some("plus".to_string()));
}

#[test]
fn falls_back_to_general_snapshot() {
    let result = result_with(
        None,
        Some(snapshot(Some(window(Some(10), Some(5), None)), None)),
        None,
        None,
    );
    let parsed = parse_limit_data(&result).expect("general snapshot");
    assert_eq!(parsed.used_percent, 10);
    assert_eq!(parsed.weekly_reset_at, 5);
    assert_eq!(parsed.plan_type, None);
}

#[test]
fn codex_snapshot_wins_over_general_one() {
    let result = result_with(
        Some(snapshot(None, Some("pro"))),
        Some(snapshot(Some(window(Some(10), Some(5), None)), None)),
        None,
        None,
    );
    assert_eq!(parse_limit_data(&result), Err(LimitError::WindowMissing));
}

#[test]
fn missing_window_length_defaults_to_a_week() {
    let result = result_with(
        Some(snapshot(Some(window(Some(1), Some(2), None)), None)),
        None,
        None,
        None,
    );
    let parsed = parse_limit_data(&result).expect("complete result");
    assert_eq!(parsed.window_duration_mins, 10_080);
    assert_eq!(parsed.reset_available_count, 0);
    assert!(!parsed.expiry_details_available);
    assert!(!parsed.needs_reset_details());
}

#[test]
fn used_percent_is_clamped() {
    for (raw, expected) in [(-5, 0), (0, 0), (100, 100), (250, 100), (i64::MIN, 0), (i64::MAX, 100)] {
        let result = result_with(
            Some(snapshot(Some(window(Some(raw), Some(2), None)), None)),
            None,
            None,
            None,
        );
        let data = finish_limit_data(parse_limit_data(&result).expect("complete result"));
        assert_eq!(data.used_percent, expected);
        assert_eq!(data.remaining_percent, 100 - expected);
    }
}

#[test]
fn negative_reset_count_counts_as_zero() {
    let result = result_with(
        Some(snapshot(Some(window(Some(1), Some(2), None)), None)),
        None,
        Some(-3),
        None,
    );
    let parsed = parse_limit_data(&result).expect("complete result");
    assert_eq!(parsed.reset_available_count, 0);
    assert!(!parsed.needs_reset_details());
}

#[test]
fn reports_each_missing_piece() {
    let no_snapshot = result_with(None, None, Some(1), None);
    assert_eq!(parse_limit_data(&no_snapshot), Err(LimitError::SnapshotMissing));
    let no_window = result_with(None, Some(snapshot(None, None)), None, None);
    assert_eq!(parse_limit_data(&no_window), Err(LimitError::WindowMissing));
    let no_used = result_with(Some(snapshot(Some(window(None, Some(1), None)), None)), None, None, None);
    assert_eq!(parse_limit_data(&no_used), Err(LimitError::UsedPercentUnknown));
    let no_reset = result_with(Some(snapshot(Some(window(Some(1), None, None)), None)), None, None, None);
    assert_eq!(parse_limit_data(&no_reset), Err(LimitError::ResetTimeUnknown));
}

#[test]
fn error_messages() {
    assert_eq!(LimitError::SnapshotMissing.message(), "Codexの週次利用枠が見つかりません");
    assert_eq!(LimitError::WindowMissing.message(), "Codexの週次利用枠ウィンドウが見つかりません");
    assert_eq!(LimitError::UsedPercentUnknown.message(), "Codexの使用率が不明です");
    assert_eq!(LimitError::ResetTimeUnknown.message(), "Codexの次回リセット日時が不明です");
}

#[test]
fn app_server_expiries_keep_only_available_credits_with_times() {
    let credits = Some(vec![
        credit("available", Some(30)),
        credit("redeemed", Some(10)),
        credit("available", None),
        ResetCredit { status: None, expires_at: Some(20) },
        credit("Available", Some(40)),
        credit("available", Some(5)),
    ]);
    assert_eq!(parse_app_server_expiries(&credits), vec![30, 5]);
    assert_eq!(parse_app_server_expiries(&None), Vec::<i64>::new());
}

#[test]
fn limit_data_is_stamped_and_sorted() {
    let mut parsed = parse_limit_data(&basic_result()).expect("complete result");
    parsed.reset_expiries = vec![9, 3, 9, -1];
    let data = limit_data_at(parsed, 1234);
    assert_eq!(data.last_updated_at, 1234);
    assert_eq!(data.reset_expiries, vec![-1, 3, 9, 9]);
    assert_eq!(data.remaining_percent, 60);
    assert_eq!(data.weekly_reset_at, 1_800_000_000);
    assert_eq!(data.window_duration_mins, 300);
    assert_eq!(data.plan_type, Some("plus".to_string()));
}

#[test]
fn fetch_passes_app_server_errors_on() {
    match fetch_blocking(Err("Codex app-serverが応答前に終了しました".to_string())) {
        FetchStep::Finished(Err(message)) => {
            assert_eq!(message, "Codex app-serverが応答前に終了しました")
        }
        _ => panic!("expected the error to be passed on"),
    }
}

#[test]
fn fetch_reports_parse_errors_by_message() {
    match fetch_blocking(Ok(result_with(None, None, None, None))) {
        FetchStep::Finished(Err(message)) => {
            assert_eq!(message, "Codexの週次利用枠が見つかりません")
        }
        _ => panic!("expected a parse error"),
    }
}

#[test]
fn fetch_finishes_when_credits_are_listed() {
    match fetch_blocking(Ok(basic_result())) {
        FetchStep::Finished(Ok(data)) => {
            assert_eq!(data.used_percent, 40);
            assert_eq!(data.remaining_percent, 60);
        }
        _ => panic!("expected limit data"),
    }
}

#[test]
fn fetch_asks_for_details_when_credits_are_missing() {
    let result = result_with(
        Some(snapshot(Some(window(Some(50), Some(7), None)), None)),
        None,
        Some(2),
        None,
    );
    let parsed = match fetch_blocking(Ok(result)) {
        FetchStep::NeedResetDetails(parsed) => parsed,
        _ => panic!("expected a request for details"),
    };
    assert!(parsed.needs_reset_details());

    let with_details = complete_fetch(
        parsed.clone(),
        Ok(ResetDetails { available_count: 3, expiries: vec![200, 100, 300] }),
    );
    assert_eq!(with_details.reset_available_count, 3);
    assert_eq!(with_details.reset_expiries, vec![100, 200, 300]);
    assert!(with_details.expiry_details_available);
    assert_eq!(with_details.used_percent, 50);

    let negative = complete_fetch(
        parsed.clone(),
        Ok(ResetDetails { available_count: -1, expiries: vec![] }),
    );
    assert_eq!(negative.reset_available_count, 0);
    assert!(negative.expiry_details_available);

    let without = complete_fetch(parsed, Err("リセット有効期限を取得できません (HTTP 401)".to_string()));
    assert_eq!(without.reset_available_count, 2);
    assert!(without.reset_expiries.is_empty());
    assert!(!without.expiry_details_available);
}

#[test]
fn app_server_reply_outcomes() {
    match app_server_outcome(Some("{\"code\":-1}".to_string()), Some(basic_result())) {
        Err(message) => assert_eq!(message, "Codexの利用枠を取得できません: {\"code\":-1}"),
        Ok(_) => panic!("expected the reply's error"),
    }
    match app_server_outcome(None, None) {
        Err(message) => assert_eq!(message, "Codexの利用枠レスポンスが空です"),
        Ok(_) => panic!("expected the empty-reply error"),
    }
    assert_eq!(app_server_outcome(None, Some(basic_result())), Ok(basic_result()));
}

#[test]
fn only_id_one_answers_the_rate_limits_request() {
    assert!(is_rate_limits_reply(Some(1)));
    assert!(!is_rate_limits_reply(Some(0)));
    assert!(!is_rate_limits_reply(None));
}
