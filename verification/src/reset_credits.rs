use vstd::prelude::*;

verus! {

/// The available count and expiry times of the reset credits.
#[derive(Clone, Debug, PartialEq)]
pub struct ResetDetails {
    pub available_count: i64,
    pub expiries: Vec<i64>,
}

/// One credit as the reset-credits endpoint lists it; `expires_at` is an
/// RFC 3339 date-time where present.
#[derive(Clone, Debug, PartialEq)]
pub struct ResetCreditEntry {
    pub status: String,
    pub expires_at: Option<String>,
}

/// The body of the reset-credits endpoint's reply.
#[derive(Clone, Debug, PartialEq)]
pub struct ResetCreditsPayload {
    pub available_count: i64,
    pub credits: Vec<ResetCreditEntry>,
}

/// The Unix timestamp of an RFC 3339 date-time text, `None` where the text is
/// not one.
pub uninterp spec fn rfc3339_timestamp(text: Seq<char>) -> Option<i64>;

/// Calls `chrono::DateTime::parse_from_rfc3339` on `text` and, where it
/// succeeds, `timestamp()` on the result. The claim is only that the result
/// depends on the text alone; which texts parse, and to what, is left to chrono.
#[verifier::external_body]
fn parse_rfc3339_timestamp(text: &str) -> (parsed: Option<i64>)
    ensures
        parsed == rfc3339_timestamp(text@),
{
    match chrono::DateTime::parse_from_rfc3339(text) {
        Ok(date_time) => Some(date_time.timestamp()),
        Err(_) => None,
    }
}

/// The expiry text that a credit contributes: its own, where it is available.
pub open spec fn expiry_text(c: ResetCreditEntry) -> Option<String> {
    if c.status@ == "available"@ {
        c.expires_at
    } else {
        None
    }
}

/// The expiry texts of the available credits that carry one, in list order.
pub open spec fn expiry_texts(credits: Seq<ResetCreditEntry>) -> Seq<String> {
    credits.filter_map(|c: ResetCreditEntry| expiry_text(c))
}

/// The values that are present, in order.
pub open spec fn present_values(values: Seq<Option<i64>>) -> Seq<i64> {
    values.filter_map(|v: Option<i64>| v)
}

/// The timestamps of the texts, each read as an RFC 3339 date-time.
pub open spec fn text_timestamps(texts: Seq<String>) -> Seq<Option<i64>> {
    texts.map_values(|t: String| rfc3339_timestamp(t@))
}

/// The expiry texts of the available credits that carry one, in list order.
pub fn available_expiry_texts(credits: &Vec<ResetCreditEntry>) -> (texts: Vec<String>)
    ensures
        texts@ == expiry_texts(credits@),
{
    let available = "available".to_string();
    let mut texts: Vec<String> = Vec::new();
    let mut i: usize = 0;
    while i < credits.len()
        invariant
            i <= credits.len(),
            available@ == "available"@,
            texts@ == expiry_texts(credits@.take(i as int)),
        decreases credits.len() - i,
    {
        let credit = &credits[i];
        assert(credits@.take(i + 1).drop_last() =~= credits@.take(i as int));
        if credit.status == available {
            match &credit.expires_at {
                Some(text) => {
                    let t = text.clone();
                    assert(expiry_texts(credits@.take(i as int)).push(t) =~= expiry_texts(
                        credits@.take(i as int),
                    ) + seq![t]);
                    texts.push(t);
                },
                None => {},
            }
        }
        i = i + 1;
    }
    assert(credits@.take(credits.len() as int) =~= credits@);
    texts
}

/// The values that are present, in order.
pub fn keep_present(values: &Vec<Option<i64>>) -> (kept: Vec<i64>)
    ensures
        kept@ == present_values(values@),
        forall|v: i64|
            #[trigger] kept@.to_multiset().count(v) == values@.to_multiset().count(Some(v)),
{
    proof {
        assert forall|v: i64|
            #[trigger] present_values(values@).to_multiset().count(v) == values@.to_multiset().count(
                Some(v),
            ) by {
            crate::laws::present_values_keep_every_value(values@, v);
        }
    }
    let mut kept: Vec<i64> = Vec::new();
    let mut i: usize = 0;
    while i < values.len()
        invariant
            i <= values.len(),
            kept@ == present_values(values@.take(i as int)),
        decreases values.len() - i,
    {
        assert(values@.take(i + 1).drop_last() =~= values@.take(i as int));
        match values[i] {
            Some(v) => {
                assert(present_values(values@.take(i as int)).push(v) =~= present_values(
                    values@.take(i as int),
                ) + seq![v]);
                kept.push(v);
            },
            None => {},
        }
        i = i + 1;
    }
    assert(values@.take(values.len() as int) =~= values@);
    kept
}

/// The timestamps of the texts that read as RFC 3339 date-times, in order;
/// the others are dropped.
pub fn parse_expiry_timestamps(texts: &Vec<String>) -> (timestamps: Vec<i64>)
    ensures
        timestamps@ == present_values(text_timestamps(texts@)),
{
    let mut parsed: Vec<Option<i64>> = Vec::new();
    let mut i: usize = 0;
    while i < texts.len()
        invariant
            i <= texts.len(),
            parsed@ == text_timestamps(texts@.take(i as int)),
        decreases texts.len() - i,
    {
        let value = parse_rfc3339_timestamp(texts[i].as_str());
        parsed.push(value);
        assert(text_timestamps(texts@.take(i + 1)) =~= text_timestamps(texts@.take(i as int)).push(
            value,
        ));
        i = i + 1;
    }
    assert(texts@.take(texts.len() as int) =~= texts@);
    keep_present(&parsed)
}

/// The reset details in a reply of the reset-credits endpoint: its available
/// count as sent, and the timestamps of the available credits whose expiry
/// reads as an RFC 3339 date-time, in list order.
pub fn reset_details_from_payload(payload: &ResetCreditsPayload) -> (details: ResetDetails)
    ensures
        details.available_count == payload.available_count,
        details.expiries@ == present_values(text_timestamps(expiry_texts(payload.credits@))),
{
    let texts = available_expiry_texts(&payload.credits);
    let expiries = parse_expiry_timestamps(&texts);
    ResetDetails { available_count: payload.available_count, expiries }
}

/// The ChatGPT credentials found in the Codex login file.
#[derive(Clone, Debug, PartialEq)]
pub struct AuthTokens {
    pub access_token: String,
    pub account_id: String,
}

/// The message where the login file holds no ChatGPT credentials.
pub open spec fn login_required_message() -> Seq<char> {
    "CodexへChatGPTでログインしてください"@
}

/// The credentials to ask the reset-credits endpoint with; without them the
/// user is asked to log in to Codex with ChatGPT.
pub fn login_tokens(tokens: Option<AuthTokens>) -> (outcome: Result<AuthTokens, String>)
    ensures
        match tokens {
            Some(t) => outcome == Ok::<AuthTokens, String>(t),
            None => outcome matches Err(m) && m@ == login_required_message(),
        },
{
    match tokens {
        Some(t) => Ok(t),
        None => Err("CodexへChatGPTでログインしてください".to_string()),
    }
}

/// The message where the reset-credits endpoint answers with a status that is
/// not a success; `status` is the status as HTTP writes it.
pub open spec fn http_failure_message(status: Seq<char>) -> Seq<char> {
    "リセット有効期限を取得できません (HTTP "@ + status + ")"@
}

/// The message for a reply of the reset-credits endpoint with status `status`.
pub fn reset_http_failure(status: &str) -> (message: String)
    ensures
        message@ == http_failure_message(status@),
{
    "リセット有効期限を取得できません (HTTP ".to_string().concat(status).concat(")")
}

} // verus!
