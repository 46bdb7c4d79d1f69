use jwt_inspect::claims::{analyze_claims, relative_time};

fn payload(s: &str) -> serde_json::Value {
    serde_json::from_str(s).unwrap()
}

#[test]
fn expired_token_gets_expires_line_and_warning() {
    let t: i64 = 1_700_000_000;
    let v = payload(&format!("{{\"exp\": {}}}", t));
    let msgs = analyze_claims(&v, t + 3700);
    assert_eq!(msgs.len(), 2);
    assert!(!msgs[0].warning);
    assert!(msgs[0].text.contains("Expires"));
    assert!(msgs[0].text.contains("(1 hour ago)"));
    assert!(msgs[1].warning);
    assert_eq!(msgs[1].text, "Warning: Token expired");
}

#[test]
fn future_nbf_gets_warning() {
    let v = payload("{\"nbf\": 1000}");
    let msgs = analyze_claims(&v, 500);
    assert_eq!(msgs.len(), 2);
    assert!(msgs[0].text.starts_with("Not Before (nbf): "));
    assert!(msgs[0].text.contains("(in 8 minutes)"));
    assert!(msgs[1].warning);
    assert_eq!(msgs[1].text, "Warning: Token not yet valid (nbf in future)");
}

#[test]
fn audience_array_joins_with_comma() {
    let v = payload("{\"aud\": [\"a\", \"b\"]}");
    let msgs = analyze_claims(&v, 0);
    assert_eq!(msgs.len(), 1);
    assert_eq!(msgs[0].text, "Audience (aud): a, b");
}

#[test]
fn audience_string_renders_verbatim() {
    let v = payload("{\"aud\": \"c\"}");
    let msgs = analyze_claims(&v, 0);
    assert_eq!(msgs.len(), 1);
    assert_eq!(msgs[0].text, "Audience (aud): c");
}

#[test]
fn absent_audience_emits_nothing() {
    let v = payload("{}");
    let msgs = analyze_claims(&v, 0);
    assert!(msgs.is_empty());
}

#[test]
fn empty_audience_array_emits_nothing() {
    let v = payload("{\"aud\": []}");
    assert!(analyze_claims(&v, 0).is_empty());
    let v2 = payload("{\"aud\": [1, 2]}");
    assert!(analyze_claims(&v2, 0).is_empty());
    let v3 = payload("{\"aud\": 42}");
    assert!(analyze_claims(&v3, 0).is_empty());
}

#[test]
fn audience_array_skips_non_strings() {
    let v = payload("{\"aud\": [\"a\", 5, \"b\"]}");
    let msgs = analyze_claims(&v, 0);
    assert_eq!(msgs[0].text, "Audience (aud): a, b");
}

#[test]
fn string_claims_render_in_fixed_order() {
    let v = payload("{\"sub\": \"s\", \"jti\": \"j\", \"iss\": \"i\", \"aud\": \"x\"}");
    let msgs = analyze_claims(&v, 0);
    let texts: Vec<&str> = msgs.iter().map(|m| m.text.as_str()).collect();
    assert_eq!(
        texts,
        vec!["Issuer (iss): i", "Subject (sub): s", "Audience (aud): x", "JWT ID (jti): j"]
    );
}

#[test]
fn iat_renders_absolute_and_relative() {
    let v = payload("{\"iat\": 0}");
    let msgs = analyze_claims(&v, 90);
    assert_eq!(msgs.len(), 1);
    assert_eq!(
        msgs[0].text,
        "Issued At (iat): 1970-01-01T00:00:00+00:00 (1 minute ago)"
    );
}

#[test]
fn out_of_range_time_is_silently_omitted() {
    let v = payload("{\"iat\": 9223372036854775807}");
    let msgs = analyze_claims(&v, 0);
    assert!(msgs.is_empty());
}

#[test]
fn out_of_range_exp_still_warns_when_expired() {
    // the absolute line is omitted, the expiry comparison still runs
    let v = payload("{\"exp\": -9223372036854775808}");
    let msgs = analyze_claims(&v, 0);
    assert_eq!(msgs.len(), 1);
    assert!(msgs[0].warning);
    assert_eq!(msgs[0].text, "Warning: Token expired");
}

#[test]
fn relative_time_buckets_and_plurals() {
    assert_eq!(relative_time(3700, 0), "1 hour ago");
    assert_eq!(relative_time(0, 3700), "in 1 hour");
    assert_eq!(relative_time(7300, 0), "2 hours ago");
    assert_eq!(relative_time(90, 0), "1 minute ago");
    assert_eq!(relative_time(59, 0), "59 seconds ago");
    assert_eq!(relative_time(0, 0), "in 0 seconds");
    assert_eq!(relative_time(86400, 0), "1 day ago");
    assert_eq!(relative_time(0, 200_000), "in 2 days");
    assert_eq!(relative_time(1, 0), "1 second ago");
}

#[test]
fn relative_time_handles_extreme_inputs() {
    let s = relative_time(i64::MAX, i64::MIN);
    assert!(s.ends_with(" days ago"));
    let s2 = relative_time(i64::MIN, i64::MAX);
    assert!(s2.starts_with("in ") && s2.ends_with(" days"));
}
