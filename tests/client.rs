use twillo_metrics::twillo::{
    accepts_status, basic_authorization, summary_from_reply, AttemptSummary, Errors, TwilloAPI,
    UpstreamReply,
};

fn summary(attempts: usize, converted: usize, unconverted: usize, rate: &str) -> AttemptSummary {
    AttemptSummary {
        total_attempts: attempts,
        total_converted: converted,
        total_unconverted: unconverted,
        conversion_rate_percentage: rate.to_string(),
    }
}

#[test]
fn get_with_base_joins_the_api_root() {
    let api = TwilloAPI::new("my-test", "", "");
    assert_eq!(
        api.get_with_base("Attempts/Summary"),
        "https://verify.twilio.com/v2/Attempts/Summary"
    );
    assert_eq!(api.get_with_base(""), "https://verify.twilio.com/v2/");
}

#[test]
fn authorization_encodes_sid_and_token() {
    let api = TwilloAPI::new("my-test", "AC123", "secret");
    assert_eq!(api.authorization().unwrap(), "Basic QUMxMjM6c2VjcmV0");
}

#[test]
fn authorization_with_empty_credentials() {
    let api = TwilloAPI::new("my-test", "", "");
    assert_eq!(api.authorization().unwrap(), "Basic Og==");
}

#[test]
fn authorization_encodes_utf8_bytes() {
    let api = TwilloAPI::new("app", "ACé", "tök");
    assert_eq!(api.authorization().unwrap(), "Basic QUPDqTp0w7Zr");
}

#[test]
fn basic_authorization_prefixes_encoded_pair() {
    assert_eq!(basic_authorization("QQ=="), "Basic QQ==");
    assert_eq!(basic_authorization(""), "Basic ");
}

#[test]
fn summary_request_describes_the_call() {
    let api = TwilloAPI::new("my-test", "AC123", "secret");
    let req = api.summary_request("2025-02-21T00:00:00Z", Some("US")).unwrap();
    assert_eq!(req.url, "https://verify.twilio.com/v2/Attempts/Summary");
    assert_eq!(req.authorization, "Basic QUMxMjM6c2VjcmV0");
    assert_eq!(req.query_name, "DateCreatedAfter");
    assert_eq!(req.query_value, "2025-02-21T00:00:00Z");
}

#[test]
fn summary_request_with_empty_date_filter() {
    let api = TwilloAPI::new("my-test", "", "");
    let req = api.summary_request("", None).unwrap();
    assert_eq!(req.query_value, "");
    assert_eq!(req.authorization, "Basic Og==");
}

#[test]
fn from_config_with_every_value() {
    let api = TwilloAPI::from_config(
        Some("app".to_string()),
        Some("AC123".to_string()),
        Some("secret".to_string()),
    )
    .unwrap();
    assert_eq!(api.authorization().unwrap(), "Basic QUMxMjM6c2VjcmV0");
}

#[test]
fn from_config_names_the_first_missing_value() {
    let missing = |a: Option<&str>, s: Option<&str>, t: Option<&str>| -> String {
        match TwilloAPI::from_config(
            a.map(|x| x.to_string()),
            s.map(|x| x.to_string()),
            t.map(|x| x.to_string()),
        ) {
            Err(Errors::ConfigError(name)) => name,
            other => panic!("expected a configuration error, got {:?}", other),
        }
    };
    assert_eq!(missing(None, Some("s"), Some("t")), "APP_NAME");
    assert_eq!(missing(Some("a"), None, Some("t")), "SID");
    assert_eq!(missing(Some("a"), Some("s"), None), "TOKEN");
    assert_eq!(missing(None, None, None), "APP_NAME");
    assert_eq!(missing(Some("a"), None, None), "SID");
}

#[test]
fn accepts_only_status_200() {
    assert!(accepts_status(200));
    assert!(!accepts_status(201));
    assert!(!accepts_status(401));
    assert!(!accepts_status(500));
}

#[test]
fn unreachable_reply_is_an_api_error() {
    let r = summary_from_reply(UpstreamReply::Unreachable("connection refused".to_string()));
    assert!(matches!(r, Err(Errors::APIError(ref m)) if m == "Something happened connection refused"));
}

#[test]
fn rejected_reply_carries_the_body_text() {
    let r = summary_from_reply(UpstreamReply::Rejected("rate limited".to_string()));
    assert!(matches!(r, Err(Errors::APIError(ref m)) if m == "Something happened rate limited"));
}

#[test]
fn delivered_summary_is_returned() {
    let r = summary_from_reply(UpstreamReply::Delivered(Ok(summary(100, 80, 20, "80.0")))).unwrap();
    assert_eq!(r.total_attempts, 100);
    assert_eq!(r.total_converted, 80);
    assert_eq!(r.total_unconverted, 20);
    assert_eq!(r.conversion_rate_percentage, "80.0");
}

#[test]
fn undecodable_body_is_a_decode_error() {
    let r = summary_from_reply(UpstreamReply::Delivered(Err("missing field".to_string())));
    assert!(matches!(r, Err(Errors::DecodeError(ref m)) if m == "missing field"));
}
