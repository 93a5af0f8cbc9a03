use remote_config::data_provider::Freshness;
use remote_config::http::{
    cache_policy_from, content_format, is_success_status, load_result, parse_cache_control, plan_extraction,
    plan_from_policy, CachePolicy,
    ContentFormat, DataExtractionError, ExtractionPlan, HeaderText, RequiredHeader,
};

fn text(s: &str) -> HeaderText {
    HeaderText::Ascii(s.to_string())
}

#[test]
fn cache_control_allow_stale() {
    let p = parse_cache_control(text("public, max-age=10")).unwrap();
    assert_eq!(p, CachePolicy { must_revalidate: false, max_age_secs: Some(10) });
}

#[test]
fn cache_control_must_revalidate() {
    let p = parse_cache_control(text("public, max-age=10, must-revalidate")).unwrap();
    assert_eq!(p, CachePolicy { must_revalidate: true, max_age_secs: Some(10) });
}

#[test]
fn cache_control_without_max_age() {
    let p = parse_cache_control(text("no-cache, no-store, must-revalidate")).unwrap();
    assert_eq!(p, CachePolicy { must_revalidate: true, max_age_secs: None });
    let empty = parse_cache_control(text("")).unwrap();
    assert_eq!(empty, CachePolicy { must_revalidate: false, max_age_secs: None });
}

#[test]
fn cache_control_bad_number() {
    match parse_cache_control(text("max-age=soon")) {
        Err(DataExtractionError::HeaderParseError(RequiredHeader::CacheControl, HeaderText::Ascii(v))) => {
            assert_eq!(v, "max-age=soon")
        }
        other => panic!("unexpected {other:?}"),
    }
}

#[test]
fn cache_control_non_ascii() {
    assert!(matches!(
        parse_cache_control(HeaderText::NonAscii),
        Err(DataExtractionError::HeaderParseError(RequiredHeader::CacheControl, HeaderText::NonAscii))
    ));
}

#[test]
fn content_types() {
    assert_eq!(content_format("application/json"), Some(ContentFormat::Json));
    assert_eq!(content_format("application/toml"), Some(ContentFormat::Toml));
    assert_eq!(content_format("application/yaml"), Some(ContentFormat::Yaml));
    assert_eq!(content_format("application/xml"), Some(ContentFormat::Xml));
    assert_eq!(content_format("unknown"), None);
    assert_eq!(content_format("application/json; charset=utf-8"), None);
    assert_eq!(content_format(""), None);
}

#[test]
fn success_statuses() {
    assert!(is_success_status(200));
    assert!(is_success_status(204));
    assert!(is_success_status(299));
    assert!(!is_success_status(199));
    assert!(!is_success_status(300));
    assert!(!is_success_status(404));
}

#[test]
fn plan_for_valid_response() {
    let plan = plan_extraction(200, Some(text("public, max-age=10")), Some(text("application/yaml"))).unwrap();
    assert_eq!(
        plan,
        ExtractionPlan {
            format: ContentFormat::Yaml,
            policy: CachePolicy { must_revalidate: false, max_age_secs: Some(10) },
        }
    );
}

#[test]
fn plan_status_error() {
    let r = plan_extraction(404, Some(text("public, max-age=10, must-revalidate")), Some(text("application/json")));
    assert!(matches!(r, Err(DataExtractionError::StatusError(404))));
}

#[test]
fn plan_missing_cache_control() {
    let r = plan_extraction(200, None, Some(text("application/json")));
    assert!(matches!(r, Err(DataExtractionError::HeaderNotFound(RequiredHeader::CacheControl))));
}

#[test]
fn plan_missing_content_type() {
    let r = plan_extraction(200, Some(text("max-age=1")), None);
    assert!(matches!(r, Err(DataExtractionError::HeaderNotFound(RequiredHeader::ContentType))));
}

#[test]
fn plan_unreadable_content_type() {
    let r = plan_extraction(200, Some(text("max-age=1")), Some(HeaderText::NonAscii));
    assert!(matches!(
        r,
        Err(DataExtractionError::HeaderParseError(RequiredHeader::ContentType, HeaderText::NonAscii))
    ));
}

#[test]
fn plan_unsupported_content_type() {
    match plan_extraction(200, Some(text("public, max-age=10")), Some(text("unknown"))) {
        Err(DataExtractionError::UnsupportedContentType(t)) => assert_eq!(t, "unknown"),
        other => panic!("unexpected {other:?}"),
    }
}

#[test]
fn plan_checks_cache_control_before_content_type() {
    let r = plan_extraction(200, Some(text("max-age=")), Some(text("unknown")));
    assert!(matches!(r, Err(DataExtractionError::HeaderParseError(RequiredHeader::CacheControl, _))));
}

#[test]
fn load_result_from_policy() {
    let r = load_result(42i64, CachePolicy { must_revalidate: true, max_age_secs: Some(10) });
    assert_eq!(r.data, 42);
    assert!(r.must_revalidate);
    assert_eq!(r.freshness, Freshness::MaxAge(10_000));
    let stale = load_result(1u8, CachePolicy { must_revalidate: false, max_age_secs: None });
    assert_eq!(stale.freshness, Freshness::MaxAge(0));
    let huge = load_result((), CachePolicy { must_revalidate: false, max_age_secs: Some(u64::MAX) });
    assert_eq!(huge.freshness, Freshness::MaxAge(u64::MAX));
    assert_eq!(huge.into_snapshot(5).expires_at, u64::MAX);
}

#[test]
fn policy_from_parser_result() {
    let p = CachePolicy { must_revalidate: true, max_age_secs: Some(3) };
    assert_eq!(cache_policy_from("whatever".to_string(), Some(p)).unwrap(), p);
    match cache_policy_from("max-age=x".to_string(), None) {
        Err(DataExtractionError::HeaderParseError(RequiredHeader::CacheControl, HeaderText::Ascii(v))) => {
            assert_eq!(v, "max-age=x")
        }
        other => panic!("unexpected {other:?}"),
    }
}

#[test]
fn plan_from_parsed_policy() {
    let p = CachePolicy { must_revalidate: false, max_age_secs: None };
    let plan = plan_from_policy(201, Some(Ok(p)), Some(text("application/xml"))).unwrap();
    assert_eq!(plan, ExtractionPlan { format: ContentFormat::Xml, policy: p });
    assert!(matches!(
        plan_from_policy(500, Some(Ok(p)), Some(text("application/xml"))),
        Err(DataExtractionError::StatusError(500))
    ));
    assert!(matches!(
        plan_from_policy(200, None, Some(text("application/xml"))),
        Err(DataExtractionError::HeaderNotFound(RequiredHeader::CacheControl))
    ));
    let failed = plan_from_policy(200, Some(Err(DataExtractionError::StatusError(1))), None);
    assert!(matches!(failed, Err(DataExtractionError::StatusError(1))));
    assert!(matches!(
        plan_from_policy(200, Some(Ok(p)), None),
        Err(DataExtractionError::HeaderNotFound(RequiredHeader::ContentType))
    ));
}

#[test]
fn mime_types_round_trip() {
    for f in [ContentFormat::Json, ContentFormat::Toml, ContentFormat::Yaml, ContentFormat::Xml] {
        assert_eq!(content_format(f.mime_type()), Some(f));
    }
    assert_eq!(ContentFormat::Toml.mime_type(), "application/toml");
}
