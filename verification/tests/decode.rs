use vpm_bootstrap::config::{decode_config, decode_envelope, decode_response, VRChatPackageManagerConfig, BootstrapBinaryDistribution};
use vpm_bootstrap::envelope::{decode_error, VRChatApiEndpointError, VRChatApiEndpointResponse};
use vpm_bootstrap::error::FatalError;
use vpm_bootstrap::json::JsonValue;

fn obj(fields: Vec<(&str, JsonValue)>) -> JsonValue {
    JsonValue::Object(fields.into_iter().map(|(k, v)| (k.to_string(), v)).collect())
}

fn text(s: &str) -> JsonValue {
    JsonValue::Text(s.to_string())
}

fn error_body(fields: Vec<(&str, JsonValue)>) -> JsonValue {
    obj(vec![("error", obj(fields))])
}

fn success_body(url: &str) -> JsonValue {
    obj(vec![("downloadUrls", obj(vec![("bootstrap", text(url))]))])
}

#[test]
fn waf_shape_decodes_to_waf_blocked() {
    let j = error_body(vec![("message", text("blocked by waf")), ("waf_code", JsonValue::Int(13799))]);
    let r = decode_envelope(&j);
    match r {
        Err(FatalError::ApiRejected { error: VRChatApiEndpointError::RejectedByWaf { message, waf_code } }) => {
            assert_eq!(message, "blocked by waf");
            assert_eq!(waf_code, 13799);
        }
        _ => panic!("expected a firewall rejection"),
    }
}

#[test]
fn waf_shape_with_extra_fields_still_waf() {
    let j = error_body(vec![
        ("status", JsonValue::Int(403)),
        ("message", text("denied")),
        ("waf_code", JsonValue::Int(1)),
        ("request_id", text("abc")),
    ]);
    let r = decode_error(&j).expect("error shape must decode");
    assert!(matches!(
        r,
        VRChatApiEndpointError::RejectedByWaf { waf_code: 1, .. }
    ));
    assert_eq!(r.message(), "denied");
}

#[test]
fn plain_shape_decodes_to_plain() {
    let j = error_body(vec![("message", text("maintenance"))]);
    let r = decode_envelope(&j);
    match r {
        Err(FatalError::ApiRejected { error: VRChatApiEndpointError::Plain { message } }) => {
            assert_eq!(message, "maintenance");
        }
        _ => panic!("expected a plain rejection"),
    }
}

#[test]
fn waf_code_of_wrong_type_falls_back_to_plain() {
    let j = error_body(vec![("message", text("m")), ("waf_code", text("13799"))]);
    let r = decode_error(&j).expect("error shape must decode");
    assert!(matches!(r, VRChatApiEndpointError::Plain { .. }));
    assert_eq!(r.message(), "m");
}

#[test]
fn waf_code_out_of_range_falls_back_to_plain() {
    let low = error_body(vec![("message", text("m")), ("waf_code", JsonValue::Int(-1))]);
    assert!(matches!(
        decode_error(&low),
        Some(VRChatApiEndpointError::Plain { .. })
    ));
    let high = error_body(vec![("message", text("m")), ("waf_code", JsonValue::Int(1 << 40))]);
    assert!(matches!(
        decode_error(&high),
        Some(VRChatApiEndpointError::Plain { .. })
    ));
}

#[test]
fn waf_code_zero_is_still_a_waf_block() {
    let j = error_body(vec![("message", text("m")), ("waf_code", JsonValue::Int(0))]);
    assert!(matches!(
        decode_error(&j),
        Some(VRChatApiEndpointError::RejectedByWaf { waf_code: 0, .. })
    ));
}

#[test]
fn waf_code_at_the_top_of_range_is_a_waf_block() {
    let j = error_body(vec![("message", text("m")), ("waf_code", JsonValue::Int(u32::MAX as i64))]);
    assert!(matches!(
        decode_error(&j),
        Some(VRChatApiEndpointError::RejectedByWaf { waf_code: u32::MAX, .. })
    ));
}

#[test]
fn waf_code_non_integral_falls_back_to_plain() {
    let j = error_body(vec![("message", text("m")), ("waf_code", JsonValue::Other)]);
    assert!(matches!(
        decode_error(&j),
        Some(VRChatApiEndpointError::Plain { .. })
    ));
}

#[test]
fn non_error_body_is_not_an_error() {
    assert!(decode_error(&success_body("https://example.test/x")).is_none());
    assert!(decode_error(&obj(vec![])).is_none());
    assert!(decode_error(&error_body(vec![("code", JsonValue::Int(3))])).is_none());
    assert!(decode_error(&error_body(vec![("message", JsonValue::Int(3))])).is_none());
}

#[test]
fn success_payload_decodes_to_config() {
    let j = success_body("https://example.test/pkg.unitypackage");
    let r = decode_envelope(&j).expect("success shape must decode");
    assert_eq!(r.bootstrap_install.url, "https://example.test/pkg.unitypackage");
}

#[test]
fn success_payload_with_extra_fields_decodes() {
    let j = obj(vec![
        ("apiKey", text("k")),
        ("downloadUrls", obj(vec![
            ("sdk", text("https://example.test/sdk")),
            ("bootstrap", text("https://example.test/pkg.unitypackage")),
        ])),
        ("announcements", JsonValue::Array(vec![text("hello")])),
    ]);
    let c = decode_config(&j).expect("success shape must decode");
    assert_eq!(c.bootstrap_install.url, "https://example.test/pkg.unitypackage");
}

#[test]
fn error_shape_wins_over_success_shape() {
    let j = obj(vec![
        ("error", obj(vec![("message", text("no config for you"))])),
        ("downloadUrls", obj(vec![("bootstrap", text("https://example.test/x"))])),
    ]);
    let r = decode_envelope(&j);
    assert!(matches!(
        r,
        Err(FatalError::ApiRejected { error: VRChatApiEndpointError::Plain { .. } })
    ));
}

#[test]
fn malformed_bodies_yield_malformed_response() {
    let cases = vec![
        obj(vec![]),
        JsonValue::Null,
        JsonValue::Int(7),
        text("{}"),
        JsonValue::Array(vec![]),
        error_body(vec![]),
        error_body(vec![("message", JsonValue::Int(1)), ("waf_code", JsonValue::Int(1))]),
        obj(vec![("downloadUrls", obj(vec![]))]),
        obj(vec![("downloadUrls", obj(vec![("bootstrap", JsonValue::Int(42))]))]),
        obj(vec![("downloadUrls", text("https://example.test/x"))]),
        obj(vec![("downloadurls", obj(vec![("bootstrap", text("https://example.test/x"))]))]),
    ];
    for j in cases {
        assert!(matches!(decode_envelope(&j), Err(FatalError::MalformedResponse)));
        assert!(matches!(decode_response(&j), Err(FatalError::MalformedResponse)));
    }
}

#[test]
fn duplicate_keys_resolve_to_first_occurrence() {
    let j = obj(vec![
        ("error", obj(vec![("message", text("first"))])),
        ("error", obj(vec![("message", text("second"))])),
    ]);
    let r = decode_error(&j).expect("error shape must decode");
    assert_eq!(r.message(), "first");
}

#[test]
fn expect_returns_the_success_value() {
    let envelope: VRChatApiEndpointResponse<VRChatPackageManagerConfig> =
        VRChatApiEndpointResponse::Success(VRChatPackageManagerConfig {
            bootstrap_install: BootstrapBinaryDistribution { url: "https://example.test/a".to_string() },
        });
    let config = envelope.expect("fatal");
    assert_eq!(config.bootstrap_install.url, "https://example.test/a");
}

#[test]
fn message_returns_the_text_of_either_variant() {
    let waf = VRChatApiEndpointError::RejectedByWaf { message: "w".to_string(), waf_code: 2 };
    let plain = VRChatApiEndpointError::Plain { message: "p".to_string() };
    assert_eq!(waf.message(), "w");
    assert_eq!(plain.message(), "p");
}

#[test]
fn kind_names_describe_the_failures() {
    assert_eq!(FatalError::MalformedResponse.kind_name(), "malformed response");
    assert_eq!(FatalError::MissingOrInvalidField.kind_name(), "missing or invalid field");
    assert_eq!(
        FatalError::TransportError { detail: "x".to_string() }.kind_name(),
        "transport error"
    );
    assert_eq!(
        FatalError::StagingIoError { detail: "x".to_string() }.kind_name(),
        "staging failed"
    );
    assert_eq!(
        FatalError::ApiRejected { error: VRChatApiEndpointError::Plain { message: "m".to_string() } }
            .kind_name(),
        "endpoint rejected the request"
    );
}
