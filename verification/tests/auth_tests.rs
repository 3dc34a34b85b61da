use accesscore::authn::Auth;
use accesscore::authn::AuthDecision;
use accesscore::authn::AuthOutcome;
use accesscore::authn::HeaderInput;
use accesscore::authn::authenticate_token_lookup;
use accesscore::authn::check_bearer_header;
use accesscore::authn::invalid_header_response;
use accesscore::b64::b64_encode;
use accesscore::authn::TokenLookup;
use accesscore::responses::MetaValue;
use accesscore::responses::response_meta_pairs;

#[test]
fn missing_header_proceeds_anonymously() {
    let decision = check_bearer_header(&HeaderInput::Missing);
    assert!(matches!(decision, AuthDecision::Anonymous));
}

#[test]
fn non_utf8_header_is_a_format_rejection() {
    let decision = check_bearer_header(&HeaderInput::NotUtf8);
    assert!(matches!(decision, AuthDecision::BadFormat));
}

#[test]
fn wrong_shape_is_malformed() {
    let decision = check_bearer_header(&HeaderInput::Value("Bearer short".to_string()));
    assert!(matches!(decision, AuthDecision::Malformed(v) if v == "Bearer short"));
    let decision = check_bearer_header(&HeaderInput::Value("Basic dXNlcjpwYXNz".to_string()));
    assert!(matches!(decision, AuthDecision::Malformed(_)));
}

#[test]
fn well_formed_header_decodes_the_token() {
    let token_bytes: Vec<u8> = (0u8..64).collect();
    let encoded = b64_encode(&token_bytes);
    assert_eq!(encoded.len(), 86);
    let header = format!("Bearer {}", encoded);
    let decision = check_bearer_header(&HeaderInput::Value(header));
    match decision {
        AuthDecision::Lookup(text, bytes) => {
            assert_eq!(text, encoded);
            assert_eq!(bytes, token_bytes);
        }
        other => panic!("expected a lookup decision, got {:?}", other),
    }
}

#[test]
fn pattern_match_with_uncanonical_tail_is_malformed() {
    // 86 characters of the URL-safe alphabet whose final character carries
    // non-zero trailing bits encode no 64-byte value, so the decoder must
    // refuse them even though the regex-level shape matches.
    let header = format!("Bearer {}", "B".repeat(86));
    let decision = check_bearer_header(&HeaderInput::Value(header.clone()));
    assert!(matches!(decision, AuthDecision::Malformed(v) if v == header));
}

#[test]
fn idempotent_rejection_yields_identical_responses() {
    let bad = "Bearer not-base64".to_string();
    let d1 = check_bearer_header(&HeaderInput::Value(bad.clone()));
    let d2 = check_bearer_header(&HeaderInput::Value(bad.clone()));
    let v1 = match d1 {
        AuthDecision::Malformed(v) => v,
        other => panic!("expected malformed, got {:?}", other),
    };
    let v2 = match d2 {
        AuthDecision::Malformed(v) => v,
        other => panic!("expected malformed, got {:?}", other),
    };
    assert_eq!(v1, v2);
    let meta1 = response_meta_pairs("req-1", "tenant-1");
    let meta2 = response_meta_pairs("req-1", "tenant-1");
    let (s1, r1) = invalid_header_response(v1, meta1);
    let (s2, r2) = invalid_header_response(v2, meta2);
    assert_eq!(s1, 400);
    assert_eq!(s1, s2);
    assert_eq!(r1.errors.len(), r2.errors.len());
    assert_eq!(r1.errors[0].code, r2.errors[0].code);
    assert_eq!(r1.errors[0].message, r2.errors[0].message);
    assert_eq!(r1.errors[0].detail, r2.errors[0].detail);
    assert_eq!(r1.errors[0].location, r2.errors[0].location);
    assert_eq!(r1.errors[0].meta.len(), r2.errors[0].meta.len());
    match (&r1.errors[0].meta[0], &r2.errors[0].meta[0]) {
        ((k1, MetaValue::Str(a)), (k2, MetaValue::Str(b))) => {
            assert_eq!(k1, "input");
            assert_eq!(k1, k2);
            assert_eq!(a, b);
        }
        other => panic!("expected echoed input strings, got {:?}", other),
    }
}

#[test]
fn token_lookup_hit_attaches_identity_with_the_row_scopes() {
    let outcome = authenticate_token_lookup(
        TokenLookup::Hit { user_id: "user-7".to_string(), scopes: vec!["all".to_string()] },
        "sometokentext".to_string(),
    );
    match outcome {
        AuthOutcome::Proceed(Auth { user_id, token, scopes, client_id }) => {
            assert_eq!(user_id.as_deref(), Some("user-7"));
            assert_eq!(token.as_deref(), Some("sometokentext"));
            assert_eq!(scopes, vec!["all".to_string()]);
            assert!(client_id.is_none());
        }
        other => panic!("expected an attached identity, got {:?}", other),
    }
}

#[test]
fn token_lookup_miss_is_unauthorized_and_error_is_not() {
    let miss = authenticate_token_lookup(TokenLookup::Miss, "t".to_string());
    assert!(matches!(miss, AuthOutcome::Unauthorized));
    let failed = authenticate_token_lookup(TokenLookup::Failed, "t".to_string());
    assert!(matches!(failed, AuthOutcome::StorageError));
}
