use accesscore::b64::b64_decode;
use accesscore::signup::SIGN_UP_TTL_SECONDS;
use accesscore::signup::sign_up_flow_token;
use accesscore::flow_token::issue_flow_token;
use accesscore::flow_token::verify_flow_token;
use accesscore::tokens::Flow;
use accesscore::tokens::FlowToken;
use accesscore::tokens::TokenType;

fn sample_claims(now: i64) -> FlowToken {
    FlowToken {
        token_type: TokenType::Flow,
        flow: Flow::SignUpEmailVerification,
        tenant_id: "tenant-1".to_string(),
        user_id: "1734567890123-user".to_string(),
        expires_at: now + 2 * 24 * 3600,
    }
}

#[test]
fn issued_token_verifies_immediately() {
    let key = b"flow-token-signing-key".to_vec();
    let now: i64 = 1_750_000_000;
    let claims = sample_claims(now);
    let token = issue_flow_token(&key, &claims);
    let checked = verify_flow_token(&key, &token, now).expect("fresh token must verify");
    assert_eq!(checked.tenant_id, "tenant-1");
    assert_eq!(checked.user_id, "1734567890123-user");
    assert_eq!(checked.expires_at, now + 2 * 24 * 3600);
    assert!(matches!(checked.token_type, TokenType::Flow));
    assert!(matches!(checked.flow, Flow::SignUpEmailVerification));
}

#[test]
fn token_expires_once_the_clock_passes() {
    let key = b"flow-token-signing-key".to_vec();
    let now: i64 = 1_750_000_000;
    let claims = sample_claims(now);
    let token = issue_flow_token(&key, &claims);
    let expiry = now + 2 * 24 * 3600;
    assert!(verify_flow_token(&key, &token, expiry).is_some());
    assert!(verify_flow_token(&key, &token, expiry + 1).is_none());
}

#[test]
fn tampering_with_any_claim_byte_invalidates_the_token() {
    let key = b"flow-token-signing-key".to_vec();
    let now: i64 = 1_750_000_000;
    let claims = sample_claims(now);
    let token = issue_flow_token(&key, &claims);
    for i in 0..token.len() {
        let mut forged = token.clone();
        forged[i] ^= 0x01;
        assert!(
            verify_flow_token(&key, &forged, now).is_none(),
            "flipping byte {} must invalidate the token",
            i
        );
    }
}

#[test]
fn wrong_key_rejects_the_token() {
    let key = b"flow-token-signing-key".to_vec();
    let other = b"another-key-entirely".to_vec();
    let now: i64 = 1_750_000_000;
    let token = issue_flow_token(&key, &sample_claims(now));
    assert!(verify_flow_token(&other, &token, now).is_none());
}

#[test]
fn truncated_token_is_rejected() {
    let key = b"flow-token-signing-key".to_vec();
    let now: i64 = 1_750_000_000;
    let token = issue_flow_token(&key, &sample_claims(now));
    assert!(verify_flow_token(&key, &token[..token.len() - 1], now).is_none());
    assert!(verify_flow_token(&key, &[], now).is_none());
}

#[test]
fn sign_up_flow_token_round_trips_through_base64() {
    let key = b"flow-token-signing-key".to_vec();
    let now: i64 = 1_750_000_000;
    let encoded = sign_up_flow_token(&key, "tenant-1".to_string(), "user-9".to_string(), now);
    let raw = b64_decode(&encoded).expect("the flow token must be base64");
    let checked = verify_flow_token(&key, &raw, now).expect("issued token must verify");
    assert_eq!(checked.tenant_id, "tenant-1");
    assert_eq!(checked.user_id, "user-9");
    assert_eq!(checked.expires_at, now + SIGN_UP_TTL_SECONDS as i64);
}

#[test]
fn identifiers_keep_any_utf8_text() {
    let key = b"flow-token-signing-key".to_vec();
    let now: i64 = 1_750_000_000;
    let claims = FlowToken {
        token_type: TokenType::Flow,
        flow: Flow::SignUpEmailVerification,
        tenant_id: "t\u{00ea}nant-\u{00fc}".to_string(),
        user_id: "\u{7528}\u{6237}-1".to_string(),
        expires_at: now + 60,
    };
    let token = issue_flow_token(&key, &claims);
    let checked = verify_flow_token(&key, &token, now).expect("UTF-8 ids must round-trip");
    assert_eq!(checked.tenant_id, "t\u{00ea}nant-\u{00fc}");
    assert_eq!(checked.user_id, "\u{7528}\u{6237}-1");
}
