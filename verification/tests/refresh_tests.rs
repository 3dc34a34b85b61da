use accesscore::b64::b64_encode;
use accesscore::refresh::ACCESS_TOKEN_EXPIRES_IN;
use accesscore::refresh::refresh_decode;
use accesscore::refresh::token_refresh_model;
use accesscore::store::TokenRecord;
use accesscore::store::TokenStore;

fn refresh_row(token: Vec<u8>, user: &str) -> TokenRecord {
    TokenRecord {
        token,
        user_id: user.to_string(),
        is_refresh: true,
        scopes: vec!["all".to_string()],
        device_id: Some("device-1".to_string()),
        client_id: None,
        ttl_seconds: 2_000_000,
    }
}

#[test]
fn refresh_decode_accepts_only_64_byte_tokens() {
    let good: Vec<u8> = (0u8..64).collect();
    let encoded = b64_encode(&good);
    assert_eq!(refresh_decode(&encoded).unwrap(), good);
    let short: Vec<u8> = (0u8..32).collect();
    assert!(refresh_decode(&b64_encode(&short)).is_none());
    assert!(refresh_decode("!!!not-base64!!!").is_none());
}

#[test]
fn single_use_refresh_consumes_the_token() {
    let consumed: Vec<u8> = (0u8..64).collect();
    let mut store = TokenStore::new();
    store.insert(refresh_row(consumed.clone(), "user-1"));
    let encoded = b64_encode(&consumed);

    let a2: Vec<u8> = (100u8..164).collect();
    let r2: Vec<u8> = (50u8..114).collect();
    let response = token_refresh_model(&mut store, &encoded, a2.clone(), r2.clone())
        .expect("the stored refresh token must rotate");
    assert_eq!(response.user_id, "user-1");
    assert_eq!(response.access_token, b64_encode(&a2));
    assert_eq!(response.refresh_token, b64_encode(&r2));
    assert_eq!(response.access_token_expires_in, ACCESS_TOKEN_EXPIRES_IN);
    assert_eq!(response.refresh_token_expires_in, 2_000_000);
    assert_eq!(response.scopes, vec!["all".to_string()]);
    assert_eq!(response.token_type, "Bearer");

    // A second refresh with the consumed token fails.
    let a3: Vec<u8> = vec![7u8; 64];
    let r3: Vec<u8> = vec![9u8; 64];
    assert!(token_refresh_model(&mut store, &encoded, a3, r3).is_none());

    // A refresh with the fresh refresh token succeeds.
    let a4: Vec<u8> = vec![11u8; 64];
    let r4: Vec<u8> = vec![13u8; 64];
    let again = token_refresh_model(&mut store, &b64_encode(&r2), a4, r4)
        .expect("the fresh refresh token must rotate");
    assert_eq!(again.user_id, "user-1");
}

#[test]
fn rotation_keeps_scopes_device_and_client() {
    let consumed: Vec<u8> = vec![1u8; 64];
    let mut store = TokenStore::new();
    let mut row = refresh_row(consumed.clone(), "user-2");
    row.scopes = vec!["read".to_string(), "write".to_string()];
    row.client_id = Some("client-9".to_string());
    store.insert(row);

    let a2: Vec<u8> = vec![2u8; 64];
    let r2: Vec<u8> = vec![3u8; 64];
    let response =
        token_refresh_model(&mut store, &b64_encode(&consumed), a2, r2.clone()).expect("rotates");
    assert_eq!(response.scopes, vec!["read".to_string(), "write".to_string()]);

    let new_refresh = store
        .lookup(&r2, true)
        .expect("the new refresh row must be stored");
    assert_eq!(new_refresh.user_id, "user-2");
    assert_eq!(new_refresh.scopes, vec!["read".to_string(), "write".to_string()]);
    assert_eq!(new_refresh.device_id.as_deref(), Some("device-1"));
    assert_eq!(new_refresh.client_id.as_deref(), Some("client-9"));
    assert!(store.lookup(&consumed, true).is_none());
}

#[test]
fn unknown_token_leaves_the_store_alone() {
    let mut store = TokenStore::new();
    store.insert(refresh_row(vec![1u8; 64], "user-3"));
    let unknown: Vec<u8> = vec![5u8; 64];
    let a2: Vec<u8> = vec![2u8; 64];
    let r2: Vec<u8> = vec![3u8; 64];
    assert!(token_refresh_model(&mut store, &b64_encode(&unknown), a2, r2).is_none());
    assert_eq!(store.rows.len(), 1);
    assert!(store.lookup(&vec![1u8; 64], true).is_some());
}

#[test]
fn access_rows_do_not_serve_as_refresh_tokens() {
    let token: Vec<u8> = vec![8u8; 64];
    let mut store = TokenStore::new();
    let mut row = refresh_row(token.clone(), "user-4");
    row.is_refresh = false;
    store.insert(row);
    let a2: Vec<u8> = vec![2u8; 64];
    let r2: Vec<u8> = vec![3u8; 64];
    assert!(token_refresh_model(&mut store, &b64_encode(&token), a2, r2).is_none());
}
