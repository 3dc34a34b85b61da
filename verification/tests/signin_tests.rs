use accesscore::crypto::PasswordConfig;
use accesscore::directory::Directory;
use accesscore::directory::DirectoryRow;
use accesscore::signin::SignInModelOutcome;
use accesscore::signin::SignInPayload;
use accesscore::signin::UserRow;
use accesscore::signin::UserTable;
use accesscore::signin::sign_in_model;
use accesscore::store::TokenStore;
use accesscore::db::LookupResult;
use accesscore::responses::MetaValue;
use accesscore::signin::CredentialDecision;
use accesscore::signin::LoginKind;
use accesscore::signin::REFRESH_TOKEN_EXPIRES_IN;
use accesscore::signin::ResolutionStep;
use accesscore::signin::invalid_credentials_response;
use accesscore::signin::next_login_count;
use accesscore::signin::sign_in_credentials;
use accesscore::signin::sign_in_lookup_plan;
use accesscore::signin::sign_in_records;
use accesscore::signin::sign_in_resolution_step;
use accesscore::signin::sign_in_token_response;
use accesscore::signup::is_valid_email;

#[test]
fn email_shaped_logins_try_the_email_table_first() {
    assert!(is_valid_email("user@example.com"));
    let plan = sign_in_lookup_plan(true);
    assert_eq!(
        plan,
        vec![LoginKind::Email, LoginKind::Username, LoginKind::PhoneNumber]
    );
}

#[test]
fn other_logins_skip_the_email_table() {
    assert!(!is_valid_email("just_a_username"));
    let plan = sign_in_lookup_plan(false);
    assert_eq!(plan, vec![LoginKind::Username, LoginKind::PhoneNumber]);
}

#[test]
fn first_hit_resolves_the_user() {
    let step = sign_in_resolution_step(LookupResult::Hit("user-1".to_string()));
    assert!(matches!(step, ResolutionStep::Resolved(u) if u == "user-1"));
    assert!(matches!(sign_in_resolution_step(LookupResult::Miss), ResolutionStep::TryNext));
    assert!(matches!(
        sign_in_resolution_step(LookupResult::Failed),
        ResolutionStep::StorageError
    ));
}

#[test]
fn matching_password_is_accepted_with_the_login_count() {
    let cfg = PasswordConfig { cost: 4 };
    let hash = cfg.hash_password("Tr0ub4dor&3").unwrap();
    let decision = sign_in_credentials(&cfg, Some((hash, 41)), "Tr0ub4dor&3");
    assert!(matches!(decision, CredentialDecision::Accept(41)));
    assert_eq!(next_login_count(41), 42);
}

#[test]
fn wrong_password_and_unknown_login_land_in_the_same_rejection() {
    // Two different failures: an unknown login, and a known login whose
    // stored hash does not verify the password. Their rendered 401 bodies
    // must be identical everywhere when the request metadata agrees; in
    // particular neither the differing logins nor the passwords may
    // appear anywhere in either body.
    let cfg = PasswordConfig { cost: 4 };
    let hash = cfg.hash_password("Tr0ub4dor&3").unwrap();
    let wrong_password = sign_in_credentials(&cfg, Some((hash, 0)), "guess");
    assert!(matches!(wrong_password, CredentialDecision::InvalidCredentials));

    let (s1, r1) = invalid_credentials_response(
        "req-1".to_string(),
        Some("tenant-1".to_string()),
    );
    let (s2, r2) = invalid_credentials_response(
        "req-1".to_string(),
        Some("tenant-1".to_string()),
    );
    assert_eq!(s1, 401);
    assert_eq!(s1, s2);
    assert!(r1.data.is_none() && r2.data.is_none());
    assert_eq!(r1.errors.len(), 1);
    assert_eq!(r1.errors.len(), r2.errors.len());
    assert_eq!(r1.errors[0].code, r2.errors[0].code);
    assert_eq!(r1.errors[0].message, r2.errors[0].message);
    assert_eq!(r1.errors[0].detail, r2.errors[0].detail);
    assert_eq!(r1.errors[0].location, r2.errors[0].location);
    assert!(r1.errors[0].meta.is_empty() && r2.errors[0].meta.is_empty());
    assert_eq!(r1.meta.len(), r2.meta.len());
    for ((k1, v1), (k2, v2)) in r1.meta.iter().zip(r2.meta.iter()) {
        assert_eq!(k1, k2);
        match (v1, v2) {
            (MetaValue::Str(a), MetaValue::Str(b)) => assert_eq!(a, b),
            other => panic!("expected metadata strings, got {:?}", other),
        }
    }
    assert!(r1.links.is_empty() && r2.links.is_empty());
    // Nothing in the body echoes a login or a password.
    let unknown_login = "nobody@example.com";
    let known_login = "user@example.com";
    for body in [&r1, &r2] {
        for (_, v) in body.errors[0].meta.iter().chain(body.meta.iter()) {
            if let MetaValue::Str(sv) = v {
                assert_ne!(sv, unknown_login);
                assert_ne!(sv, known_login);
                assert_ne!(sv, "guess");
                assert_ne!(sv, "Tr0ub4dor&3");
            }
        }
    }
}

#[test]
fn missing_user_row_is_an_internal_error_not_a_rejection() {
    let cfg = PasswordConfig { cost: 4 };
    let decision = sign_in_credentials(&cfg, None, "pw");
    assert!(matches!(decision, CredentialDecision::StorageError));
}

#[test]
fn unreadable_hash_is_an_internal_error() {
    let cfg = PasswordConfig { cost: 4 };
    let decision = sign_in_credentials(&cfg, Some(("garbage".to_string(), 3)), "pw");
    assert!(matches!(decision, CredentialDecision::StorageError));
}

#[test]
fn sign_in_issues_an_access_and_refresh_pair() {
    let access: Vec<u8> = vec![1u8; 64];
    let refresh: Vec<u8> = vec![2u8; 64];
    let (a, r) = sign_in_records("user-1".to_string(), access.clone(), refresh.clone());
    assert!(!a.is_refresh);
    assert!(r.is_refresh);
    assert_eq!(a.ttl_seconds, 3600);
    assert_eq!(r.ttl_seconds, REFRESH_TOKEN_EXPIRES_IN);
    assert_eq!(a.scopes, vec!["all".to_string()]);
    assert_eq!(r.scopes, vec!["all".to_string()]);
    assert!(a.device_id.is_none() && a.client_id.is_none());

    let response = sign_in_token_response("user-1".to_string(), &access, &refresh);
    assert_eq!(response.user_id, "user-1");
    assert_eq!(response.access_token_expires_in, 3600);
    assert_eq!(response.refresh_token_expires_in, 2628288);
    assert_eq!(response.token_type, "Bearer");
    assert_eq!(response.scopes, vec!["all".to_string()]);
}

#[test]
fn model_rejects_unknown_login_and_wrong_password_identically() {
    let cfg = PasswordConfig { cost: 4 };
    let hash = cfg.hash_password("Tr0ub4dor&3").unwrap();

    let mut dir = Directory::new();
    dir.emails.push(DirectoryRow {
        value: "user@example.com".to_string(),
        user_id: "user-1".to_string(),
    });
    let mut users = UserTable::new();
    users.rows.push(UserRow {
        user_id: "user-1".to_string(),
        password_hash: hash,
        login_count: 7,
    });
    let mut store = TokenStore::new();

    let unknown = SignInPayload {
        login: "nobody@example.com".to_string(),
        password: "Tr0ub4dor&3".to_string(),
    };
    let r1 = sign_in_model(
        &cfg, &dir, &users, &mut store, &unknown, vec![1u8; 64], vec![2u8; 64],
    );
    assert!(matches!(r1, SignInModelOutcome::Invalid));
    assert_eq!(store.rows.len(), 0);

    let wrong_password = SignInPayload {
        login: "user@example.com".to_string(),
        password: "guess".to_string(),
    };
    let r2 = sign_in_model(
        &cfg, &dir, &users, &mut store, &wrong_password, vec![1u8; 64], vec![2u8; 64],
    );
    assert!(matches!(r2, SignInModelOutcome::Invalid));
    assert_eq!(store.rows.len(), 0);
}

#[test]
fn model_grants_tokens_for_the_correct_password() {
    let cfg = PasswordConfig { cost: 4 };
    let hash = cfg.hash_password("Tr0ub4dor&3").unwrap();

    let mut dir = Directory::new();
    dir.usernames.push(DirectoryRow {
        value: "gooduser".to_string(),
        user_id: "user-1".to_string(),
    });
    let mut users = UserTable::new();
    users.rows.push(UserRow {
        user_id: "user-1".to_string(),
        password_hash: hash,
        login_count: 7,
    });
    let mut store = TokenStore::new();

    let attempt = SignInPayload {
        login: "gooduser".to_string(),
        password: "Tr0ub4dor&3".to_string(),
    };
    let access: Vec<u8> = vec![1u8; 64];
    let refresh: Vec<u8> = vec![2u8; 64];
    let granted = sign_in_model(
        &cfg, &dir, &users, &mut store, &attempt, access.clone(), refresh.clone(),
    );
    match granted {
        SignInModelOutcome::Granted(tr) => {
            assert_eq!(tr.user_id, "user-1");
            assert_eq!(tr.token_type, "Bearer");
        }
        other => panic!("expected a grant, got {:?}", other),
    }
    assert_eq!(store.rows.len(), 2);
    assert!(store.lookup(&access, false).is_some());
    assert!(store.lookup(&refresh, true).is_some());
}
