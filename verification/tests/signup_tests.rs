use accesscore::directory::Directory;
use accesscore::directory::DirectoryRow;
use accesscore::directory::SignUpModelOutcome;
use accesscore::responses::MetaValue;
use accesscore::signup::SIGN_UP_TTL_SECONDS;
use accesscore::signup::SignUpPayload;
use accesscore::signup::SignUpViolation;
use accesscore::signup::UniqueField;
use accesscore::signup::conflict_response;
use accesscore::signup::first_conflict;
use accesscore::signup::sign_up_created_response;
use accesscore::signup::sign_up_flow_claims;
use accesscore::signup::sign_up_records;
use accesscore::signup::sign_up_validate;
use accesscore::signup::uniqueness_checks;
use accesscore::signup::validation_errors;
use accesscore::responses::response_meta_pairs;
use accesscore::tokens::Flow;

fn payload(
    email: &str,
    username: Option<&str>,
    phone: Option<&str>,
    password: &str,
) -> SignUpPayload {
    SignUpPayload {
        email: email.to_string(),
        phone_number: phone.map(|p| p.to_string()),
        username: username.map(|u| u.to_string()),
        password: password.to_string(),
    }
}

#[test]
fn a_clean_request_has_no_violations() {
    let p = payload(
        "user@example.com",
        Some("gooduser"),
        None,
        "c0rrUct-h0rse_statt3ry!",
    );
    let (violations, score, _suggestions) = sign_up_validate(&p);
    assert!(violations.is_empty(), "unexpected violations: {:?}", violations);
    assert!(score > 2);
}

#[test]
fn all_violations_are_collected_in_order() {
    let p = payload(
        "notanemail",
        Some("abc"),
        None,
        "password1 password1 password1 password1",
    );
    let (violations, score, _suggestions) = sign_up_validate(&p);
    assert!(score <= 2);
    assert_eq!(
        violations,
        vec![
            SignUpViolation::InvalidUsername,
            SignUpViolation::InvalidEmail,
            SignUpViolation::PasswordTooLong,
            SignUpViolation::PasswordTooWeak,
        ]
    );
}

#[test]
fn a_weak_password_is_rejected_with_suggestions() {
    let p = payload("user@example.com", None, None, "password");
    let (violations, score, _suggestions) = sign_up_validate(&p);
    assert!(score <= 2);
    assert_eq!(violations, vec![SignUpViolation::PasswordTooWeak]);
    let errors = validation_errors(&violations, &p, score, &vec!["add words".to_string()]);
    assert_eq!(errors.len(), 1);
    assert_eq!(errors[0].code, 422);
    assert_eq!(errors[0].message, "Password Too Weak");
    assert_eq!(errors[0].location.as_deref(), Some("body.data.password"));
}

#[test]
fn username_boundaries_are_4_and_32() {
    let at_min = payload("user@example.com", Some("abcd"), None, "c0rrUct-h0rse_statt3ry!");
    let (v, _, _) = sign_up_validate(&at_min);
    assert!(v.is_empty());
    let at_max = payload(
        "user@example.com",
        Some("abcdefghijklmnopqrstuvwxyzabcdef"),
        None,
        "c0rrUct-h0rse_statt3ry!",
    );
    let (v, _, _) = sign_up_validate(&at_max);
    assert!(v.is_empty());
    let too_long = payload(
        "user@example.com",
        Some("abcdefghijklmnopqrstuvwxyzabcdefg"),
        None,
        "c0rrUct-h0rse_statt3ry!",
    );
    let (v, _, _) = sign_up_validate(&too_long);
    assert_eq!(v, vec![SignUpViolation::InvalidUsername]);
}

#[test]
fn password_of_32_characters_is_accepted() {
    let p = payload(
        "user@example.com",
        None,
        None,
        "c0rrUct-h0rse_statt3ry!-32chars!",
    );
    assert_eq!(p.password.chars().count(), 32);
    let (v, _, _) = sign_up_validate(&p);
    assert!(v.is_empty());
}

#[test]
fn empty_email_is_invalid() {
    let p = payload("", None, None, "c0rrUct-h0rse_statt3ry!");
    let (v, _, _) = sign_up_validate(&p);
    assert_eq!(v, vec![SignUpViolation::InvalidEmail]);
}

#[test]
fn uniqueness_checks_follow_the_field_order() {
    let both = payload("e@x.com", Some("u"), Some("123"), "p");
    assert_eq!(
        uniqueness_checks(&both),
        vec![UniqueField::Username, UniqueField::Email, UniqueField::PhoneNumber]
    );
    let bare = payload("e@x.com", None, None, "p");
    assert_eq!(uniqueness_checks(&bare), vec![UniqueField::Email]);
}

#[test]
fn first_blocking_field_wins() {
    // A taken username blocks even when the email is also taken, and no
    // later check runs.
    assert_eq!(
        first_conflict(true, true, true, true, true),
        Some(UniqueField::Username)
    );
    assert_eq!(first_conflict(true, false, true, true, true), Some(UniqueField::Email));
    assert_eq!(
        first_conflict(false, false, false, true, true),
        Some(UniqueField::PhoneNumber)
    );
    assert_eq!(first_conflict(true, false, false, true, false), None);
    // A field that was not given never blocks.
    assert_eq!(first_conflict(false, true, false, false, true), None);
}

#[test]
fn conflict_response_names_the_username() {
    let (status, body) = conflict_response(
        UniqueField::Username,
        "averyveryverylongusername",
        "req-1".to_string(),
        Some("tenant-1".to_string()),
    );
    assert_eq!(status, 409);
    assert_eq!(body.errors.len(), 1);
    assert_eq!(body.errors[0].message, "Username Already In Use");
    assert_eq!(body.errors[0].location.as_deref(), Some("body.data.username"));
    match &body.errors[0].meta[0] {
        (k, MetaValue::Str(v)) => {
            assert_eq!(k, "input");
            assert_eq!(v, "averyveryverylonguse...");
        }
        other => panic!("expected the echoed input, got {:?}", other),
    }
}

#[test]
fn registration_rows_share_the_two_day_lifetime() {
    let p = payload("user@example.com", Some("gooduser"), Some("+15551234567"), "pw");
    let tenant = "tenant-1".to_string();
    let user = "user-1".to_string();
    let (user_rec, email_rec, phone_rec) =
        sign_up_records(&tenant, &user, &p, "$2b$04$hash".to_string());
    assert_eq!(user_rec.ttl_seconds, SIGN_UP_TTL_SECONDS);
    assert!(!user_rec.is_verified && !user_rec.is_locked && !user_rec.is_suspended);
    assert_eq!(user_rec.login_count, 0);
    assert_eq!(user_rec.username.as_deref(), Some("gooduser"));
    assert_eq!(email_rec.value, "user@example.com");
    assert!(email_rec.is_main && !email_rec.is_work && !email_rec.is_verified);
    assert_eq!(email_rec.ttl_seconds, SIGN_UP_TTL_SECONDS);
    let phone_rec = phone_rec.expect("a phone row when a phone number was given");
    assert_eq!(phone_rec.value, "+15551234567");
    assert_eq!(phone_rec.ttl_seconds, SIGN_UP_TTL_SECONDS);
}

#[test]
fn flow_claims_expire_two_days_out() {
    let claims = sign_up_flow_claims("tenant-1".to_string(), "user-1".to_string(), 1_000_000);
    assert_eq!(claims.expires_at, 1_000_000 + 172_800);
    assert!(matches!(claims.flow, Flow::SignUpEmailVerification));
}

#[test]
fn created_response_links_the_verification_step() {
    let meta = response_meta_pairs("req-1", "tenant-1");
    let (status, body) = sign_up_created_response("tok".to_string(), meta);
    assert_eq!(status, 201);
    let data = body.data.expect("a data payload");
    assert_eq!(data.flow_token, "tok");
    assert!(body.errors.is_empty());
    assert_eq!(body.links.len(), 1);
    assert_eq!(body.links[0].0, "verify");
    assert_eq!(body.links[0].1, "/auth/sign-up/verify");
}

#[test]
fn taken_username_blocks_before_taken_email_and_writes_nothing() {
    let mut dir = Directory::new();
    dir.usernames.push(DirectoryRow {
        value: "gooduser".to_string(),
        user_id: "user-0".to_string(),
    });
    dir.emails.push(DirectoryRow {
        value: "user@example.com".to_string(),
        user_id: "user-0".to_string(),
    });
    let p = payload(
        "user@example.com",
        Some("gooduser"),
        None,
        "c0rrUct-h0rse_statt3ry!",
    );
    let outcome = dir.sign_up_model(&p, "user-1".to_string());
    assert!(matches!(outcome, SignUpModelOutcome::Conflict(UniqueField::Username)));
    assert_eq!(dir.usernames.len(), 1);
    assert_eq!(dir.emails.len(), 1);
    assert_eq!(dir.phones.len(), 0);
}

#[test]
fn clean_registration_writes_its_reverse_rows() {
    let mut dir = Directory::new();
    let p = payload(
        "user@example.com",
        Some("gooduser"),
        Some("+15551234567"),
        "c0rrUct-h0rse_statt3ry!",
    );
    let outcome = dir.sign_up_model(&p, "user-1".to_string());
    assert!(matches!(outcome, SignUpModelOutcome::Created));
    assert_eq!(dir.usernames.len(), 1);
    assert_eq!(dir.usernames[0].value, "gooduser");
    assert_eq!(dir.usernames[0].user_id, "user-1");
    assert_eq!(dir.emails.len(), 1);
    assert_eq!(dir.phones.len(), 1);
    // The same registration a second time now collides on the username.
    let again = dir.sign_up_model(&p, "user-2".to_string());
    assert!(matches!(again, SignUpModelOutcome::Conflict(UniqueField::Username)));
    assert_eq!(dir.emails.len(), 1);
}

#[test]
fn invalid_registration_touches_no_table() {
    let mut dir = Directory::new();
    let p = payload("notanemail", None, None, "password");
    let outcome = dir.sign_up_model(&p, "user-1".to_string());
    match outcome {
        SignUpModelOutcome::Rejected(v) => assert!(!v.is_empty()),
        other => panic!("expected a validation rejection, got {:?}", other),
    }
    assert_eq!(dir.emails.len(), 0);
}
