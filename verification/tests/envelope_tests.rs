use accesscore::b64::b64_decode;
use accesscore::b64::b64_encode;
use accesscore::ids::gen_id;
use accesscore::ids::make_trace_id;
use accesscore::responses::BodyRejection;
use accesscore::responses::CommonError;
use accesscore::responses::MetaValue;
use accesscore::responses::error_response;
use accesscore::responses::handler_404;
use accesscore::responses::response_meta_pairs;
use accesscore::schema::APIClientType;
use accesscore::schema::ContactType;
use accesscore::schema::MFACodeType;
use accesscore::schema::NotificationEvent;
use accesscore::schema::NotificationPriority;
use accesscore::schema::NotificationStatus;
use accesscore::schema::NotificationType;
use accesscore::schema::TenantSettingCategory;
use accesscore::schema::UserStatus;
use accesscore::schema::VerificationStatus;
use accesscore::tenant::TenantOutcome;
use accesscore::tenant::host_not_found_response;
use accesscore::tenant::resolve_tenant;
use accesscore::db::LookupResult;
use accesscore::text::trim;
use accesscore::tokens::token;

#[test]
fn error_response_carries_request_and_tenant_metadata() {
    let (status, body) = error_response(
        418,
        "Teapot",
        "Short and stout.",
        Some("body"),
        Vec::new(),
        "req-1".to_string(),
        Some("tenant-1".to_string()),
    );
    assert_eq!(status, 418);
    assert!(body.data.is_none());
    assert_eq!(body.errors.len(), 1);
    assert_eq!(body.errors[0].code, 418);
    assert_eq!(body.errors[0].message, "Teapot");
    assert_eq!(body.meta.len(), 2);
    assert_eq!(body.meta[0].0, "request_id");
    assert!(matches!(&body.meta[0].1, MetaValue::Str(s) if s == "req-1"));
    assert_eq!(body.meta[1].0, "tenant_id");
    assert!(matches!(&body.meta[1].1, MetaValue::Str(s) if s == "tenant-1"));
}

#[test]
fn error_response_without_tenant_reports_null() {
    let (_, body) = error_response(
        500,
        "m",
        "d",
        None,
        Vec::new(),
        "req-2".to_string(),
        None,
    );
    assert!(matches!(body.meta[1].1, MetaValue::Null));
}

#[test]
fn handler_404_names_the_path() {
    let (status, body) = handler_404("/nowhere", "req-1".to_string(), Some("t".to_string()));
    assert_eq!(status, 404);
    assert_eq!(body.errors[0].message, "Not Found");
    assert_eq!(body.errors[0].location.as_deref(), Some("path"));
    assert!(matches!(&body.errors[0].meta[0].1, MetaValue::Str(s) if s == "/nowhere"));
}

#[test]
fn common_errors_keep_their_statuses() {
    let (status, body) = CommonError::InternalServerError {
        request_id: "req-1".to_string(),
        tenant_id: None,
    }
    .to_response();
    assert_eq!(status, 500);
    assert_eq!(body.errors[0].message, "Internal Server Error");
    assert_eq!(body.errors[0].detail, "An unexpected internal error occured.");

    let (status, body) = CommonError::JsonRejection {
        kind: BodyRejection::MissingContentType,
        status: 415,
        request_id: "req-1".to_string(),
        tenant_id: None,
    }
    .to_response();
    assert_eq!(status, 415);
    assert_eq!(body.errors[0].message, "Missing JSON Content-Type Header");

    let (status, _) = CommonError::JsonRejection {
        kind: BodyRejection::Unknown,
        status: 422,
        request_id: "req-1".to_string(),
        tenant_id: None,
    }
    .to_response();
    assert_eq!(status, 400);
}

#[test]
fn tenant_resolution_separates_miss_from_failure() {
    let hit = resolve_tenant(LookupResult::Hit("tenant-1".to_string()));
    assert!(matches!(hit, TenantOutcome::Attach(t) if t == "tenant-1"));
    assert!(matches!(resolve_tenant(LookupResult::Miss), TenantOutcome::HostNotFound));
    assert!(matches!(resolve_tenant(LookupResult::Failed), TenantOutcome::StorageError));
    let (status, body) = host_not_found_response("req-1".to_string());
    assert_eq!(status, 404);
    assert_eq!(body.errors[0].message, "Host Not Found");
    assert_eq!(body.errors[0].location.as_deref(), Some("headers.host"));
}

#[test]
fn response_meta_orders_request_id_first() {
    let meta = response_meta_pairs("req-1", "tenant-1");
    assert_eq!(meta[0].0, "request_id");
    assert_eq!(meta[1].0, "tenant_id");
}

#[test]
fn trim_cuts_long_input_and_keeps_short_input() {
    assert_eq!(trim("abcdef", 4), "abcd...");
    assert_eq!(trim("abcd", 4), "abcd");
    assert_eq!(trim("", 4), "");
    assert_eq!(trim("héllo wörld", 5), "héllo...");
}

#[test]
fn base64_round_trips_and_keeps_the_expected_length() {
    let bytes: Vec<u8> = (0u8..64).collect();
    let encoded = b64_encode(&bytes);
    assert_eq!(encoded.len(), 86);
    assert_eq!(b64_decode(&encoded).unwrap(), bytes);
    assert_eq!(b64_encode(&[0u8; 3]), "AAAA");
    assert!(b64_decode("####").is_none());
}

#[test]
fn generated_ids_and_tokens_have_the_documented_shapes() {
    let id = gen_id(None);
    assert!(id.len() > 16);
    assert!(id.is_ascii());
    assert!(id.contains('-'));
    let short = gen_id(Some(4));
    assert!(short.len() > 4);
    assert_eq!(token(None).len(), 64);
    assert_eq!(token(Some(16)).len(), 16);
}

#[test]
fn schema_codes_round_trip() {
    assert_eq!(UserStatus::from_code(UserStatus::Active.code()), Some(UserStatus::Active));
    assert_eq!(UserStatus::from_code(9), None);
    assert_eq!(UserStatus::default(), UserStatus::Unverified);
    assert_eq!(
        TenantSettingCategory::from_code(0),
        Some(TenantSettingCategory::Security)
    );
    assert_eq!(MFACodeType::from_code(3), Some(MFACodeType::PushNotification));
    assert_eq!(APIClientType::from_code(5), Some(APIClientType::IOT));
    assert_eq!(APIClientType::from_code(6), None);
    assert_eq!(NotificationStatus::from_code(2), Some(NotificationStatus::Read));
    assert_eq!(NotificationType::from_code(4), Some(NotificationType::Push));
    assert_eq!(NotificationEvent::from_code(0), Some(NotificationEvent::AdminMessage));
    assert_eq!(NotificationPriority::from_code(3), Some(NotificationPriority::Critical));
    assert_eq!(NotificationPriority::from_code(-1), None);
}

#[test]
fn verification_and_contact_codes_compare_like_the_storage_bytes() {
    assert!(VerificationStatus::Verified.matches_code(1));
    assert!(!VerificationStatus::Verified.matches_code(0));
    assert_eq!(VerificationStatus::OnDeletion.code(), 4);
    assert!(ContactType::Personal.matches_code(0));
    assert_eq!(ContactType::Work.code(), 1);
}

#[test]
fn trace_ids_compose_timestamp_dash_suffix() {
    assert_eq!(make_trace_id(0, "abcd"), "0-abcd");
    assert_eq!(make_trace_id(1734567890123, "rAnd0m"), "1734567890123-rAnd0m");
    assert_eq!(make_trace_id(-5, "x"), "-5-x");
    assert_eq!(make_trace_id(1000, ""), "1000-");
}
