use vstd::prelude::*;
use vstd::string::StrSliceExecFns;
use crate::b64::b64_encode;
use crate::b64::b64_of;
use crate::flow_token::FlowClaims;
use crate::flow_token::issue_flow_token;
use crate::flow_token::spec_claims_wf;
use crate::flow_token::spec_flow_token_bytes;
use crate::responses::Error;
use crate::responses::MetaValue;
use crate::responses::Response;
use crate::responses::error_response;
use crate::text::trim;
use crate::tokens::Flow;
use crate::tokens::FlowToken;
use crate::tokens::TokenType;

verus! {

/// The body of a sign-up request: a required email, an optional username
/// and phone number, and the plaintext password.
#[derive(Debug)]
pub struct SignUpPayload {
    pub email: String,
    pub phone_number: Option<String>,
    pub username: Option<String>,
    pub password: String,
}

/// How long an unverified registration lives before it self-expires, in
/// seconds: two days, also the flow token's lifetime.
pub const SIGN_UP_TTL_SECONDS: u64 = 172800;

/// Whether a string passes validator's email check, as decided by
/// `ValidateEmail::validate_email`.
pub uninterp spec fn email_valid(s: Seq<char>) -> bool;

/// Relies on validator's `ValidateEmail` for `&str`: the verdict is a
/// function of the string alone (the HTML5 email shape), and the empty
/// string is never a valid email.
#[verifier::external_body]
pub fn is_valid_email(s: &str) -> (r: bool)
    ensures
        r == email_valid(s@),
        r ==> s@.len() > 0,
{
    validator::ValidateEmail::validate_email(&s)
}

/// Relies on zxcvbn's `zxcvbn`: the score is one of the five bands 0..=4
/// and the feedback suggestions exist exactly for weak passwords. The
/// estimate may consult the current date, so nothing is assumed about
/// which band comes back; the weak-password rule takes the band as an
/// argument.
#[verifier::external_body]
fn password_strength(password: &str, user_inputs: &Vec<String>) -> (r: (u8, Vec<String>))
    ensures
        r.0 <= 4,
{
    let refs: Vec<&str> = user_inputs.iter().map(|s| s.as_str()).collect();
    let entropy = zxcvbn::zxcvbn(password, &refs);
    let score = entropy.score() as u8;
    let suggestions = match entropy.feedback() {
        Some(f) => f.suggestions().iter().map(|s| s.to_string()).collect(),
        None => Vec::new(),
    };
    (score, suggestions)
}

/// A username must be 4 to 32 characters long.
pub open spec fn username_len_ok(u: Seq<char>) -> bool {
    4 <= u.len() <= 32
}

/// A password must be at most 32 characters long.
pub open spec fn password_len_ok(p: Seq<char>) -> bool {
    p.len() <= 32
}

/// A password scoring at or below this band is rejected as too weak.
pub open spec fn password_too_weak(score: u8) -> bool {
    score <= 2
}

/// One way a sign-up request can fail validation.
#[derive(Clone, Copy, Debug, PartialEq, Eq, Structural)]
pub enum SignUpViolation {
    InvalidUsername,
    InvalidEmail,
    PasswordTooLong,
    PasswordTooWeak,
}

/// Every violation of a sign-up request, in the order they are reported:
/// username length, email shape, password length, password strength. All
/// are collected; none stops the others.
pub open spec fn spec_sign_up_violations(
    username: Option<Seq<char>>,
    email_ok: bool,
    password: Seq<char>,
    score: u8,
) -> Seq<SignUpViolation> {
    (if username matches Some(u) && !username_len_ok(u) {
        seq![SignUpViolation::InvalidUsername]
    } else {
        Seq::empty()
    }) + (if !email_ok {
        seq![SignUpViolation::InvalidEmail]
    } else {
        Seq::empty()
    }) + (if !password_len_ok(password) {
        seq![SignUpViolation::PasswordTooLong]
    } else {
        Seq::empty()
    }) + (if password_too_weak(score) {
        seq![SignUpViolation::PasswordTooWeak]
    } else {
        Seq::empty()
    })
}

/// The validation rules that do not depend on the strength band: the
/// username length when one is given, the email shape, and the password
/// length. A payload failing any of them is rejected whatever band the
/// estimator picks.
pub open spec fn spec_band_independent_ok(payload: &SignUpPayload) -> bool {
    &&& (match spec_username(payload) {
        Some(u) => username_len_ok(u),
        None => true,
    })
    &&& email_valid(payload.email@)
    &&& password_len_ok(payload.password@)
}

/// The view of an optional username.
pub open spec fn spec_username(payload: &SignUpPayload) -> Option<Seq<char>> {
    match payload.username {
        Some(u) => Some(u@),
        None => None,
    }
}

/// Collects the violations of a sign-up request, given the email verdict
/// and the strength band the outside checks produced.
pub fn sign_up_violations(payload: &SignUpPayload, email_ok: bool, score: u8) -> (r: Vec<
    SignUpViolation,
>)
    ensures
        r@ == spec_sign_up_violations(spec_username(payload), email_ok, payload.password@, score),
{
    let mut v: Vec<SignUpViolation> = Vec::new();
    match &payload.username {
        Some(u) => {
            let len = u.as_str().unicode_len();
            if !(4 <= len && len <= 32) {
                v.push(SignUpViolation::InvalidUsername);
            }
        },
        None => {},
    }
    if !email_ok {
        v.push(SignUpViolation::InvalidEmail);
    }
    if payload.password.as_str().unicode_len() > 32 {
        v.push(SignUpViolation::PasswordTooLong);
    }
    if score <= 2 {
        v.push(SignUpViolation::PasswordTooWeak);
    }
    proof {
        assert(v@ =~= spec_sign_up_violations(
            spec_username(payload),
            email_ok,
            payload.password@,
            score,
        ));
    }
    v
}

/// The known-weak inputs the strength estimator must see: the email,
/// then the username and the phone number when given, in that order.
pub open spec fn spec_strength_inputs(payload: &SignUpPayload) -> Seq<Seq<char>> {
    seq![payload.email@] + (match payload.username {
        Some(u) => seq![u@],
        None => Seq::empty(),
    }) + (match payload.phone_number {
        Some(p) => seq![p@],
        None => Seq::empty(),
    })
}

/// The known-weak inputs handed to the strength estimator: exactly the
/// email, then the username and the phone number when given.
fn strength_inputs(payload: &SignUpPayload) -> (r: Vec<String>)
    ensures
        r.deep_view() == spec_strength_inputs(payload),
{
    let mut v: Vec<String> = Vec::new();
    v.push(payload.email.clone());
    match &payload.username {
        Some(u) => v.push(u.clone()),
        None => {},
    }
    match &payload.phone_number {
        Some(p) => v.push(p.clone()),
        None => {},
    }
    proof {
        assert(v.deep_view() =~= spec_strength_inputs(payload));
    }
    v
}

/// Validates a sign-up request: runs the email check and the strength
/// estimate, then collects every violation. The result also carries the
/// strength band and the estimator's suggestions for the weak-password
/// error's metadata. Whatever band the estimator picks, the username,
/// email and password-length verdicts are exact; the weak-password
/// verdict is exact for that band.
pub fn sign_up_validate(payload: &SignUpPayload) -> (r: (Vec<SignUpViolation>, u8, Vec<String>))
    ensures
        r.1 <= 4,
        r.0@ == spec_sign_up_violations(
            spec_username(payload),
            email_valid(payload.email@),
            payload.password@,
            r.1,
        ),
{
    let inputs = strength_inputs(payload);
    let (score, suggestions) = password_strength(payload.password.as_str(), &inputs);
    let email_ok = is_valid_email(payload.email.as_str());
    let violations = sign_up_violations(payload, email_ok, score);
    (violations, score, suggestions)
}

/// The message of the 422 error a violation renders as.
pub open spec fn spec_violation_message(v: SignUpViolation) -> Seq<char> {
    match v {
        SignUpViolation::InvalidUsername => "Invalid Username"@,
        SignUpViolation::InvalidEmail => "Invalid Email"@,
        SignUpViolation::PasswordTooLong => "Password Too Long"@,
        SignUpViolation::PasswordTooWeak => "Password Too Weak"@,
    }
}

/// The field location of the 422 error a violation renders as.
pub open spec fn spec_violation_location(v: SignUpViolation) -> Seq<char> {
    match v {
        SignUpViolation::InvalidUsername => "body.data.username"@,
        SignUpViolation::InvalidEmail => "body.data.email"@,
        SignUpViolation::PasswordTooLong => "body.data.password"@,
        SignUpViolation::PasswordTooWeak => "body.data.password"@,
    }
}

/// A value as the error metadata echoes it: cut to its first 20
/// characters with an ellipsis when longer.
pub open spec fn spec_trimmed(s: Seq<char>) -> Seq<char> {
    if s.len() > 20 {
        s.subrange(0, 20) + "..."@
    } else {
        s
    }
}

/// Renders one violation as the 422 error the response lists: the
/// offending field's location, a fixed message and detail, and metadata
/// echoing the offending input truncated to 20 characters, with the
/// input's length for the length rules and the estimator's suggestions
/// and band for the strength rule.
pub fn violation_error(
    violation: SignUpViolation,
    payload: &SignUpPayload,
    score: u8,
    suggestions: &Vec<String>,
) -> (r: Error)
    ensures
        r.code == 422,
        r.message@ == spec_violation_message(violation),
        r.location matches Some(l) && l@ == spec_violation_location(violation),
        violation is InvalidUsername ==> (payload.username matches Some(u) ==> {
            &&& r.meta@.len() == 2
            &&& r.meta@[0].0@ == "input"@
            &&& (r.meta@[0].1 matches MetaValue::Str(e) && e@ == spec_trimmed(u@))
            &&& r.meta@[1].0@ == "length"@
            &&& (r.meta@[1].1 matches MetaValue::Int(n) && (u@.len() <= i64::MAX ==> n
                == u@.len()))
        }),
        violation is InvalidEmail ==> r.meta@.len() == 1 && r.meta@[0].0@ == "input"@ && (
        r.meta@[0].1 matches MetaValue::Str(e) && e@ == spec_trimmed(payload.email@)),
        violation is PasswordTooLong ==> {
            &&& r.meta@.len() == 2
            &&& r.meta@[0].0@ == "input"@
            &&& (r.meta@[0].1 matches MetaValue::Str(e) && e@ == spec_trimmed(payload.password@))
            &&& r.meta@[1].0@ == "length"@
            &&& (r.meta@[1].1 matches MetaValue::Int(n) && (payload.password@.len() <= i64::MAX
                ==> n == payload.password@.len()))
        },
        violation is PasswordTooWeak ==> {
            &&& r.meta@.len() == 3
            &&& r.meta@[0].0@ == "input"@
            &&& (r.meta@[0].1 matches MetaValue::Str(e) && e@ == spec_trimmed(payload.password@))
            &&& r.meta@[1].0@ == "suggestions"@
            &&& (r.meta@[1].1 matches MetaValue::StrList(l) && l@ == suggestions@)
            &&& r.meta@[2].0@ == "score"@
            &&& (r.meta@[2].1 matches MetaValue::Int(n) && n == score)
        },
{
    match violation {
        SignUpViolation::InvalidUsername => {
            let username = match &payload.username {
                Some(u) => u.as_str(),
                None => "",
            };
            let mut meta: Vec<(String, MetaValue)> = Vec::new();
            meta.push(("input".to_owned(), MetaValue::Str(trim(username, 20))));
            meta.push(("length".to_owned(), MetaValue::Int(username.unicode_len() as i64)));
            Error::new(
                422,
                "Invalid Username",
                "The username must be from 4 to 32 characters long.",
                Some("body.data.username"),
                meta,
            )
        },
        SignUpViolation::InvalidEmail => {
            let mut meta: Vec<(String, MetaValue)> = Vec::new();
            meta.push(("input".to_owned(), MetaValue::Str(trim(payload.email.as_str(), 20))));
            Error::new(
                422,
                "Invalid Email",
                "The email field requires a valid email.",
                Some("body.data.email"),
                meta,
            )
        },
        SignUpViolation::PasswordTooLong => {
            let mut meta: Vec<(String, MetaValue)> = Vec::new();
            meta.push(("input".to_owned(), MetaValue::Str(trim(payload.password.as_str(), 20))));
            meta.push((
                "length".to_owned(),
                MetaValue::Int(payload.password.as_str().unicode_len() as i64),
            ));
            Error::new(
                422,
                "Password Too Long",
                "The password must not be more than 32 characters in length.",
                Some("body.data.password"),
                meta,
            )
        },
        SignUpViolation::PasswordTooWeak => {
            let mut meta: Vec<(String, MetaValue)> = Vec::new();
            meta.push(("input".to_owned(), MetaValue::Str(trim(payload.password.as_str(), 20))));
            let cloned_suggestions = suggestions.clone();
            proof {
                assert(cloned_suggestions@ =~= suggestions@);
            }
            meta.push(("suggestions".to_owned(), MetaValue::StrList(cloned_suggestions)));
            meta.push(("score".to_owned(), MetaValue::Int(score as i64)));
            Error::new(
                422,
                "Password Too Weak",
                "The password provided is too weak. To strengthen your password, consider using a combination of letters, numbers, and symbols.",
                Some("body.data.password"),
                meta,
            )
        },
    }
}

/// Renders every violation, in order, as the error list of the 422
/// response: the i-th error carries the i-th violation's message and
/// location. Validation failing means no storage access happens: the
/// caller returns this response without any further step.
pub fn validation_errors(
    violations: &Vec<SignUpViolation>,
    payload: &SignUpPayload,
    score: u8,
    suggestions: &Vec<String>,
) -> (r: Vec<Error>)
    ensures
        r@.len() == violations@.len(),
        forall|i: int|
            0 <= i < r@.len() ==> {
                &&& (#[trigger] r@[i]).code == 422
                &&& r@[i].message@ == spec_violation_message(violations@[i])
                &&& (r@[i].location matches Some(l) && l@ == spec_violation_location(
                    violations@[i],
                ))
            },
{
    let mut errors: Vec<Error> = Vec::new();
    let mut i: usize = 0;
    while i < violations.len()
        invariant
            0 <= i <= violations@.len(),
            errors@.len() == i,
            forall|j: int|
                0 <= j < i ==> {
                    &&& (#[trigger] errors@[j]).code == 422
                    &&& errors@[j].message@ == spec_violation_message(violations@[j])
                    &&& (errors@[j].location matches Some(l) && l@ == spec_violation_location(
                        violations@[j],
                    ))
                },
        decreases violations@.len() - i,
    {
        errors.push(violation_error(violations[i], payload, score, suggestions));
        i = i + 1;
    }
    errors
}

/// The reverse-lookup tables sign-up checks for collisions, in order.
#[derive(Clone, Copy, Debug, PartialEq, Eq, Structural)]
pub enum UniqueField {
    Username,
    Email,
    PhoneNumber,
}

/// The ordered list of uniqueness checks a request needs: the username
/// when given, then the email, then the phone number when given. The
/// caller stops at the first collision.
pub fn uniqueness_checks(payload: &SignUpPayload) -> (r: Vec<UniqueField>)
    ensures
        payload.username is Some && payload.phone_number is Some ==> r@ == seq![
            UniqueField::Username,
            UniqueField::Email,
            UniqueField::PhoneNumber,
        ],
        payload.username is Some && payload.phone_number is None ==> r@ == seq![
            UniqueField::Username,
            UniqueField::Email,
        ],
        payload.username is None && payload.phone_number is Some ==> r@ == seq![
            UniqueField::Email,
            UniqueField::PhoneNumber,
        ],
        payload.username is None && payload.phone_number is None ==> r@ == seq![
            UniqueField::Email,
        ],
{
    let mut v: Vec<UniqueField> = Vec::new();
    if payload.username.is_some() {
        v.push(UniqueField::Username);
    }
    v.push(UniqueField::Email);
    if payload.phone_number.is_some() {
        v.push(UniqueField::PhoneNumber);
    }
    proof {
        if payload.username is Some && payload.phone_number is Some {
            assert(v@ =~= seq![UniqueField::Username, UniqueField::Email, UniqueField::PhoneNumber]);
        } else if payload.username is Some {
            assert(v@ =~= seq![UniqueField::Username, UniqueField::Email]);
        } else if payload.phone_number is Some {
            assert(v@ =~= seq![UniqueField::Email, UniqueField::PhoneNumber]);
        } else {
            assert(v@ =~= seq![UniqueField::Email]);
        }
    }
    v
}

/// The first colliding field among the checks, in check order: a taken
/// username blocks before a taken email, which blocks before a taken
/// phone number; fields that were not given cannot block.
pub open spec fn spec_first_conflict(
    username_given: bool,
    username_taken: bool,
    email_taken: bool,
    phone_given: bool,
    phone_taken: bool,
) -> Option<UniqueField> {
    if username_given && username_taken {
        Some(UniqueField::Username)
    } else if email_taken {
        Some(UniqueField::Email)
    } else if phone_given && phone_taken {
        Some(UniqueField::PhoneNumber)
    } else {
        None
    }
}

/// Decides which field, if any, blocks the registration, from the
/// existence verdicts of the reverse-lookup tables.
pub fn first_conflict(
    username_given: bool,
    username_taken: bool,
    email_taken: bool,
    phone_given: bool,
    phone_taken: bool,
) -> (r: Option<UniqueField>)
    ensures
        r == spec_first_conflict(
            username_given,
            username_taken,
            email_taken,
            phone_given,
            phone_taken,
        ),
{
    if username_given && username_taken {
        Some(UniqueField::Username)
    } else if email_taken {
        Some(UniqueField::Email)
    } else if phone_given && phone_taken {
        Some(UniqueField::PhoneNumber)
    } else {
        None
    }
}

/// Law: the first blocking field wins. A sign-up whose username is
/// already taken is blocked by the username alone: whatever the email and
/// phone-number tables hold, the verdict names the username, so the 409
/// names `username` and, the verdict being a rejection, no write is
/// planned.
pub proof fn lemma_uniqueness_ordering(username_taken: bool)
    requires
        username_taken,
    ensures
        forall|email_taken: bool, phone_given: bool, phone_taken: bool|
            spec_first_conflict(true, username_taken, email_taken, phone_given, phone_taken)
                == Some(UniqueField::Username),
{
}

/// The 409 for a registration a collision blocks: the colliding field is
/// named in the location and its value echoed back, truncated.
pub fn conflict_response(
    field: UniqueField,
    value: &str,
    request_id: String,
    tenant_id: Option<String>,
) -> (r: (u16, Response<()>))
    ensures
        r.0 == 409,
        r.1.data is None,
        r.1.errors@.len() == 1,
        r.1.errors@[0].code == 409,
        field is Username ==> r.1.errors@[0].message@ == "Username Already In Use"@ && (
        r.1.errors@[0].location matches Some(l) && l@ == "body.data.username"@),
        field is Email ==> r.1.errors@[0].message@ == "Email Already In Use"@ && (
        r.1.errors@[0].location matches Some(l) && l@ == "body.data.email"@),
        field is PhoneNumber ==> r.1.errors@[0].message@ == "Phone Number Already In Use"@ && (
        r.1.errors@[0].location matches Some(l) && l@ == "body.data.phone_number"@),
        r.1.errors@[0].meta@.len() == 1,
        r.1.errors@[0].meta@[0].0@ == "input"@,
        r.1.errors@[0].meta@[0].1 matches MetaValue::Str(e) && e@ == spec_trimmed(value@),
{
    let mut meta: Vec<(String, MetaValue)> = Vec::new();
    meta.push(("input".to_owned(), MetaValue::Str(trim(value, 20))));
    match field {
        UniqueField::Username => error_response(
            409,
            "Username Already In Use",
            "There's already a user with this username.",
            Some("body.data.username"),
            meta,
            request_id,
            tenant_id,
        ),
        UniqueField::Email => error_response(
            409,
            "Email Already In Use",
            "There's already a user with this email.",
            Some("body.data.email"),
            meta,
            request_id,
            tenant_id,
        ),
        UniqueField::PhoneNumber => error_response(
            409,
            "Phone Number Already In Use",
            "There's already a user with this phone number.",
            Some("body.data.phone_number"),
            meta,
            request_id,
            tenant_id,
        ),
    }
}

/// The new user row a registration writes: unverified, unlocked, with no
/// roles, a zero login counter, the hashed password, and the sign-up
/// lifetime so an unverified registration self-expires.
#[derive(Debug)]
pub struct NewUserRecord {
    pub tenant_id: String,
    pub user_id: String,
    pub username: Option<String>,
    pub password_hash: String,
    pub is_verified: bool,
    pub is_locked: bool,
    pub is_suspended: bool,
    pub login_count: i32,
    pub ttl_seconds: u64,
}

/// The new contact row a registration writes beside the user row: the
/// user's main, non-work, unverified contact, with the same lifetime.
#[derive(Debug)]
pub struct NewContactRecord {
    pub tenant_id: String,
    pub user_id: String,
    pub value: String,
    pub is_main: bool,
    pub is_work: bool,
    pub is_verified: bool,
    pub ttl_seconds: u64,
}

/// The rows a registration writes once nothing blocks it: the user row,
/// the email row, and a phone row exactly when a phone number was given.
/// All carry the sign-up lifetime; every flag starts false.
pub fn sign_up_records(
    tenant_id: &String,
    user_id: &String,
    payload: &SignUpPayload,
    password_hash: String,
) -> (r: (NewUserRecord, NewContactRecord, Option<NewContactRecord>))
    ensures
        r.0.tenant_id == tenant_id && r.0.user_id == user_id && r.0.username == payload.username
            && r.0.password_hash == password_hash && r.0.is_verified == false && r.0.is_locked
            == false && r.0.is_suspended == false && r.0.login_count == 0 && r.0.ttl_seconds
            == SIGN_UP_TTL_SECONDS,
        r.1.tenant_id == tenant_id && r.1.user_id == user_id && r.1.value == payload.email
            && r.1.is_main == true && r.1.is_work == false && r.1.is_verified == false
            && r.1.ttl_seconds == SIGN_UP_TTL_SECONDS,
        payload.phone_number matches Some(p) ==> (r.2 matches Some(pr) && pr.value == p
            && pr.tenant_id == tenant_id && pr.user_id == user_id && pr.is_main == true
            && pr.is_work == false && pr.is_verified == false && pr.ttl_seconds
            == SIGN_UP_TTL_SECONDS),
        payload.phone_number is None ==> r.2 is None,
{
    let user_rec = NewUserRecord {
        tenant_id: tenant_id.clone(),
        user_id: user_id.clone(),
        username: crate::refresh::clone_opt_string(&payload.username),
        password_hash,
        is_verified: false,
        is_locked: false,
        is_suspended: false,
        login_count: 0,
        ttl_seconds: SIGN_UP_TTL_SECONDS,
    };
    let email_rec = NewContactRecord {
        tenant_id: tenant_id.clone(),
        user_id: user_id.clone(),
        value: payload.email.clone(),
        is_main: true,
        is_work: false,
        is_verified: false,
        ttl_seconds: SIGN_UP_TTL_SECONDS,
    };
    let phone_rec = match &payload.phone_number {
        Some(p) => Some(
            NewContactRecord {
                tenant_id: tenant_id.clone(),
                user_id: user_id.clone(),
                value: p.clone(),
                is_main: true,
                is_work: false,
                is_verified: false,
                ttl_seconds: SIGN_UP_TTL_SECONDS,
            },
        ),
        None => None,
    };
    (user_rec, email_rec, phone_rec)
}

/// The claims of the verification flow token a registration issues: the
/// sign-up email-verification flow, scoped to the tenant and the new
/// user, expiring two days from now.
pub fn sign_up_flow_claims(tenant_id: String, user_id: String, now: i64) -> (r: FlowToken)
    requires
        0 <= now <= i64::MAX - SIGN_UP_TTL_SECONDS,
    ensures
        r.token_type is Flow,
        r.flow is SignUpEmailVerification,
        r.tenant_id == tenant_id,
        r.user_id == user_id,
        r.expires_at == now + SIGN_UP_TTL_SECONDS,
{
    FlowToken {
        token_type: TokenType::Flow,
        flow: Flow::SignUpEmailVerification,
        tenant_id,
        user_id,
        expires_at: now + (SIGN_UP_TTL_SECONDS as i64),
    }
}

/// Issues the verification flow token for a fresh registration and hands
/// it over in URL-safe base64, ready for the response body.
pub fn sign_up_flow_token(
    key: &[u8],
    tenant_id: String,
    user_id: String,
    now: i64,
) -> (r: String)
    requires
        0 <= now <= i64::MAX - SIGN_UP_TTL_SECONDS,
        vstd::utf8::encode_utf8(tenant_id@).len() <= u32::MAX,
        vstd::utf8::encode_utf8(user_id@).len() <= u32::MAX,
    ensures
        r@ == b64_of(
            spec_flow_token_bytes(
                key@,
                FlowClaims {
                    token_type: TokenType::Flow,
                    flow: Flow::SignUpEmailVerification,
                    tenant_id: tenant_id@,
                    user_id: user_id@,
                    expires_at: now + SIGN_UP_TTL_SECONDS,
                },
            ),
        ),
{
    let claims = sign_up_flow_claims(tenant_id, user_id, now);
    let token = issue_flow_token(key, &claims);
    b64_encode(token.as_slice())
}

/// The data payload of a successful registration: the flow token and the
/// flow it continues.
#[derive(Debug)]
pub struct SignUpData {
    pub flow_token: String,
    pub flow: Flow,
}

/// Builds the 201 of a successful registration: the flow token and flow
/// name as data, the request metadata, and the link to the verification
/// endpoint.
pub fn sign_up_created_response(
    flow_token: String,
    response_meta: Vec<(String, MetaValue)>,
) -> (r: (u16, Response<SignUpData>))
    ensures
        r.0 == 201,
        r.1.data matches Some(d) && d.flow_token == flow_token && d.flow
            is SignUpEmailVerification,
        r.1.errors@.len() == 0,
        r.1.meta == response_meta,
        r.1.links@.len() == 1,
        r.1.links@[0].0@ == "verify"@,
        r.1.links@[0].1@ == "/auth/sign-up/verify"@,
{
    let mut links: Vec<(String, String)> = Vec::new();
    links.push(("verify".to_owned(), "/auth/sign-up/verify".to_owned()));
    let data = SignUpData { flow_token, flow: Flow::SignUpEmailVerification };
    (201, Response::new(Some(data), None, Some(response_meta), Some(links)))
}

} // verus!
