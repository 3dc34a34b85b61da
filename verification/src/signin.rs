use vstd::prelude::*;
use crate::b64::b64_of;
use crate::crypto::PasswordConfig;
use crate::crypto::bcrypt_hash_wf;
use crate::crypto::bcrypt_matches;
use crate::db::LookupResult;
use crate::responses::MetaValue;
use crate::responses::Response;
use crate::responses::TokenResponse;
use crate::responses::error_response;
use crate::store::TokenRecord;
use crate::store::TokenStore;
use crate::refresh::refresh_token_response;

verus! {

/// The body of a sign-in request: one login string, tried as email, then
/// username, then phone number, and the plaintext password.
#[derive(Debug)]
pub struct SignInPayload {
    pub login: String,
    pub password: String,
}

/// The reverse-lookup tables a login string can resolve through.
#[derive(Clone, Copy, Debug, PartialEq, Eq, Structural)]
pub enum LoginKind {
    Email,
    Username,
    PhoneNumber,
}

/// How long a fresh refresh token from sign-in lives, in seconds.
pub const REFRESH_TOKEN_EXPIRES_IN: u64 = 2628288;

/// The ordered list of reverse-lookup tables to try for a login string:
/// the email table only when the login has the shape of an email, then
/// the username table, then the phone-number table. The caller stops at
/// the first table with a matching row.
pub fn sign_in_lookup_plan(login_is_email: bool) -> (r: Vec<LoginKind>)
    ensures
        login_is_email ==> r@ == seq![LoginKind::Email, LoginKind::Username, LoginKind::PhoneNumber],
        !login_is_email ==> r@ == seq![LoginKind::Username, LoginKind::PhoneNumber],
{
    let mut v: Vec<LoginKind> = Vec::new();
    if login_is_email {
        v.push(LoginKind::Email);
    }
    v.push(LoginKind::Username);
    v.push(LoginKind::PhoneNumber);
    proof {
        if login_is_email {
            assert(v@ =~= seq![LoginKind::Email, LoginKind::Username, LoginKind::PhoneNumber]);
        } else {
            assert(v@ =~= seq![LoginKind::Username, LoginKind::PhoneNumber]);
        }
    }
    v
}

/// What one step of the login resolution decides: the user is resolved,
/// the next table should be tried, or the lookup failed and the request
/// is an internal error.
#[derive(Debug)]
pub enum ResolutionStep {
    Resolved(String),
    TryNext,
    StorageError,
}

/// Decides one reverse-lookup result: a hit resolves the user and stops
/// the search, a miss moves to the next table, and a storage failure is
/// never read as an unknown login.
pub fn sign_in_resolution_step(lookup: LookupResult) -> (r: ResolutionStep)
    ensures
        lookup matches LookupResult::Hit(uid) ==> (r matches ResolutionStep::Resolved(u) && u
            == uid),
        lookup is Miss ==> r is TryNext,
        lookup is Failed ==> r is StorageError,
{
    match lookup {
        LookupResult::Hit(uid) => ResolutionStep::Resolved(uid),
        LookupResult::Miss => ResolutionStep::TryNext,
        LookupResult::Failed => ResolutionStep::StorageError,
    }
}

/// What the credential check decides. `InvalidCredentials` carries
/// nothing: an unknown login and a wrong password produce the very same
/// value, so nothing downstream can tell them apart.
#[derive(Debug)]
pub enum CredentialDecision {
    Accept(i32),
    InvalidCredentials,
    StorageError,
}

/// Checks the supplied password against the resolved user's stored row
/// (password hash and login counter). A missing or unreadable row is an
/// internal error, as is a hash bcrypt cannot parse; on a well-formed
/// hash the check always completes, accepts exactly the matching
/// password, and hands back the login counter for the sign-in update.
pub fn sign_in_credentials(
    cfg: &PasswordConfig,
    row: Option<(String, i32)>,
    password: &str,
) -> (r: CredentialDecision)
    ensures
        row is None ==> r is StorageError,
        row matches Some((hash, lc)) ==> {
            &&& (r matches CredentialDecision::Accept(lc2) ==> lc2 == lc && bcrypt_matches(
                password@,
                hash@,
            ))
            &&& (r is InvalidCredentials ==> !bcrypt_matches(password@, hash@))
            &&& (r is StorageError ==> !bcrypt_hash_wf(hash@))
        },
{
    match row {
        None => CredentialDecision::StorageError,
        Some((hash, lc)) => match cfg.verify_password(password, hash.as_str()) {
            None => CredentialDecision::StorageError,
            Some(true) => CredentialDecision::Accept(lc),
            Some(false) => CredentialDecision::InvalidCredentials,
        },
    }
}

/// The login counter after a successful sign-in.
pub fn next_login_count(login_count: i32) -> (r: i32)
    requires
        login_count < i32::MAX,
    ensures
        r == login_count + 1,
{
    login_count + 1
}

/// The scope list a fresh sign-in pair carries.
pub fn all_scopes() -> (r: Vec<String>)
    ensures
        r@.len() == 1,
        r@[0]@ == "all"@,
{
    let mut v: Vec<String> = Vec::new();
    v.push("all".to_owned());
    v
}

/// The two token rows a successful sign-in inserts: a short-lived access
/// row and a long-lived refresh row, both owned by the user, scoped to
/// `all`, with no device or client.
pub fn sign_in_records(user_id: String, new_access: Vec<u8>, new_refresh: Vec<u8>) -> (r: (
    TokenRecord,
    TokenRecord,
))
    ensures
        r.0.token == new_access && r.0.user_id == user_id && r.0.is_refresh == false
            && r.0.scopes@.len() == 1 && r.0.scopes@[0]@ == "all"@ && r.0.device_id is None
            && r.0.client_id is None && r.0.ttl_seconds == crate::refresh::ACCESS_TOKEN_EXPIRES_IN,
        r.1.token == new_refresh && r.1.user_id == user_id && r.1.is_refresh == true
            && r.1.scopes@.len() == 1 && r.1.scopes@[0]@ == "all"@ && r.1.device_id is None
            && r.1.client_id is None && r.1.ttl_seconds == REFRESH_TOKEN_EXPIRES_IN,
{
    let user_id_2 = user_id.clone();
    let access_rec = TokenRecord {
        token: new_access,
        user_id,
        is_refresh: false,
        scopes: all_scopes(),
        device_id: None,
        client_id: None,
        ttl_seconds: crate::refresh::ACCESS_TOKEN_EXPIRES_IN,
    };
    let refresh_rec = TokenRecord {
        token: new_refresh,
        user_id: user_id_2,
        is_refresh: true,
        scopes: all_scopes(),
        device_id: None,
        client_id: None,
        ttl_seconds: REFRESH_TOKEN_EXPIRES_IN,
    };
    (access_rec, refresh_rec)
}

/// Inserts the sign-in pair, as the storage engine's atomic batch does
/// together with the login-counter update.
pub fn apply_sign_in(store: &mut TokenStore, access_rec: TokenRecord, refresh_rec: TokenRecord)
    ensures
        final(store).rows@ == old(store).rows@.push(access_rec).push(refresh_rec),
{
    store.insert(access_rec);
    store.insert(refresh_rec);
}

/// Builds the payload of a successful sign-in: the new pair in base64,
/// the standard lifetimes, the `all` scope and the bearer token type.
pub fn sign_in_token_response(
    user_id: String,
    new_access: &Vec<u8>,
    new_refresh: &Vec<u8>,
) -> (r: TokenResponse)
    ensures
        r.user_id == user_id,
        r.access_token@ == b64_of(new_access@),
        r.refresh_token@ == b64_of(new_refresh@),
        r.access_token_expires_in == crate::refresh::ACCESS_TOKEN_EXPIRES_IN,
        r.refresh_token_expires_in == REFRESH_TOKEN_EXPIRES_IN,
        r.scopes@.len() == 1 && r.scopes@[0]@ == "all"@,
        r.token_type@ == "Bearer"@,
{
    refresh_token_response(
        user_id,
        new_access,
        new_refresh,
        all_scopes(),
        REFRESH_TOKEN_EXPIRES_IN,
    )
}

/// The exact shape of the sign-in rejection: every field is a function of
/// the request id and the tenant id alone, so nothing of the login or the
/// password can reach the body.
pub open spec fn spec_invalid_credentials_response(
    r: (u16, Response<()>),
    request_id: Seq<char>,
    tenant_id: Option<Seq<char>>,
) -> bool {
    &&& r.0 == 401
    &&& r.1.data is None
    &&& r.1.errors.len() == 1
    &&& r.1.errors[0].code == 401
    &&& r.1.errors[0].message@ == "Invalid Credentials"@
    &&& r.1.errors[0].detail@ == "The credentials provided were invalid."@
    &&& r.1.errors[0].location matches Some(l) && l@ == "body.data"@
    &&& r.1.errors[0].meta.len() == 0
    &&& crate::responses::spec_envelope_meta(r.1.meta@, request_id, tenant_id)
    &&& r.1.links.len() == 0
}

/// The 401 every failed sign-in returns, whatever failed. It is built
/// from the request metadata alone, so nothing reveals whether the login
/// was unknown or the password wrong, and no credential is reflected
/// back.
pub fn invalid_credentials_response(request_id: String, tenant_id: Option<String>) -> (r: (
    u16,
    Response<()>,
))
    ensures
        spec_invalid_credentials_response(
            r,
            request_id@,
            crate::responses::spec_opt_str(tenant_id),
        ),
{
    error_response(
        401,
        "Invalid Credentials",
        "The credentials provided were invalid.",
        Some("body.data"),
        Vec::new(),
        request_id,
        tenant_id,
    )
}

/// One row of the user table the credential check reads: the user, the
/// stored bcrypt hash, and the login counter.
#[derive(Debug)]
pub struct UserRow {
    pub user_id: String,
    pub password_hash: String,
    pub login_count: i32,
}

/// The user table, modelled as the sequence of its rows.
#[derive(Debug)]
pub struct UserTable {
    pub rows: Vec<UserRow>,
}

impl UserTable {
    /// An empty table.
    pub fn new() -> (r: UserTable)
        ensures
            r.rows@.len() == 0,
    {
        UserTable { rows: Vec::new() }
    }

    /// The stored hash and login counter of a user: the first row naming
    /// the user decides, and a miss means no row names the user.
    pub fn find(&self, user_id: &String) -> (r: Option<(String, i32)>)
        ensures
            r matches Some((hash, lc)) ==> spec_users_find(self.rows@, user_id@) == Some(
                (hash@, lc as int),
            ),
            r is None ==> spec_users_find(self.rows@, user_id@) is None,
    {
        let mut i: usize = 0;
        proof {
            assert(self.rows@.skip(0) =~= self.rows@);
        }
        while i < self.rows.len()
            invariant
                0 <= i <= self.rows@.len(),
                spec_users_find(self.rows@, user_id@) == spec_users_find(
                    self.rows@.skip(i as int),
                    user_id@,
                ),
            decreases self.rows@.len() - i,
        {
            proof {
                assert(self.rows@.skip(i as int)[0] == self.rows@[i as int]);
            }
            if self.rows[i].user_id.eq(user_id) {
                return Some((self.rows[i].password_hash.clone(), self.rows[i].login_count));
            }
            proof {
                assert(self.rows@.skip(i as int).drop_first() =~= self.rows@.skip(i + 1));
            }
            i = i + 1;
        }
        proof {
            assert(self.rows@.skip(self.rows@.len() as int).len() == 0);
        }
        None
    }
}

/// The stored row of the first match for a user id, if any row names it.
pub open spec fn spec_users_find(rows: Seq<UserRow>, user_id: Seq<char>) -> Option<
    (Seq<char>, int),
>
    decreases rows.len(),
{
    if rows.len() == 0 {
        None
    } else if rows[0].user_id@ == user_id {
        Some((rows[0].password_hash@, rows[0].login_count as int))
    } else {
        spec_users_find(rows.drop_first(), user_id)
    }
}

/// The user a login string resolves to: the first matching row of the
/// first table in plan order that holds it, where the email table counts
/// only for an email-shaped login. `None` means no table resolves the
/// login.
pub open spec fn spec_sign_in_resolution(
    dir: &crate::directory::Directory,
    login: Seq<char>,
) -> Option<Seq<char>> {
    if crate::signup::email_valid(login) && crate::directory::spec_rows_find(dir.emails@, login)
        is Some {
        crate::directory::spec_rows_find(dir.emails@, login)
    } else if crate::directory::spec_rows_find(dir.usernames@, login) is Some {
        crate::directory::spec_rows_find(dir.usernames@, login)
    } else {
        crate::directory::spec_rows_find(dir.phones@, login)
    }
}

/// What a whole sign-in attempt decides against the models: tokens are
/// granted, the credentials are rejected, or a storage-level fault stops
/// the request. `Invalid` carries nothing, so every rejection is the same
/// value whatever caused it.
#[derive(Debug)]
pub enum SignInModelOutcome {
    Granted(TokenResponse),
    Invalid,
    Failure,
}

/// Runs a whole sign-in against the models: resolve the login through the
/// reverse-lookup tables in plan order, read the user's stored hash,
/// check the password, and only on a match issue the pair handed in. A
/// login no table resolves is rejected with the very same value as a
/// wrong password, any rejection or fault leaves the token table
/// untouched, and a resolved user whose well-formed hash matches the
/// password is always granted the pair.
pub fn sign_in_model(
    cfg: &PasswordConfig,
    dir: &crate::directory::Directory,
    users: &UserTable,
    store: &mut TokenStore,
    payload: &SignInPayload,
    new_access: Vec<u8>,
    new_refresh: Vec<u8>,
) -> (r: SignInModelOutcome)
    ensures
        r is Invalid ==> *final(store) == *old(store),
        r is Failure ==> *final(store) == *old(store),
        spec_sign_in_resolution(dir, payload.login@) is None ==> r is Invalid,
        spec_sign_in_resolution(dir, payload.login@) matches Some(u) ==> {
            let row = spec_users_find(users.rows@, u);
            &&& (row is None ==> r is Failure)
            &&& (row matches Some((hash, lc)) ==> {
                &&& (bcrypt_hash_wf(hash) && bcrypt_matches(payload.password@, hash)
                    ==> r is Granted)
                &&& (r is Granted ==> bcrypt_matches(payload.password@, hash))
                &&& (r is Invalid ==> !bcrypt_matches(payload.password@, hash))
                &&& (r is Failure ==> !bcrypt_hash_wf(hash))
            })
        },
        r is Granted ==> spec_sign_in_resolution(dir, payload.login@) is Some
            && spec_users_find(
            users.rows@,
            spec_sign_in_resolution(dir, payload.login@).unwrap(),
        ) is Some,
        r matches SignInModelOutcome::Granted(tr) ==> {
            &&& final(store).rows@.len() == old(store).rows@.len() + 2
            &&& final(store).rows@.subrange(0, old(store).rows@.len() as int) == old(store).rows@
            &&& final(store).rows@[final(store).rows@.len() - 2].token@ == new_access@
            &&& final(store).rows@[final(store).rows@.len() - 2].is_refresh == false
            &&& final(store).rows@.last().token@ == new_refresh@
            &&& final(store).rows@.last().is_refresh == true
            &&& tr.access_token@ == crate::b64::b64_of(new_access@)
            &&& tr.refresh_token@ == crate::b64::b64_of(new_refresh@)
            &&& tr.token_type@ == "Bearer"@
        },
{
    let mut user: Option<&String> = None;
    if crate::signup::is_valid_email(payload.login.as_str()) {
        user = crate::directory::rows_find(&dir.emails, &payload.login);
    }
    if user.is_none() {
        user = crate::directory::rows_find(&dir.usernames, &payload.login);
    }
    if user.is_none() {
        user = crate::directory::rows_find(&dir.phones, &payload.login);
    }
    let user_id = match user {
        None => {
            return SignInModelOutcome::Invalid;
        },
        Some(u) => u,
    };
    let row = users.find(user_id);
    match sign_in_credentials(cfg, row, payload.password.as_str()) {
        CredentialDecision::StorageError => SignInModelOutcome::Failure,
        CredentialDecision::InvalidCredentials => SignInModelOutcome::Invalid,
        CredentialDecision::Accept(_login_count) => {
            let response = sign_in_token_response(user_id.clone(), &new_access, &new_refresh);
            let (access_rec, refresh_rec) = sign_in_records(
                user_id.clone(),
                new_access,
                new_refresh,
            );
            apply_sign_in(store, access_rec, refresh_rec);
            SignInModelOutcome::Granted(response)
        },
    }
}

/// Law: credential failures are indistinguishable. An unknown login and a
/// known login with a wrong password both end in the `InvalidCredentials`
/// decision, which carries no data, and the one rejection builder renders
/// the body from the request id and tenant id alone: any two rendered
/// rejections that share them agree on every field, so the two bodies are
/// identical aside from the embedded request id.
pub proof fn lemma_credential_indistinguishability(
    r1: (u16, Response<()>),
    r2: (u16, Response<()>),
    request_id: Seq<char>,
    tenant_id: Option<Seq<char>>,
)
    requires
        spec_invalid_credentials_response(r1, request_id, tenant_id),
        spec_invalid_credentials_response(r2, request_id, tenant_id),
    ensures
        r1.0 == r2.0,
        r1.1.data == r2.1.data,
        r1.1.errors.len() == r2.1.errors.len(),
        r1.1.errors[0].code == r2.1.errors[0].code,
        r1.1.errors[0].message@ == r2.1.errors[0].message@,
        r1.1.errors[0].detail@ == r2.1.errors[0].detail@,
        r1.1.errors[0].location matches Some(l1) && (r2.1.errors[0].location matches Some(l2)
            && l1@ == l2@),
        r1.1.errors[0].meta@ == r2.1.errors[0].meta@,
        r1.1.meta.len() == r2.1.meta.len(),
        r1.1.meta[0].0@ == r2.1.meta[0].0@,
        r1.1.meta[0].1 matches MetaValue::Str(a) && (r2.1.meta[0].1 matches MetaValue::Str(b)
            && a@ == b@),
        r1.1.meta[1].0@ == r2.1.meta[1].0@,
        r1.1.links@ == r2.1.links@,
{
    assert(r1.1.errors[0].meta@ =~= r2.1.errors[0].meta@);
    assert(r1.1.links@ =~= r2.1.links@);
}

} // verus!
