use vstd::prelude::*;
use crate::b64::b64_decode;
use crate::b64::b64_encode;
use crate::b64::b64_of;
use crate::responses::Error;
use crate::responses::MetaValue;
use crate::responses::Response;
use crate::responses::TokenResponse;
use crate::store::TokenRecord;
use crate::store::TokenStore;
use crate::store::keeps_other;
use crate::store::spec_has_token;

verus! {

/// The body of a token-refresh request: the refresh token in URL-safe
/// base64.
#[derive(Debug)]
pub struct RefreshTokenPayload {
    pub refresh_token: String,
}

/// How long a fresh access token lives, in seconds.
pub const ACCESS_TOKEN_EXPIRES_IN: u64 = 3600;

/// Decodes a refresh token. The token must be the base64 form of exactly
/// 64 bytes; anything else is rejected before any storage access.
pub fn refresh_decode(refresh_token: &str) -> (r: Option<Vec<u8>>)
    ensures
        r matches Some(b) ==> b@.len() == 64 && b64_of(b@) == refresh_token@,
        r is None ==> forall|b: Seq<u8>| b.len() == 64 ==> b64_of(b) != refresh_token@,
{
    match b64_decode(refresh_token) {
        Some(b) => {
            if b.len() == 64 {
                Some(b)
            } else {
                None
            }
        },
        None => None,
    }
}

/// The token table after a rotation: the consumed token's rows are gone
/// and the fresh access and refresh rows stand in their place.
pub open spec fn spec_rotated(
    rows: Seq<TokenRecord>,
    consumed: Seq<u8>,
    access_rec: TokenRecord,
    refresh_rec: TokenRecord,
) -> Seq<TokenRecord> {
    rows.filter(keeps_other(consumed)).push(access_rec).push(refresh_rec)
}

/// The two rows a rotation inserts: an access row with the standard
/// short lifetime and a refresh row that inherits the consumed token's
/// remaining lifetime, both carrying the same owner, scopes, device and
/// client.
pub fn rotation_records(
    user_id: String,
    scopes: Vec<String>,
    device_id: Option<String>,
    client_id: Option<String>,
    refresh_ttl_seconds: u64,
    new_access: Vec<u8>,
    new_refresh: Vec<u8>,
) -> (r: (TokenRecord, TokenRecord))
    ensures
        r.0.token == new_access && r.0.user_id == user_id && r.0.is_refresh == false
            && r.0.scopes == scopes && r.0.device_id == device_id && r.0.client_id == client_id
            && r.0.ttl_seconds == ACCESS_TOKEN_EXPIRES_IN,
        r.1.token == new_refresh && r.1.user_id == user_id && r.1.is_refresh == true
            && r.1.scopes@ == scopes@ && r.1.device_id == device_id && r.1.client_id
            == client_id && r.1.ttl_seconds == refresh_ttl_seconds,
{
    let user_id_2 = user_id.clone();
    let scopes_2 = clone_scopes(&scopes);
    let device_id_2 = clone_opt_string(&device_id);
    let client_id_2 = clone_opt_string(&client_id);
    let access_rec = TokenRecord {
        token: new_access,
        user_id,
        is_refresh: false,
        scopes,
        device_id,
        client_id,
        ttl_seconds: ACCESS_TOKEN_EXPIRES_IN,
    };
    let refresh_rec = TokenRecord {
        token: new_refresh,
        user_id: user_id_2,
        is_refresh: true,
        scopes: scopes_2,
        device_id: device_id_2,
        client_id: client_id_2,
        ttl_seconds: refresh_ttl_seconds,
    };
    (access_rec, refresh_rec)
}

/// Copies a scope list.
pub fn clone_scopes(scopes: &Vec<String>) -> (r: Vec<String>)
    ensures
        r@ == scopes@,
{
    let r = scopes.clone();
    proof {
        assert(r@ =~= scopes@);
    }
    r
}

/// Copies an optional string.
pub fn clone_opt_string(s: &Option<String>) -> (r: Option<String>)
    ensures
        r == s,
{
    s.clone()
}

/// Applies a rotation to the token table: one delete of the consumed
/// token and two inserts, as the storage engine's atomic batch issues
/// them together.
pub fn apply_rotation(
    store: &mut TokenStore,
    consumed: &Vec<u8>,
    access_rec: TokenRecord,
    refresh_rec: TokenRecord,
)
    ensures
        final(store).rows@ == spec_rotated(old(store).rows@, consumed@, access_rec, refresh_rec),
{
    store.remove_token(consumed.as_slice());
    store.insert(access_rec);
    store.insert(refresh_rec);
}

/// Builds the payload of a successful refresh: the new pair in base64,
/// the standard access lifetime, the inherited refresh lifetime, and the
/// bearer token type.
pub fn refresh_token_response(
    user_id: String,
    new_access: &Vec<u8>,
    new_refresh: &Vec<u8>,
    scopes: Vec<String>,
    refresh_token_expires_in: u64,
) -> (r: TokenResponse)
    ensures
        r.user_id == user_id,
        r.access_token@ == b64_of(new_access@),
        r.refresh_token@ == b64_of(new_refresh@),
        r.access_token_expires_in == ACCESS_TOKEN_EXPIRES_IN,
        r.refresh_token_expires_in == refresh_token_expires_in,
        r.scopes == scopes,
        r.token_type@ == "Bearer"@,
{
    TokenResponse {
        user_id,
        access_token: b64_encode(new_access.as_slice()),
        refresh_token: b64_encode(new_refresh.as_slice()),
        access_token_expires_in: ACCESS_TOKEN_EXPIRES_IN,
        refresh_token_expires_in,
        scopes,
        token_type: "Bearer".to_owned(),
    }
}

/// The 400 for a refresh token that is malformed or matches no stored
/// refresh row. Both failures go through this one function, so a caller
/// cannot tell them apart.
pub fn invalid_refresh_token_response(
    refresh_token: String,
    response_meta: Vec<(String, MetaValue)>,
) -> (r: (u16, Response<()>))
    ensures
        r.0 == 400,
        r.1.data is None,
        r.1.errors@.len() == 1,
        r.1.errors@[0].code == 400,
        r.1.errors@[0].message@ == "Invalid Refresh Token"@,
        r.1.errors@[0].detail@
            == "The refresh token is not a valid token. Check that it hasn't expired and that you're using the correct token."@,
        r.1.errors@[0].location matches Some(l) && l@ == "body.refresh_token"@,
        r.1.errors@[0].meta@.len() == 1,
        r.1.errors@[0].meta@[0].0@ == "input"@,
        r.1.errors@[0].meta@[0].1 matches MetaValue::Str(s) && s@ == refresh_token@,
        r.1.meta == response_meta,
{
    let mut meta: Vec<(String, MetaValue)> = Vec::new();
    meta.push(("input".to_owned(), MetaValue::Str(refresh_token)));
    let err = Error::new(
        400,
        "Invalid Refresh Token",
        "The refresh token is not a valid token. Check that it hasn't expired and that you're using the correct token.",
        Some("body.refresh_token"),
        meta,
    );
    let mut errors: Vec<Error> = Vec::new();
    errors.push(err);
    (400, Response::new(None, Some(errors), Some(response_meta), None))
}

/// Runs a whole refresh against the token-table model: decode the token,
/// look the refresh row up, and on a hit rotate it into the fresh pair
/// handed in. A malformed token and an unknown token both come back as
/// `None` with the table untouched.
pub fn token_refresh_model(
    store: &mut TokenStore,
    refresh_token_b64: &str,
    new_access: Vec<u8>,
    new_refresh: Vec<u8>,
) -> (r: Option<TokenResponse>)
    requires
        !spec_has_token(old(store).rows@, new_refresh@, true),
    ensures
        r matches Some(tr) ==> exists|b: Seq<u8>|
            {
                &&& b.len() == 64
                &&& b64_of(b) == refresh_token_b64@
                &&& spec_has_token(old(store).rows@, b, true)
                &&& !spec_has_token(final(store).rows@, b, true)
                &&& spec_has_token(final(store).rows@, new_refresh@, true)
                &&& (crate::store::spec_token_find(old(store).rows@, b, true) matches Some(rec)
                    && tr.refresh_token_expires_in == rec.ttl_seconds && tr.user_id@
                    == rec.user_id@ && tr.scopes@ == rec.scopes@)
                &&& tr.access_token@ == b64_of(new_access@)
                &&& tr.refresh_token@ == b64_of(new_refresh@)
                &&& tr.access_token_expires_in == ACCESS_TOKEN_EXPIRES_IN
                &&& tr.token_type@ == "Bearer"@
            },
        r is None ==> *final(store) == *old(store),
        r is None ==> (forall|b: Seq<u8>| b.len() == 64 ==> b64_of(b) != refresh_token_b64@)
            || (exists|b: Seq<u8>|
            b.len() == 64 && b64_of(b) == refresh_token_b64@ && !spec_has_token(
                old(store).rows@,
                b,
                true,
            )),
{
    let decoded = match refresh_decode(refresh_token_b64) {
        None => {
            return None;
        },
        Some(b) => b,
    };
    let (user_id, scopes, device_id, client_id, ttl_seconds) = match store.lookup(
        decoded.as_slice(),
        true,
    ) {
        None => {
            return None;
        },
        Some(rec) => (
            rec.user_id.clone(),
            clone_scopes(&rec.scopes),
            clone_opt_string(&rec.device_id),
            clone_opt_string(&rec.client_id),
            rec.ttl_seconds,
        ),
    };
    let response = refresh_token_response(
        user_id.clone(),
        &new_access,
        &new_refresh,
        clone_scopes(&scopes),
        ttl_seconds,
    );
    let (access_rec, refresh_rec) = rotation_records(
        user_id,
        scopes,
        device_id,
        client_id,
        ttl_seconds,
        new_access,
        new_refresh,
    );
    proof {
        lemma_single_use_refresh(store.rows@, decoded@, access_rec, refresh_rec);
    }
    apply_rotation(store, &decoded, access_rec, refresh_rec);
    Some(response)
}

/// Law: a refresh token is single use. A successful refresh consumes the
/// token R it was given and stores a fresh pair (A2, R2): in the rotated
/// table no refresh row for R remains, so a second refresh with R fails,
/// while a refresh row for R2 is present, so a refresh with R2 succeeds.
/// The one assumption is that the fresh refresh token differs from the
/// consumed one, which holds of distinct random 64-byte tokens.
pub proof fn lemma_single_use_refresh(
    rows: Seq<TokenRecord>,
    consumed: Seq<u8>,
    access_rec: TokenRecord,
    refresh_rec: TokenRecord,
)
    requires
        access_rec.is_refresh == false,
        refresh_rec.is_refresh == true,
        refresh_rec.token@ != consumed,
    ensures
        !spec_has_token(spec_rotated(rows, consumed, access_rec, refresh_rec), consumed, true),
        spec_has_token(
            spec_rotated(rows, consumed, access_rec, refresh_rec),
            refresh_rec.token@,
            true,
        ),
{
    let filtered = rows.filter(keeps_other(consumed));
    let rotated = spec_rotated(rows, consumed, access_rec, refresh_rec);
    assert forall|i: int| 0 <= i < rotated.len() implies !(rotated[i].token@ == consumed
        && rotated[i].is_refresh == true) by {
        if i < filtered.len() {
            Seq::<TokenRecord>::lemma_filter_pred(rows, keeps_other(consumed), i);
            assert(rotated[i] == filtered[i]);
            assert(keeps_other(consumed)(filtered[i]));
        } else if i == filtered.len() {
            assert(rotated[i] == access_rec);
        } else {
            assert(rotated[i] == refresh_rec);
        }
    }
    assert(rotated[rotated.len() - 1] == refresh_rec);
}

} // verus!
