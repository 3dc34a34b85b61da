use vstd::prelude::*;
use vstd::string::StrSliceExecFns;
use vstd::string::StringExecFns;
use crate::b64::b64_of;
use crate::b64::b64_decode;
use crate::responses::Error;
use crate::responses::MetaValue;
use crate::responses::Response;

verus! {

/// The identity the authenticator attaches to a request: the owning user,
/// the raw bearer token, its scopes and an optional client. A request
/// without an `Authorization` header carries the anonymous identity, with
/// every field empty.
#[derive(Clone, Debug)]
pub struct Auth {
    pub user_id: Option<String>,
    pub token: Option<String>,
    pub scopes: Vec<String>,
    pub client_id: Option<String>,
}

/// The `Authorization` header as the edge hands it over: absent, present
/// but not valid UTF-8, or its text.
#[derive(Debug)]
pub enum HeaderInput {
    Missing,
    NotUtf8,
    Value(String),
}

/// The view of a header input, over character sequences.
pub enum HeaderView {
    Missing,
    NotUtf8,
    Value(Seq<char>),
}

impl View for HeaderInput {
    type V = HeaderView;

    open spec fn view(&self) -> HeaderView {
        match self {
            HeaderInput::Missing => HeaderView::Missing,
            HeaderInput::NotUtf8 => HeaderView::NotUtf8,
            HeaderInput::Value(s) => HeaderView::Value(s@),
        }
    }
}

/// What the authenticator decides from the header alone, before any
/// storage access: proceed anonymously, reject the header's encoding,
/// reject its shape (echoing the value), or look the decoded token up.
#[derive(Debug)]
pub enum AuthDecision {
    Anonymous,
    BadFormat,
    Malformed(String),
    Lookup(String, Vec<u8>),
}

/// The view of a header decision, over character and byte sequences.
pub enum AuthDecisionView {
    Anonymous,
    BadFormat,
    Malformed(Seq<char>),
    Lookup(Seq<char>, Seq<u8>),
}

impl View for AuthDecision {
    type V = AuthDecisionView;

    open spec fn view(&self) -> AuthDecisionView {
        match self {
            AuthDecision::Anonymous => AuthDecisionView::Anonymous,
            AuthDecision::BadFormat => AuthDecisionView::BadFormat,
            AuthDecision::Malformed(s) => AuthDecisionView::Malformed(s@),
            AuthDecision::Lookup(t, b) => AuthDecisionView::Lookup(t@, b@),
        }
    }
}

/// A character the URL-safe base64 alphabet uses.
pub open spec fn is_token_char(c: char) -> bool {
    ||| ('A' as u32) <= (c as u32) <= ('Z' as u32)
    ||| ('a' as u32) <= (c as u32) <= ('z' as u32)
    ||| ('0' as u32) <= (c as u32) <= ('9' as u32)
    ||| c == '_'
    ||| c == '-'
}

/// The literal shape a bearer header must have: `Bearer ` followed by
/// exactly 86 URL-safe base64 characters, the encoded form of a 64 byte
/// token.
pub open spec fn bearer_shaped(s: Seq<char>) -> bool {
    &&& s.len() == 93
    &&& s[0] == 'B'
    &&& s[1] == 'e'
    &&& s[2] == 'a'
    &&& s[3] == 'r'
    &&& s[4] == 'e'
    &&& s[5] == 'r'
    &&& s[6] == ' '
    &&& forall|i: int| 7 <= i < 93 ==> is_token_char(#[trigger] s[i])
}

/// The decision the authenticator owes for a given header: anonymous when
/// absent, a format rejection when not UTF-8, a shape rejection echoing
/// the value when it is not bearer-shaped or its token part encodes no
/// byte sequence, and otherwise a lookup of the token's unique decoding.
pub open spec fn spec_bearer_decision(h: HeaderView) -> AuthDecisionView {
    match h {
        HeaderView::Missing => AuthDecisionView::Anonymous,
        HeaderView::NotUtf8 => AuthDecisionView::BadFormat,
        HeaderView::Value(v) => {
            if !bearer_shaped(v) {
                AuthDecisionView::Malformed(v)
            } else {
                let tok = v.subrange(7, 93);
                if exists|b: Seq<u8>| b64_of(b) == tok {
                    AuthDecisionView::Lookup(tok, choose|b: Seq<u8>| b64_of(b) == tok)
                } else {
                    AuthDecisionView::Malformed(v)
                }
            }
        },
    }
}

fn is_token_char_exec(c: char) -> (r: bool)
    ensures
        r == is_token_char(c),
{
    let u = c as u32;
    (65 <= u && u <= 90) || (97 <= u && u <= 122) || (48 <= u && u <= 57) || c == '_' || c == '-'
}

/// Decides a request's `Authorization` header. The decision is a function
/// of the header value alone and touches no state, so two requests with
/// the same header are decided the same way.
pub fn check_bearer_header(header: &HeaderInput) -> (r: AuthDecision)
    ensures
        r@ == spec_bearer_decision(header@),
{
    match header {
        HeaderInput::Missing => AuthDecision::Anonymous,
        HeaderInput::NotUtf8 => AuthDecision::BadFormat,
        HeaderInput::Value(v) => {
            let s = v.as_str();
            let len = s.unicode_len();
            if len != 93 {
                return AuthDecision::Malformed(v.clone());
            }
            if !(s.get_char(0) == 'B' && s.get_char(1) == 'e' && s.get_char(2) == 'a' && s.get_char(
                3,
            ) == 'r' && s.get_char(4) == 'e' && s.get_char(5) == 'r' && s.get_char(6) == ' ') {
                return AuthDecision::Malformed(v.clone());
            }
            let mut i: usize = 7;
            while i < 93
                invariant
                    7 <= i <= 93,
                    s@ == v@,
                    s@.len() == 93,
                    header@ == HeaderView::Value(v@),
                    forall|j: int| 7 <= j < i ==> is_token_char(#[trigger] s@[j]),
                decreases 93 - i,
            {
                if !is_token_char_exec(s.get_char(i)) {
                    assert(!bearer_shaped(v@)) by {
                        assert(!is_token_char(v@[i as int]));
                    }
                    return AuthDecision::Malformed(v.clone());
                }
                i = i + 1;
            }
            assert(bearer_shaped(v@));
            let tok = s.substring_char(7, 93);
            match b64_decode(tok) {
                Some(b) => {
                    proof {
                        let cb = choose|b2: Seq<u8>| b64_of(b2) == tok@;
                        assert(b64_of(b@) == tok@);
                        assert(cb == b@);
                    }
                    AuthDecision::Lookup(tok.to_owned(), b)
                },
                None => AuthDecision::Malformed(v.clone()),
            }
        },
    }
}

/// What the active-token lookup came back with: the matching row's owner
/// and scope list, no row, or a storage failure.
#[derive(Debug)]
pub enum TokenLookup {
    Hit { user_id: String, scopes: Vec<String> },
    Miss,
    Failed,
}

/// What becomes of a request after the token lookup: it proceeds with an
/// attached identity, it is turned away as unauthorized, or the lookup
/// itself failed.
#[derive(Debug)]
pub enum AuthOutcome {
    Proceed(Auth),
    Unauthorized,
    StorageError,
}

/// Decides a request from what the active-token lookup came back with. A
/// hit attaches the owning user, the raw token text and the row's scopes;
/// a miss is unauthorized, with nothing said about why; a storage failure
/// is never treated as unauthorized.
pub fn authenticate_token_lookup(lookup: TokenLookup, token_text: String) -> (r: AuthOutcome)
    ensures
        lookup matches TokenLookup::Hit { user_id: uid, scopes } ==> (r matches
            AuthOutcome::Proceed(a) && {
            &&& a.user_id matches Some(u) && u@ == uid@
            &&& a.token matches Some(t) && t@ == token_text@
            &&& a.scopes == scopes
            &&& a.client_id is None
        }),
        lookup is Miss ==> r is Unauthorized,
        lookup is Failed ==> r is StorageError,
{
    match lookup {
        TokenLookup::Hit { user_id, scopes } => AuthOutcome::Proceed(
            Auth { user_id: Some(user_id), token: Some(token_text), scopes, client_id: None },
        ),
        TokenLookup::Miss => AuthOutcome::Unauthorized,
        TokenLookup::Failed => AuthOutcome::StorageError,
    }
}

/// The anonymous identity a request without an `Authorization` header
/// proceeds with.
pub fn anonymous_auth() -> (r: Auth)
    ensures
        r.user_id is None,
        r.token is None,
        r.scopes@.len() == 0,
        r.client_id is None,
{
    Auth { user_id: None, token: None, scopes: Vec::new(), client_id: None }
}

/// The 400 for an `Authorization` header that is not valid UTF-8.
pub fn bad_format_response(response_meta: Vec<(String, MetaValue)>) -> (r: (u16, Response<()>))
    ensures
        r.0 == 400,
        r.1.data is None,
        r.1.errors@.len() == 1,
        r.1.errors@[0].code == 400,
        r.1.errors@[0].message@ == "Bad Header Format"@,
        r.1.errors@[0].detail@
            == "The `Authorization` header did not contain valid UTF-8 content."@,
        r.1.errors@[0].location matches Some(l) && l@ == "headers.authorization"@,
        r.1.errors@[0].meta@.len() == 0,
        r.1.meta == response_meta,
{
    let err = Error::new(
        400,
        "Bad Header Format",
        "The `Authorization` header did not contain valid UTF-8 content.",
        Some("headers.authorization"),
        Vec::new(),
    );
    let mut errors: Vec<Error> = Vec::new();
    errors.push(err);
    (400, Response::new(None, Some(errors), Some(response_meta), None))
}

/// The 400 for a header that does not have the bearer shape; the value is
/// echoed back so the caller can see what was rejected.
pub fn invalid_header_response(value: String, response_meta: Vec<(String, MetaValue)>) -> (r: (
    u16,
    Response<()>,
))
    ensures
        r.0 == 400,
        r.1.data is None,
        r.1.errors@.len() == 1,
        r.1.errors@[0].code == 400,
        r.1.errors@[0].message@ == "Invalid Header"@,
        r.1.errors@[0].detail@ == "The `Authorization` header is not correctly formatted."@,
        r.1.errors@[0].location matches Some(l) && l@ == "headers.authorization"@,
        r.1.errors@[0].meta@.len() == 1,
        r.1.errors@[0].meta@[0].0@ == "input"@,
        r.1.errors@[0].meta@[0].1 matches MetaValue::Str(s) && s@ == value@,
        r.1.meta == response_meta,
{
    let mut meta: Vec<(String, MetaValue)> = Vec::new();
    meta.push(("input".to_owned(), MetaValue::Str(value)));
    let err = Error::new(
        400,
        "Invalid Header",
        "The `Authorization` header is not correctly formatted.",
        Some("headers.authorization"),
        meta,
    );
    let mut errors: Vec<Error> = Vec::new();
    errors.push(err);
    (400, Response::new(None, Some(errors), Some(response_meta), None))
}

/// The 401 for a well-formed token no active-token row matches; it does
/// not say whether the token expired or never existed.
pub fn unauthorized_response(token_text: String, response_meta: Vec<(String, MetaValue)>) -> (r: (
    u16,
    Response<()>,
))
    ensures
        r.0 == 401,
        r.1.data is None,
        r.1.errors@.len() == 1,
        r.1.errors@[0].code == 401,
        r.1.errors@[0].message@ == "Unauthorized"@,
        r.1.errors@[0].detail@
            == "The provided token is invalid. Check that it hasn't expired."@,
        r.1.errors@[0].location matches Some(l) && l@ == "headers.authorization"@,
        r.1.errors@[0].meta@.len() == 1,
        r.1.errors@[0].meta@[0].0@ == "input"@,
        r.1.errors@[0].meta@[0].1 matches MetaValue::Str(s) && s@ == token_text@,
        r.1.meta == response_meta,
{
    let mut meta: Vec<(String, MetaValue)> = Vec::new();
    meta.push(("input".to_owned(), MetaValue::Str(token_text)));
    let err = Error::new(
        401,
        "Unauthorized",
        "The provided token is invalid. Check that it hasn't expired.",
        Some("headers.authorization"),
        meta,
    );
    let mut errors: Vec<Error> = Vec::new();
    errors.push(err);
    (401, Response::new(None, Some(errors), Some(response_meta), None))
}

/// Law: rejecting a malformed bearer header is idempotent. The header
/// decision is a function of the header value alone and touches no state,
/// so a value that is not bearer-shaped is decided the same way every time
/// it is submitted: a shape rejection echoing exactly that value, which
/// renders as the same 400 both times.
pub proof fn lemma_idempotent_rejection(v: Seq<char>)
    requires
        !bearer_shaped(v),
    ensures
        spec_bearer_decision(HeaderView::Value(v)) matches AuthDecisionView::Malformed(e) && e
            == v,
        spec_bearer_decision(HeaderView::Value(v)) == spec_bearer_decision(HeaderView::Value(v)),
{
}

} // verus!
