use vstd::prelude::*;
use vstd::string::StringExecFns;

verus! {

/// A structured metadata value carried in a response or error envelope.
#[derive(Clone, Debug)]
pub enum MetaValue {
    Null,
    Str(String),
    Int(i64),
    StrList(Vec<String>),
}

/// One error of a response envelope: a status code, a short message, a
/// longer detail, an optional field location, and structured metadata.
#[derive(Debug)]
pub struct Error {
    pub code: u16,
    pub message: String,
    pub detail: String,
    pub location: Option<String>,
    pub meta: Vec<(String, MetaValue)>,
}

impl Error {
    /// Builds an error with the given fields; the metadata pairs are kept
    /// in the order handed in.
    pub fn new(
        code: u16,
        message: &str,
        detail: &str,
        location: Option<&str>,
        meta: Vec<(String, MetaValue)>,
    ) -> (r: Error)
        ensures
            r.code == code,
            r.message@ == message@,
            r.detail@ == detail@,
            location matches Some(l) ==> (r.location matches Some(s) && s@ == l@),
            location is None ==> r.location is None,
            r.meta == meta,
    {
        Error {
            code,
            message: message.to_owned(),
            detail: detail.to_owned(),
            location: match location {
                Some(l) => Some(l.to_owned()),
                None => None,
            },
            meta,
        }
    }
}

/// The envelope every route answers with: an optional data payload, a list
/// of errors, a metadata map and a links map, the maps as ordered pairs.
#[derive(Debug)]
pub struct Response<T> {
    pub data: Option<T>,
    pub errors: Vec<Error>,
    pub meta: Vec<(String, MetaValue)>,
    pub links: Vec<(String, String)>,
}

impl<T> Response<T> {
    /// Builds an envelope; an absent error, metadata or links argument
    /// stands for the empty list.
    pub fn new(
        data: Option<T>,
        errors: Option<Vec<Error>>,
        meta: Option<Vec<(String, MetaValue)>>,
        links: Option<Vec<(String, String)>>,
    ) -> (r: Response<T>)
        ensures
            r.data == data,
            errors matches Some(e) ==> r.errors == e,
            errors is None ==> r.errors@ == Seq::<Error>::empty(),
            meta matches Some(m) ==> r.meta == m,
            meta is None ==> r.meta@ == Seq::<(String, MetaValue)>::empty(),
            links matches Some(l) ==> r.links == l,
            links is None ==> r.links@ == Seq::<(String, String)>::empty(),
    {
        Response {
            data,
            errors: match errors {
                Some(e) => e,
                None => Vec::new(),
            },
            meta: match meta {
                Some(m) => m,
                None => Vec::new(),
            },
            links: match links {
                Some(l) => l,
                None => Vec::new(),
            },
        }
    }
}

/// The view of an optional identifier.
pub open spec fn spec_opt_str(t: Option<String>) -> Option<Seq<char>> {
    match t {
        Some(s) => Some(s@),
        None => None,
    }
}

/// The envelope metadata every error response carries for log
/// correlation: the request id first, then the tenant id, `Null` when no
/// tenant is known.
pub open spec fn spec_envelope_meta(
    meta: Seq<(String, MetaValue)>,
    request_id: Seq<char>,
    tenant_id: Option<Seq<char>>,
) -> bool {
    &&& meta.len() == 2
    &&& meta[0].0@ == "request_id"@
    &&& meta[0].1 matches MetaValue::Str(s) && s@ == request_id
    &&& meta[1].0@ == "tenant_id"@
    &&& (tenant_id matches Some(t) ==> (meta[1].1 matches MetaValue::Str(s) && s@ == t))
    &&& (tenant_id is None ==> meta[1].1 is Null)
}

/// The response metadata every stage after tenant resolution attaches: the
/// request id first, then the tenant id.
pub fn response_meta_pairs(request_id: &str, tenant_id: &str) -> (r: Vec<(String, MetaValue)>)
    ensures
        r@.len() == 2,
        r@[0].0@ == "request_id"@,
        r@[0].1 matches MetaValue::Str(s) && s@ == request_id@,
        r@[1].0@ == "tenant_id"@,
        r@[1].1 matches MetaValue::Str(s) && s@ == tenant_id@,
{
    let mut v: Vec<(String, MetaValue)> = Vec::new();
    v.push(("request_id".to_owned(), MetaValue::Str(request_id.to_owned())));
    v.push(("tenant_id".to_owned(), MetaValue::Str(tenant_id.to_owned())));
    v
}

/// Builds the envelope of a single-error response: the error's own fields
/// as handed in, and the envelope metadata naming the request id and the
/// tenant id (`Null` when no tenant is known).
pub fn error_response(
    status: u16,
    message: &str,
    detail: &str,
    location: Option<&str>,
    meta: Vec<(String, MetaValue)>,
    request_id: String,
    tenant_id: Option<String>,
) -> (r: (u16, Response<()>))
    ensures
        r.0 == status,
        r.1.data is None,
        r.1.errors@.len() == 1,
        r.1.errors@[0].code == status,
        r.1.errors@[0].message@ == message@,
        r.1.errors@[0].detail@ == detail@,
        location matches Some(l) ==> (r.1.errors@[0].location matches Some(s) && s@ == l@),
        location is None ==> r.1.errors@[0].location is None,
        r.1.errors@[0].meta == meta,
        spec_envelope_meta(r.1.meta@, request_id@, spec_opt_str(tenant_id)),
        r.1.links@.len() == 0,
{
    let err = Error::new(status, message, detail, location, meta);
    let mut envelope_meta: Vec<(String, MetaValue)> = Vec::new();
    envelope_meta.push(("request_id".to_owned(), MetaValue::Str(request_id)));
    let tenant_value = match tenant_id {
        Some(t) => MetaValue::Str(t),
        None => MetaValue::Null,
    };
    envelope_meta.push(("tenant_id".to_owned(), tenant_value));
    let mut errors: Vec<Error> = Vec::new();
    errors.push(err);
    (status, Response::new(None, Some(errors), Some(envelope_meta), None))
}

/// The payload of a successful sign-in or token refresh: the owning user,
/// the new access/refresh pair in URL-safe base64, the pair's lifetimes in
/// seconds, its scopes, and the bearer token type.
#[derive(Debug)]
pub struct TokenResponse {
    pub user_id: String,
    pub access_token: String,
    pub refresh_token: String,
    pub access_token_expires_in: u64,
    pub refresh_token_expires_in: u64,
    pub scopes: Vec<String>,
    pub token_type: String,
}

/// The kinds of malformed request body the framework can reject before a
/// handler runs, together with the status the framework chose.
#[derive(Debug)]
pub enum BodyRejection {
    MissingContentType,
    DataError,
    SyntaxError,
    BytesRejection,
    Unknown,
}

/// A failure every route reports the same way.
#[derive(Debug)]
pub enum CommonError {
    JsonRejection { kind: BodyRejection, status: u16, request_id: String, tenant_id: Option<String> },
    InternalServerError { request_id: String, tenant_id: Option<String> },
}

impl CommonError {
    /// Renders the failure as a response envelope. A body rejection keeps
    /// the status the framework chose and a message naming the rejected
    /// part, except for an unknown rejection, which is always a 400; an
    /// internal error is always a 500 with a fixed generic message and
    /// detail, so no internal detail leaks to the client. Either way the
    /// envelope metadata carries the request id and, if known, the tenant
    /// id for log correlation.
    pub fn to_response(self) -> (r: (u16, Response<()>))
        ensures
            self matches CommonError::InternalServerError { request_id, tenant_id } ==> {
                &&& r.0 == 500u16
                &&& r.1.errors@[0].code == 500
                &&& r.1.errors@[0].message@ == "Internal Server Error"@
                &&& r.1.errors@[0].detail@ == "An unexpected internal error occured."@
                &&& r.1.errors@[0].location is None
                &&& r.1.errors@[0].meta@.len() == 0
                &&& spec_envelope_meta(r.1.meta@, request_id@, spec_opt_str(tenant_id))
            },
            self matches CommonError::JsonRejection { kind, status, request_id, tenant_id } ==> {
                &&& (kind is Unknown ==> r.0 == 400u16 && r.1.errors@[0].message@
                    == "Unknown JSON Error"@)
                &&& (!(kind is Unknown) ==> r.0 == status)
                &&& (kind is MissingContentType ==> r.1.errors@[0].message@
                    == "Missing JSON Content-Type Header"@ && (r.1.errors@[0].location matches
                    Some(l) && l@ == "headers"@))
                &&& (kind is DataError ==> r.1.errors@[0].message@
                    == "Invalid Request Body Schema"@)
                &&& (kind is SyntaxError ==> r.1.errors@[0].message@ == "Invalid JSON Syntax"@)
                &&& (kind is BytesRejection ==> r.1.errors@[0].message@ == "Bytes Rejection"@)
                &&& (!(kind is MissingContentType) ==> (r.1.errors@[0].location matches Some(l)
                    && l@ == "body"@))
                &&& r.1.errors@[0].code == r.0
                &&& r.1.errors@[0].meta@.len() == 0
                &&& spec_envelope_meta(r.1.meta@, request_id@, spec_opt_str(tenant_id))
            },
            r.1.data is None,
            r.1.errors@.len() == 1,
    {
        match self {
            CommonError::JsonRejection { kind, status, request_id, tenant_id } => match kind {
                BodyRejection::MissingContentType => error_response(
                    status,
                    "Missing JSON Content-Type Header",
                    "The request must contain a Content-Type: application/json header.",
                    Some("headers"),
                    Vec::new(),
                    request_id,
                    tenant_id,
                ),
                BodyRejection::DataError => error_response(
                    status,
                    "Invalid Request Body Schema",
                    "The request body doesn't follow the endpoint's schema.",
                    Some("body"),
                    Vec::new(),
                    request_id,
                    tenant_id,
                ),
                BodyRejection::SyntaxError => error_response(
                    status,
                    "Invalid JSON Syntax",
                    "The request body contains invalid JSON.",
                    Some("body"),
                    Vec::new(),
                    request_id,
                    tenant_id,
                ),
                BodyRejection::BytesRejection => error_response(
                    status,
                    "Bytes Rejection",
                    "The request body's JSON could not be extracted.",
                    Some("body"),
                    Vec::new(),
                    request_id,
                    tenant_id,
                ),
                BodyRejection::Unknown => error_response(
                    400,
                    "Unknown JSON Error",
                    "An unknown error occurred parsing the request body's JSON.",
                    Some("body"),
                    Vec::new(),
                    request_id,
                    tenant_id,
                ),
            },
            CommonError::InternalServerError { request_id, tenant_id } => error_response(
                500,
                "Internal Server Error",
                "An unexpected internal error occured.",
                None,
                Vec::new(),
                request_id,
                tenant_id,
            ),
        }
    }
}

/// Builds the route-not-found response: a 404 naming the path that was
/// requested.
pub fn handler_404(path: &str, request_id: String, tenant_id: Option<String>) -> (r: (
    u16,
    Response<()>,
))
    ensures
        r.0 == 404,
        r.1.errors@.len() == 1,
        r.1.errors@[0].code == 404,
        r.1.errors@[0].message@ == "Not Found"@,
        r.1.errors@[0].detail@ == "This route does not exist."@,
        r.1.errors@[0].location matches Some(l) && l@ == "path"@,
        r.1.errors@[0].meta@.len() == 1,
        r.1.errors@[0].meta@[0].0@ == "path"@,
        r.1.errors@[0].meta@[0].1 matches MetaValue::Str(s) && s@ == path@,
        spec_envelope_meta(r.1.meta@, request_id@, spec_opt_str(tenant_id)),
{
    let mut meta: Vec<(String, MetaValue)> = Vec::new();
    meta.push(("path".to_owned(), MetaValue::Str(path.to_owned())));
    error_response(
        404,
        "Not Found",
        "This route does not exist.",
        Some("path"),
        meta,
        request_id,
        tenant_id,
    )
}

} // verus!
