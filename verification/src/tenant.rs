use vstd::prelude::*;
use crate::db::LookupResult;
use crate::responses::MetaValue;
use crate::responses::Response;
use crate::responses::error_response;

verus! {

/// What tenant resolution decides for a request: attach the owning tenant
/// and go on, turn the request away because no tenant owns the host, or
/// report the lookup failure.
#[derive(Debug)]
pub enum TenantOutcome {
    Attach(String),
    HostNotFound,
    StorageError,
}

/// Decides a request from what the host lookup came back with. Resolution
/// runs before any tenant-scoped work: without a hit nothing downstream
/// may run, and a storage failure is never read as an unknown host.
pub fn resolve_tenant(lookup: LookupResult) -> (r: TenantOutcome)
    ensures
        lookup matches LookupResult::Hit(t) ==> (r matches TenantOutcome::Attach(t2) && t2 == t),
        lookup is Miss ==> r is HostNotFound,
        lookup is Failed ==> r is StorageError,
{
    match lookup {
        LookupResult::Hit(t) => TenantOutcome::Attach(t),
        LookupResult::Miss => TenantOutcome::HostNotFound,
        LookupResult::Failed => TenantOutcome::StorageError,
    }
}

/// The 404 for a host no tenant is bound to; no tenant context exists yet,
/// so the metadata names the request id and a null tenant.
pub fn host_not_found_response(request_id: String) -> (r: (u16, Response<()>))
    ensures
        r.0 == 404,
        r.1.data is None,
        r.1.errors@.len() == 1,
        r.1.errors@[0].code == 404,
        r.1.errors@[0].message@ == "Host Not Found"@,
        r.1.errors@[0].detail@ == "The host name is not linked to any AccessCore tenant."@,
        r.1.errors@[0].location matches Some(l) && l@ == "headers.host"@,
        r.1.errors@[0].meta@.len() == 2,
        r.1.errors@[0].meta@[0].0@ == "request_id"@,
        r.1.errors@[0].meta@[0].1 matches MetaValue::Str(s) && s@ == request_id@,
        r.1.errors@[0].meta@[1].0@ == "tenant_id"@,
        r.1.errors@[0].meta@[1].1 is Null,
        r.1.meta@[0].1 matches MetaValue::Str(s) && s@ == request_id@,
        r.1.meta@[1].1 is Null,
{
    let mut meta: Vec<(String, MetaValue)> = Vec::new();
    meta.push(("request_id".to_owned(), MetaValue::Str(request_id.clone())));
    meta.push(("tenant_id".to_owned(), MetaValue::Null));
    error_response(
        404,
        "Host Not Found",
        "The host name is not linked to any AccessCore tenant.",
        Some("headers.host"),
        meta,
        request_id,
        None,
    )
}

} // verus!
