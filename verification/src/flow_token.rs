use vstd::prelude::*;
use vstd::bytes::spec_u32_to_le_bytes;
use vstd::bytes::spec_u64_to_le_bytes;
use vstd::bytes::lemma_auto_spec_u32_to_from_le_bytes;
use vstd::bytes::lemma_auto_spec_u64_to_from_le_bytes;
use vstd::bytes::u32_from_le_bytes;
use vstd::bytes::u32_to_le_bytes;
use vstd::bytes::u64_from_le_bytes;
use vstd::bytes::u64_to_le_bytes;
use vstd::slice::slice_index_get;
use vstd::slice::slice_subrange;
use vstd::string::StrSliceExecFns;
use vstd::utf8::encode_utf8;
use vstd::utf8::encode_utf8_decode_utf8;
use vstd::utf8::encode_utf8_valid_utf8;
use vstd::utf8::valid_utf8;
use crate::crypto::hmac_sha384;
use crate::crypto::hmac_sha384_of;
use crate::tokens::Flow;
use crate::tokens::FlowToken;
use crate::tokens::TokenType;

verus! {

/// The claims of a flow token, over character sequences and unbounded
/// integers.
pub struct FlowClaims {
    pub token_type: TokenType,
    pub flow: Flow,
    pub tenant_id: Seq<char>,
    pub user_id: Seq<char>,
    pub expires_at: int,
}

impl View for FlowToken {
    type V = FlowClaims;

    open spec fn view(&self) -> FlowClaims {
        FlowClaims {
            token_type: self.token_type,
            flow: self.flow,
            tenant_id: self.tenant_id@,
            user_id: self.user_id@,
            expires_at: self.expires_at as int,
        }
    }
}

/// Claims a token can carry: identifiers whose UTF-8 forms fit the
/// length fields of the wire form, and a non-negative expiry that fits a
/// signed 64-bit timestamp.
pub open spec fn spec_claims_wf(c: FlowClaims) -> bool {
    &&& encode_utf8(c.tenant_id).len() <= u32::MAX
    &&& encode_utf8(c.user_id).len() <= u32::MAX
    &&& 0 <= c.expires_at <= i64::MAX
}

/// The wire code of a token kind.
pub open spec fn type_code(t: TokenType) -> u8 {
    match t {
        TokenType::Flow => 0u8,
    }
}

/// The wire code of a flow.
pub open spec fn flow_code(f: Flow) -> u8 {
    match f {
        Flow::SignUpEmailVerification => 0u8,
    }
}

/// The signed payload of a flow token: the type and flow codes, the expiry
/// as eight little-endian bytes, then the tenant and user identifiers in
/// UTF-8, each preceded by its four-byte byte length.
pub open spec fn spec_claims_bytes(c: FlowClaims) -> Seq<u8> {
    seq![type_code(c.token_type), flow_code(c.flow)] + spec_u64_to_le_bytes(c.expires_at as u64)
        + spec_u32_to_le_bytes(encode_utf8(c.tenant_id).len() as u32) + encode_utf8(c.tenant_id)
        + spec_u32_to_le_bytes(encode_utf8(c.user_id).len() as u32) + encode_utf8(c.user_id)
}

/// A complete flow token: the payload followed by its 48-byte
/// HMAC-SHA-384 tag under the process-wide key.
pub open spec fn spec_flow_token_bytes(key: Seq<u8>, c: FlowClaims) -> Seq<u8> {
    spec_claims_bytes(c) + hmac_sha384_of(key, spec_claims_bytes(c))
}

/// Serializes the claims into the signed payload's wire form.
fn encode_claims(claims: &FlowToken) -> (r: Vec<u8>)
    requires
        spec_claims_wf(claims@),
    ensures
        r@ == spec_claims_bytes(claims@),
{
    let mut out: Vec<u8> = Vec::new();
    match claims.token_type {
        TokenType::Flow => out.push(0u8),
    }
    match claims.flow {
        Flow::SignUpEmailVerification => out.push(0u8),
    }
    let mut exp_bytes = u64_to_le_bytes(claims.expires_at as u64);
    out.append(&mut exp_bytes);
    let tenant_len = claims.tenant_id.as_str().len();
    let mut tenant_len_bytes = u32_to_le_bytes(tenant_len as u32);
    out.append(&mut tenant_len_bytes);
    let mut tenant_bytes = claims.tenant_id.as_str().as_bytes_vec();
    out.append(&mut tenant_bytes);
    let user_len = claims.user_id.as_str().len();
    let mut user_len_bytes = u32_to_le_bytes(user_len as u32);
    out.append(&mut user_len_bytes);
    let mut user_bytes = claims.user_id.as_str().as_bytes_vec();
    out.append(&mut user_bytes);
    proof {
        assert(out@ =~= spec_claims_bytes(claims@));
    }
    out
}

/// Relies on std's `String::from_utf8`: decoding succeeds exactly on
/// valid UTF-8, and the decoded string's UTF-8 form is the input bytes.
#[verifier::external_body]
fn utf8_bytes_to_string(b: Vec<u8>) -> (r: Option<String>)
    ensures
        r matches Some(s) ==> encode_utf8(s@) == b@,
        r is None ==> !valid_utf8(b@),
{
    String::from_utf8(b).ok()
}

/// Parses a signed payload back into claims. Parsing succeeds exactly on
/// the wire forms the serializer produces: a `Some` result re-serializes
/// to the input, and on a `None` no well-formed claims serialize to the
/// input.
fn decode_claims(bytes: &[u8]) -> (r: Option<FlowToken>)
    ensures
        r matches Some(c) ==> spec_claims_wf(c@) && bytes@ == spec_claims_bytes(c@),
        r is None ==> forall|c: FlowClaims| spec_claims_wf(c) ==> bytes@ != spec_claims_bytes(c),
{
    proof {
        lemma_auto_spec_u32_to_from_le_bytes();
        lemma_auto_spec_u64_to_from_le_bytes();
    }
    let len = bytes.len();
    if len < 18 {
        assert forall|c: FlowClaims| spec_claims_wf(c) implies bytes@ != spec_claims_bytes(c) by {
            assert(spec_claims_bytes(c).len() >= 18);
        }
        return None;
    }
    if !(*slice_index_get(bytes, 0) == 0u8 && *slice_index_get(bytes, 1) == 0u8) {
        assert forall|c: FlowClaims| spec_claims_wf(c) implies bytes@ != spec_claims_bytes(c) by {
            assert(spec_claims_bytes(c)[0] == 0u8 && spec_claims_bytes(c)[1] == 0u8);
        }
        return None;
    }
    let exp = u64_from_le_bytes(slice_subrange(bytes, 2, 10));
    proof {
        assert(spec_u64_to_le_bytes(exp) =~= bytes@.subrange(2, 10));
    }
    if exp > 0x7fff_ffff_ffff_ffffu64 {
        assert forall|c: FlowClaims| spec_claims_wf(c) implies bytes@ != spec_claims_bytes(c) by {
            if bytes@ == spec_claims_bytes(c) {
                assert(spec_u64_to_le_bytes(c.expires_at as u64) =~= bytes@.subrange(2, 10));
                assert(c.expires_at as u64 == exp);
            }
        }
        return None;
    }
    let tenant_len32 = u32_from_le_bytes(slice_subrange(bytes, 10, 14));
    proof {
        assert(spec_u32_to_le_bytes(tenant_len32) =~= bytes@.subrange(10, 14));
    }
    let tenant_len = tenant_len32 as usize;
    if len - 14 < tenant_len || (len - 14) - tenant_len < 4 {
        assert forall|c: FlowClaims| spec_claims_wf(c) implies bytes@ != spec_claims_bytes(c) by {
            if bytes@ == spec_claims_bytes(c) {
                assert(spec_u32_to_le_bytes(encode_utf8(c.tenant_id).len() as u32)
                    =~= bytes@.subrange(10, 14));
                assert(encode_utf8(c.tenant_id).len() == tenant_len);
            }
        }
        return None;
    }
    let user_off = 14 + tenant_len;
    let user_len32 = u32_from_le_bytes(slice_subrange(bytes, user_off, user_off + 4));
    proof {
        assert(spec_u32_to_le_bytes(user_len32) =~= bytes@.subrange(
            user_off as int,
            user_off + 4,
        ));
    }
    let user_len = user_len32 as usize;
    if len - user_off - 4 != user_len {
        assert forall|c: FlowClaims| spec_claims_wf(c) implies bytes@ != spec_claims_bytes(c) by {
            if bytes@ == spec_claims_bytes(c) {
                assert(spec_u32_to_le_bytes(encode_utf8(c.tenant_id).len() as u32)
                    =~= bytes@.subrange(10, 14));
                assert(encode_utf8(c.tenant_id).len() == tenant_len);
                assert(spec_u32_to_le_bytes(encode_utf8(c.user_id).len() as u32)
                    =~= bytes@.subrange(user_off as int, user_off + 4));
                assert(encode_utf8(c.user_id).len() == user_len);
            }
        }
        return None;
    }
    let tenant_raw = vstd::slice::slice_to_vec(slice_subrange(bytes, 14, user_off));
    let user_raw = vstd::slice::slice_to_vec(
        slice_subrange(bytes, user_off + 4, user_off + 4 + user_len),
    );
    let ghost tenant_seq = bytes@.subrange(14, user_off as int);
    let ghost user_seq = bytes@.subrange(user_off + 4, user_off + 4 + user_len);
    let tenant_id = match utf8_bytes_to_string(tenant_raw) {
        Some(s) => s,
        None => {
            assert forall|c: FlowClaims| spec_claims_wf(c) implies bytes@ != spec_claims_bytes(
                c,
            ) by {
                if bytes@ == spec_claims_bytes(c) {
                    assert(spec_u32_to_le_bytes(encode_utf8(c.tenant_id).len() as u32)
                        =~= bytes@.subrange(10, 14));
                    assert(encode_utf8(c.tenant_id).len() == tenant_len);
                    assert(encode_utf8(c.tenant_id) =~= tenant_seq);
                    encode_utf8_valid_utf8(c.tenant_id);
                }
            }
            return None;
        },
    };
    let user_id = match utf8_bytes_to_string(user_raw) {
        Some(s) => s,
        None => {
            assert forall|c: FlowClaims| spec_claims_wf(c) implies bytes@ != spec_claims_bytes(
                c,
            ) by {
                if bytes@ == spec_claims_bytes(c) {
                    assert(spec_u32_to_le_bytes(encode_utf8(c.tenant_id).len() as u32)
                        =~= bytes@.subrange(10, 14));
                    assert(encode_utf8(c.tenant_id).len() == tenant_len);
                    assert(spec_u32_to_le_bytes(encode_utf8(c.user_id).len() as u32)
                        =~= bytes@.subrange(user_off as int, user_off + 4));
                    assert(encode_utf8(c.user_id).len() == user_len);
                    assert(encode_utf8(c.user_id) =~= user_seq);
                    encode_utf8_valid_utf8(c.user_id);
                }
            }
            return None;
        },
    };
    let result = FlowToken {
        token_type: TokenType::Flow,
        flow: Flow::SignUpEmailVerification,
        tenant_id,
        user_id,
        expires_at: exp as i64,
    };
    proof {
        assert(encode_utf8(result.tenant_id@) =~= tenant_seq);
        assert(encode_utf8(result.user_id@) =~= user_seq);
        assert(bytes@ =~= spec_claims_bytes(result@));
    }
    Some(result)
}

/// Compares two byte strings.
pub fn bytes_eq(a: &[u8], b: &[u8]) -> (r: bool)
    ensures
        r == (a@ == b@),
{
    if a.len() != b.len() {
        return false;
    }
    let mut i: usize = 0;
    while i < a.len()
        invariant
            0 <= i <= a@.len(),
            a@.len() == b@.len(),
            forall|j: int| 0 <= j < i ==> a@[j] == b@[j],
        decreases a@.len() - i,
    {
        if *slice_index_get(a, i) != *slice_index_get(b, i) {
            return false;
        }
        i = i + 1;
    }
    proof {
        assert(a@ =~= b@);
    }
    true
}

/// Signs the claims into a self-contained flow token: the serialized
/// payload followed by its keyed tag. No storage round trip is needed to
/// check it later.
pub fn issue_flow_token(key: &[u8], claims: &FlowToken) -> (r: Vec<u8>)
    requires
        spec_claims_wf(claims@),
    ensures
        r@ == spec_flow_token_bytes(key@, claims@),
{
    let mut payload = encode_claims(claims);
    let mut tag = hmac_sha384(key, payload.as_slice());
    payload.append(&mut tag);
    payload
}

/// Checks a flow token: the tag must be the payload's tag under the same
/// key, and the embedded expiry must not lie before `now`. A token the
/// check accepts is exactly a token issued for its claims and still
/// alive; an issued token is accepted until its expiry passes.
pub fn verify_flow_token(key: &[u8], token: &[u8], now: i64) -> (r: Option<FlowToken>)
    ensures
        r matches Some(c) ==> spec_claims_wf(c@) && token@ == spec_flow_token_bytes(key@, c@)
            && now <= c@.expires_at,
        r is None ==> forall|c: FlowClaims|
            spec_claims_wf(c) && now <= c.expires_at ==> token@ != spec_flow_token_bytes(key@, c),
{
    let len = token.len();
    if len < 48 {
        assert forall|c: FlowClaims| spec_claims_wf(c) implies token@ != spec_flow_token_bytes(
            key@,
            c,
        ) by {
            assert(spec_flow_token_bytes(key@, c).len() >= 48);
        }
        return None;
    }
    let split = len - 48;
    let payload = slice_subrange(token, 0, split);
    let tag = slice_subrange(token, split, len);
    let computed = hmac_sha384(key, payload);
    if !bytes_eq(computed.as_slice(), tag) {
        assert forall|c: FlowClaims| spec_claims_wf(c) implies token@ != spec_flow_token_bytes(
            key@,
            c,
        ) by {
            if token@ == spec_flow_token_bytes(key@, c) {
                assert(payload@ =~= spec_claims_bytes(c));
                assert(tag@ =~= hmac_sha384_of(key@, spec_claims_bytes(c)));
            }
        }
        return None;
    }
    match decode_claims(payload) {
        None => {
            assert forall|c: FlowClaims| spec_claims_wf(c) implies token@
                != spec_flow_token_bytes(key@, c) by {
                if token@ == spec_flow_token_bytes(key@, c) {
                    assert(payload@ =~= spec_claims_bytes(c));
                }
            }
            None
        },
        Some(c) => {
            if now <= c.expires_at {
                proof {
                    assert(token@ =~= spec_flow_token_bytes(key@, c@));
                }
                Some(c)
            } else {
                assert forall|c2: FlowClaims|
                    spec_claims_wf(c2) && now <= c2.expires_at implies token@
                    != spec_flow_token_bytes(key@, c2) by {
                    if token@ == spec_flow_token_bytes(key@, c2) {
                        assert(payload@ =~= spec_claims_bytes(c2));
                        lemma_claims_bytes_injective(c@, c2);
                    }
                }
                None
            }
        },
    }
}

/// Law: a flow token round-trips. Two well-formed claim sets whose
/// complete tokens under one key coincide are the same claims, so the
/// token issued for claims `c` is accepted, while `now` has not passed
/// the expiry, with exactly `c` recovered, and with `None` afterwards.
pub proof fn lemma_flow_token_bytes_injective(key: Seq<u8>, c1: FlowClaims, c2: FlowClaims)
    requires
        spec_claims_wf(c1),
        spec_claims_wf(c2),
        spec_flow_token_bytes(key, c1) == spec_flow_token_bytes(key, c2),
    ensures
        c1 == c2,
{
    let t = spec_flow_token_bytes(key, c1);
    let n1 = spec_claims_bytes(c1).len() as int;
    let n2 = spec_claims_bytes(c2).len() as int;
    assert(t.len() == n1 + 48);
    assert(t.len() == n2 + 48);
    assert(spec_claims_bytes(c1) =~= t.subrange(0, n1));
    assert(spec_claims_bytes(c2) =~= t.subrange(0, n1));
    lemma_claims_bytes_injective(c1, c2);
}

/// Law: the wire form pins the claims down. Two well-formed claim sets
/// with the same signed payload are the same claims, so checking a token
/// recovers exactly the claims it was issued for.
pub proof fn lemma_claims_bytes_injective(c1: FlowClaims, c2: FlowClaims)
    requires
        spec_claims_wf(c1),
        spec_claims_wf(c2),
        spec_claims_bytes(c1) == spec_claims_bytes(c2),
    ensures
        c1 == c2,
{
    lemma_auto_spec_u32_to_from_le_bytes();
    lemma_auto_spec_u64_to_from_le_bytes();
    let b = spec_claims_bytes(c1);
    assert(spec_u64_to_le_bytes(c1.expires_at as u64) =~= b.subrange(2, 10));
    assert(spec_u64_to_le_bytes(c2.expires_at as u64) =~= b.subrange(2, 10));
    assert(c1.expires_at == c2.expires_at);
    assert(spec_u32_to_le_bytes(encode_utf8(c1.tenant_id).len() as u32) =~= b.subrange(10, 14));
    assert(spec_u32_to_le_bytes(encode_utf8(c2.tenant_id).len() as u32) =~= b.subrange(10, 14));
    assert(encode_utf8(c1.tenant_id).len() == encode_utf8(c2.tenant_id).len());
    let tl = encode_utf8(c1.tenant_id).len() as int;
    assert(encode_utf8(c1.tenant_id) =~= b.subrange(14, 14 + tl));
    assert(encode_utf8(c2.tenant_id) =~= b.subrange(14, 14 + tl));
    assert(c1.tenant_id == c2.tenant_id) by {
        encode_utf8_decode_utf8(c1.tenant_id);
        encode_utf8_decode_utf8(c2.tenant_id);
    }
    assert(spec_u32_to_le_bytes(encode_utf8(c1.user_id).len() as u32) =~= b.subrange(
        14 + tl,
        18 + tl,
    ));
    assert(spec_u32_to_le_bytes(encode_utf8(c2.user_id).len() as u32) =~= b.subrange(
        14 + tl,
        18 + tl,
    ));
    assert(encode_utf8(c1.user_id).len() == encode_utf8(c2.user_id).len());
    let ul = encode_utf8(c1.user_id).len() as int;
    assert(encode_utf8(c1.user_id) =~= b.subrange(18 + tl, 18 + tl + ul));
    assert(encode_utf8(c2.user_id) =~= b.subrange(18 + tl, 18 + tl + ul));
    assert(c1.user_id == c2.user_id) by {
        encode_utf8_decode_utf8(c1.user_id);
        encode_utf8_decode_utf8(c2.user_id);
    }
}

} // verus!
