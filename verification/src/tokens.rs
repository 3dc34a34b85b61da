use vstd::prelude::*;
use rand::RngCore;

verus! {

/// The kind of a self-contained signed token.
#[derive(Clone, Copy, Debug, PartialEq, Eq, Structural)]
pub enum TokenType {
    Flow,
}

/// The multi-step flow a flow token authorizes the next step of.
#[derive(Clone, Copy, Debug, PartialEq, Eq, Structural)]
pub enum Flow {
    SignUpEmailVerification,
}

/// The claims of a flow token: its kind, the flow it belongs to, the
/// tenant and user it speaks for, and an absolute expiry in seconds.
#[derive(Debug)]
pub struct FlowToken {
    pub token_type: TokenType,
    pub flow: Flow,
    pub tenant_id: String,
    pub user_id: String,
    pub expires_at: i64,
}

/// Generates a cryptographically secure random token of `size` bytes long,
/// which defaults to 64 for a 64 byte long token.
///
/// Relies on rand's `OsRng::fill_bytes`, which fills the whole buffer; a
/// failure of the operating system's randomness source is fatal to the
/// process, as the token generator's contract demands, not recoverable per
/// call.
#[verifier::external_body]
pub fn token(size: Option<usize>) -> (r: Vec<u8>)
    ensures
        r@.len() == (match size {
            Some(n) => n as int,
            None => 64int,
        }),
{
    let mut data = vec![0u8; size.unwrap_or(64)];
    rand::rngs::OsRng.fill_bytes(&mut data);
    data
}

} // verus!
