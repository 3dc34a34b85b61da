//! The request-admission pipeline and credential/token lifecycle engine of
//! a multi-tenant identity gateway: tenant resolution, global rate
//! limiting, bearer-token authentication, password sign-up and sign-in,
//! and access/refresh token issuance and rotation.

pub mod authn;
pub mod b64;
pub mod crypto;
pub mod db;
pub mod directory;
pub mod flow_token;
pub mod ids;
pub mod ratelimit;
pub mod refresh;
pub mod requests;
pub mod responses;
pub mod schema;
pub mod signin;
pub mod signup;
pub mod store;
pub mod tenant;
pub mod text;
pub mod tokens;
