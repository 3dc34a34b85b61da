use vstd::prelude::*;
use hmac::Mac;

verus! {

/// One byte of the HMAC-SHA-384 tag of a message under a key.
pub uninterp spec fn hmac_sha384_byte(key: Seq<u8>, msg: Seq<u8>, i: int) -> u8;

/// The HMAC-SHA-384 tag of a message under a key: SHA-384 yields 48
/// bytes, each a function of the key and the message alone.
pub open spec fn hmac_sha384_of(key: Seq<u8>, msg: Seq<u8>) -> Seq<u8> {
    Seq::new(48, |i: int| hmac_sha384_byte(key, msg, i))
}

/// Relies on hmac's `Hmac<Sha384>` (`Mac::new_from_slice`, `update`,
/// `finalize`): the tag is a function of the key and the message alone and
/// is 48 bytes long. `Hmac::new_from_slice` accepts keys of any length.
#[verifier::external_body]
pub fn hmac_sha384(key: &[u8], msg: &[u8]) -> (r: Vec<u8>)
    ensures
        r@ == hmac_sha384_of(key@, msg@),
        r@.len() == 48 && forall|i: int|
            0 <= i < 48 ==> r@[i] == hmac_sha384_byte(key@, msg@, i),
{
    let mut mac = <hmac::Hmac<sha2::Sha384> as hmac::Mac>::new_from_slice(key)
        .expect("HMAC accepts keys of any length");
    mac.update(msg);
    mac.finalize().into_bytes().to_vec()
}

/// Whether a password matches a bcrypt hash string, as decided by
/// `bcrypt::verify`.
pub uninterp spec fn bcrypt_matches(password: Seq<char>, hash: Seq<char>) -> bool;

/// Whether a string is a well-formed bcrypt hash, that is, one on which
/// `bcrypt::verify` succeeds.
pub uninterp spec fn bcrypt_hash_wf(hash: Seq<char>) -> bool;

/// Relies on `bcrypt::hash`: with a cost in bcrypt's accepted range 4..=31
/// it fails only if the operating system's randomness source fails, and a
/// produced hash is a well-formed bcrypt hash that `bcrypt::verify` accepts
/// for the hashed password.
#[verifier::external_body]
fn bcrypt_hash(password: &str, cost: u32) -> (r: Option<String>)
    requires
        4 <= cost <= 31,
    ensures
        r matches Some(h) ==> bcrypt_hash_wf(h@) && bcrypt_matches(password@, h@),
{
    bcrypt::hash(password, cost).ok()
}

/// Relies on `bcrypt::verify`: the result is a function of the password and
/// the hash alone, and an error is returned exactly on a malformed hash
/// string.
#[verifier::external_body]
fn bcrypt_check(password: &str, hash: &str) -> (r: Option<bool>)
    ensures
        r matches Some(b) ==> b == bcrypt_matches(password@, hash@),
        r is None ==> !bcrypt_hash_wf(hash@),
{
    bcrypt::verify(password, hash).ok()
}

/// Relies on `bcrypt::hash` and `std::time::Instant` to measure how many
/// milliseconds one bcrypt hash at the given cost takes on this machine.
/// Nothing is assumed of the measurement: callers must hold for every value
/// that comes back.
#[verifier::external_body]
fn measure_hash_millis(cost: u32) -> u64 {
    let start = std::time::Instant::now();
    let _ = bcrypt::hash("calibration sample", cost);
    start.elapsed().as_millis() as u64
}

/// The step rule of the calibration loop: a measured cost is picked
/// exactly when its hash took longer than the latency floor.
pub fn cost_over_floor(elapsed_ms: u64, floor_ms: u64) -> (r: bool)
    ensures
        r == (elapsed_ms > floor_ms),
{
    elapsed_ms > floor_ms
}

/// The hashing cost every password operation of one process run uses,
/// chosen once at startup and passed to each caller as plain data.
pub struct PasswordConfig {
    pub cost: u32,
}

impl PasswordConfig {
    /// The cost lies in bcrypt's accepted range.
    pub open spec fn wf(&self) -> bool {
        4 <= self.cost <= 31
    }

    /// Measures increasing costs, starting at bcrypt's minimum of 4, and
    /// picks the first whose hash takes longer than `floor_ms`
    /// milliseconds; if no cost up to bcrypt's maximum of 31 does, the
    /// maximum is used. The second component records the measurements, one
    /// per tried cost in order starting at cost 4: every measurement
    /// before the last lay at or under the floor, and the returned cost is
    /// either the one whose own measurement exceeded the floor or the cap
    /// after every measurement stayed at or under it.
    pub fn calibrate(floor_ms: u64) -> (r: (PasswordConfig, Ghost<Seq<u64>>))
        ensures
            r.0.wf(),
            ({
                let m = r.1@;
                &&& 1 <= m.len() <= 28
                &&& (forall|i: int| 0 <= i < m.len() - 1 ==> #[trigger] m[i] <= floor_ms)
                &&& ((r.0.cost == 3 + m.len() && m[m.len() - 1] > floor_ms) || (r.0.cost == 31
                    && m.len() == 28 && m[m.len() - 1] <= floor_ms))
            }),
    {
        let mut cost: u32 = 4;
        let ghost mut m: Seq<u64> = Seq::empty();
        loop
            invariant
                4 <= cost <= 31,
                m.len() == cost - 4,
                forall|i: int| 0 <= i < m.len() ==> #[trigger] m[i] <= floor_ms,
            decreases 31 - cost,
        {
            let elapsed = measure_hash_millis(cost);
            proof {
                m = m.push(elapsed);
            }
            if cost_over_floor(elapsed, floor_ms) {
                return (PasswordConfig { cost }, Ghost(m));
            }
            if cost == 31 {
                return (PasswordConfig { cost }, Ghost(m));
            }
            cost = cost + 1;
        }
    }

    /// Hashes a password at the calibrated cost. A hash that comes back
    /// verifies against the hashed password, so a verify call in the same
    /// process run succeeds for the correct password no matter how the cost
    /// was calibrated.
    pub fn hash_password(&self, password: &str) -> (r: Option<String>)
        requires
            self.wf(),
        ensures
            r matches Some(h) ==> bcrypt_hash_wf(h@) && bcrypt_matches(password@, h@),
    {
        bcrypt_hash(password, self.cost)
    }

    /// Checks a password against a stored bcrypt hash. On a well-formed
    /// hash the check always succeeds and returns whether the password
    /// matches.
    pub fn verify_password(&self, password: &str, hash: &str) -> (r: Option<bool>)
        ensures
            r matches Some(b) ==> b == bcrypt_matches(password@, hash@),
            bcrypt_hash_wf(hash@) ==> (r matches Some(b) && b == bcrypt_matches(password@, hash@)),
    {
        let r = bcrypt_check(password, hash);
        r
    }
}

} // verus!
