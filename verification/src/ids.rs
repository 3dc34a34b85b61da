use vstd::prelude::*;
use vstd::string::StrSliceExecFns;
use vstd::utf8::is_ascii_chars;
use vstd::utf8::is_ascii_chars_encode_utf8;
use vstd::utf8::is_ascii_chars_nat_bound;

verus! {

/// An ASCII character sequence as bytes, one byte per character.
pub open spec fn ascii_bytes(s: Seq<char>) -> Seq<u8> {
    Seq::new(s.len(), |i: int| s[i] as u8)
}

/// Relies on chrono's `Utc::now` for the current Unix timestamp in
/// milliseconds. Nothing is assumed of the value: callers must hold for
/// every clock reading.
#[verifier::external_body]
fn now_unix_millis() -> i64 {
    chrono::Utc::now().timestamp_millis()
}

/// Relies on nanoid's `format` with its URL-safe alphabet: exactly `size`
/// random characters from that ASCII alphabet. For a size of zero,
/// `format` draws zero random bytes per round and so never returns, which
/// the precondition rules out. A failure of the operating system's
/// randomness source is fatal to the process, as the token generator's
/// contract demands, not recoverable per call.
#[verifier::external_body]
fn random_suffix(size: usize) -> (r: String)
    requires
        size >= 1,
    ensures
        r@.len() == size,
        is_ascii_chars(r@),
{
    nanoid::format(nanoid::rngs::default, &nanoid::alphabet::SAFE, size)
}

/// Relies on std's `String::from_utf8` for ASCII input: a buffer of bytes
/// below 128 is valid UTF-8 and decodes to one character per byte.
#[verifier::external_body]
fn ascii_bytes_to_string(b: Vec<u8>) -> (r: String)
    requires
        forall|i: int| 0 <= i < b@.len() ==> b@[i] < 128,
    ensures
        r@.len() == b@.len(),
        is_ascii_chars(r@),
        forall|i: int| 0 <= i < b@.len() ==> (r@[i] as u8) == b@[i],
{
    String::from_utf8(b).expect("ASCII bytes are valid UTF-8")
}

/// The decimal digits of a number as ASCII bytes, most significant first;
/// the empty sequence for zero.
pub open spec fn spec_digits_bytes(n: nat) -> Seq<u8>
    decreases n,
{
    if n == 0 {
        Seq::empty()
    } else {
        spec_digits_bytes(n / 10).push((48 + n % 10) as u8)
    }
}

/// The decimal form of a number as ASCII bytes: `0` for zero, no leading
/// zeros otherwise.
pub open spec fn spec_decimal_bytes(n: nat) -> Seq<u8> {
    if n == 0 {
        seq![48u8]
    } else {
        spec_digits_bytes(n)
    }
}

/// The byte form of a trace identifier: the millisecond timestamp in
/// decimal (signed, for a clock before 1970), a dash, and the random
/// suffix.
pub open spec fn spec_trace_id_bytes(ts: int, suffix: Seq<u8>) -> Seq<u8> {
    (if ts < 0 {
        seq![45u8] + spec_decimal_bytes((-ts) as nat)
    } else {
        spec_decimal_bytes(ts as nat)
    }) + seq![45u8] + suffix
}

/// Every byte of a decimal form is an ASCII digit.
proof fn lemma_decimal_bytes_digits(n: nat)
    ensures
        forall|i: int|
            0 <= i < spec_decimal_bytes(n).len() ==> 48 <= #[trigger] spec_decimal_bytes(n)[i]
                <= 57,
        spec_decimal_bytes(n).len() >= 1,
    decreases n,
{
    if n > 0 {
        lemma_decimal_bytes_digits(n / 10);
        if n / 10 == 0 {
            assert(spec_digits_bytes(0) =~= Seq::<u8>::empty());
            assert(spec_digits_bytes(n) =~= seq![(48 + n % 10) as u8]);
        } else {
            assert(spec_digits_bytes(n) == spec_decimal_bytes(n / 10).push((48 + n % 10) as u8));
        }
    }
}

/// The decimal form of a number, as a byte vector.
fn u64_decimal_bytes(n: u64) -> (r: Vec<u8>)
    ensures
        r@ == spec_decimal_bytes(n as nat),
{
    if n == 0 {
        let mut v: Vec<u8> = Vec::new();
        v.push(48);
        proof {
            assert(v@ =~= spec_decimal_bytes(0));
        }
        return v;
    }
    let mut rev: Vec<u8> = Vec::new();
    let mut m = n;
    proof {
        assert(rev@.reverse() =~= Seq::<u8>::empty());
        assert(spec_digits_bytes(n as nat) =~= spec_digits_bytes(n as nat) + rev@.reverse());
    }
    while m > 0
        invariant
            spec_digits_bytes(n as nat) == spec_digits_bytes(m as nat) + rev@.reverse(),
        decreases m,
    {
        let ghost rev_before = rev@;
        let digit = (m % 10) as u8 + 48;
        rev.push(digit);
        proof {
            assert(spec_digits_bytes(m as nat) == spec_digits_bytes((m as nat) / 10).push(digit));
            assert(rev@.reverse() =~= seq![digit] + rev_before.reverse());
            assert(spec_digits_bytes((m as nat) / 10).push(digit) + rev_before.reverse()
                =~= spec_digits_bytes((m as nat) / 10) + rev@.reverse());
            assert((m / 10) as nat == (m as nat) / 10);
        }
        m = m / 10;
    }
    proof {
        assert(spec_digits_bytes(0) =~= Seq::<u8>::empty());
        assert(spec_digits_bytes(n as nat) =~= rev@.reverse());
    }
    let mut out: Vec<u8> = Vec::new();
    let mut j: usize = 0;
    while j < rev.len()
        invariant
            0 <= j <= rev@.len(),
            out@ =~= rev@.reverse().subrange(0, j as int),
        decreases rev@.len() - j,
    {
        out.push(rev[rev.len() - 1 - j]);
        proof {
            assert(rev@.reverse()[j as int] == rev@[rev@.len() - 1 - j]);
            assert(out@ =~= rev@.reverse().subrange(0, j + 1));
        }
        j = j + 1;
    }
    proof {
        assert(out@ =~= rev@.reverse());
    }
    out
}

/// Builds a trace identifier from a timestamp and a random suffix: the
/// timestamp in decimal, a dash, and the suffix, so ids sort by creation
/// time for ids of one clock era.
pub fn make_trace_id(ts: i64, suffix: &str) -> (r: String)
    requires
        is_ascii_chars(suffix@),
    ensures
        is_ascii_chars(r@),
        ascii_bytes(r@) == spec_trace_id_bytes(ts as int, ascii_bytes(suffix@)),
        r@.len() == spec_trace_id_bytes(ts as int, ascii_bytes(suffix@)).len(),
{
    let mut bytes: Vec<u8> = Vec::new();
    if ts < 0 {
        bytes.push(45);
    }
    let magnitude: u64 = if ts < 0 {
        (-(ts as i128)) as u64
    } else {
        ts as u64
    };
    let mut digits = u64_decimal_bytes(magnitude);
    proof {
        lemma_decimal_bytes_digits(magnitude as nat);
    }
    bytes.append(&mut digits);
    bytes.push(45);
    let mut suffix_bytes = suffix.as_bytes_vec();
    proof {
        is_ascii_chars_encode_utf8(suffix@);
        is_ascii_chars_nat_bound(suffix@);
        assert(suffix_bytes@ =~= ascii_bytes(suffix@));
        assert(forall|i: int| 0 <= i < suffix_bytes@.len() ==> #[trigger] suffix_bytes@[i] < 128);
    }
    bytes.append(&mut suffix_bytes);
    proof {
        assert(bytes@ =~= spec_trace_id_bytes(ts as int, ascii_bytes(suffix@)));
        assert(forall|i: int| 0 <= i < bytes@.len() ==> #[trigger] bytes@[i] < 128);
    }
    let r = ascii_bytes_to_string(bytes);
    proof {
        assert(ascii_bytes(r@) =~= spec_trace_id_bytes(ts as int, ascii_bytes(suffix@)));
    }
    r
}

/// Generates a human-sortable trace identifier: the current millisecond
/// timestamp, a dash, and `size` (default 16) random characters; the
/// suffix cannot be empty, since the randomness source never returns for
/// a zero draw. The timestamp and the suffix come from the clock and the
/// randomness source, so only the shape is fixed: some clock reading and
/// some ASCII suffix of the requested length, composed exactly as
/// `spec_trace_id_bytes` says.
pub fn gen_id(size: Option<usize>) -> (r: String)
    requires
        size matches Some(n) ==> n >= 1,
    ensures
        exists|ts: i64, suffix: Seq<char>|
            #![auto]
            {
                &&& is_ascii_chars(suffix)
                &&& suffix.len() == (match size {
                    Some(n) => n as int,
                    None => 16int,
                })
                &&& ascii_bytes(r@) == spec_trace_id_bytes(ts as int, ascii_bytes(suffix))
            },
        r@.len() > (match size {
            Some(n) => n as int,
            None => 16int,
        }),
        is_ascii_chars(r@),
{
    let size = match size {
        Some(n) => n,
        None => 16,
    };
    let ts = now_unix_millis();
    let suffix = random_suffix(size);
    let r = make_trace_id(ts, suffix.as_str());
    proof {
        let magnitude: nat = if ts < 0 {
            (-(ts as int)) as nat
        } else {
            ts as nat
        };
        lemma_decimal_bytes_digits(magnitude);
        assert(is_ascii_chars(suffix@) && suffix@.len() == size && ascii_bytes(r@)
            == spec_trace_id_bytes(ts as int, ascii_bytes(suffix@)));
    }
    r
}

} // verus!
