//! Webhook body signatures: hex-encoded HMAC-SHA256 digests.
//!
//! Hex decoding is implemented and proved here; the MAC itself is
//! computed by the `hmac`/`sha2` crates behind one trusted wrapper
//! whose contract names the digest [`spec_hmac_sha256`].

use vstd::prelude::*;
use vstd::string::*;

use hmac::KeyInit;
use hmac::Mac;

verus! {

/// The value of an ASCII hex digit byte, if it is one.
pub open spec fn spec_hex_digit_value(b: u8) -> Option<u8> {
    if 48 <= b <= 57 {
        Some((b - 48) as u8)
    } else if 97 <= b <= 102 {
        Some((b - 97 + 10) as u8)
    } else if 65 <= b <= 70 {
        Some((b - 65 + 10) as u8)
    } else {
        None
    }
}

/// Hex decoding: defined exactly for even-length strings of hex
/// digits, two digits to a byte, high nibble first.
pub open spec fn spec_hex_decode(s: Seq<u8>) -> Option<Seq<u8>>
    decreases s.len(),
{
    if s.len() == 0 {
        Some(Seq::empty())
    } else if s.len() == 1 {
        None
    } else {
        match (spec_hex_digit_value(s[0]), spec_hex_digit_value(s[1]), spec_hex_decode(s.skip(2))) {
            (Some(hi), Some(lo), Some(rest)) => Some(seq![(hi * 16 + lo) as u8] + rest),
            _ => None,
        }
    }
}

/// Joins decoded leading bytes with the decoding of the remainder.
pub open spec fn spec_decode_combine(done: Seq<u8>, rest: Option<Seq<u8>>) -> Option<Seq<u8>> {
    match rest {
        Some(r) => Some(done + r),
        None => None,
    }
}

/// The value of an ASCII hex digit byte, if it is one.
fn hex_digit_value(b: u8) -> (r: Option<u8>)
    ensures
        r == spec_hex_digit_value(b),
        r matches Some(v) ==> v < 16,
{
    if 48 <= b && b <= 57 {
        Some(b - 48)
    } else if 97 <= b && b <= 102 {
        Some(b - 97 + 10)
    } else if 65 <= b && b <= 70 {
        Some(b - 65 + 10)
    } else {
        None
    }
}

/// Decodes a hex byte string, or reports that it is not one.
pub fn hex_decode_bytes(s: &Vec<u8>) -> (r: Option<Vec<u8>>)
    ensures
        match r {
            Some(v) => spec_hex_decode(s@) == Some(v@),
            None => spec_hex_decode(s@) is None,
        },
{
    let n = s.len();
    let mut out: Vec<u8> = Vec::new();
    let mut i: usize = 0;
    proof {
        match spec_hex_decode(s@) {
            Some(r) => {
                assert(Seq::<u8>::empty() + r =~= r);
            },
            None => {},
        }
        assert(s@.skip(0) =~= s@);
    }
    while i < n
        invariant
            i <= n,
            n == s@.len(),
            spec_hex_decode(s@) == spec_decode_combine(out@, spec_hex_decode(s@.skip(i as int))),
        decreases n - i,
    {
        if i + 1 == n {
            return None;
        }
        let ghost prev_out = out@;
        let hi = match hex_digit_value(s[i]) {
            Some(v) => v,
            None => {
                proof {
                    assert(s@.skip(i as int)[0] == s@[i as int]);
                }
                return None;
            },
        };
        let lo = match hex_digit_value(s[i + 1]) {
            Some(v) => v,
            None => {
                proof {
                    assert(s@.skip(i as int)[0] == s@[i as int]);
                    assert(s@.skip(i as int)[1] == s@[i + 1]);
                }
                return None;
            },
        };
        out.push(hi * 16 + lo);
        i += 2;
        proof {
            let prev = s@.skip(i - 2);
            assert(prev[0] == s@[i - 2]);
            assert(prev[1] == s@[i - 1]);
            assert(prev.skip(2) =~= s@.skip(i as int));
            match spec_hex_decode(s@.skip(i as int)) {
                Some(rest) => {
                    assert(prev_out + (seq![(hi * 16 + lo) as u8] + rest) =~= out@ + rest);
                },
                None => {},
            }
        }
    }
    proof {
        assert(s@.skip(n as int) =~= Seq::<u8>::empty());
        assert(out@ + Seq::<u8>::empty() =~= out@);
    }
    Some(out)
}

/// The HMAC-SHA256 digest of `message` under `key`, as the
/// `hmac`/`sha2` crates compute it.  A function of its arguments
/// alone; nothing further is assumed of its value.
pub uninterp spec fn spec_hmac_sha256(key: Seq<u8>, message: Seq<u8>) -> Seq<u8>;

/// Relies on `hmac::Hmac<sha2::Sha256>`: HMAC key setup accepts keys
/// of any length, and `Mac::verify_slice` succeeds exactly when the
/// candidate tag equals the digest of the processed input under the
/// key (compared in constant time).
#[verifier::external_body]
fn hmac_sha256_matches(key: &[u8], message: &[u8], candidate: &[u8]) -> (r: bool)
    ensures
        r == (candidate@ == spec_hmac_sha256(key@, message@)),
{
    let mut mac = <hmac::Hmac<sha2::Sha256> as KeyInit>::new_from_slice(key)
        .expect("HMAC accepts keys of any length");
    mac.update(message);
    mac.verify_slice(candidate).is_ok()
}

/// Whether `signature` hex-decodes to the HMAC-SHA256 digest of
/// `body` under `key`.
pub open spec fn spec_signature_valid(signature: Seq<u8>, body: Seq<u8>, key: Seq<u8>) -> bool {
    match spec_hex_decode(signature) {
        Some(d) => d == spec_hmac_sha256(key, body),
        None => false,
    }
}

/// Accepts `signature` exactly when it is the hex-encoded
/// HMAC-SHA256 digest of `body` under `secret`.  A signature that is
/// not even hex is simply not the digest.
pub fn is_valid_signature(signature: &str, body: &[u8], secret: &str) -> (r: bool)
    ensures
        r == spec_signature_valid(signature.spec_bytes(), body@, secret.spec_bytes()),
{
    let sig_bytes = signature.as_bytes_vec();
    match hex_decode_bytes(&sig_bytes) {
        Some(decoded) => hmac_sha256_matches(secret.as_bytes(), body, decoded.as_slice()),
        None => false,
    }
}

} // verus!
