//! The time-based one-time-password second factor.  It is additive: it is
//! keyed by its method type and its owner, not listed in the lookup ledger.
use vstd::prelude::*;
use rand::distributions::Uniform;
use rand::Rng;
use vstd::arithmetic::power2::pow2;
use crate::error::{AuthError, AuthResult};

verus! {

/// Digits of a code.
pub const CODE_LENGTH: usize = 6;
/// Steps of clock skew accepted either side.
pub const CODE_SKEW: u8 = 1;
/// Seconds per step.
pub const CODE_DURATION: u64 = 30;
/// Bytes of a new secret.
pub const SECRET_LENGTH: usize = 128;

/// Whether totp_rs's SHA-1 TOTP accepts `token` at Unix time `time` for the
/// secret and parameters given.
pub uninterp spec fn totp_sha1_accepts(secret: Seq<u8>, digits: usize, skew: u8, step: u64, token: Seq<char>, time: u64) -> bool;

/// Bit `k` of `s`, read most significant bit of each byte first; zero past
/// the end.
pub open spec fn bit_of(s: Seq<u8>, k: int) -> nat {
    if 0 <= k < 8 * s.len() {
        ((s[k / 8] as nat) / pow2((7 - k % 8) as nat)) % 2
    } else {
        0
    }
}

/// The value of the `j`-th group of five bits of `s`.
pub open spec fn base32_digit(s: Seq<u8>, j: int) -> nat {
    16 * bit_of(s, 5 * j) + 8 * bit_of(s, 5 * j + 1) + 4 * bit_of(s, 5 * j + 2)
        + 2 * bit_of(s, 5 * j + 3) + bit_of(s, 5 * j + 4)
}

/// The unpadded RFC 4648 base32 text of `secret`: one letter of the
/// alphabet per five bits, the last group filled with zero bits.
pub open spec fn base32_of(secret: Seq<u8>) -> Seq<char> {
    Seq::new(
        ((8 * secret.len() + 4) / 5) as nat,
        |j: int| "ABCDEFGHIJKLMNOPQRSTUVWXYZ234567"@[base32_digit(secret, j) as int],
    )
}

/// totp_rs builds a TOTP from 6 to 8 digits and a secret of 16 bytes or more.
pub open spec fn totp_params_valid(secret: Seq<u8>, digits: usize) -> bool {
    6 <= digits <= 8 && secret.len() >= 16
}

/// Relies on `rand::thread_rng` sampling
/// `rand::distributions::Uniform::new_inclusive(low, high)`, which draws from
/// the closed range `[low, high]`.
#[verifier::external_body]
fn random_bytes(len: usize, low: u8, high: u8) -> (r: Vec<u8>)
    requires
        low <= high,
    ensures
        r@.len() == len,
        forall|i: int| 0 <= i < len ==> low <= #[trigger] r@[i] <= high,
{
    rand::thread_rng().sample_iter(Uniform::new_inclusive(low, high)).take(len).collect()
}

/// Relies on `totp_rs::TOTP::new` with SHA-1, which validates the digits and
/// the secret length, and on `TOTP::check`, whose answer depends on its
/// arguments alone.  `check` divides by the step, subtracts the skew from
/// the step count and multiplies back, hence the bounds.
#[verifier::external_body]
fn totp_check(secret: &Vec<u8>, digits: usize, skew: u8, step: u64, token: &str, time: u64) -> (r: Option<bool>)
    requires
        step > 0,
        skew <= time / step,
        (time / step + skew as u64) * step <= u64::MAX,
    ensures
        r is Some <==> totp_params_valid(secret@, digits),
        r matches Some(b) ==> b == totp_sha1_accepts(secret@, digits, skew, step, token@, time),
{
    match totp_rs::TOTP::new(totp_rs::Algorithm::SHA1, digits, skew, step, secret.clone(), None, String::new()) {
        Ok(t) => Some(t.check(token, time)),
        Err(_) => None,
    }
}

/// Relies on `totp_rs::TOTP::new`, as above, and on
/// `TOTP::get_secret_base32`, which writes the secret with base32's
/// unpadded RFC 4648 alphabet.
#[verifier::external_body]
fn totp_secret_base32(secret: &Vec<u8>, digits: usize, skew: u8, step: u64) -> (r: Option<String>)
    ensures
        r is Some <==> totp_params_valid(secret@, digits),
        r matches Some(s) ==> s@ == base32_of(secret@),
{
    match totp_rs::TOTP::new(totp_rs::Algorithm::SHA1, digits, skew, step, secret.clone(), None, String::new()) {
        Ok(t) => Some(t.get_secret_base32()),
        Err(_) => None,
    }
}

/// Relies on `jsonwebtoken::get_current_timestamp`: the current Unix time in
/// seconds.
#[verifier::external_body]
fn unix_time() -> (r: u64) {
    jsonwebtoken::get_current_timestamp()
}

/// The kinds of second factor.
#[derive(Debug, Clone, Copy, PartialEq, Eq, Structural)]
pub enum MfaMethodType {
    Totp,
}

impl MfaMethodType {
    pub fn name(&self) -> (r: &'static str)
        ensures
            r@ == "totp"@,
    {
        match self {
            MfaMethodType::Totp => "totp",
        }
    }
}

/// Unix times at which a code can be checked: the skew window must not reach
/// before the epoch or past the largest time.
pub open spec fn checkable_time(time: u64) -> bool {
    CODE_DURATION <= time && time <= u64::MAX - 2 * CODE_DURATION
}

/// A user's TOTP second factor and its secret.
#[derive(Debug)]
pub struct TotpMethod {
    uid: u128,
    secret: Vec<u8>,
}

impl TotpMethod {
    pub closed spec fn owner(&self) -> u128 {
        self.uid
    }

    pub closed spec fn secret_bytes(&self) -> Seq<u8> {
        self.secret@
    }

    /// A new method for `user_id` with a fresh secret of 128 random bytes,
    /// each drawn from the whole byte range.
    pub fn new(user_id: u128) -> (r: TotpMethod)
        ensures
            r.owner() == user_id,
            r.secret_bytes().len() == SECRET_LENGTH,
    {
        let secret = random_bytes(SECRET_LENGTH, u8::MIN, u8::MAX);
        TotpMethod { uid: user_id, secret }
    }

    /// The method of `user_id` with a stored secret.
    pub fn with_secret(user_id: u128, secret: Vec<u8>) -> (r: TotpMethod)
        ensures
            r.owner() == user_id,
            r.secret_bytes() == secret@,
    {
        TotpMethod { uid: user_id, secret }
    }

    /// The method's key: its type and its owner.
    pub fn id(&self) -> (r: (MfaMethodType, u128))
        ensures
            r == (MfaMethodType::Totp, self.owner()),
    {
        (MfaMethodType::Totp, self.uid)
    }

    pub fn method_type(&self) -> (r: MfaMethodType)
        ensures
            r == MfaMethodType::Totp,
    {
        MfaMethodType::Totp
    }

    /// The secret in base32, for enrolment in an authenticator app.
    pub fn get_secret(&self) -> (r: AuthResult<String>)
        ensures
            match r {
                Ok(s) => totp_params_valid(self.secret_bytes(), CODE_LENGTH) && s@ == base32_of(self.secret_bytes()),
                Err(e) => !totp_params_valid(self.secret_bytes(), CODE_LENGTH) && e == AuthError::Invalid,
            },
    {
        match totp_secret_base32(&self.secret, CODE_LENGTH, CODE_SKEW, CODE_DURATION) {
            Some(s) => Ok(s),
            None => Err(AuthError::Invalid),
        }
    }

    /// Checks `token` at Unix time `time`: 6 digits, 30-second steps, one
    /// step of skew either side.  Nothing is recorded.
    pub fn verify_at(&self, token: &str, time: u64) -> (r: AuthResult<bool>)
        ensures
            r == self.verify_at_spec(token@, time),
    {
        if time < CODE_DURATION || time > u64::MAX - 2 * CODE_DURATION {
            return Err(AuthError::Invalid);
        }
        assert((time / CODE_DURATION + CODE_SKEW as u64) * CODE_DURATION <= u64::MAX) by (nonlinear_arith)
            requires
                time <= u64::MAX - 2 * CODE_DURATION,
                CODE_DURATION == 30,
                CODE_SKEW == 1,
        ;
        match totp_check(&self.secret, CODE_LENGTH, CODE_SKEW, CODE_DURATION, token, time) {
            Some(b) => Ok(b),
            None => Err(AuthError::Invalid),
        }
    }

    /// Checks `token` now.
    pub fn verify(&self, token: &str) -> (r: AuthResult<bool>)
        ensures
            exists|time: u64| r == #[trigger] self.verify_at_spec(token@, time),
    {
        let time = unix_time();
        let r = self.verify_at(token, time);
        proof {
            assert(r == self.verify_at_spec(token@, time));
        }
        r
    }

    /// What `verify_at` returns.
    pub open spec fn verify_at_spec(&self, token: Seq<char>, time: u64) -> AuthResult<bool> {
        if !checkable_time(time) || !totp_params_valid(self.secret_bytes(), CODE_LENGTH) {
            Err(AuthError::Invalid)
        } else {
            Ok(totp_sha1_accepts(self.secret_bytes(), CODE_LENGTH, CODE_SKEW, CODE_DURATION, token, time))
        }
    }
}

} // verus!
