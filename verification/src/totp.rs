//! The time-based one-time-passcode check.
//!
//! A code is accepted when it equals one of the three codes that the
//! HMAC-SHA1, 6-digit, 30-second-step algorithm of RFC 6238 yields for the
//! previous, the current and the next time step. The window is recomputed
//! from the secret and the given wall-clock second on every check; nothing is
//! cached.
use vstd::prelude::*;

verus! {

/// The code that the RFC 6238 algorithm (HMAC-SHA1, 6 decimal digits,
/// 30-second step) yields for a secret and a time-step counter. The algorithm
/// is a fixed cryptographic computation: the same secret and counter give the
/// same code on every machine, which is what lets two parties agree on it.
pub uninterp spec fn totp_sha1_code(secret: Seq<u8>, counter: u64) -> Seq<char>;

/// A string of exactly six decimal digits, the shape of every code.
pub open spec fn is_six_digit_code(s: Seq<char>) -> bool {
    &&& s.len() == 6
    &&& forall|i: int| 0 <= i < s.len() ==> '0' <= #[trigger] s[i] <= '9'
}

/// Relies on `totp_lite::totp_custom::<Sha1>`: with step 30 and 6 digits the
/// result depends on the secret and on `time / 30` alone, and is the code
/// value reduced modulo 10^6 and zero-padded to exactly 6 decimal digits.
#[verifier::external_body]
fn totp_code(secret: &[u8], time: u64) -> (r: String)
    ensures
        r@ == totp_sha1_code(secret@, time / 30),
        is_six_digit_code(r@),
{
    totp_lite::totp_custom::<totp_lite::Sha1>(totp_lite::DEFAULT_STEP, 6, secret, time)
}

/// The views of the strings in a window, oldest first.
pub open spec fn views_of(w: Seq<String>) -> Seq<Seq<char>> {
    w.map_values(|s: String| s@)
}

/// The three currently acceptable codes for a secret at wall-clock second
/// `now`: the codes of time steps `now - 30`, `now` and `now + 30`.
pub open spec fn spec_window(secret: Seq<u8>, now: u64) -> Seq<Seq<char>>
    recommends
        30 <= now <= u64::MAX - 30,
{
    seq![
        totp_sha1_code(secret, (((now - 30) as u64) / 30) as u64),
        totp_sha1_code(secret, now / 30),
        totp_sha1_code(secret, (((now + 30) as u64) / 30) as u64),
    ]
}

/// A code is currently valid when it equals some entry of the window.
pub open spec fn in_window(code: Seq<char>, window: Seq<Seq<char>>) -> bool {
    exists|i: int| 0 <= i < window.len() && window[i] == code
}

/// The three acceptable codes for `secret` at wall-clock second `now`: the
/// codes of time steps `now - 30`, `now` and `now + 30`, in that order. The
/// margin of one step on either side tolerates clock skew and the delay
/// between the write event and the read, at the cost of a roughly 90-second
/// acceptance window per code.
pub fn current_window(secret: &Vec<u8>, now: u64) -> (w: Vec<String>)
    requires
        30 <= now,
        now <= u64::MAX - 30,
    ensures
        w@.len() == 3,
        views_of(w@) == spec_window(secret@, now),
        w@[0]@ == totp_sha1_code(secret@, (((now - 30) as u64) / 30) as u64),
        w@[1]@ == totp_sha1_code(secret@, now / 30),
        w@[2]@ == totp_sha1_code(secret@, (((now + 30) as u64) / 30) as u64),
        forall|i: int| 0 <= i < 3 ==> is_six_digit_code((#[trigger] w@[i])@),
{
    let prev = totp_code(secret.as_slice(), now - 30);
    let curr = totp_code(secret.as_slice(), now);
    let next = totp_code(secret.as_slice(), now + 30);
    let mut w: Vec<String> = Vec::new();
    w.push(prev);
    w.push(curr);
    w.push(next);
    proof {
        assert(views_of(w@) =~= spec_window(secret@, now));
    }
    w
}

/// A plain membership test: true exactly when the candidate equals one of the
/// window's entries. A candidate of the wrong length, with non-digit
/// characters, or carrying a code whose time step lies outside the window,
/// differs from every entry and is rejected.
pub fn is_valid(code: &String, window: &Vec<String>) -> (r: bool)
    ensures
        r == in_window(code@, views_of(window@)),
{
    let mut i: usize = 0;
    while i < window.len()
        invariant
            0 <= i <= window@.len(),
            forall|j: int| 0 <= j < i ==> views_of(window@)[j] != code@,
        decreases window@.len() - i,
    {
        if *code == window[i] {
            proof {
                assert(views_of(window@)[i as int] == code@);
            }
            return true;
        }
        i += 1;
    }
    false
}

} // verus!
