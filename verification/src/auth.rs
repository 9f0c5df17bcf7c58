//! Authentication rules: password hashing, the brute-force counter, token lifetimes, and the
//! decisions of the login, registration and refresh flows.

use vstd::prelude::*;
use argon2::password_hash::rand_core::OsRng;
use argon2::password_hash::{PasswordHash, PasswordHasher, PasswordVerifier, SaltString};
use argon2::Argon2;
use sha2::{Digest, Sha256};
use vstd::utf8::encode_utf8;
use vstd::string::StringSliceAdditionalSpecFns;
use crate::ids::{hex_fixed, is_lower_hex, lemma_hex_fixed_shape};
use crate::lookup::Lookup;
use crate::roles::UserRole;
use crate::responses::{detailed_error, error_reply, internal_error, internal_error_view, plain_error, ApiError, ApiErrorView};
use crate::text::{chars_of, digits_of, decimal_digits, is_blank, is_blank_str, str_eq, string_of, to_lowercase, trim, trim_vec, unicode_lowercase};

verus! {

/// The error type of the argon2 password-hash API, held without looking inside.
#[verifier::external_type_specification]
#[verifier::external_body]
pub struct ExPasswordHashError(argon2::password_hash::Error);

/// A password that could not be hashed, or that does not match a stored hash.
#[derive(Debug, Clone, Copy, PartialEq, Eq, Structural)]
pub struct PasswordError;

/// Whether Argon2 verification accepts `password` against the stored PHC hash `hash`.
pub uninterp spec fn password_matches(password: Seq<char>, hash: Seq<char>) -> bool;

/// The longest password, in UTF-8 bytes, that argon2 hashes (its `MAX_PWD_LEN`).
pub const ARGON2_MAX_PASSWORD_BYTES: u64 = 0xFFFF_FFFF;

/// Whether argon2 accepts `password` for hashing: its UTF-8 encoding is at most
/// `ARGON2_MAX_PASSWORD_BYTES` long.
pub open spec fn hashable_password(password: Seq<char>) -> bool {
    encode_utf8(password).len() <= ARGON2_MAX_PASSWORD_BYTES
}

/// Calls `Argon2::default().hash_password` (argon2) with a fresh random salt and returns the
/// PHC string. Claimed: with the default parameters and a generated 16-byte salt, the only
/// refusal left in argon2's `hash_password` is `PwdTooLong`, for a password longer than
/// `MAX_PWD_LEN` bytes, so it succeeds exactly on the passwords that `hashable_password`
/// admits; a hash it returns verifies for `password` (verification recomputes the hash with
/// the stored salt and parameters). The salt is random, so nothing else is claimed of the
/// text. Left unsaid: the salt generator panics when the operating system's random source
/// fails, which depends on the machine, not on `password`.
#[verifier::external_body]
fn argon2_hash(password: &str) -> (r: Result<String, argon2::password_hash::Error>)
    ensures
        r is Ok <==> hashable_password(password@),
        r matches Ok(h) ==> password_matches(password@, h@),
{
    let salt = SaltString::generate(&mut OsRng);
    match Argon2::default().hash_password(password.as_bytes(), &salt) {
        Ok(hash) => Ok(hash.to_string()),
        Err(e) => Err(e),
    }
}

/// Calls `PasswordHash::new(hash)` and `Argon2::default().verify_password` (argon2).
/// Claimed: it succeeds exactly when `password` matches `hash`, a function of both alone.
#[verifier::external_body]
fn argon2_verify(password: &str, hash: &str) -> (r: Result<(), argon2::password_hash::Error>)
    ensures
        r is Ok <==> password_matches(password@, hash@),
{
    let parsed = PasswordHash::new(hash)?;
    Argon2::default().verify_password(password.as_bytes(), &parsed)
}

/// The Argon2 hash to store for `password`; only a password too long for argon2 is refused.
pub fn hash_password(password: &str) -> (r: Result<String, PasswordError>)
    ensures
        r is Ok <==> hashable_password(password@),
        r matches Ok(h) ==> password_matches(password@, h@),
{
    match argon2_hash(password) {
        Ok(h) => Ok(h),
        Err(_) => Err(PasswordError),
    }
}

/// Succeeds when `password` matches the stored hash `password_hash`.
pub fn verify_password(password: &str, password_hash: &str) -> (r: Result<(), PasswordError>)
    ensures
        r is Ok <==> password_matches(password@, password_hash@),
{
    match argon2_verify(password, password_hash) {
        Ok(()) => Ok(()),
        Err(_) => Err(PasswordError),
    }
}

/// The SHA-256 digest of `data`.
pub uninterp spec fn sha256_digest(data: Seq<u8>) -> Seq<u8>;

/// Calls `Sha256::digest` (sha2). Claimed: the 32-byte digest of `data`, a function of
/// `data` alone.
#[verifier::external_body]
fn sha256(data: &[u8]) -> (r: Vec<u8>)
    ensures
        r@ == sha256_digest(data@),
        r@.len() == 32,
{
    Sha256::digest(data).to_vec()
}

/// `bytes` in lowercase hexadecimal, two digits per byte (`{:x}` of a digest).
pub open spec fn hex_bytes(bytes: Seq<u8>) -> Seq<char>
    decreases bytes.len(),
{
    if bytes.len() == 0 {
        Seq::empty()
    } else {
        hex_bytes(bytes.drop_last()) + hex_fixed(bytes.last() as nat, 2)
    }
}

/// `bytes` in lowercase hexadecimal.
pub fn hex_of_bytes(bytes: &Vec<u8>) -> (r: String)
    ensures
        r@ == hex_bytes(bytes@),
{
    let mut out: Vec<char> = Vec::new();
    let mut i: usize = 0;
    while i < bytes.len()
        invariant
            i <= bytes.len(),
            out@ == hex_bytes(bytes@.take(i as int)),
        decreases bytes.len() - i,
    {
        let b = bytes[i];
        let hi = b / 16;
        let lo = b % 16;
        let hc = if hi < 10 { (hi + 48) as char } else { (hi + 87) as char };
        let lc = if lo < 10 { (lo + 48) as char } else { (lo + 87) as char };
        assert(bytes@.take(i + 1).drop_last() =~= bytes@.take(i as int));
        assert(hex_fixed(b as nat, 2) =~= seq![hc, lc]) by {
            assert(hc == crate::ids::hex_digit(hi as nat));
            assert(lc == crate::ids::hex_digit(lo as nat));
            assert((b as nat) / 16 % 16 == hi as nat);
            assert(hex_fixed((b as nat) / 16, 1) =~= hex_fixed((b as nat) / 16 / 16, 0).push(
                crate::ids::hex_digit(hi as nat),
            ));
            assert(hex_fixed(b as nat, 2) =~= hex_fixed((b as nat) / 16, 1).push(
                crate::ids::hex_digit(lo as nat),
            ));
        }
        out.push(hc);
        out.push(lc);
        i = i + 1;
        assert(out@ =~= hex_bytes(bytes@.take(i as int)));
    }
    assert(bytes@.take(bytes.len() as int) =~= bytes@);
    string_of(&out)
}

proof fn lemma_hex_bytes_shape(bytes: Seq<u8>)
    ensures
        hex_bytes(bytes).len() == 2 * bytes.len(),
        forall|i: int| 0 <= i < hex_bytes(bytes).len() ==> is_lower_hex(#[trigger] hex_bytes(bytes)[i]),
    decreases bytes.len(),
{
    if bytes.len() > 0 {
        let init = bytes.drop_last();
        lemma_hex_bytes_shape(init);
        lemma_hex_fixed_shape(bytes.last() as nat, 2);
        let h = hex_bytes(bytes);
        assert forall|i: int| 0 <= i < h.len() implies is_lower_hex(#[trigger] h[i]) by {
            if i < hex_bytes(init).len() {
                assert(h[i] == hex_bytes(init)[i]);
            } else {
                assert(h[i] == hex_fixed(bytes.last() as nat, 2)[i - hex_bytes(init).len()]);
            }
        }
    }
}

/// The brute-force counter key of an email: the SHA-256 of the trimmed, lowercased address,
/// in hexadecimal, after a fixed prefix.
pub open spec fn login_attempt_key_of(email: Seq<char>) -> Seq<char> {
    "auth:login-attempts:"@ + hex_bytes(sha256_digest(encode_utf8(unicode_lowercase(trim(email)))))
}

/// The key under which failed logins for `email` are counted.
pub fn login_attempt_key(email: &str) -> (r: String)
    ensures
        r@ == login_attempt_key_of(email@),
        r@.len() == 84,
{
    let trimmed = string_of(&trim_vec(&chars_of(email)));
    let normalized = to_lowercase(trimmed.as_str());
    let digest = sha256(normalized.as_str().as_bytes());
    let mut key = String::from_str("auth:login-attempts:");
    key.append(hex_of_bytes(&digest).as_str());
    proof {
        reveal_strlit("auth:login-attempts:");
        lemma_hex_bytes_shape(digest@);
    }
    key
}

/// Two addresses that differ only in surrounding blanks and letter case share one counter,
/// and a counter key holds no `@`, so no address can be read from it: the key is a fixed
/// prefix followed by lowercase hexadecimal digits.
pub proof fn law_login_attempt_key_hides_the_address(a: Seq<char>, b: Seq<char>)
    ensures
        unicode_lowercase(trim(a)) == unicode_lowercase(trim(b)) ==> login_attempt_key_of(a)
            == login_attempt_key_of(b),
        !login_attempt_key_of(a).contains('@'),
        login_attempt_key_of(a).subrange(0, 20) == "auth:login-attempts:"@,
        forall|i: int|
            20 <= i < login_attempt_key_of(a).len() ==> is_lower_hex(
                #[trigger] login_attempt_key_of(a)[i],
            ),
{
    reveal_strlit("auth:login-attempts:");
    let prefix = "auth:login-attempts:"@;
    let hex = hex_bytes(sha256_digest(encode_utf8(unicode_lowercase(trim(a)))));
    lemma_hex_bytes_shape(sha256_digest(encode_utf8(unicode_lowercase(trim(a)))));
    let key = login_attempt_key_of(a);
    assert(key == prefix + hex);
    assert(key.subrange(0, 20) =~= prefix);
    assert forall|i: int| 20 <= i < key.len() implies is_lower_hex(#[trigger] key[i]) by {
        assert(key[i] == hex[i - 20]);
    }
    if key.contains('@') {
        let j = choose|j: int| 0 <= j < key.len() && key[j] == '@';
        if j < 20 {
            assert(key[j] == prefix[j]);
        } else {
            assert(is_lower_hex(key[j]));
        }
    }
}


/// What reading the failed-login counter gave.
#[derive(Debug, Clone, Copy, PartialEq, Eq, Structural)]
pub enum CounterRead {
    /// No failure is counted.
    Missing,
    /// This many failures are counted.
    Count(u32),
    /// The counter could not be read.
    Unavailable,
}

/// The number of failures that locks an address out: the configured number, at least one.
pub open spec fn attempt_limit(max_login_attempts: u32) -> u32 {
    if max_login_attempts < 1 {
        1
    } else {
        max_login_attempts
    }
}

/// Whether a counter reading refuses logins for now: a readable count at the limit or
/// beyond. An unreadable or missing counter refuses nothing.
pub open spec fn locks_out(counter: CounterRead, max_login_attempts: u32) -> bool {
    match counter {
        CounterRead::Count(attempts) => attempts >= attempt_limit(max_login_attempts),
        _ => false,
    }
}

/// Whether logins for an address are refused for now.
pub fn login_is_rate_limited(counter: CounterRead, max_login_attempts: u32) -> (r: bool)
    ensures
        r == locks_out(counter, max_login_attempts),
{
    let limit = if max_login_attempts < 1 { 1 } else { max_login_attempts };
    match counter {
        CounterRead::Count(attempts) => attempts >= limit,
        _ => false,
    }
}

/// `a * b`, or the largest `u64` where the product does not fit.
fn saturating_product(a: u64, b: u64) -> (r: u64)
    requires
        b > 0,
    ensures
        r == if a * b > u64::MAX { u64::MAX as int } else { a * b },
{
    if a > u64::MAX / b {
        assert(a * b > u64::MAX) by (nonlinear_arith)
            requires
                a > u64::MAX / b,
                b > 0,
        ;
        u64::MAX
    } else {
        assert(a * b <= u64::MAX) by (nonlinear_arith)
            requires
                a <= u64::MAX / b,
                b > 0,
        ;
        a * b
    }
}

/// How long a lockout lasts, in seconds: the configured minutes, at least one, saturating.
pub open spec fn lockout_secs(lockout_duration_minutes: u64) -> u64 {
    let minutes: u64 = if lockout_duration_minutes < 1 { 1 } else { lockout_duration_minutes };
    if minutes * 60 > u64::MAX {
        u64::MAX
    } else {
        (minutes * 60) as u64
    }
}

/// The delay, in seconds, that a locked-out client is told to wait.
pub fn retry_after_seconds(lockout_duration_minutes: u64) -> (r: u64)
    ensures
        r == lockout_secs(lockout_duration_minutes),
{
    let minutes = if lockout_duration_minutes < 1 { 1 } else { lockout_duration_minutes };
    saturating_product(minutes, 60)
}

/// The lifetime, in seconds, given to the failed-login counter: the lockout, capped to the
/// largest signed 64-bit value.
pub fn counter_lifetime_seconds(lockout_duration_minutes: u64) -> (r: i64)
    ensures
        r == if lockout_secs(lockout_duration_minutes) > i64::MAX {
            i64::MAX as int
        } else {
            lockout_secs(lockout_duration_minutes) as int
        },
{
    let secs = retry_after_seconds(lockout_duration_minutes);
    if secs > i64::MAX as u64 {
        i64::MAX
    } else {
        secs as i64
    }
}

/// The answer to a failed login.
#[derive(Debug, Clone, Copy, PartialEq, Eq, Structural)]
pub enum LoginFailure {
    /// 401: the credentials are wrong.
    InvalidCredentials,
    /// 429: too many failures; retry after this many seconds.
    TooManyAttempts { retry_after_seconds: u64 },
}

/// The answer to a failed login, given the count of failures after recording this one.
pub open spec fn failure_answer(attempts: u32, max_login_attempts: u32, lockout_duration_minutes: u64) -> LoginFailure {
    if attempts >= attempt_limit(max_login_attempts) {
        LoginFailure::TooManyAttempts { retry_after_seconds: lockout_secs(lockout_duration_minutes) }
    } else {
        LoginFailure::InvalidCredentials
    }
}

/// The answer to a failed login, given the count of failures after recording this one (0
/// when the counter could not be updated).
pub fn login_failure_outcome(attempts: u32, max_login_attempts: u32, lockout_duration_minutes: u64) -> (r: LoginFailure)
    ensures
        r == failure_answer(attempts, max_login_attempts, lockout_duration_minutes),
{
    let limit = if max_login_attempts < 1 { 1 } else { max_login_attempts };
    if attempts >= limit {
        LoginFailure::TooManyAttempts {
            retry_after_seconds: retry_after_seconds(lockout_duration_minutes),
        }
    } else {
        LoginFailure::InvalidCredentials
    }
}

/// The failure that brings the counter to the limit is answered with 429, exactly when the
/// same count refuses the next login; a larger count stays refused; the limit is the
/// configured number of attempts (at least one); an unreadable or missing counter refuses
/// nothing; and a locked-out client is told to wait at least a minute.
pub proof fn law_lockout_follows_the_counter(
    attempts: u32,
    more: u32,
    max_login_attempts: u32,
    lockout_duration_minutes: u64,
)
    requires
        attempts <= more,
    ensures
        failure_answer(attempts, max_login_attempts, lockout_duration_minutes) is TooManyAttempts
            <==> locks_out(CounterRead::Count(attempts), max_login_attempts),
        locks_out(CounterRead::Count(attempts), max_login_attempts) ==> locks_out(
            CounterRead::Count(more),
            max_login_attempts,
        ),
        locks_out(CounterRead::Count(attempt_limit(max_login_attempts)), max_login_attempts),
        !locks_out(CounterRead::Count((attempt_limit(max_login_attempts) - 1) as u32), max_login_attempts),
        max_login_attempts >= 1 ==> attempt_limit(max_login_attempts) == max_login_attempts,
        !locks_out(CounterRead::Missing, max_login_attempts),
        !locks_out(CounterRead::Unavailable, max_login_attempts),
        lockout_secs(lockout_duration_minutes) >= 60,
{
}

/// The lifetime of an access token, in seconds, as announced to the client.
pub fn expires_in_seconds(jwt_expiration_hours: u64) -> (r: i64)
    ensures
        r == if jwt_expiration_hours * 3600 > i64::MAX {
            i64::MAX as int
        } else {
            jwt_expiration_hours * 3600
        },
{
    let secs = saturating_product(jwt_expiration_hours, 3600);
    if secs > i64::MAX as u64 {
        i64::MAX
    } else {
        secs as i64
    }
}

/// The lifetime of a refresh token, in hours: a day per hour of access-token lifetime,
/// capped to the largest signed 64-bit value.
pub fn refresh_validity_hours(jwt_expiration_hours: u64) -> (r: u64)
    ensures
        r == if jwt_expiration_hours * 24 > i64::MAX {
            i64::MAX as int
        } else {
            jwt_expiration_hours * 24
        },
{
    let hours = saturating_product(jwt_expiration_hours, 24);
    if hours > i64::MAX as u64 {
        i64::MAX as u64
    } else {
        hours
    }
}

/// The largest number of seconds a chrono time delta can hold.
pub const MAX_DELTA_SECONDS: i64 = 9223372036854775i64;

/// Whether a token issued at `now` (Unix seconds) can be given `validity_hours` of life: the
/// delta and the expiry instant must be representable.
pub open spec fn token_window_fits(now: i64, validity_hours: u64) -> bool {
    &&& crate::dates::MIN_UTC_TIMESTAMP <= now <= crate::dates::MAX_UTC_TIMESTAMP
    &&& validity_hours * 3600 <= MAX_DELTA_SECONDS
    &&& now + validity_hours * 3600 <= crate::dates::MAX_UTC_TIMESTAMP
}

/// The issue and expiry instants of a token issued at `now` for `validity_hours`.
pub fn token_window(now: i64, validity_hours: u64) -> (r: (i64, i64))
    requires
        token_window_fits(now, validity_hours),
    ensures
        r.0 == now,
        r.1 == now + validity_hours * 3600,
{
    (now, now + (validity_hours as i64) * 3600)
}

/// The issue and expiry instants of a token issued at `now` for `validity_hours`, when
/// both can be written as dates; `None` otherwise.
pub fn checked_token_window(now: i64, validity_hours: u64) -> (r: Option<(i64, i64)>)
    ensures
        r is Some <==> token_window_fits(now, validity_hours),
        r matches Some(w) ==> w.0 == now && w.1 == now + validity_hours * 3600,
{
    if now < crate::dates::MIN_UTC_TIMESTAMP || now > crate::dates::MAX_UTC_TIMESTAMP {
        return None;
    }
    if validity_hours > (MAX_DELTA_SECONDS as u64) / 3600 {
        return None;
    }
    let delta: i64 = (validity_hours as i64) * 3600;
    if now > crate::dates::MAX_UTC_TIMESTAMP - delta {
        return None;
    }
    Some(token_window(now, validity_hours))
}

/// The token an `Authorization` header carries: the text after `Bearer `, trimmed.
pub open spec fn bearer_token_of(header: Seq<char>) -> Option<Seq<char>> {
    if header.len() >= 7 && header.take(7) == "Bearer "@ {
        Some(trim(header.skip(7)))
    } else {
        None
    }
}

/// The token of an `Authorization` header, if it is a bearer token.
pub fn bearer_token(header: &str) -> (r: Option<String>)
    ensures
        match bearer_token_of(header@) {
            Some(t) => r matches Some(s) && s@ == t,
            None => r is None,
        },
{
    proof {
        reveal_strlit("Bearer ");
    }
    if crate::html::starts_with(header, "Bearer ") {
        let v = chars_of(header);
        let mut rest: Vec<char> = Vec::new();
        let mut i: usize = 7;
        while i < v.len()
            invariant
                7 <= i <= v.len(),
                v@ == header@,
                rest@ == v@.subrange(7, i as int),
            decreases v.len() - i,
        {
            rest.push(v[i]);
            i = i + 1;
            assert(rest@ =~= v@.subrange(7, i as int));
        }
        assert(v@.skip(7) =~= v@.subrange(7, v.len() as int));
        Some(string_of(&trim_vec(&rest)))
    } else {
        None
    }
}

/// Checks that a decoded token is of the expected type.
pub fn check_token_type(token_type: &str, expected_type: &str) -> (r: Result<(), ApiError>)
    ensures
        match r {
            Ok(()) => token_type@ == expected_type@,
            Err(e) => token_type@ != expected_type@ && e@ == plain_error(
                401,
                "Type de token invalide"@,
            ),
        },
{
    if str_eq(token_type, expected_type) {
        Ok(())
    } else {
        Err(error_reply(401, "Type de token invalide"))
    }
}

/// The account a refresh token names, or the answer refusing the token.
pub fn token_subject(parsed_subject: Option<u128>) -> (r: Result<u128, ApiError>)
    ensures
        match parsed_subject {
            Some(id) => r matches Ok(v) && v == id,
            None => r matches Err(e) && e@ == plain_error(401, "Token invalide"@),
        },
{
    match parsed_subject {
        Some(id) => Ok(id),
        None => Err(error_reply(401, "Token invalide")),
    }
}

/// What the login flow learned of the account an email names.
#[derive(Debug, Clone, Copy, PartialEq, Eq, Structural)]
pub struct LoginAccount {
    pub is_active: bool,
    pub totp_enabled: bool,
}

/// The answer that refuses a login, if one does: unknown address (401), unreadable account
/// (500), disabled account (403), wrong password (401), then any account with a second
/// factor (401), which is refused as long as second-factor codes are not checked; in this
/// order.
pub open spec fn login_refusal(account: Lookup<LoginAccount>, password_ok: bool) -> Option<ApiErrorView> {
    match account {
        Lookup::Missing => Some(plain_error(401, "Identifiants invalides"@)),
        Lookup::Failed(_) => Some(
            internal_error_view("Erreur lors de la lecture de l'utilisateur"@),
        ),
        Lookup::Found(a) => if !a.is_active {
            Some(plain_error(403, "Utilisateur désactivé"@))
        } else if !password_ok {
            Some(plain_error(401, "Identifiants invalides"@))
        } else if a.totp_enabled {
            Some(plain_error(401, "Code TOTP requis pour cet utilisateur"@))
        } else {
            None
        },
    }
}

/// Decides whether a login goes on, given what looking up the account of the email gave and
/// whether the password matched.
pub fn check_login(account: Lookup<LoginAccount>, password_ok: bool) -> (r: Result<(), ApiError>)
    ensures
        match login_refusal(account, password_ok) {
            None => r is Ok,
            Some(e) => r matches Err(x) && x@ == e,
        },
{
    match account {
        Lookup::Missing => Err(error_reply(401, "Identifiants invalides")),
        Lookup::Failed(_) => Err(
            internal_error("Erreur lors de la lecture de l'utilisateur"),
        ),
        Lookup::Found(a) => {
            if !a.is_active {
                Err(error_reply(403, "Utilisateur désactivé"))
            } else if !password_ok {
                Err(error_reply(401, "Identifiants invalides"))
            } else if a.totp_enabled {
                Err(error_reply(401, "Code TOTP requis pour cet utilisateur"))
            } else {
                Ok(())
            }
        },
    }
}

/// Whether a refused login counts as a failed attempt against the address: an unknown
/// address, or a wrong password for an active account.
pub open spec fn counts_as_failed_attempt(account: Lookup<LoginAccount>, password_ok: bool) -> bool {
    match account {
        Lookup::Missing => true,
        Lookup::Found(a) => a.is_active && !password_ok,
        Lookup::Failed(_) => false,
    }
}

/// Whether a refused login is recorded on the brute-force counter of the address.
pub fn is_failed_attempt(account: &Lookup<LoginAccount>, password_ok: bool) -> (r: bool)
    ensures
        r == counts_as_failed_attempt(*account, password_ok),
{
    match account {
        Lookup::Missing => true,
        Lookup::Found(a) => a.is_active && !password_ok,
        Lookup::Failed(_) => false,
    }
}

/// A login goes on exactly for an active account without a second factor whose password
/// matched, and the refusals that count against the address answer like a wrong password.
pub proof fn law_login_needs_an_active_account_and_the_password(account: Lookup<LoginAccount>, password_ok: bool)
    ensures
        login_refusal(account, password_ok) is None <==> (account matches Lookup::Found(a)
            && a.is_active && !a.totp_enabled && password_ok),
        counts_as_failed_attempt(account, password_ok) ==> login_refusal(account, password_ok)
            == Some(plain_error(401, "Identifiants invalides"@)),
{
}

/// The producer that a registration attaches the account to, given what looking it up
/// gave: the requested one when it exists, else the oldest producer.
pub open spec fn registration_producer_answer(requested: Option<u128>, lookup: Lookup<u128>) -> Result<u128, ApiErrorView> {
    match (requested, lookup) {
        (Some(id), Lookup::Found(_)) => Ok(id),
        (Some(_), Lookup::Missing) => Err(plain_error(400, "Producteur introuvable"@)),
        (Some(_), Lookup::Failed(_)) => Err(
            internal_error_view("Erreur lors de la vérification du producteur"@),
        ),
        (None, Lookup::Found(oldest)) => Ok(oldest),
        (None, Lookup::Missing) => Err(plain_error(400, "Aucun producteur disponible"@)),
        (None, Lookup::Failed(_)) => Err(
            internal_error_view("Erreur lors de la recherche de producteur"@),
        ),
    }
}

/// The producer a new account belongs to.
pub fn registration_producer(requested: Option<u128>, lookup: Lookup<u128>) -> (r: Result<u128, ApiError>)
    ensures
        match (r, registration_producer_answer(requested, lookup)) {
            (Ok(a), Ok(b)) => a == b,
            (Err(e), Err(v)) => e@ == v,
            _ => false,
        },
{
    match (requested, lookup) {
        (Some(id), Lookup::Found(_)) => Ok(id),
        (Some(_), Lookup::Missing) => Err(error_reply(400, "Producteur introuvable")),
        (Some(_), Lookup::Failed(_)) => Err(
            internal_error("Erreur lors de la vérification du producteur"),
        ),
        (None, Lookup::Found(oldest)) => Ok(oldest),
        (None, Lookup::Missing) => Err(error_reply(400, "Aucun producteur disponible")),
        (None, Lookup::Failed(_)) => Err(
            internal_error("Erreur lors de la recherche de producteur"),
        ),
    }
}

/// Checks that no account uses the email of a registration, given what looking it up gave.
pub fn check_email_free(existing: Lookup<u128>) -> (r: Result<(), ApiError>)
    ensures
        match existing {
            Lookup::Missing => r is Ok,
            Lookup::Found(_) => r matches Err(e) && e@ == plain_error(
                409,
                "Un utilisateur existe déjà avec cet email"@,
            ),
            Lookup::Failed(_) => r matches Err(e) && e@ == internal_error_view("Erreur lors de la vérification email"@),
        },
{
    match existing {
        Lookup::Missing => Ok(()),
        Lookup::Found(_) => Err(email_taken()),
        Lookup::Failed(_) => Err(internal_error("Erreur lors de la vérification email")),
    }
}

/// The account a refresh token renews, given what looking up its subject gave.
pub fn refresh_account<T>(account: Lookup<T>) -> (r: Result<T, ApiError>)
    ensures
        match account {
            Lookup::Found(a) => r matches Ok(b) && b == a,
            Lookup::Missing => r matches Err(e) && e@ == plain_error(401, "Utilisateur introuvable"@),
            Lookup::Failed(_) => r matches Err(e) && e@ == internal_error_view("Erreur lors du refresh token"@),
        },
{
    match account {
        Lookup::Found(a) => Ok(a),
        Lookup::Missing => Err(error_reply(401, "Utilisateur introuvable")),
        Lookup::Failed(_) => Err(internal_error("Erreur lors du refresh token")),
    }
}

/// Lets a refresh token through when its session is still open, given what looking the
/// session up gave: whether it is neither revoked nor expired.
pub fn check_refresh_session(session: Lookup<bool>) -> (r: Result<(), ApiError>)
    ensures
        match session {
            Lookup::Found(open) => if open {
                r is Ok
            } else {
                r matches Err(e) && e@ == plain_error(401, "Token invalide"@)
            },
            Lookup::Missing => r matches Err(e) && e@ == plain_error(401, "Token invalide"@),
            Lookup::Failed(_) => r matches Err(e) && e@ == internal_error_view("Erreur lors du refresh token"@),
        },
{
    match session {
        Lookup::Found(open) => {
            if open {
                Ok(())
            } else {
                Err(error_reply(401, "Token invalide"))
            }
        },
        Lookup::Missing => Err(error_reply(401, "Token invalide")),
        Lookup::Failed(_) => Err(internal_error("Erreur lors du refresh token")),
    }
}

/// The message refusing a password shorter than `min_length` bytes.
pub open spec fn short_password_message(min_length: usize) -> Seq<char> {
    "Le mot de passe doit faire au moins "@ + decimal_digits(min_length as nat) + " caractères"@
}

/// Checks that a registration password has at least `min_length` bytes.
pub fn check_password_length(password: &str, min_length: usize) -> (r: Result<(), ApiError>)
    ensures
        match r {
            Ok(()) => password.spec_bytes().len() >= min_length,
            Err(e) => password.spec_bytes().len() < min_length && e@ == plain_error(
                400,
                short_password_message(min_length),
            ),
        },
{
    if password.as_bytes().len() < min_length {
        let mut message = String::from_str("Le mot de passe doit faire au moins ");
        message.append(string_of(&digits_of(min_length as u64)).as_str());
        message.append(" caractères");
        Err(ApiError { status: 400, error: message, detail: None })
    } else {
        Ok(())
    }
}

/// The registration answer when an account already uses the email.
pub fn email_taken() -> (r: ApiError)
    ensures
        r@ == plain_error(409, "Un utilisateur existe déjà avec cet email"@),
{
    error_reply(409, "Un utilisateur existe déjà avec cet email")
}

/// The fewest characters a bootstrap token needs to open registration.
pub const MIN_BOOTSTRAP_TOKEN_CHARS: usize = 32;

/// Whether `presented` is the `configured` token. Every character of the configured token
/// is compared whatever the first difference, so the time taken does not tell how much of
/// a guess was right.
pub fn tokens_match(configured: &str, presented: &str) -> (r: bool)
    ensures
        r == (configured@ == presented@),
{
    let a = chars_of(configured);
    let b = chars_of(presented);
    let mut same: bool = a.len() == b.len();
    let mut i: usize = 0;
    while i < a.len()
        invariant
            i <= a.len(),
            a@ == configured@,
            b@ == presented@,
            same == (a.len() == b.len() && forall|j: int| 0 <= j < i ==> a@[j] == b@[j]),
        decreases a.len() - i,
    {
        let other: char = if i < b.len() { b[i] } else { a[i] };
        if a[i] != other {
            same = false;
        }
        i = i + 1;
    }
    proof {
        if same {
            assert(a@ =~= b@);
        }
    }
    same
}

/// The answer to a registration when an account already exists.
pub open spec fn registration_closed_error() -> ApiErrorView {
    plain_error(403, "L'inscription publique est désactivée"@)
}

/// The answer to a first registration without the configured bootstrap token.
pub open spec fn bootstrap_refused_error() -> ApiErrorView {
    plain_error(403, "Jeton d'initialisation invalide"@)
}

/// Whether a request presenting `presented` may create the first account: a bootstrap
/// token of at least `MIN_BOOTSTRAP_TOKEN_CHARS` characters is configured, and the request
/// presents exactly that token.
pub open spec fn bootstrap_accepted(configured: Option<&str>, presented: Option<&str>) -> bool {
    match (configured, presented) {
        (Some(c), Some(p)) => c@.len() >= MIN_BOOTSTRAP_TOKEN_CHARS && c@ == p@,
        _ => false,
    }
}

/// The decision on a registration, given whether the service has accounts already:
/// registration is closed once a first account exists (403); the first account needs the
/// configured bootstrap token (403 otherwise), and its role is set here, always
/// administrator, whatever the request asks for.
pub open spec fn registration_role(accounts: Lookup<()>, configured: Option<&str>, presented: Option<&str>) -> Result<UserRole, ApiErrorView> {
    match accounts {
        Lookup::Found(_) => Err(registration_closed_error()),
        Lookup::Failed(_) => Err(internal_error_view("Erreur lors de la vérification des comptes"@)),
        Lookup::Missing => if bootstrap_accepted(configured, presented) {
            Ok(UserRole::Admin)
        } else {
            Err(bootstrap_refused_error())
        },
    }
}

/// Decides whether a registration may go on and which role the new account gets, given what
/// looking for any existing account gave (found when one exists), the configured bootstrap
/// token and the one the request presents.
pub fn registration_decision(accounts: Lookup<()>, configured: Option<&str>, presented: Option<&str>) -> (r: Result<UserRole, ApiError>)
    ensures
        match (r, registration_role(accounts, configured, presented)) {
            (Ok(a), Ok(b)) => a == b,
            (Err(e), Err(v)) => e@ == v,
            _ => false,
        },
{
    match accounts {
        Lookup::Found(_) => Err(error_reply(403, "L'inscription publique est désactivée")),
        Lookup::Failed(_) => Err(internal_error("Erreur lors de la vérification des comptes")),
        Lookup::Missing => {
            let accepted = match (configured, presented) {
                (Some(c), Some(p)) => {
                    let long_enough = chars_of(c).len() >= MIN_BOOTSTRAP_TOKEN_CHARS;
                    let same = tokens_match(c, p);
                    long_enough && same
                },
                _ => false,
            };
            if accepted {
                Ok(UserRole::Admin)
            } else {
                Err(error_reply(403, "Jeton d'initialisation invalide"))
            }
        },
    }
}

/// Registration closes once a first account exists, it needs the configured bootstrap
/// token, and the only account it creates is the administrator: the role never comes from
/// the request.
pub proof fn law_registration_is_closed_after_the_first_account(accounts: Lookup<()>, configured: Option<&str>, presented: Option<&str>)
    ensures
        accounts is Found ==> registration_role(accounts, configured, presented) == Err::<UserRole, ApiErrorView>(
            registration_closed_error(),
        ),
        registration_role(accounts, configured, presented) is Ok ==> accounts is Missing
            && bootstrap_accepted(configured, presented),
        registration_role(accounts, configured, presented) matches Ok(role) ==> role == UserRole::Admin,
        configured is None ==> registration_role(accounts, configured, presented) is Err,
{
}

/// A failing database during login or registration is answered the same whatever caused
/// it, with the neutral detail: the cause stays in the logs.
pub proof fn law_account_failures_hide_their_cause(a: String, b: String, password_ok: bool, requested: Option<u128>, configured: Option<&str>, presented: Option<&str>)
    ensures
        login_refusal(Lookup::Failed(a), password_ok) == login_refusal(Lookup::Failed(b), password_ok),
        login_refusal(Lookup::Failed(a), password_ok) == Some(
            internal_error_view("Erreur lors de la lecture de l'utilisateur"@),
        ),
        registration_producer_answer(requested, Lookup::Failed(a)) == registration_producer_answer(
            requested,
            Lookup::Failed(b),
        ),
        registration_role(Lookup::Failed(a), configured, presented) == registration_role(
            Lookup::Failed(b),
            configured,
            presented,
        ),
{
}

} // verus!
