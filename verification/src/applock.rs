//! The app-lock configuration and the Argon2id password hashing it relies on.
use vstd::prelude::*;
use vstd::string::StringSliceAdditionalSpecFns;
use crate::text::has_prefix;
use argon2::password_hash::rand_core::OsRng;
use argon2::password_hash::{PasswordHash, PasswordHasher, PasswordVerifier, SaltString};
use argon2::Argon2;

verus! {

/// App-lock configuration. It is persisted on its own, apart from the general
/// settings, so that the password hash never travels with them.
#[derive(Debug, Clone, PartialEq)]
pub struct AppLockConfig {
    pub enabled: bool,
    /// Argon2id PHC string (salt embedded); `None` when the lock is disabled.
    pub password_phc: Option<String>,
    pub biometric_enabled: bool,
    pub lock_on_launch: bool,
    pub lock_on_hide: bool,
    /// Idle auto-lock threshold in seconds; 0 means off.
    pub idle_secs: u32,
}

/// The configuration a fresh install starts with.
pub open spec fn default_config() -> AppLockConfig {
    AppLockConfig {
        enabled: false,
        password_phc: None,
        biometric_enabled: false,
        lock_on_launch: true,
        lock_on_hide: false,
        idle_secs: 0,
    }
}

impl Default for AppLockConfig {
    fn default() -> (r: Self)
        ensures
            r == default_config(),
    {
        AppLockConfig {
            enabled: false,
            password_phc: None,
            biometric_enabled: false,
            lock_on_launch: true,
            lock_on_hide: false,
            idle_secs: 0,
        }
    }
}

impl AppLockConfig {
    /// The lock really locks only when it is enabled and a password hash exists.
    pub open spec fn lock_active(&self) -> bool {
        self.enabled && self.password_phc is Some
    }

    /// Whether the lock is truly active: enabled AND a password exists. A bare
    /// `enabled` with no hash can never lock the user out.
    pub fn is_active(&self) -> (r: bool)
        ensures
            r == self.lock_active(),
            r == (self.enabled && self.password_phc is Some),
    {
        self.enabled && self.password_phc.is_some()
    }
}

/// The start of every PHC string that `Argon2::default()` writes: algorithm
/// Argon2id, version 0x13, and the default parameters m=19456, t=2, p=1.
pub open spec fn argon2id_default_prefix() -> Seq<char> {
    "$argon2id$v=19$m=19456,t=2,p=1$"@
}

/// A character of the unpadded standard Base64 alphabet.
pub open spec fn is_b64_char(c: char) -> bool {
    ('A' <= c && c <= 'Z') || ('a' <= c && c <= 'z') || ('0' <= c && c <= '9') || c == '+' || c == '/'
}

/// The unpadded Base64 encoding of 16 bytes: 22 characters of the alphabet whose
/// last one carries no stray low bits (it is one of 'A', 'Q', 'g', 'w').
pub open spec fn is_encoded_salt(s: Seq<char>) -> bool {
    &&& s.len() == 22
    &&& forall|i: int| 0 <= i < s.len() ==> is_b64_char(#[trigger] s[i])
    &&& (s.last() == 'A' || s.last() == 'Q' || s.last() == 'g' || s.last() == 'w')
}

/// A `Result` of strings, seen through the views of its strings.
pub open spec fn result_view(r: Result<String, String>) -> Result<Seq<char>, Seq<char>> {
    match r {
        Ok(s) => Ok(s@),
        Err(e) => Err(e@),
    }
}

/// What `Argon2::default().hash_password` yields for a password and a B64 salt,
/// rendered as a PHC string, or the error message.
pub uninterp spec fn argon2id_phc(password: Seq<char>, salt: Seq<char>) -> Result<Seq<char>, Seq<char>>;

/// Whether `Argon2::default().verify_password` accepts a password against a
/// PHC string that `PasswordHash::new` parses.
pub uninterp spec fn argon2_verifies(password: Seq<char>, phc: Seq<char>) -> bool;

/// Calls `SaltString::generate(&mut OsRng)` of the password-hash crate: 16
/// random bytes encoded as unpadded standard Base64, hence 22 characters of that
/// alphabet in canonical form. Which characters come out is left open: they come
/// from the operating system's RNG.
#[verifier::external_body]
fn random_salt() -> (r: String)
    ensures
        is_encoded_salt(r@),
{
    SaltString::generate(&mut OsRng).as_str().to_string()
}

/// Calls `SaltString::from_b64` on `salt` and then `Argon2::default().hash_password`
/// on the password's bytes (Argon2id, version 0x13, default parameters), rendering
/// the hash in PHC form and any error by its message. The contract claims:
/// the result is a function of the password and the salt; a salt that is the
/// encoding of 16 bytes and a password of at most 2^32 - 1 bytes always hash
/// (`Salt::from_b64`, base64ct's decoding and `verify_inputs` accept them); the
/// PHC string written is `$argon2id$v=19$m=19456,t=2,p=1$<salt>$<hash>`; and
/// `verify_password` with the same password accepts it.
#[verifier::external_body]
fn argon2id_hash(password: &str, salt: &str) -> (r: Result<String, String>)
    ensures
        result_view(r) == argon2id_phc(password@, salt@),
        is_encoded_salt(salt@) && password.spec_bytes().len() <= 0xffff_ffff ==> r is Ok,
        r matches Ok(phc) ==> argon2_verifies(password@, phc@),
        r matches Ok(phc) ==> has_prefix(phc@, argon2id_default_prefix() + salt@ + seq!['$']),
{
    let salt = SaltString::from_b64(salt).map_err(|e| e.to_string())?;
    Argon2::default()
        .hash_password(password.as_bytes(), &salt)
        .map(|h| h.to_string())
        .map_err(|e| e.to_string())
}

/// Calls `PasswordHash::new(phc)` and, when it parses, `Argon2::default().verify_password`;
/// true only when both succeed. `PasswordHash::new` refuses an empty string and one
/// whose first character is not `$`, which the second clause states.
#[verifier::external_body]
fn argon2_verify(password: &str, phc: &str) -> (r: bool)
    ensures
        r == argon2_verifies(password@, phc@),
        !(phc@.len() > 0 && phc@[0] == '$') ==> !r,
{
    match PasswordHash::new(phc) {
        Ok(parsed) => Argon2::default().verify_password(password.as_bytes(), &parsed).is_ok(),
        Err(_) => false,
    }
}

/// Hash a passcode with a given B64 salt into an Argon2id PHC string that embeds
/// the salt.
pub fn hash_password_with_salt(password: &str, salt: &str) -> (r: Result<String, String>)
    ensures
        result_view(r) == argon2id_phc(password@, salt@),
        is_encoded_salt(salt@) && password.spec_bytes().len() <= 0xffff_ffff ==> r is Ok,
        r matches Ok(phc) ==> argon2_verifies(password@, phc@)
            && has_prefix(phc@, argon2id_default_prefix() + salt@ + seq!['$']),
{
    argon2id_hash(password, salt)
}

/// Hash a passcode into an Argon2id PHC string (version 0x13, default parameters)
/// with a fresh random salt, which the returned string embeds. It succeeds for
/// every passcode of at most 2^32 - 1 bytes, and the hash verifies against the
/// same passcode.
pub fn hash_password(password: &str) -> (r: Result<String, String>)
    ensures
        exists|salt: Seq<char>|
            is_encoded_salt(salt) && #[trigger] argon2id_phc(password@, salt) == result_view(r)
                && (r matches Ok(phc) ==> has_prefix(phc@, argon2id_default_prefix() + salt + seq!['$'])),
        password.spec_bytes().len() <= 0xffff_ffff ==> r is Ok,
        r matches Ok(phc) ==> argon2_verifies(password@, phc@),
{
    let salt = random_salt();
    let r = hash_password_with_salt(password, salt.as_str());
    assert(argon2id_phc(password@, salt@) == result_view(r));
    r
}

/// Verify a passcode against a stored PHC string. False on any parse or verify error.
pub fn verify_password(password: &str, phc: &str) -> (r: bool)
    ensures
        r == argon2_verifies(password@, phc@),
        !(phc@.len() > 0 && phc@[0] == '$') ==> !r,
{
    argon2_verify(password, phc)
}

} // verus!
