use vstd::prelude::*;
use vstd::string::StringSliceAdditionalSpecFns;

use argon2::password_hash::{PasswordHash, PasswordHasher, PasswordVerifier, Salt, SaltString};
use argon2::Argon2;

verus! {

/// The PHC string that `Argon2::default()` produces for `password` with the B64 salt
/// `salt`, or `None` when the hasher refuses the inputs.
pub uninterp spec fn argon2_phc_hash(password: Seq<u8>, salt: Seq<char>) -> Option<Seq<char>>;

/// Whether `Argon2::default()` accepts `password` against the PHC string `phc`.
pub uninterp spec fn argon2_phc_verifies(password: Seq<u8>, phc: Seq<char>) -> bool;

/// A character of the standard Base64 alphabet: `A-Z`, `a-z`, `0-9`, `+`, `/`.
pub open spec fn is_b64_char(c: char) -> bool {
    ('A' <= c <= 'Z') || ('a' <= c <= 'z') || ('0' <= c <= '9') || c == '+' || c == '/'
}

/// The shape of every salt `SaltString::generate` makes: 16 bytes in unpadded standard
/// Base64, so 22 characters of the alphabet, the last of which carries only two bits
/// (`A`, `Q`, `g` or `w`).
pub open spec fn generated_salt_shape(s: Seq<char>) -> bool {
    &&& s.len() == 22
    &&& forall|i: int| 0 <= i < 22 ==> is_b64_char(#[trigger] s[i])
    &&& (s[21] == 'A' || s[21] == 'Q' || s[21] == 'g' || s[21] == 'w')
}

/// The longest password, in bytes, that Argon2 accepts (`MAX_PWD_LEN`).
pub open spec fn max_password_len() -> int {
    0xffff_ffff
}

/// `SaltString::generate` with the operating system's random source (`rand_core::OsRng`),
/// as text. Which salt comes out is chance; the contract states only the shape that every
/// outcome has (the B64 encoding of `Salt::RECOMMENDED_LENGTH` = 16 bytes).
#[verifier::external_body]
fn random_salt() -> (salt: String)
    ensures
        generated_salt_shape(salt@),
{
    SaltString::generate(&mut rand_core::OsRng).as_str().to_string()
}

/// `PasswordHasher::hash_password` of `Argon2::default()`, on the salt given as B64 text
/// (read with `Salt::from_b64`), rendered as a PHC string. The result is named by
/// `argon2_phc_hash`; `None` stands for an error of either call. As the source shows, the
/// salt text passes `Salt::from_b64` (4 to 64 characters of the B64 alphabet) and decodes
/// to at least 8 bytes when it has the generated shape, and a password of at most
/// `MAX_PWD_LEN` bytes passes `verify_inputs`; then hashing succeeds.
#[verifier::external_body]
fn argon2_hash(password: &[u8], salt: &str) -> (res: Option<String>)
    ensures
        res is Some <==> argon2_phc_hash(password@, salt@) is Some,
        res matches Some(h) ==> argon2_phc_hash(password@, salt@) == Some(h@),
        password@.len() <= max_password_len() && generated_salt_shape(salt@) ==> res is Some,
{
    match Salt::from_b64(salt) {
        Ok(s) => match Argon2::default().hash_password(password, s) {
            Ok(h) => Some(h.to_string()),
            Err(_) => None,
        },
        Err(_) => None,
    }
}

/// `PasswordVerifier::verify_password` of `Argon2::default()` on the PHC string `phc`
/// (read with `PasswordHash::new`); `false` stands for an error of either call.
/// The result is named by `argon2_phc_verifies`. Besides, the contract claims what the
/// source shows: verifying recomputes the hash with the algorithm, version, parameters
/// and salt written in `phc` and compares outputs, so a PHC string that
/// `Argon2::default()` produced for this very password is accepted.
#[verifier::external_body]
fn argon2_verify(password: &[u8], phc: &str) -> (ok: bool)
    ensures
        ok == argon2_phc_verifies(password@, phc@),
        (exists|salt: Seq<char>| argon2_phc_hash(password@, salt) == Some(phc@)) ==> ok,
{
    match PasswordHash::new(phc) {
        Ok(h) => Argon2::default().verify_password(password, &h).is_ok(),
        Err(_) => false,
    }
}

/// Why a password could not be turned into a stored hash.
#[derive(Debug, Clone, Copy, PartialEq, Eq, Structural)]
pub enum PasswordError {
    /// The hasher refused the password or the salt.
    HashFailed,
    /// The fresh hash did not verify against the password it was made from.
    VerifyFailed,
}

/// Hashes `password` with Argon2 (default parameters) and the B64 salt `salt`, and checks
/// that the result verifies against the password before handing it out.
pub fn hash_password_with_salt(password: &str, salt: &str) -> (res: Result<String, PasswordError>)
    ensures
        argon2_phc_hash(password.spec_bytes(), salt@) is None ==> res == Err::<String, PasswordError>(
            PasswordError::HashFailed,
        ),
        argon2_phc_hash(password.spec_bytes(), salt@) matches Some(h) ==> (res matches Ok(r) && r@
            == h),
        res matches Ok(r) ==> argon2_phc_verifies(password.spec_bytes(), r@),
        password.spec_bytes().len() <= max_password_len() && generated_salt_shape(salt@) ==> res is Ok,
{
    let pw = password.as_bytes();
    match argon2_hash(pw, salt) {
        None => Err(PasswordError::HashFailed),
        Some(h) => {
            if argon2_verify(pw, h.as_str()) {
                Ok(h)
            } else {
                Err(PasswordError::VerifyFailed)
            }
        },
    }
}

/// Hashes a new account's password with Argon2 (default parameters) and a fresh random
/// salt, and checks that the hash verifies against the password.
pub fn hash_account_password(password: &str) -> (res: Result<String, PasswordError>)
    ensures
        res matches Ok(h) ==> argon2_phc_verifies(password.spec_bytes(), h@),
        res matches Ok(h) ==> exists|salt: Seq<char>|
            generated_salt_shape(salt) && argon2_phc_hash(password.spec_bytes(), salt) == Some(
                h@,
            ),
        res is Err ==> res == Err::<String, PasswordError>(PasswordError::HashFailed),
        password.spec_bytes().len() <= max_password_len() ==> res is Ok,
{
    let salt = random_salt();
    let res = hash_password_with_salt(password, salt.as_str());
    proof {
        if res is Ok {
            assert(argon2_phc_hash(password.spec_bytes(), salt@) == Some(res->Ok_0@));
        }
    }
    res
}

} // verus!
