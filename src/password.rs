use vstd::prelude::*;
use argon2::password_hash::rand_core::OsRng;
use argon2::password_hash::{PasswordHash, PasswordHasher, PasswordVerifier, SaltString};
use argon2::{Algorithm, Argon2, Params, Version};
use unicode_segmentation::UnicodeSegmentation;
use crate::domain_error::DomainError;

verus! {

#[verifier::external_type_specification]
#[verifier::external_body]
pub struct ExPasswordHash<'a>(PasswordHash<'a>);

#[verifier::external_type_specification]
#[verifier::external_body]
pub struct ExPasswordHashError(argon2::password_hash::Error);

pub const PASSWORD_MIN_LENGTH: usize = 8;

pub const PASSWORD_MAX_LENGTH: usize = 255;

/// The number of extended grapheme clusters (user-perceived characters) of a
/// text.
pub uninterp spec fn grapheme_count(s: Seq<char>) -> nat;

/// Whether a text is a password hash in the PHC string format.
pub uninterp spec fn phc_well_formed(s: Seq<char>) -> bool;

/// Whether `password` verifies against the PHC string `phc` under Argon2,
/// with the algorithm, version, parameters and salt that `phc` records;
/// false where `phc` does not parse.
pub uninterp spec fn argon2_accepts(password: Seq<char>, phc: Seq<char>) -> bool;

/// The start of every hash this library makes: Argon2id, version 0x13 (19),
/// memory 19456 KiB, two passes, one lane; salt and digest follow.
pub open spec fn argon2id_profile_prefix() -> Seq<char> {
    "$argon2id$v=19$m=19456,t=2,p=1$"@
}

/// The longest password, in characters, whose UTF-8 encoding surely fits
/// Argon2's limit of 2^32 - 1 bytes (at most four bytes a character).
pub open spec fn argon2_char_limit() -> nat {
    1073741823
}

/// Relies on UnicodeSegmentation::graphemes (extended clusters): the number
/// of clusters depends on the text alone, and an empty text has none.
#[verifier::external_body]
fn count_graphemes(s: &str) -> (r: usize)
    ensures
        r as nat == grapheme_count(s@),
        s@.len() == 0 ==> r == 0,
{
    s.graphemes(true).count()
}

/// Relies on SaltString::generate with the operating system's generator (a
/// fresh 16-byte salt on each call), on Argon2::hash_password with Argon2id,
/// version 0x13 and the default parameters, and on PasswordHash's Display.
/// Argon2 fails only on a password over 2^32 - 1 bytes or a salt under 8
/// bytes. The result is a PHC string: PasswordHash's Display writes the
/// algorithm, the version, the parameters m, t, p of Params::DEFAULT, then
/// salt and digest, so it starts with the fixed profile, parses back, and
/// verifies the password.
#[verifier::external_body]
fn argon2id_hash_fresh(password: &str) -> (r: Result<String, argon2::password_hash::Error>)
    ensures
        password@.len() <= argon2_char_limit() ==> r is Ok,
        r matches Ok(h) ==> phc_well_formed(h@) && argon2_accepts(password@, h@),
        r matches Ok(h) ==> h@.len() >= 31 && h@.subrange(0, 31) == argon2id_profile_prefix(),
{
    let salt = SaltString::generate(&mut OsRng);
    let argon2 = Argon2::new(Algorithm::Argon2id, Version::V0x13, Params::DEFAULT);
    argon2.hash_password(password.as_bytes(), &salt).map(|h| h.to_string())
}

/// Relies on PasswordHash::new: parses a hash in the PHC string format; the
/// outcome depends on the text alone.
#[verifier::external_body]
fn parse_password_hash(s: &str) -> (r: Result<PasswordHash<'_>, argon2::password_hash::Error>)
    ensures
        r is Ok <==> phc_well_formed(s@),
{
    PasswordHash::new(s)
}

/// Relies on PasswordHash::new and PasswordVerifier::verify_password of
/// Argon2 with default settings: whether the password hashes, with the
/// algorithm, parameters and salt recorded in the hash, to the recorded
/// digest; false where the hash does not parse.
#[verifier::external_body]
fn argon2_verify(password: &str, stored: &str) -> (r: bool)
    ensures
        r == argon2_accepts(password@, stored@),
{
    match PasswordHash::new(stored) {
        Ok(hash) => Argon2::default().verify_password(password.as_bytes(), &hash).is_ok(),
        Err(_) => false,
    }
}

pub open spec fn too_short_message() -> Seq<char> {
    "password must be at least 8 characters long."@
}

pub open spec fn too_long_message() -> Seq<char> {
    "password must be at most 255 characters long."@
}

/// Checks a password length, in grapheme clusters, against the bounds
/// [8, 255]; the error names the bound that was violated.
pub fn check_password_length(length: usize) -> (r: Result<(), DomainError>)
    ensures
        r is Ok <==> PASSWORD_MIN_LENGTH <= length <= PASSWORD_MAX_LENGTH,
        length < PASSWORD_MIN_LENGTH ==> (r matches Err(DomainError::UserValidationError(m))
            && m@ == too_short_message()),
        length > PASSWORD_MAX_LENGTH ==> (r matches Err(DomainError::UserValidationError(m))
            && m@ == too_long_message()),
{
    if length < PASSWORD_MIN_LENGTH {
        let m = String::from_str("password must be at least 8 characters long.");
        Err(DomainError::UserValidationError(m))
    } else if length > PASSWORD_MAX_LENGTH {
        let m = String::from_str("password must be at most 255 characters long.");
        Err(DomainError::UserValidationError(m))
    } else {
        Ok(())
    }
}

/// A validated password: between 8 and 255 grapheme clusters long. It has
/// no `Debug`, so that it cannot end up in a log.
#[derive(Clone)]
pub struct Password {
    value: String,
}

impl View for Password {
    type V = Seq<char>;

    closed spec fn view(&self) -> Seq<char> {
        self.value@
    }
}

impl Password {
    /// Validates a candidate password by its length in grapheme clusters.
    pub fn parse(s: String) -> (r: Result<Password, DomainError>)
        ensures
            r is Ok <==> PASSWORD_MIN_LENGTH <= grapheme_count(s@) <= PASSWORD_MAX_LENGTH,
            r matches Ok(p) ==> p@ == s@,
            grapheme_count(s@) < PASSWORD_MIN_LENGTH ==> (r matches Err(
                DomainError::UserValidationError(m),
            ) && m@ == too_short_message()),
            grapheme_count(s@) > PASSWORD_MAX_LENGTH ==> (r matches Err(
                DomainError::UserValidationError(m),
            ) && m@ == too_long_message()),
    {
        let length = count_graphemes(s.as_str());
        match check_password_length(length) {
            Ok(()) => Ok(Password { value: s }),
            Err(e) => Err(e),
        }
    }

    /// The password itself, for the hashing primitive only.
    pub fn expose_password(&self) -> (r: &str)
        ensures
            r@ == self@,
    {
        self.value.as_str()
    }

    /// Hashes the password with Argon2id under a fresh random salt; the result
    /// is a self-describing PHC string.
    pub fn hash_password(&self) -> (r: Result<String, DomainError>)
        ensures
            self@.len() <= argon2_char_limit() ==> r is Ok,
            r matches Ok(h) ==> phc_well_formed(h@) && argon2_accepts(self@, h@),
            r matches Ok(h) ==> h@.len() >= 31 && h@.subrange(0, 31) == argon2id_profile_prefix(),
            r matches Err(e) ==> e is UnexpectedError,
    {
        match argon2id_hash_fresh(self.value.as_str()) {
            Ok(h) => Ok(h),
            Err(_) => Err(DomainError::UnexpectedError(String::from_str("Failed to hash the password"))),
        }
    }
}

/// Whether `given` matches the stored hash. A stored hash that is not a PHC
/// string is a fault (`UnexpectedError`); a wrong password is `Ok(false)`.
pub fn identical_passwords(stored: &str, given: &str) -> (r: Result<bool, DomainError>)
    ensures
        r is Ok <==> phc_well_formed(stored@),
        r matches Ok(b) ==> b == argon2_accepts(given@, stored@),
        r matches Err(e) ==> e is UnexpectedError,
{
    match parse_password_hash(stored) {
        Ok(_) => Ok(argon2_verify(given, stored)),
        Err(_) => Err(
            DomainError::UnexpectedError(
                String::from_str("Failed to parse hash in PHC string format"),
            ),
        ),
    }
}

/// The outcome of an admin login from the outcome of the password check: a
/// match lets the admin in, a mismatch is an authentication failure, a fault
/// stays a fault.
pub fn admin_login_outcome(check: Result<bool, DomainError>) -> (r: Result<(), DomainError>)
    ensures
        check matches Ok(correct) ==> if correct {
            r is Ok
        } else {
            r == Err::<(), DomainError>(DomainError::AdminAuthError)
        },
        check matches Err(e) ==> r == Err::<(), DomainError>(e),
{
    match check {
        Ok(true) => Ok(()),
        Ok(false) => Err(DomainError::AdminAuthError),
        Err(e) => Err(e),
    }
}

/// Checks a candidate admin password against the stored hash.
pub fn validate_admin_credentials(stored: &str, candidate: &str) -> (r: Result<(), DomainError>)
    ensures
        !phc_well_formed(stored@) ==> (r matches Err(e) && e is UnexpectedError),
        phc_well_formed(stored@) ==> (r is Ok <==> argon2_accepts(candidate@, stored@)),
        phc_well_formed(stored@) && !argon2_accepts(candidate@, stored@) ==> r == Err::<
            (),
            DomainError,
        >(DomainError::AdminAuthError),
{
    admin_login_outcome(identical_passwords(stored, candidate))
}

} // verus!

