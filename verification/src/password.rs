use vstd::prelude::*;

use scrypt::password_hash::rand_core::OsRng;
use scrypt::password_hash::{PasswordHash, PasswordHasher, PasswordVerifier, Salt, SaltString};
use scrypt::Scrypt;

verus! {

/// The PHC string that `Scrypt.hash_password` (with its default parameters)
/// produces for `password` and the B64 salt `salt`, or `None` where it fails.
pub uninterp spec fn scrypt_phc_string(password: Seq<char>, salt: Seq<char>) -> Option<Seq<char>>;

/// Whether `PasswordHash::new` accepts `hash` as a PHC string.
pub uninterp spec fn phc_parses(hash: Seq<char>) -> bool;

/// Whether `Scrypt.verify_password` accepts `password` against the PHC string `hash`.
pub uninterp spec fn scrypt_accepts(password: Seq<char>, hash: Seq<char>) -> bool;

/// A character of the B64 alphabet (standard Base64 without padding).
pub open spec fn is_b64_char(c: char) -> bool {
    ||| 'A' <= c && c <= 'Z'
    ||| 'a' <= c && c <= 'z'
    ||| '0' <= c && c <= '9'
    ||| c == '+'
    ||| c == '/'
}

/// The B64 text of 16 bytes: 22 characters of the alphabet whose last one
/// carries only the two final bits.
pub open spec fn is_b64_of_16_bytes(s: Seq<char>) -> bool {
    &&& s.len() == 22
    &&& forall|i: int| 0 <= i < s.len() ==> is_b64_char(#[trigger] s[i])
    &&& (s[21] == 'A' || s[21] == 'Q' || s[21] == 'g' || s[21] == 'w')
}

/// The start of every PHC string scrypt makes with its default parameters:
/// `$scrypt$ln=17,r=8,p=1$`.
pub open spec fn scrypt_phc_prefix() -> Seq<char> {
    seq!['$', 's', 'c', 'r', 'y', 'p', 't', '$', 'l', 'n', '=', '1', '7', ',', 'r', '=', '8', ',', 'p', '=', '1', '$']
}

/// The shape of the PHC string scrypt makes with its default parameters and
/// the B64 salt `salt`: the prefix, the salt, '$', and the 43 B64 characters of
/// the 32-byte output.
pub open spec fn has_scrypt_phc_form(hash: Seq<char>, salt: Seq<char>) -> bool {
    &&& hash.len() == scrypt_phc_prefix().len() + salt.len() + 1 + 43
    &&& hash.take(22) == scrypt_phc_prefix()
    &&& hash.subrange(22, 22 + salt.len() as int) == salt
    &&& hash[22 + salt.len() as int] == '$'
}

/// `s` is 88 characters long and starts with `$scrypt$ln=17,r=8,p=1$`, as the
/// strings `get_hashed_pwd` returns do.
pub open spec fn looks_like_scrypt_phc(s: Seq<char>) -> bool {
    s.len() == 88 && s.take(22) == scrypt_phc_prefix()
}

/// `hash` is a PHC string that scrypt made from `password` with some 16-byte salt.
pub open spec fn is_scrypt_hash_of(password: Seq<char>, hash: Seq<char>) -> bool {
    exists|salt: Seq<char>|
        is_b64_of_16_bytes(salt) && scrypt_phc_string(password, salt) == Some(hash) && #[trigger] has_scrypt_phc_form(hash, salt)
}

/// Draws a fresh salt with `SaltString::generate` from the operating system's
/// random source.
///
/// Claimed, as the source encodes 16 random bytes (`Salt::RECOMMENDED_LENGTH`)
/// in B64: the salt is the B64 text of 16 bytes. Which bytes is left unsaid.
#[verifier::external_body]
fn generate_salt() -> (salt: String)
    ensures
        is_b64_of_16_bytes(salt@),
{
    SaltString::generate(&mut OsRng).as_str().to_owned()
}

/// Hashes `password` with `Scrypt.hash_password` and the B64 salt `salt`, giving
/// the PHC string.
///
/// Claimed: the result is `scrypt_phc_string(password, salt)`; a salt that is the
/// B64 text of 16 bytes is always accepted (the source checks only the salt's
/// length and alphabet, and its default parameters are valid); a produced
/// string has the form `$scrypt$ln=17,r=8,p=1$<salt>$<43 B64 characters>`
/// (`PasswordHash`'s `Display` writes the algorithm, the parameters `ln`, `r`,
/// `p` of `Params::recommended`, the salt and the 32-byte output); and, as the
/// crate's documentation shows, a produced string parses with
/// `PasswordHash::new` and verifies against the same password.
#[verifier::external_body]
fn scrypt_hash(password: &str, salt: &str) -> (r: Option<String>)
    ensures
        r matches Some(h) ==> scrypt_phc_string(password@, salt@) == Some(h@),
        r is None ==> scrypt_phc_string(password@, salt@) is None,
        is_b64_of_16_bytes(salt@) ==> r is Some,
        r matches Some(h) ==> has_scrypt_phc_form(h@, salt@),
        r matches Some(h) ==> phc_parses(h@) && scrypt_accepts(password@, h@),
{
    let salt = match Salt::from_b64(salt) {
        Ok(s) => s,
        Err(_) => return None,
    };
    match Scrypt.hash_password(password.as_bytes(), salt) {
        Ok(h) => Some(h.to_string()),
        Err(_) => None,
    }
}

/// Tells whether `PasswordHash::new` parses `hash`.
///
/// Claimed: the result is `phc_parses(hash)`.
#[verifier::external_body]
fn phc_hash_parses(hash: &str) -> (r: bool)
    ensures
        r == phc_parses(hash@),
{
    PasswordHash::new(hash).is_ok()
}

/// Checks `password` against a parsable PHC string with `Scrypt.verify_password`.
///
/// Claimed: the result is `scrypt_accepts(password, hash)`.
#[verifier::external_body]
fn scrypt_verify(password: &str, hash: &str) -> (r: bool)
    requires
        phc_parses(hash@),
    ensures
        r == scrypt_accepts(password@, hash@),
{
    match PasswordHash::new(hash) {
        Ok(parsed) => Scrypt.verify_password(password.as_bytes(), &parsed).is_ok(),
        Err(_) => false,
    }
}

/// Hashes a password with scrypt and a fresh random salt, giving a PHC string.
///
/// The result is scrypt's PHC string of the password under some 16-byte salt,
/// of the form `$scrypt$ln=17,r=8,p=1$<salt>$<output>`; it parses and
/// verifies against the same password, and differs from every password that
/// does not itself have that form.
pub fn get_hashed_pwd(pwd: &str) -> (r: String)
    ensures
        is_scrypt_hash_of(pwd@, r@),
        looks_like_scrypt_phc(r@),
        !looks_like_scrypt_phc(pwd@) ==> r@ != pwd@,
        phc_parses(r@),
        scrypt_accepts(pwd@, r@),
{
    let salt = generate_salt();
    match scrypt_hash(pwd, salt.as_str()) {
        Some(h) => {
            assert(h@.take(22) =~= scrypt_phc_prefix());
            h
        },
        None => {
            assert(false);
            String::new()
        },
    }
}

/// Checks a password against a stored PHC string that parses.
pub fn verify_pwd(pwd: &str, pwd_hash: &str) -> (r: bool)
    requires
        phc_parses(pwd_hash@),
    ensures
        r == scrypt_accepts(pwd@, pwd_hash@),
{
    scrypt_verify(pwd, pwd_hash)
}

/// The result of checking `pwd` against the stored string `pwd_hash`.
pub open spec fn password_check(pwd: Seq<char>, pwd_hash: Seq<char>) -> Option<bool> {
    if phc_parses(pwd_hash) {
        Some(scrypt_accepts(pwd, pwd_hash))
    } else {
        None
    }
}

/// Checks a password against a stored PHC string: `None` where the stored
/// string does not parse, otherwise whether the password verifies.
pub fn check_password(pwd: &str, pwd_hash: &str) -> (r: Option<bool>)
    ensures
        r == password_check(pwd@, pwd_hash@),
{
    if phc_hash_parses(pwd_hash) {
        Some(verify_pwd(pwd, pwd_hash))
    } else {
        None
    }
}

/// A password hashed by `get_hashed_pwd` verifies against itself: whatever
/// string `get_hashed_pwd(pwd)` returns, `check_password(pwd, ..)` answers
/// `Some(true)` and `verify_pwd(pwd, ..)` may be called and answers `true`.
pub proof fn lemma_hashed_password_verifies(pwd: Seq<char>, hash: Seq<char>)
    requires
        is_scrypt_hash_of(pwd, hash),
        phc_parses(hash),
        scrypt_accepts(pwd, hash),
    ensures
        password_check(pwd, hash) == Some(true),
{
}

} // verus!
