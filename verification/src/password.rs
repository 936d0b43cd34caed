//! The credential hasher: a salted, computationally expensive one-way
//! derivation of a password digest, and its verification.
//!
//! The derivation itself is PBKDF2 from the `pbkdf2` crate, reached through a
//! few trusted wrappers. What the wrappers return is named by uninterpreted
//! spec functions: the digest is a function of password and salt alone, and
//! verification is a function of password and digest alone, because
//! `verify_password` recomputes the digest from the parameters carried inside
//! the PHC string. The salt-acceptance check, which is only a length and an
//! alphabet, is stated outright rather than named.

use vstd::prelude::*;

verus! {

/// The PHC string that `Pbkdf2::hash_password` derives, as a function of the
/// password and the B64 salt string it was given.
pub uninterp spec fn digest_of(password: Seq<char>, salt: Seq<char>) -> Seq<char>;

/// Whether `Pbkdf2::verify_password` accepts `digest` for `password`.
pub uninterp spec fn password_matches(password: Seq<char>, digest: Seq<char>) -> bool;

/// Whether `PasswordHash::new` parses `digest` as a PHC-format string.
pub uninterp spec fn phc_well_formed(digest: Seq<char>) -> bool;

/// The characters allowed in a salt string: the PHC salt alphabet.
pub open spec fn is_salt_char(c: char) -> bool {
    ||| 0x41 <= c as u32 <= 0x5a  // A-Z
    ||| 0x61 <= c as u32 <= 0x7a  // a-z
    ||| 0x30 <= c as u32 <= 0x39  // 0-9
    ||| c == '/'
    ||| c == '+'
    ||| c == '.'
    ||| c == '-'
}

/// Whether `SaltString::from_b64` accepts `salt` as a salt string: 4 to 64
/// characters, each from the PHC salt alphabet. (Those characters are ASCII,
/// so characters and bytes agree; a string holding any other character is
/// rejected by the character check whatever its byte length.)
pub open spec fn salt_well_formed(salt: Seq<char>) -> bool {
    &&& 4 <= salt.len() <= 64
    &&& forall|i: int| 0 <= i < salt.len() ==> is_salt_char(#[trigger] salt[i])
}

/// Whether `Salt::decode_b64` decodes `salt`: it is strict unpadded Base64,
/// yielding at most 64 bytes. This is stricter than `salt_well_formed` ('.'
/// and '-' pass the salt alphabet but are not Base64), and it is what the
/// key-derivation needs of a salt to succeed.
pub uninterp spec fn salt_hashable(salt: Seq<char>) -> bool;

/// What a successful derivation promises of its digest and salt: the pair is
/// exactly what PBKDF2 yields for this password, both parts parse back, and
/// the digest verifies against the password it came from.
pub open spec fn hash_post(password: Seq<char>, digest: Seq<char>, salt: Seq<char>) -> bool {
    &&& digest == digest_of(password, salt)
    &&& phc_well_formed(digest)
    &&& salt_well_formed(salt)
    &&& password_matches(password, digest)
}

/// What `verify` returns: `None` when digest or salt is malformed, otherwise
/// whether the password matches the digest.
pub open spec fn verify_result(password: Seq<char>, digest: Seq<char>, salt: Seq<char>) -> Option<
    bool,
> {
    if phc_well_formed(digest) && salt_well_formed(salt) {
        Option::Some(password_matches(password, digest))
    } else {
        Option::None
    }
}

/// How the credential hasher fails: a digest or salt that does not parse, or
/// an internal error of the key-derivation function. A mismatched password is
/// not an error; `verify` reports it as `Ok(false)`.
#[derive(Clone, Copy, Debug, PartialEq, Eq, Structural)]
pub enum PasswordError {
    Malformed,
    Crypto,
}

#[verifier::external_type_specification]
#[verifier::external_body]
pub struct ExPasswordHashError(pbkdf2::password_hash::Error);

/// Relies on `password_hash::SaltString::generate`: a fresh 16-byte salt from
/// the operating system's secure random source, Base64-encoded to 22
/// characters, which `SaltString::from_b64` accepts again and
/// `Salt::decode_b64` decodes back to its 16 bytes. The value itself is
/// random, so nothing more is stated of it.
#[verifier::external_body]
fn generate_salt() -> (s: String)
    ensures
        salt_well_formed(s@),
        salt_hashable(s@),
{
    pbkdf2::password_hash::SaltString::generate(&mut pbkdf2::password_hash::rand_core::OsRng)
        .to_string()
}

/// Relies on `Pbkdf2`'s `PasswordHasher::hash_password`: with the default
/// parameters the resulting PHC string is a function of password and salt
/// alone; it parses as a PHC string; and `verify_password` accepts it for the
/// same password, since it recomputes the very same digest. For a salt that
/// `Salt::decode_b64` decodes, the call cannot fail: the fixed output length
/// is in range and the PBKDF2-HMAC computation itself is infallible.
/// `SaltString::from_b64` only converts the salt argument back into the
/// crate's salt type, which the precondition makes infallible.
#[verifier::external_body]
fn pbkdf2_hash(password: &str, salt: &str) -> (r: Result<String, pbkdf2::password_hash::Error>)
    requires
        salt_well_formed(salt@),
    ensures
        salt_hashable(salt@) ==> r is Ok,
        r matches Ok(d) ==> ({
            &&& d@ == digest_of(password@, salt@)
            &&& phc_well_formed(d@)
            &&& password_matches(password@, d@)
        }),
{
    let salt_string = pbkdf2::password_hash::SaltString::from_b64(salt)?;
    let hashed = pbkdf2::password_hash::PasswordHasher::hash_password(
        &pbkdf2::Pbkdf2,
        password.as_bytes(),
        &salt_string,
    )?;
    Ok(hashed.to_string())
}

/// Relies on `password_hash::PasswordHash::new`: whether a string parses as a
/// PHC-format hash depends on its characters alone.
#[verifier::external_body]
fn check_phc(digest: &str) -> (r: bool)
    ensures
        r == phc_well_formed(digest@),
{
    pbkdf2::password_hash::PasswordHash::new(digest).is_ok()
}

/// Relies on `password_hash::SaltString::from_b64`: whether a string is
/// accepted as a B64 salt depends on its characters alone.
#[verifier::external_body]
fn check_salt(salt: &str) -> (r: bool)
    ensures
        r == salt_well_formed(salt@),
{
    pbkdf2::password_hash::SaltString::from_b64(salt).is_ok()
}

/// Relies on `Pbkdf2`'s `PasswordVerifier::verify_password`: it recomputes
/// the digest with the parameters carried in the PHC string, so the outcome
/// is a function of password and digest string alone. `PasswordHash::new`
/// only re-parses the digest, which the precondition makes infallible.
#[verifier::external_body]
fn pbkdf2_verify(password: &str, digest: &str) -> (r: bool)
    requires
        phc_well_formed(digest@),
    ensures
        r == password_matches(password@, digest@),
{
    match pbkdf2::password_hash::PasswordHash::new(digest) {
        Ok(parsed) => pbkdf2::password_hash::PasswordVerifier::verify_password(
            &pbkdf2::Pbkdf2,
            password.as_bytes(),
            &parsed,
        ).is_ok(),
        Err(_) => false,
    }
}

/// The credential hasher. A value of it carries one derived digest and the
/// salt that produced it; `new` yields the empty pair.
#[derive(Debug)]
pub struct PasswordEncrypter {
    pub hash: String,
    pub salt: String,
}

impl Clone for PasswordEncrypter {
    fn clone(&self) -> (res: Self)
        ensures
            res == *self,
    {
        PasswordEncrypter { hash: self.hash.clone(), salt: self.salt.clone() }
    }
}

impl PasswordEncrypter {
    pub fn new() -> (r: Self)
        ensures
            r.hash@ == Seq::<char>::empty(),
            r.salt@ == Seq::<char>::empty(),
    {
        PasswordEncrypter { hash: String::new(), salt: String::new() }
    }

    /// Derive a salted digest for `password` with a freshly generated salt.
    /// The derivation succeeds for every password: the generated salt is one
    /// the key-derivation accepts. The `Result` shape stays, as the place an
    /// internal cryptographic error would surface.
    pub fn hash(&self, password: &str) -> (r: Result<PasswordEncrypter, PasswordError>)
        ensures
            r is Ok,
            r matches Ok(enc) ==> hash_post(password@, enc.hash@, enc.salt@),
    {
        let salt = generate_salt();
        match pbkdf2_hash(password, salt.as_str()) {
            Ok(digest) => Ok(PasswordEncrypter { hash: digest, salt }),
            Err(_) => Err(PasswordError::Crypto),
        }
    }

    /// Check `password` against a stored digest and salt. A digest or salt
    /// that does not parse is reported as `Err(Malformed)`, distinguishable
    /// from an ordinary mismatch, which is `Ok(false)`.
    pub fn verify(&self, password: &str, hash: &str, salt: &str) -> (r: Result<
        bool,
        PasswordError,
    >)
        ensures
            r is Ok <==> verify_result(password@, hash@, salt@) is Some,
            r matches Ok(b) ==> Option::Some(b) == verify_result(password@, hash@, salt@),
            r matches Err(e) ==> e == PasswordError::Malformed,
    {
        if !check_phc(hash) {
            return Err(PasswordError::Malformed);
        }
        if !check_salt(salt) {
            return Err(PasswordError::Malformed);
        }
        Ok(pbkdf2_verify(password, hash))
    }
}

/// Law: a digest freshly derived from a password verifies against that same
/// password — `verify` on the pair that `hash` returned yields `true`.
pub proof fn lemma_hash_verify_round_trip(password: Seq<char>, digest: Seq<char>, salt: Seq<char>)
    requires
        hash_post(password, digest, salt),
    ensures
        verify_result(password, digest, salt) == Option::Some(true),
{
}

} // verus!
