use vstd::prelude::*;
use argon2::password_hash::rand_core::OsRng;
use argon2::password_hash::SaltString;
use argon2::PasswordHasher;

verus! {

#[verifier::external_type_specification]
#[verifier::external_body]
pub struct ExPasswordHashError(argon2::password_hash::Error);

/// A character of the standard Base64 alphabet (`A-Z`, `a-z`, `0-9`, `+`, `/`).
pub open spec fn is_b64_char(c: char) -> bool {
    ||| ('A' <= c && c <= 'Z')
    ||| ('a' <= c && c <= 'z')
    ||| ('0' <= c && c <= '9')
    ||| c == '+'
    ||| c == '/'
}

/// `s` is 16 bytes written in unpadded Base64: 22 characters of the
/// alphabet, the last of which leaves its four low bits zero.
pub open spec fn is_salt16_b64(s: Seq<char>) -> bool {
    &&& s.len() == 22
    &&& forall|i: int| 0 <= i < 22 ==> is_b64_char(#[trigger] s[i])
    &&& (s[21] == 'A' || s[21] == 'Q' || s[21] == 'g' || s[21] == 'w')
}

/// The Base64 text of the 32-byte Argon2id output for `password` under the
/// salt whose Base64 text is `salt`, with the default parameters
/// (m = 19456 KiB, t = 2, p = 1, version 0x13).
pub uninterp spec fn argon2id_output_b64(password: Seq<u8>, salt: Seq<char>) -> Seq<char>;

/// The PHC string that records an Argon2id hash of `password` with `salt`.
pub open spec fn phc_string(password: Seq<u8>, salt: Seq<char>) -> Seq<char> {
    "$argon2id$v=19$m=19456,t=2,p=1$"@ + salt + "$"@ + argon2id_output_b64(password, salt)
}

/// Calls `SaltString::generate` with the operating system's random source
/// (`OsRng`) and takes its text. The salt is random; the crate's source
/// draws 16 bytes and writes them in unpadded Base64, which is what is
/// claimed. It panics when the operating system gives no random bytes,
/// which no argument controls.
#[verifier::external_body]
fn generate_salt() -> (s: String)
    ensures
        is_salt16_b64(s@),
{
    SaltString::generate(&mut OsRng).as_str().to_owned()
}

/// Reads `salt` back as a `SaltString` and calls `hash_password` of
/// `Argon2::default()`, writing the result with `to_string`. The crate's
/// source accepts such a salt and any password of at most `u32::MAX` bytes,
/// and writes `$argon2id$v=19$m=19456,t=2,p=1$`, the salt, `$` and the
/// 32-byte output in Base64 (43 characters). The output itself is named,
/// not stated.
#[verifier::external_body]
fn argon2_hash(password: &[u8], salt: &str) -> (res: Result<String, argon2::password_hash::Error>)
    requires
        password@.len() <= u32::MAX,
        is_salt16_b64(salt@),
    ensures
        res is Ok,
        res matches Ok(h) ==> h@ == "$argon2id$v=19$m=19456,t=2,p=1$"@ + salt@ + "$"@
            + argon2id_output_b64(password@, salt@),
        res matches Ok(h) ==> h@.len() == 97,
{
    let salt = SaltString::from_b64(salt)?;
    argon2::Argon2::default().hash_password(password, &salt).map(|h| h.to_string())
}

/// `s` was drawn by [`new_salt`] from the random source. Outside this
/// module the predicate is abstract: only [`new_salt`] establishes it, so a
/// salt made up elsewhere cannot be shown to be one; [`lemma_drawn_salt_form`]
/// gives its form.
pub closed spec fn is_drawn_salt(s: Seq<char>) -> bool {
    is_salt16_b64(s)
}

/// Every drawn salt is 16 bytes in unpadded Base64.
pub proof fn lemma_drawn_salt_form(s: Seq<char>)
    requires
        is_drawn_salt(s),
    ensures
        is_salt16_b64(s),
{
}

/// A fresh random salt for [`hash_password`].
pub fn new_salt() -> (s: String)
    ensures
        is_salt16_b64(s@),
        is_drawn_salt(s@),
{
    generate_salt()
}

/// The Argon2id PHC string of `password` (its UTF-8 bytes) under `salt`.
pub fn hash_password(password: &str, salt: &str) -> (h: String)
    requires
        vstd::utf8::encode_utf8(password@).len() <= u32::MAX,
        is_salt16_b64(salt@),
    ensures
        h@ == phc_string(vstd::utf8::encode_utf8(password@), salt@),
        h@.len() == 97,
{
    let res = argon2_hash(password.as_bytes(), salt);
    res.unwrap()
}

} // verus!
