//! Accounts: the forms of registration and of password change, the hashing and checking
//! of passwords, and registry tokens.
use vstd::prelude::*;

use std::num::NonZeroU32;

use crate::db::models::AuthorToken;
use crate::encoding::{hex_bytes, hex_decode, hex_encode, hex_text, is_hex, law_hex_round_trip};
use crate::text::{chars_of, push_text};
use vstd::string::StrSliceExecFns;

verus! {

/// The number of PBKDF2 rounds that derive a password hash.
pub const PASSWORD_ROUNDS: u32 = 100_000;

/// The length of a password hash: that of a SHA-512 digest.
pub const HASH_LEN: usize = 64;

/// The key that PBKDF2 with HMAC-SHA512 derives, as `ring` computes it, in `rounds` rounds
/// from a salt and a secret, `len` bytes long.
pub uninterp spec fn pbkdf2_sha512(rounds: u32, salt: Seq<u8>, secret: Seq<u8>, len: nat) -> Seq<u8>;

/// The SHA-512 digest of some bytes, as `ring` computes it.
pub uninterp spec fn sha512_digest(data: Seq<u8>) -> Seq<u8>;

/// Calls `ring::pbkdf2::derive` with HMAC-SHA512 into a buffer of `len` bytes; the contract
/// names the key `pbkdf2_sha512`. `ring` panics on a buffer longer than 2^32 - 1 digests.
#[verifier::external_body]
fn pbkdf2_derive(rounds: u32, salt: &[u8], secret: &[u8], len: usize) -> (res: Vec<u8>)
    requires
        rounds >= 1,
        len <= 0xffff_ffff * 64,
    ensures
        res@ == pbkdf2_sha512(rounds, salt@, secret@, len as nat),
        res@.len() == len,
{
    let mut out = vec![0u8; len];
    ring::pbkdf2::derive(ring::pbkdf2::PBKDF2_HMAC_SHA512, NonZeroU32::new(rounds).unwrap(), salt, secret, &mut out);
    out
}

/// Calls `ring::pbkdf2::verify` with HMAC-SHA512. Its source refuses an empty expected key,
/// and otherwise derives a key of the expected key's length, chunk by chunk as `derive`
/// does, and accepts when they are equal: the contract claims exactly that.
#[verifier::external_body]
fn pbkdf2_verify(rounds: u32, salt: &[u8], secret: &[u8], expected: &[u8]) -> (res: bool)
    requires
        rounds >= 1,
        expected@.len() <= 0xffff_ffff * 64,
    ensures
        res == (expected@.len() > 0 && pbkdf2_sha512(rounds, salt@, secret@, expected@.len()) == expected@),
{
    ring::pbkdf2::verify(ring::pbkdf2::PBKDF2_HMAC_SHA512, NonZeroU32::new(rounds).unwrap(), salt, secret, expected).is_ok()
}

/// Calls `ring::digest::digest` with SHA-512; the contract names the digest
/// `sha512_digest` and states that it has 64 bytes, the output size of SHA-512.
#[verifier::external_body]
fn sha512(data: &[u8]) -> (res: Vec<u8>)
    ensures
        res@ == sha512_digest(data@),
        res@.len() == 64,
{
    ring::digest::digest(&ring::digest::SHA512, data).as_ref().to_vec()
}

/// The salt of a new account, from random bytes: their SHA-512 digest.
pub fn salt_from(random: &[u8]) -> (res: Vec<u8>)
    ensures
        res@ == sha512_digest(random@),
{
    sha512(random)
}

/// The stored hash of a password (given as the bytes of its client-side hash) with a salt:
/// the hexadecimal text of the PBKDF2 key.
pub open spec fn password_hash_text(salt: Seq<u8>, password: Seq<u8>) -> Seq<char> {
    hex_text(pbkdf2_sha512(PASSWORD_ROUNDS, salt, password, HASH_LEN as nat))
}

/// The hash to store for a password sent as a hexadecimal text, or `None` when the text
/// is not hexadecimal.
pub fn hash_password(salt: &[u8], password_hex: &str) -> (res: Option<String>)
    ensures
        res is Some <==> is_hex(password_hex@),
        res matches Some(h) ==> h@ == password_hash_text(salt@, hex_bytes(password_hex@)),
{
    match hex_decode(password_hex) {
        None => None,
        Some(password) => {
            let key = pbkdf2_derive(PASSWORD_ROUNDS, salt, password.as_slice(), HASH_LEN);
            Some(hex_encode(key.as_slice()))
        },
    }
}

/// The outcome of checking a password against a stored hash.
#[derive(Debug, Clone, Copy, PartialEq, Eq, Structural)]
pub enum PasswordCheck {
    /// The salt, the password or the stored hash is not hexadecimal.
    DecodingIssue,
    /// The password does not give the stored hash.
    Mismatch,
    /// The password gives the stored hash.
    Match,
}

/// What checking a password (hexadecimal) against a stored hash with a salt (both
/// hexadecimal) gives.
pub open spec fn password_check(salt_hex: Seq<char>, password_hex: Seq<char>, expected_hex: Seq<char>) -> PasswordCheck {
    if !(is_hex(salt_hex) && is_hex(password_hex) && is_hex(expected_hex)) {
        PasswordCheck::DecodingIssue
    } else {
        let expected = hex_bytes(expected_hex);
        if expected.len() > 0 && pbkdf2_sha512(
            PASSWORD_ROUNDS,
            hex_bytes(salt_hex),
            hex_bytes(password_hex),
            expected.len(),
        ) == expected {
            PasswordCheck::Match
        } else {
            PasswordCheck::Mismatch
        }
    }
}

/// Checks a password against the stored hash, as logging in does.
pub fn check_password(salt_hex: &str, password_hex: &str, expected_hex: &str) -> (res: PasswordCheck)
    requires
        expected_hex@.len() <= 0xffff_ffff * 64,
    ensures
        res == password_check(salt_hex@, password_hex@, expected_hex@),
{
    let salt = hex_decode(salt_hex);
    let password = hex_decode(password_hex);
    let expected = hex_decode(expected_hex);
    match (salt, password, expected) {
        (Some(salt), Some(password), Some(expected)) => {
            if pbkdf2_verify(PASSWORD_ROUNDS, salt.as_slice(), password.as_slice(), expected.as_slice()) {
                PasswordCheck::Match
            } else {
                PasswordCheck::Mismatch
            }
        },
        _ => PasswordCheck::DecodingIssue,
    }
}

/// The outcome of a password change.
#[derive(Debug)]
pub enum PasswordChange {
    /// The salt, one of the passwords or the stored hash is not hexadecimal.
    DecodingIssue,
    /// The current password does not give the stored hash.
    InvalidCurrentPassword,
    /// The hash to store for the new password.
    Changed(String),
}

/// Changes a password: the current password must give the stored hash, and the new one's
/// hash (with the same salt) is to be stored.
pub fn change_password(salt_hex: &str, current_hex: &str, new_hex: &str, stored_hex: &str) -> (res: PasswordChange)
    requires
        stored_hex@.len() <= 0xffff_ffff * 64,
    ensures
        !(is_hex(salt_hex@) && is_hex(current_hex@) && is_hex(new_hex@) && is_hex(stored_hex@)) ==> res is DecodingIssue,
        is_hex(salt_hex@) && is_hex(current_hex@) && is_hex(new_hex@) && is_hex(stored_hex@) ==> (
        if password_check(salt_hex@, current_hex@, stored_hex@) == PasswordCheck::Match {
            res matches PasswordChange::Changed(h) && h@ == password_hash_text(hex_bytes(salt_hex@), hex_bytes(new_hex@))
        } else {
            res is InvalidCurrentPassword
        }),
{
    if hex_decode(new_hex).is_none() {
        return PasswordChange::DecodingIssue;
    }
    match check_password(salt_hex, current_hex, stored_hex) {
        PasswordCheck::DecodingIssue => PasswordChange::DecodingIssue,
        PasswordCheck::Mismatch => PasswordChange::InvalidCurrentPassword,
        PasswordCheck::Match => {
            let salt = hex_decode(salt_hex);
            let new_password = hex_decode(new_hex);
            match (salt, new_password) {
                (Some(salt), Some(new_password)) => {
                    let key = pbkdf2_derive(PASSWORD_ROUNDS, salt.as_slice(), new_password.as_slice(), HASH_LEN);
                    PasswordChange::Changed(hex_encode(key.as_slice()))
                },
                _ => PasswordChange::DecodingIssue,
            }
        },
    }
}

/// Logging in with the password an account was registered with succeeds: checking a
/// password (hexadecimal) against the hash stored at registration, with the hexadecimal
/// text of the salt, gives `Match` (the derived key having the length asked of `ring`).
pub proof fn law_login_after_registration(salt: Seq<u8>, password_hex: Seq<char>)
    requires
        is_hex(password_hex),
        pbkdf2_sha512(PASSWORD_ROUNDS, salt, hex_bytes(password_hex), HASH_LEN as nat).len() == HASH_LEN,
    ensures
        password_check(hex_text(salt), password_hex, password_hash_text(salt, hex_bytes(password_hex)))
            == PasswordCheck::Match,
{
    let key = pbkdf2_sha512(PASSWORD_ROUNDS, salt, hex_bytes(password_hex), HASH_LEN as nat);
    law_hex_round_trip(salt);
    law_hex_round_trip(key);
}

/// Checks the registration form: every field filled in, and the password confirmed.
pub fn check_registration_form(email: &str, name: &str, password: &str, confirm_password: &str) -> (res: Result<(), String>)
    ensures
        (email@.len() == 0 || name@.len() == 0 || password@.len() == 0 || confirm_password@.len() == 0)
            ==> (res matches Err(m) && m@ == "some fields were left empty."@),
        !(email@.len() == 0 || name@.len() == 0 || password@.len() == 0 || confirm_password@.len() == 0)
            && password@ != confirm_password@ ==> (res matches Err(m) && m@ == "the two passwords did not match."@),
        !(email@.len() == 0 || name@.len() == 0 || password@.len() == 0 || confirm_password@.len() == 0)
            && password@ == confirm_password@ ==> res is Ok,
{
    if email.is_empty() || name.is_empty() || password.is_empty() || confirm_password.is_empty() {
        return Err("some fields were left empty.".to_owned());
    }
    if !same_text(password, confirm_password) {
        return Err("the two passwords did not match.".to_owned());
    }
    Ok(())
}

/// Checks the password change form: every field filled in, and the new password confirmed.
pub fn check_password_change_form(password: &str, new_password: &str, confirm_password: &str) -> (res: Result<(), String>)
    ensures
        (password@.len() == 0 || new_password@.len() == 0 || confirm_password@.len() == 0)
            ==> (res matches Err(m) && m@ == "some fields were left empty."@),
        !(password@.len() == 0 || new_password@.len() == 0 || confirm_password@.len() == 0)
            && new_password@ != confirm_password@ ==> (res matches Err(m) && m@ == "the two passwords did not match."@),
        !(password@.len() == 0 || new_password@.len() == 0 || confirm_password@.len() == 0)
            && new_password@ == confirm_password@ ==> res is Ok,
{
    if password.is_empty() || new_password.is_empty() || confirm_password.is_empty() {
        return Err("some fields were left empty.".to_owned());
    }
    if !same_text(new_password, confirm_password) {
        return Err("the two passwords did not match.".to_owned());
    }
    Ok(())
}

/// Whether two texts are the same.
fn same_text(a: &str, b: &str) -> (res: bool)
    ensures
        res == (a@ == b@),
{
    let x = chars_of(a);
    let y = chars_of(b);
    if x.len() != y.len() {
        return false;
    }
    let mut i: usize = 0;
    while i < x.len()
        invariant
            x@ == a@,
            y@ == b@,
            x.len() == y.len(),
            i <= x.len(),
            forall|j: int| 0 <= j < i ==> x@[j] == y@[j],
        decreases x.len() - i,
    {
        if x[i] != y[i] {
            return false;
        }
        i = i + 1;
    }
    assert(x@ =~= y@);
    true
}

/// The number of days a login session lasts: 30 when the user asked to be remembered
/// (`remember` is `on`), 1 otherwise.
pub fn session_days(remember: Option<&str>) -> (res: i64)
    ensures
        res == (if remember matches Some(r) && r@ == "on"@ {
            30int
        } else {
            1int
        }),
{
    match remember {
        Some(r) => {
            if same_text(r, "on") {
                30
            } else {
                1
            }
        },
        None => 1,
    }
}

/// The registry token kept from a generated one: its first 25 characters.
pub fn registry_token(generated: &str) -> (res: &str)
    requires
        generated.is_ascii(),
        generated@.len() >= 25,
    ensures
        res@ == generated@.take(25),
{
    generated.substring_ascii(0, 25)
}

/// Whether a registry token that was looked up belongs to the author asking about it: it
/// was found and is held by that author. Reading a token's information and revoking it are
/// refused otherwise.
pub fn token_of_author(token: &Option<AuthorToken>, author_id: u64) -> (res: bool)
    ensures
        res == (token matches Some(t) && t.author_id == author_id),
{
    match token {
        Some(t) => t.author_id == author_id,
        None => false,
    }
}

} // verus!
