//! What the generators take from outside the library: random numbers,
//! fresh identifiers, password hashes and the time of day. The contracts in
//! this file are taken on trust from the crates that do the work; everything
//! else in the library is proved from them.

use vstd::prelude::*;
use argon2::password_hash::{Salt, SaltString};
use argon2::PasswordHasher;
use rand::rngs::ThreadRng;
use rand::seq::SliceRandom;
use rand::Rng;
use crate::models::Timestamp;
use crate::text::hex_text;

verus! {

/// The handle of `rand` to the random number generator of the running thread.
#[verifier::external_type_specification]
#[verifier::external_body]
pub struct ExThreadRng(ThreadRng);

/// The error of `password_hash`.
#[verifier::external_type_specification]
#[verifier::external_body]
pub struct ExPasswordHashError(argon2::password_hash::Error);

/// `rand::thread_rng`: hands out the generator of the running thread.
/// Nothing is claimed of the handle.
pub assume_specification[ rand::thread_rng ]() -> (rng: ThreadRng);

/// `Rng::gen_range` over `0..bound`: the number drawn lies in the range.
/// The call panics on an empty range, so `bound` must not be zero.
#[verifier::external_body]
pub(crate) fn random_below(rng: &mut ThreadRng, bound: usize) -> (drawn: usize)
    requires
        bound > 0,
    ensures
        drawn < bound,
{
    rng.gen_range(0..bound)
}

/// `Rng::gen_ratio`: a coin that shows `true` with probability
/// `numerator / denominator`. It is certain to show `true` when the two are
/// equal and `false` when the numerator is zero; the call panics on a zero
/// denominator and on a numerator above the denominator.
#[verifier::external_body]
pub(crate) fn random_ratio(rng: &mut ThreadRng, numerator: u32, denominator: u32) -> (heads: bool)
    requires
        denominator > 0,
        numerator <= denominator,
    ensures
        numerator == denominator ==> heads,
        numerator == 0 ==> !heads,
{
    rng.gen_ratio(numerator, denominator)
}

/// `SliceRandom::choose`: one element of the slice, or `None` when the slice
/// is empty.
#[verifier::external_body]
pub(crate) fn choose_id(rng: &mut ThreadRng, ids: &[u128]) -> (picked: Option<u128>)
    ensures
        picked is None <==> ids@.len() == 0,
        picked matches Some(id) ==> ids@.contains(id),
{
    ids.choose(rng).copied()
}

/// The marks that every random (version 4) identifier carries: the version
/// digit is 4 and the two variant bits are `10`.
pub open spec fn is_random_uuid(id: u128) -> bool {
    &&& (id >> 76) & 0xf == 4
    &&& (id >> 62) & 0x3 == 2
}

/// `Uuid::new_v4`, read as a 128-bit number by `Uuid::as_u128`: a random
/// identifier with the version and variant bits set. Two calls may return
/// the same value.
#[verifier::external_body]
pub(crate) fn fresh_id() -> (id: u128)
    ensures
        is_random_uuid(id),
{
    uuid::Uuid::new_v4().as_u128()
}

/// The simple format of `uuid` for the identifier `id`: its 32 hexadecimal
/// digits in lower case, without hyphens.
#[verifier::external_body]
pub(crate) fn simple_hex(id: u128) -> (text: String)
    ensures
        text@ == hex_text(id as nat, 32),
{
    uuid::Uuid::from_u128(id).as_simple().to_string()
}

/// A character of the Base64 alphabet: a letter, a digit, `+` or `/`.
pub open spec fn is_base64_char(c: char) -> bool {
    ||| 'A' <= c <= 'Z'
    ||| 'a' <= c <= 'z'
    ||| '0' <= c <= '9'
    ||| c == '+'
    ||| c == '/'
}

/// A text of characters of the Base64 alphabet only.
pub open spec fn is_base64_text(text: Seq<char>) -> bool {
    forall|i: int| 0 <= i < text.len() ==> is_base64_char(#[trigger] text[i])
}

/// What holds of every fresh salt: it is written in 22 characters of the
/// Base64 alphabet, which is how 16 bytes are written without padding.
pub open spec fn is_fresh_salt(salt: Seq<char>) -> bool {
    &&& salt.len() == 22
    &&& is_base64_text(salt)
}

/// `SaltString::generate` with the generator of the operating system: 16
/// random bytes, written in Base64 without padding.
#[verifier::external_body]
pub(crate) fn fresh_salt() -> (salt: String)
    ensures
        is_fresh_salt(salt@),
{
    SaltString::generate(&mut argon2::password_hash::rand_core::OsRng).as_str().to_owned()
}

/// What Argon2id with the default parameters makes of a password and a
/// salt: the hash text, or nothing where the salt is refused or the hasher
/// fails.
pub uninterp spec fn argon2id_text(password: Seq<char>, salt: Seq<char>) -> Option<Seq<char>>;

/// How every hash text of Argon2id with the default parameters begins: the
/// algorithm, its version and its cost parameters.
pub open spec fn argon2id_prefix() -> Seq<char> {
    "$argon2id$v=19$m=19456,t=2,p=1$"@
}

/// A text that begins as the hash texts of Argon2id do and goes on after
/// that.
pub open spec fn is_argon2id_text(text: Seq<char>) -> bool {
    &&& text.len() > argon2id_prefix().len()
    &&& text.subrange(0, argon2id_prefix().len() as int) == argon2id_prefix()
}

/// The number of characters in which the digest of 32 bytes is written.
pub open spec fn digest_len() -> nat {
    43
}

/// The hash text `text` holds `salt` in line: after the beginning of every
/// hash text comes the salt as it was given, then a `$`, then the digest in
/// Base64.
pub open spec fn is_hash_text_with(text: Seq<char>, salt: Seq<char>) -> bool {
    let start = argon2id_prefix().len() as int;
    let end = start + salt.len();
    &&& is_argon2id_text(text)
    &&& text.len() == end + 1 + digest_len()
    &&& text.subrange(start, end) == salt
    &&& text[end] == '$'
    &&& is_base64_text(text.subrange(end + 1, text.len() as int))
}

/// `Argon2::default().hash_password` with the salt read by
/// `Salt::from_b64`, written out as text. Whether the call succeeds, and
/// the text where it does, depend on the password and the salt alone. The
/// text names the algorithm and its parameters, then holds the salt as it
/// was given, a `$`, and the digest of 32 bytes in Base64. On which
/// passwords and salts the call succeeds is up to the hasher.
#[verifier::external_body]
pub(crate) fn argon2_hash(password: &str, salt: &str) -> (hash: Result<
    String,
    argon2::password_hash::Error,
>)
    ensures
        hash matches Ok(text) ==> argon2id_text(password@, salt@) == Some(text@)
            && is_hash_text_with(text@, salt@),
        hash is Err ==> argon2id_text(password@, salt@) is None,
{
    let salt = Salt::from_b64(salt)?;
    let hash = argon2::Argon2::default().hash_password(password.as_bytes(), salt)?;
    Ok(hash.to_string())
}

/// What holds of every reading of the clock: it is not before 1970, it lies
/// in the range of dates that `chrono` can hold, and the nanoseconds stay
/// below one second.
pub open spec fn is_clock_reading(now: Timestamp) -> bool {
    &&& 0 <= now.secs < 0x1_0000_0000_0000
    &&& now.nanos < 1_000_000_000
}

/// `Utc::now` of `chrono`, read by `timestamp` and
/// `timestamp_subsec_nanos`: the time on the system clock.
#[verifier::external_body]
pub(crate) fn utc_now() -> (now: Timestamp)
    ensures
        is_clock_reading(now),
{
    let now = chrono::Utc::now();
    Timestamp { secs: now.timestamp(), nanos: now.timestamp_subsec_nanos() }
}

} // verus!
