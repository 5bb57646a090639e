//! What the generators share: building a collection item by item, random
//! passwords and their hashes, and picking a parent at random.

use vstd::prelude::*;
use rand::rngs::ThreadRng;
use crate::models::Identifiable;
use crate::sources::{
    argon2_hash, argon2id_text, choose_id, fresh_salt, is_fresh_salt, is_hash_text_with,
    random_below,
};

verus! {

/// Why a collection could not be generated.
#[derive(Clone, Copy, Debug, PartialEq, Eq, Structural)]
pub enum GenerationError {
    /// The password hasher failed.
    Hashing,
}

/// Generic function to generate a collection of items: item `i` is what
/// `generator_fn` makes of `i`, for every `i` below `count`, in order.
pub fn generate_items<T, F: Fn(usize) -> T>(count: usize, generator_fn: F) -> (items: Vec<T>)
    requires
        forall|i: usize| i < count ==> call_requires(generator_fn, (i,)),
    ensures
        items@.len() == count,
        forall|i: usize|
            i < count ==> call_ensures(generator_fn, (i,), #[trigger] items@[i as int]),
{
    let mut items: Vec<T> = Vec::new();
    let mut i: usize = 0;
    while i < count
        invariant
            i <= count,
            items@.len() == i,
            forall|j: usize| j < count ==> call_requires(generator_fn, (j,)),
            forall|j: usize|
                j < i ==> call_ensures(generator_fn, (j,), #[trigger] items@[j as int]),
        decreases count - i,
    {
        let item = generator_fn(i);
        items.push(item);
        i = i + 1;
    }
    items
}

/// A text of lowercase letters only.
pub open spec fn is_lowercase(text: Seq<char>) -> bool {
    forall|i: int| 0 <= i < text.len() ==> 'a' <= #[trigger] text[i] <= 'z'
}

/// Generate a random password: `length` lowercase letters.
pub fn generate_password(rng: &mut ThreadRng, length: usize) -> (password: String)
    ensures
        password@.len() == length,
        is_lowercase(password@),
{
    let mut password = String::new();
    let mut i: usize = 0;
    while i < length
        invariant
            i <= length,
            password@.len() == i,
            is_lowercase(password@),
        decreases length - i,
    {
        let k = random_below(rng, 26);
        password.push((97u8 + k as u8) as char);
        i = i + 1;
    }
    password
}

/// The text `hash` is an Argon2id hash of `password` under a fresh salt,
/// which it holds in line.
pub open spec fn is_hash_of(hash: Seq<char>, password: Seq<char>) -> bool {
    exists|salt: Seq<char>| is_fresh_salt(salt) && #[trigger] is_hash_under(hash, password, salt)
}

/// Hash a password using Argon2 with a fresh salt. The result is what the
/// hasher makes of the password under that salt: the hash text, which names
/// its algorithm and parameters and holds the salt, or a hashing error
/// where the hasher makes no text.
pub fn hash_password(password: &str) -> (hash: Result<String, GenerationError>)
    ensures
        exists|salt: Seq<char>| is_fresh_salt(salt) && #[trigger] is_hashing_of(
            hash,
            password@,
            salt,
        ),
        hash matches Ok(text) ==> is_hash_of(text@, password@),
{
    let salt = fresh_salt();
    let hash = hashing_outcome(argon2_hash(password, salt.as_str()));
    assert(is_hashing_of(hash, password@, salt@));
    hash
}

/// The text `hash` is what Argon2id makes of `password` under `salt`, and
/// holds that salt in line.
pub open spec fn is_hash_under(hash: Seq<char>, password: Seq<char>, salt: Seq<char>) -> bool {
    &&& argon2id_text(password, salt) == Some(hash)
    &&& is_hash_text_with(hash, salt)
}

/// The result `hash` is what hashing `password` under `salt` comes to: the
/// hash text where the hasher makes one, and a hashing error where it makes
/// none.
pub open spec fn is_hashing_of(
    hash: Result<String, GenerationError>,
    password: Seq<char>,
    salt: Seq<char>,
) -> bool {
    match hash {
        Ok(text) => is_hash_under(text@, password, salt),
        Err(error) => error == GenerationError::Hashing && argon2id_text(password, salt) is None,
    }
}

/// Takes what the hasher returned: its text is kept as it is, and any
/// error of the hasher becomes a hashing error.
pub fn hashing_outcome(outcome: Result<String, argon2::password_hash::Error>) -> (hash: Result<
    String,
    GenerationError,
>)
    ensures
        outcome matches Ok(text) ==> hash == Ok::<String, GenerationError>(text),
        outcome is Err ==> hash == Err::<String, GenerationError>(GenerationError::Hashing),
{
    match outcome {
        Ok(text) => Ok(text),
        Err(_) => Err(GenerationError::Hashing),
    }
}

/// Choose a random element from a slice of identifiers, which must not be
/// empty.
pub fn choose_random_id(rng: &mut ThreadRng, ids: &[u128]) -> (id: u128)
    requires
        ids@.len() > 0,
    ensures
        ids@.contains(id),
{
    match choose_id(rng, ids) {
        Some(id) => id,
        None => ids[0],
    }
}

/// Some item of `items` has the identifier `id`.
pub open spec fn has_identifier<T: Identifiable>(items: Seq<T>, id: u128) -> bool {
    exists|j: int| 0 <= j < items.len() && (#[trigger] items[j]).identifier() == id
}

/// The identifiers of `items`, in the order of the items.
pub fn collect_ids<T: Identifiable>(items: &[T]) -> (ids: Vec<u128>)
    ensures
        ids@.len() == items@.len(),
        forall|j: int| 0 <= j < items@.len() ==> ids@[j] == (#[trigger] items@[j]).identifier(),
{
    let read_id = |i: usize| -> (id: u128)
        requires
            i < items@.len(),
        ensures
            id == items@[i as int].identifier(),
        { items[i].id() };
    let ids = generate_items(items.len(), read_id);
    proof {
        assert forall|j: int| 0 <= j < items@.len() implies ids@[j] == (
        #[trigger] items@[j]).identifier() by {
            let i = j as usize;
            assert(ids@[i as int] == items@[i as int].identifier());
        }
    }
    ids
}

/// An identifier picked from the identifiers of `items` belongs to one of
/// the items.
pub proof fn lemma_picked_has_identifier<T: Identifiable>(items: Seq<T>, ids: Seq<u128>, id: u128)
    requires
        ids.len() == items.len(),
        forall|j: int| 0 <= j < items.len() ==> ids[j] == (#[trigger] items[j]).identifier(),
        ids.contains(id),
    ensures
        has_identifier(items, id),
{
    let j = choose|j: int| 0 <= j < ids.len() && ids[j] == id;
    assert(items[j].identifier() == id);
}

} // verus!
