use argon2::{Argon2, PasswordHash, PasswordVerifier};
use db_seeder::generators::helpers::{
    choose_random_id, collect_ids, generate_items, generate_password, hash_password,
    hashing_outcome, GenerationError,
};
use db_seeder::models::{Post, User};

#[test]
fn generate_items_applies_the_function_to_each_position_in_order() {
    let squares = generate_items(5, |i| i * i);
    assert_eq!(squares, vec![0, 1, 4, 9, 16]);
    let texts = generate_items(3, |i| format!("item {}", i));
    assert_eq!(texts, vec!["item 0", "item 1", "item 2"]);
}

#[test]
fn generate_items_of_count_zero_is_empty() {
    let nothing: Vec<usize> = generate_items(0, |i| i);
    assert!(nothing.is_empty());
}

#[test]
fn generate_password_has_the_length_asked_for() {
    let mut rng = rand::thread_rng();
    assert_eq!(generate_password(&mut rng, 0), "");
    assert_eq!(generate_password(&mut rng, 1).len(), 1);
    assert_eq!(generate_password(&mut rng, 12).chars().count(), 12);
    assert_eq!(generate_password(&mut rng, 300).chars().count(), 300);
}

#[test]
fn generate_password_is_made_of_lowercase_letters() {
    let mut rng = rand::thread_rng();
    let password = generate_password(&mut rng, 5000);
    assert!(password.chars().all(|c| c.is_ascii_lowercase()));
    let mut letter = 'a';
    while letter <= 'z' {
        assert!(password.contains(letter));
        letter = ((letter as u8) + 1) as char;
    }
}

#[test]
fn generate_password_differs_from_draw_to_draw() {
    let mut rng = rand::thread_rng();
    let first = generate_password(&mut rng, 32);
    let second = generate_password(&mut rng, 32);
    assert_ne!(first, second);
}

#[test]
fn hash_password_makes_an_argon2id_hash_of_the_password() {
    let hash = hash_password("correcthorse").expect("hashing a short password");
    assert!(hash.starts_with("$argon2id$v=19$m=19456,t=2,p=1$"));
    assert!(hash.len() > 31);
    assert_ne!(hash, "correcthorse");
    let parsed = PasswordHash::new(&hash).expect("a hash in the standard text form");
    assert!(Argon2::default().verify_password(b"correcthorse", &parsed).is_ok());
    assert!(Argon2::default().verify_password(b"wrong", &parsed).is_err());
}

#[test]
fn hash_password_salts_each_hash() {
    let first = hash_password("same").expect("hashing a short password");
    let second = hash_password("same").expect("hashing a short password");
    assert_ne!(first, second);
}

#[test]
fn choose_random_id_picks_an_element() {
    let mut rng = rand::thread_rng();
    let ids: Vec<u128> = vec![10, 20, 30, 40];
    for _ in 0..200 {
        let picked = choose_random_id(&mut rng, &ids);
        assert!(ids.contains(&picked));
    }
    assert_eq!(choose_random_id(&mut rng, &[7]), 7);
}

#[test]
fn choose_random_id_reaches_every_element() {
    let mut rng = rand::thread_rng();
    let ids: Vec<u128> = vec![1, 2, 3];
    let mut seen = [false; 3];
    for _ in 0..500 {
        let picked = choose_random_id(&mut rng, &ids);
        seen[(picked - 1) as usize] = true;
    }
    assert_eq!(seen, [true, true, true]);
}

#[test]
fn collect_ids_keeps_the_order_of_the_items() {
    let users: Vec<User> = [5u128, 3, 9]
        .iter()
        .map(|id| User {
            id: *id,
            username: String::new(),
            email: String::new(),
            password_hash: String::new(),
            role: String::new(),
        })
        .collect();
    assert_eq!(collect_ids(&users), vec![5, 3, 9]);
    let posts: Vec<Post> = Vec::new();
    assert_eq!(collect_ids(&posts), Vec::<u128>::new());
}

#[test]
fn hashing_outcome_keeps_the_text_of_the_hasher() {
    assert_eq!(hashing_outcome(Ok(String::from("$argon2id$text"))), Ok(String::from("$argon2id$text")));
    assert_eq!(hashing_outcome(Ok(String::new())), Ok(String::new()));
}

#[test]
fn hashing_outcome_turns_every_error_of_the_hasher_into_a_hashing_error() {
    assert_eq!(
        hashing_outcome(Err(argon2::password_hash::Error::Password)),
        Err(GenerationError::Hashing)
    );
    assert_eq!(
        hashing_outcome(Err(argon2::password_hash::Error::Algorithm)),
        Err(GenerationError::Hashing)
    );
    assert_eq!(
        hashing_outcome(Err(argon2::password_hash::Error::Crypto)),
        Err(GenerationError::Hashing)
    );
}

fn is_base64(text: &str) -> bool {
    text.chars().all(|c| c.is_ascii_alphanumeric() || c == '+' || c == '/')
}

#[test]
fn hash_password_holds_a_fresh_salt_in_line() {
    let hash = hash_password("abcdefghijkl").expect("hashing a short password");
    let prefix = "$argon2id$v=19$m=19456,t=2,p=1$";
    assert_eq!(hash.len(), prefix.len() + 22 + 1 + 43);
    assert_eq!(&hash[..prefix.len()], prefix);
    let salt = &hash[prefix.len()..prefix.len() + 22];
    assert!(is_base64(salt));
    assert_eq!(&hash[prefix.len() + 22..prefix.len() + 23], "$");
    let digest = &hash[prefix.len() + 23..];
    assert_eq!(digest.len(), 43);
    assert!(is_base64(digest));
    let parsed = PasswordHash::new(&hash).expect("a hash in the standard text form");
    assert_eq!(parsed.salt.expect("a salt in the hash").as_str(), salt);
}

#[test]
fn hash_password_draws_another_salt_each_time() {
    let prefix_len = "$argon2id$v=19$m=19456,t=2,p=1$".len();
    let first = hash_password("same").expect("hashing a short password");
    let second = hash_password("same").expect("hashing a short password");
    assert_ne!(&first[prefix_len..prefix_len + 22], &second[prefix_len..prefix_len + 22]);
    assert_ne!(first, second);
}

#[test]
fn hash_password_takes_passwords_of_any_letters() {
    let hash = hash_password("p\u{e4}ss w\u{f6}rd $argon2id$").expect("hashing a short password");
    let parsed = PasswordHash::new(&hash).expect("a hash in the standard text form");
    assert!(Argon2::default()
        .verify_password("p\u{e4}ss w\u{f6}rd $argon2id$".as_bytes(), &parsed)
        .is_ok());
    let empty = hash_password("").expect("hashing the empty password");
    assert!(empty.starts_with("$argon2id$v=19$m=19456,t=2,p=1$"));
}
