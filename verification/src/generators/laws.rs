//! What follows for every generated collection from what the generators
//! promise.

use vstd::prelude::*;
use crate::generators::data_generators::{
    comments_generated, email_for, username_for, interactions_generated, is_generated_hash, kind_for, parent_precedes,
    recommendations_generated, role_for, users_generated,
};
use crate::generators::helpers::is_lowercase;
use crate::sources::{
    argon2id_prefix, is_argon2id_text, is_base64_char, is_base64_text, is_hash_text_with,
};
use crate::models::{Comment, Identifiable, Interaction, Post, Recommendation, Score, User};
use crate::text::{
    decimal_text, digit_char, hex_text, lemma_hex_text_injective, lemma_hex_text_leading,
    lemma_hex_text_len, sixteen_to,
};

verus! {

/// No two items of `items` have the same identifier.
pub open spec fn distinct_identifiers<T: Identifiable>(items: Seq<T>) -> bool {
    forall|a: int, b: int|
        0 <= a < b < items.len() ==> (#[trigger] items[a]).identifier() != (
        #[trigger] items[b]).identifier()
}

/// In a generated collection of comments whose identifiers differ from one
/// another, the parent of a comment stands at a strictly smaller position:
/// no comment replies to itself or to a later one, so the replies form no
/// cycle.
pub proof fn lemma_parent_comes_first(
    comments: Seq<Comment>,
    users: Seq<User>,
    posts: Seq<Post>,
    child: int,
    parent: int,
)
    requires
        comments_generated(comments, users, posts, comments.len()),
        distinct_identifiers(comments),
        0 <= child < comments.len(),
        0 <= parent < comments.len(),
        comments[child].parent_comment_id == Some(comments[parent].id),
    ensures
        parent < child,
{
    assert(parent_precedes(comments, child));
    let j = choose|j: int| 0 <= j < child && (#[trigger] comments[j]).id == comments[parent].id;
    if j < parent {
        assert(comments[j].identifier() != comments[parent].identifier());
    } else if parent < j {
        assert(comments[parent].identifier() != comments[j].identifier());
    }
}

/// The first comment of a generated collection replies to nothing.
pub proof fn lemma_first_comment_has_no_parent(
    comments: Seq<Comment>,
    users: Seq<User>,
    posts: Seq<Post>,
)
    requires
        comments_generated(comments, users, posts, comments.len()),
        comments.len() > 0,
    ensures
        comments[0].parent_comment_id is None,
{
    assert(parent_precedes(comments, 0));
}

/// What is left of an identifier without its lowest 96 bits: the part that
/// the name of a user is made of.
pub open spec fn leading_bits(id: u128) -> nat {
    (id / 0x1_0000_0000_0000_0000_0000_0000) as nat
}

/// Two users are named alike exactly when their identifiers agree in their
/// highest 32 bits. So the names of a collection differ from one another
/// where, and only where, those bits do.
pub proof fn lemma_same_username(a: u128, b: u128)
    ensures
        username_for(a) == username_for(b) <==> leading_bits(a) == leading_bits(b),
{
    reveal_with_fuel(sixteen_to, 9);
    assert(sixteen_to(8) == 0x1_0000_0000);
    assert(sixteen_to(16) == 0x1_0000_0000_0000_0000) by {
        lemma_sixteen_to_sum(8, 8);
    }
    assert(sixteen_to(24) == 0x1_0000_0000_0000_0000_0000_0000) by {
        lemma_sixteen_to_sum(16, 8);
    }
    lemma_hex_text_leading(a as nat, 32, 8);
    lemma_hex_text_leading(b as nat, 32, 8);
    let short_a = hex_text(a as nat, 32).subrange(0, 8);
    let short_b = hex_text(b as nat, 32).subrange(0, 8);
    assert(short_a == hex_text(leading_bits(a), 8));
    assert(short_b == hex_text(leading_bits(b), 8));
    if username_for(a) == username_for(b) {
        let prefix = "user_"@;
        assert(short_a =~= (prefix + short_a).subrange(
            prefix.len() as int,
            (prefix + short_a).len() as int,
        ));
        assert(short_b =~= (prefix + short_b).subrange(
            prefix.len() as int,
            (prefix + short_b).len() as int,
        ));
        lemma_hex_text_len(leading_bits(a), 8);
        lemma_hex_text_len(leading_bits(b), 8);
        assert(short_a == short_b);
        lemma_hex_text_injective(leading_bits(a), leading_bits(b), 8);
    }
}

/// Sixteen to a sum of powers is the product of the powers.
pub proof fn lemma_sixteen_to_sum(m: nat, n: nat)
    ensures
        sixteen_to(m + n) == sixteen_to(m) * sixteen_to(n),
    decreases n,
{
    if n == 0 {
        assert(sixteen_to(m) * 1 == sixteen_to(m));
    } else {
        lemma_sixteen_to_sum(m, (n - 1) as nat);
        assert(sixteen_to(m + n) == 16 * sixteen_to((m + n - 1) as nat));
        assert(16 * (sixteen_to(m) * sixteen_to((n - 1) as nat)) == sixteen_to(m) * (16
            * sixteen_to((n - 1) as nat))) by (nonlinear_arith);
    }
}

/// Two users have the same address exactly when they have the same name.
pub proof fn lemma_same_email(first: Seq<char>, second: Seq<char>)
    ensures
        email_for(first) == email_for(second) <==> first == second,
{
    let domain = "@example.com"@;
    if email_for(first) == email_for(second) {
        assert(first.len() + domain.len() == second.len() + domain.len()) by {
            assert(email_for(first).len() == first.len() + domain.len());
            assert(email_for(second).len() == second.len() + domain.len());
        }
        assert(first =~= email_for(first).subrange(0, first.len() as int));
        assert(second =~= email_for(second).subrange(0, second.len() as int));
    }
}

/// The two roles are different texts.
pub proof fn lemma_roles_differ()
    ensures
        role_for(0) != role_for(1),
{
    reveal_strlit("admin");
    reveal_strlit("user");
    assert("admin"@.len() != "user"@.len());
}

/// In a generated collection of users, the first user administers and no
/// other does.
pub proof fn lemma_single_admin(users: Seq<User>, i: int)
    requires
        users_generated(users, users.len()),
        0 <= i < users.len(),
    ensures
        users[i].role@ == role_for(0) <==> i == 0,
{
    lemma_roles_differ();
    assert(users[i]@.role == role_for(i as nat));
}

/// A hash text differs from every password that does not itself begin as
/// a hash text does.
pub proof fn lemma_hash_differs_from_password(hash: Seq<char>, password: Seq<char>)
    requires
        is_argon2id_text(hash),
        !is_argon2id_text(password),
    ensures
        hash != password,
{
}

/// A hash text is never a text of lowercase letters: it begins with a sign
/// that is no letter.
pub proof fn lemma_hash_is_no_lowercase_text(hash: Seq<char>)
    requires
        is_argon2id_text(hash),
    ensures
        !is_lowercase(hash),
{
    reveal_strlit("$argon2id$v=19$m=19456,t=2,p=1$");
    assert(hash.subrange(0, argon2id_prefix().len() as int)[0] == argon2id_prefix()[0]);
    assert(hash[0] == '$');
}

/// Hash texts that hold different salts are different texts, whatever the
/// passwords: two users with the same password are not stored alike unless
/// the same salt was drawn for both.
pub proof fn lemma_other_salt_other_hash(
    first: Seq<char>,
    first_salt: Seq<char>,
    second: Seq<char>,
    second_salt: Seq<char>,
)
    requires
        is_hash_text_with(first, first_salt),
        is_hash_text_with(second, second_salt),
        is_base64_text(first_salt),
        is_base64_text(second_salt),
        first_salt != second_salt,
    ensures
        first != second,
{
    let start = argon2id_prefix().len() as int;
    if first == second {
        if first_salt.len() == second_salt.len() {
            assert(first_salt =~= second_salt);
        } else if first_salt.len() < second_salt.len() {
            let at = first_salt.len() as int;
            assert(second.subrange(start, start + second_salt.len())[at] == second_salt[at]);
            assert(is_base64_char(second_salt[at]));
        } else {
            let at = second_salt.len() as int;
            assert(first.subrange(start, start + first_salt.len())[at] == first_salt[at]);
            assert(is_base64_char(first_salt[at]));
        }
    }
}

/// No generated user holds a password in plain text: the stored text is a
/// hash of a password and differs from every text of lowercase letters.
pub proof fn lemma_password_is_not_stored(users: Seq<User>, i: int, password: Seq<char>)
    requires
        users_generated(users, users.len()),
        0 <= i < users.len(),
        is_lowercase(password),
    ensures
        users[i].password_hash@ != password,
        is_generated_hash(users[i].password_hash@),
{
    assert(users[i]@.password_hash == users[i].password_hash@);
    lemma_generated_hash_is_hash_text(users[i].password_hash@);
    lemma_hash_is_no_lowercase_text(users[i].password_hash@);
}

/// The hash of a generated password begins as every hash text does.
pub proof fn lemma_generated_hash_is_hash_text(hash: Seq<char>)
    requires
        is_generated_hash(hash),
    ensures
        is_argon2id_text(hash),
{
}

/// The two kinds of interaction are different texts.
pub proof fn lemma_kinds_differ()
    ensures
        kind_for(true) != kind_for(false),
{
    reveal_strlit("like");
    reveal_strlit("share");
    assert("like"@.len() != "share"@.len());
}

/// Every interaction of a generated collection is a like or a share, and
/// not both.
pub proof fn lemma_two_kinds(
    interactions: Seq<Interaction>,
    users: Seq<User>,
    posts: Seq<Post>,
    i: int,
)
    requires
        interactions_generated(interactions, users, posts, interactions.len()),
        0 <= i < interactions.len(),
    ensures
        interactions[i].interaction_type@ == kind_for(true) || interactions[i].interaction_type@
            == kind_for(false),
        !(interactions[i].interaction_type@ == kind_for(true) && interactions[i].interaction_type@
            == kind_for(false)),
{
    lemma_kinds_differ();
    assert(interactions[i]@.interaction_type == interactions[i].interaction_type@);
}

/// A valid score is written with one digit before the point and one after
/// it.
pub proof fn lemma_score_text(score: Score)
    requires
        score.is_valid(),
    ensures
        score.text() == seq![
            digit_char((score.tenths / 10) as nat),
            '.',
            digit_char((score.tenths % 10) as nat),
        ],
{
    assert(score.tenths / 10 < 10);
    assert(decimal_text((score.tenths / 10) as nat) == seq![
        digit_char((score.tenths / 10) as nat),
    ]);
    assert(score.text() =~= seq![
        digit_char((score.tenths / 10) as nat),
        '.',
        digit_char((score.tenths % 10) as nat),
    ]);
}

/// Every score of a generated collection of recommendations is valid: it
/// lies between 0.0 and 5.0, in whole tenths.
pub proof fn lemma_scores_valid(
    recommendations: Seq<Recommendation>,
    users: Seq<User>,
    posts: Seq<Post>,
    i: int,
)
    requires
        recommendations_generated(recommendations, users, posts, recommendations.len()),
        0 <= i < recommendations.len(),
    ensures
        recommendations[i].score.is_valid(),
{
}

} // verus!
