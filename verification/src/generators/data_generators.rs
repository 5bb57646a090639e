//! The five generators. Each draws its random material, one record at a
//! time, and hands it to a builder that makes the record from it; the
//! builders say exactly what a record holds.

use vstd::prelude::*;
use crate::config::{
    INTERACTION_WINDOW_HOURS, LIKE_RATE, PASSWORD_LENGTH, RATE_SCALE, REPLY_RATE, SCORE_STEPS,
};
use crate::generators::helpers::{
    choose_random_id, collect_ids, generate_password, has_identifier, hash_password, is_hash_of,
    is_hashing_of, is_lowercase, lemma_picked_has_identifier, GenerationError,
};
use crate::models::{
    Comment, CommentView, Interaction, InteractionView, Post, PostView, Recommendation, Score,
    Timestamp, User, UserView,
};
use crate::sources::{
    argon2id_text, fresh_id, is_clock_reading, is_fresh_salt, is_random_uuid, random_below,
    random_ratio, simple_hex, utc_now,
};
use crate::text::{decimal_string, decimal_text, hex_text, lemma_hex_text_len};

verus! {

/// The name of the user with the identifier `id`: a fixed prefix and the
/// first eight hexadecimal digits of the identifier.
pub open spec fn username_for(id: u128) -> Seq<char> {
    "user_"@ + hex_text(id as nat, 32).subrange(0, 8)
}

/// The address of the user called `username`.
pub open spec fn email_for(username: Seq<char>) -> Seq<char> {
    username + "@example.com"@
}

/// The role of the user at position `index`: the first one administers.
pub open spec fn role_for(index: nat) -> Seq<char> {
    if index == 0 {
        "admin"@
    } else {
        "user"@
    }
}

/// What the user at position `index` holds, given its identifier and the
/// hash of its password.
pub open spec fn built_user(index: nat, id: u128, password_hash: Seq<char>) -> UserView {
    UserView {
        id,
        username: username_for(id),
        email: email_for(username_for(id)),
        password_hash,
        role: role_for(index),
    }
}

/// Makes the user at position `index` from a drawn identifier and the hash
/// of a drawn password.
pub fn build_user(index: usize, id: u128, password_hash: String) -> (user: User)
    ensures
        user@ == built_user(index as nat, id, password_hash@),
{
    let hex = simple_hex(id);
    proof {
        lemma_hex_text_len(id as nat, 32);
    }
    let mut username = "user_".to_owned();
    username.append(hex.as_str().substring_char(0, 8));
    let mut email = username.clone();
    email.append("@example.com");
    let role = if index == 0 {
        "admin".to_owned()
    } else {
        "user".to_owned()
    };
    User { id, username, email, password_hash, role }
}

/// Takes the outcome of hashing a password for the next user of `users`.
/// Where there is a hash, the user made from `id` and the hash is put at
/// the end, at the next position; where hashing failed, the collection
/// stays as it was and the error is handed on.
pub fn add_user(users: &mut Vec<User>, id: u128, hash: Result<String, GenerationError>) -> (added:
    Result<(), GenerationError>)
    ensures
        match hash {
            Ok(text) => {
                &&& added is Ok
                &&& final(users)@.len() == old(users)@.len() + 1
                &&& final(users)@.drop_last() == old(users)@
                &&& final(users)@.last()@ == built_user(old(users)@.len(), id, text@)
            },
            Err(error) => added == Err::<(), GenerationError>(error) && final(users)@ == old(
                users,
            )@,
        },
{
    match hash {
        Ok(text) => {
            let user = build_user(users.len(), id, text);
            users.push(user);
            assert(users@.drop_last() =~= old(users)@);
            Ok(())
        },
        Err(error) => Err(error),
    }
}

/// The text `hash` is an Argon2id hash of some password of lowercase
/// letters that has the length of the generated passwords.
pub open spec fn is_generated_hash(hash: Seq<char>) -> bool {
    exists|password: Seq<char>|
        password.len() == PASSWORD_LENGTH && is_lowercase(password) && #[trigger] is_hash_of(
            hash,
            password,
        )
}

/// What holds of the user generated at position `index`.
pub open spec fn user_shape(user: UserView, index: nat) -> bool {
    &&& is_random_uuid(user.id)
    &&& user.username == username_for(user.id)
    &&& user.email == email_for(user.username)
    &&& is_generated_hash(user.password_hash)
    &&& user.role == role_for(index)
}

/// What holds of a collection of `count` generated users.
pub open spec fn users_generated(users: Seq<User>, count: nat) -> bool {
    &&& users.len() == count
    &&& forall|i: int| 0 <= i < users.len() ==> user_shape((#[trigger] users[i])@, i as nat)
}

/// Generates `count` random users. Fails only where the password hasher
/// does, on one of the passwords it was handed, and never for an empty
/// collection.
pub fn generate_users(count: usize) -> (users: Result<Vec<User>, GenerationError>)
    ensures
        count == 0 ==> users is Ok,
        users matches Ok(generated) ==> users_generated(generated@, count as nat),
        users is Err ==> exists|password: Seq<char>, salt: Seq<char>|
            password.len() == PASSWORD_LENGTH && is_lowercase(password) && is_fresh_salt(salt) && (
            #[trigger] argon2id_text(password, salt)) is None,
{
    let mut rng = rand::thread_rng();
    let mut users: Vec<User> = Vec::new();
    let mut i: usize = 0;
    while i < count
        invariant
            i <= count,
            users_generated(users@, i as nat),
        decreases count - i,
    {
        let id = fresh_id();
        let password = generate_password(&mut rng, PASSWORD_LENGTH);
        let hashed_password = hash_password(password.as_str());
        let ghost salt = choose|salt: Seq<char>|
            is_fresh_salt(salt) && #[trigger] is_hashing_of(hashed_password, password@, salt);
        let ghost before = users@;
        match add_user(&mut users, id, hashed_password) {
            Ok(()) => {
                assert forall|k: int| 0 <= k < users@.len() implies user_shape(
                    (#[trigger] users@[k])@,
                    k as nat,
                ) by {
                    if k < before.len() {
                        assert(users@[k] == users@.drop_last()[k]);
                    } else {
                        assert(users@[k] == users@.last());
                        assert(is_hash_of(users@[k]@.password_hash, password@));
                    }
                }
            },
            Err(error) => {
                assert(argon2id_text(password@, salt) is None);
                return Err(error);
            },
        }
        i = i + 1;
    }
    Ok(users)
}

/// The title of the post at position `index`.
pub open spec fn post_title(index: nat) -> Seq<char> {
    "Post title "@ + decimal_text(index)
}

/// The body of the post at position `index`.
pub open spec fn post_content(index: nat) -> Seq<char> {
    "This is the content of post "@ + decimal_text(index) + ". It's very interesting!"@
}

/// The formatted body of the post at position `index`: the title as a
/// heading, an empty line, and the body.
pub open spec fn post_markdown(index: nat) -> Seq<char> {
    "# "@ + post_title(index) + "\n\n"@ + post_content(index)
}

/// Makes the post at position `index` from a drawn identifier and a drawn
/// author.
pub fn build_post(index: usize, id: u128, author_id: u128) -> (post: Post)
    ensures
        post@ == (PostView {
            id,
            author_id,
            title: post_title(index as nat),
            content: post_content(index as nat),
            markdown_content: post_markdown(index as nat),
        }),
{
    let number = decimal_string(index);
    let mut title = "Post title ".to_owned();
    title.append(number.as_str());
    let mut content = "This is the content of post ".to_owned();
    content.append(number.as_str());
    content.append(". It's very interesting!");
    let mut markdown_content = "# ".to_owned();
    markdown_content.append(title.as_str());
    markdown_content.append("\n\n");
    markdown_content.append(content.as_str());
    Post { id, author_id, title, content, markdown_content }
}

/// What holds of the texts and the identifier of the post generated at
/// position `index`.
pub open spec fn post_shape(post: PostView, index: nat) -> bool {
    &&& is_random_uuid(post.id)
    &&& post.title == post_title(index)
    &&& post.content == post_content(index)
    &&& post.markdown_content == post_markdown(index)
}

/// What holds of a collection of `count` posts generated for `users`: each
/// post has the texts of its position and an author among the users.
pub open spec fn posts_generated(posts: Seq<Post>, users: Seq<User>, count: nat) -> bool {
    &&& posts.len() == count
    &&& forall|i: int|
        0 <= i < posts.len() ==> {
            &&& post_shape((#[trigger] posts[i])@, i as nat)
            &&& has_identifier(users, posts[i].author_id)
        }
}

/// Generates `count` random posts, each by one of `users`. There must be a
/// user to pick unless no post is asked for.
pub fn generate_posts(count: usize, users: &[User]) -> (posts: Vec<Post>)
    requires
        count > 0 ==> users@.len() > 0,
    ensures
        posts_generated(posts@, users@, count as nat),
{
    let mut rng = rand::thread_rng();
    let user_ids = collect_ids(users);
    let mut posts: Vec<Post> = Vec::new();
    let mut i: usize = 0;
    while i < count
        invariant
            i <= count,
            count > 0 ==> users@.len() > 0,
            user_ids@.len() == users@.len(),
            forall|j: int| 0 <= j < users@.len() ==> user_ids@[j] == (#[trigger] users@[j]).id,
            posts_generated(posts@, users@, i as nat),
        decreases count - i,
    {
        let author_id = choose_random_id(&mut rng, user_ids.as_slice());
        let post = build_post(i, fresh_id(), author_id);
        proof {
            lemma_picked_has_identifier(users@, user_ids@, author_id);
        }
        posts.push(post);
        i = i + 1;
    }
    posts
}

/// The text of the comment at position `index`.
pub open spec fn comment_content(index: nat) -> Seq<char> {
    "This is comment "@ + decimal_text(index) + "!"@
}

/// Makes the comment at position `index` from a drawn identifier, a drawn
/// post and a drawn author. It replies to no other comment.
pub fn build_comment(index: usize, id: u128, post_id: u128, author_id: u128) -> (comment: Comment)
    ensures
        comment@ == (CommentView {
            id,
            post_id,
            author_id,
            parent_comment_id: None,
            content: comment_content(index as nat),
        }),
{
    let mut content = "This is comment ".to_owned();
    content.append(decimal_string(index).as_str());
    content.append("!");
    Comment { id, post_id, author_id, parent_comment_id: None, content }
}

/// Makes the comment at position `child` a reply to the one at position
/// `parent`, which must come before it. Nothing else changes.
pub fn attach_parent(comments: &mut Vec<Comment>, child: usize, parent: usize)
    requires
        parent < child < old(comments)@.len(),
    ensures
        final(comments)@.len() == old(comments)@.len(),
        final(comments)@[child as int]@ == (CommentView {
            parent_comment_id: Some(old(comments)@[parent as int].id),
            ..old(comments)@[child as int]@
        }),
        forall|k: int|
            0 <= k < old(comments)@.len() && k != child ==> final(comments)@[k] == old(
                comments,
            )@[k],
{
    let parent_id = comments[parent].id;
    comments[child].parent_comment_id = Some(parent_id);
}

/// The comment at position `i` replies to nothing, or to a comment at an
/// earlier position.
pub open spec fn parent_precedes(comments: Seq<Comment>, i: int) -> bool {
    comments[i].parent_comment_id matches Some(parent) ==> exists|j: int|
        0 <= j < i && (#[trigger] comments[j]).id == parent
}

/// What holds of the comment generated at position `index`, whatever it
/// replies to.
pub open spec fn comment_shape(comment: CommentView, index: nat) -> bool {
    &&& is_random_uuid(comment.id)
    &&& comment.content == comment_content(index)
}

/// What holds of a collection of `count` comments generated for `users` and
/// `posts`: each comment has the text of its position, an author among the
/// users, a post among the posts, and replies, if at all, to an earlier
/// comment of the collection.
pub open spec fn comments_generated(
    comments: Seq<Comment>,
    users: Seq<User>,
    posts: Seq<Post>,
    count: nat,
) -> bool {
    &&& comments.len() == count
    &&& forall|i: int|
        0 <= i < comments.len() ==> {
            &&& comment_shape((#[trigger] comments[i])@, i as nat)
            &&& has_identifier(users, comments[i].author_id)
            &&& has_identifier(posts, comments[i].post_id)
            &&& parent_precedes(comments, i)
        }
}

/// Generates `count` random comments, each by one of `users` on one of
/// `posts`. There must be a user and a post to pick unless no comment is
/// asked for.
pub fn generate_comments(count: usize, users: &[User], posts: &[Post]) -> (comments: Vec<Comment>)
    requires
        count > 0 ==> users@.len() > 0 && posts@.len() > 0,
    ensures
        comments_generated(comments@, users@, posts@, count as nat),
{
    let mut rng = rand::thread_rng();
    let user_ids = collect_ids(users);
    let post_ids = collect_ids(posts);

    // Step 1: Generate all comments without parent references
    let mut comments: Vec<Comment> = Vec::new();
    let mut i: usize = 0;
    while i < count
        invariant
            i <= count,
            count > 0 ==> users@.len() > 0 && posts@.len() > 0,
            user_ids@.len() == users@.len(),
            forall|j: int| 0 <= j < users@.len() ==> user_ids@[j] == (#[trigger] users@[j]).id,
            post_ids@.len() == posts@.len(),
            forall|j: int| 0 <= j < posts@.len() ==> post_ids@[j] == (#[trigger] posts@[j]).id,
            comments_generated(comments@, users@, posts@, i as nat),
            forall|k: int| 0 <= k < i ==> (#[trigger] comments@[k]).parent_comment_id is None,
        decreases count - i,
    {
        let author_id = choose_random_id(&mut rng, user_ids.as_slice());
        let post_id = choose_random_id(&mut rng, post_ids.as_slice());
        let comment = build_comment(i, fresh_id(), post_id, author_id);
        proof {
            lemma_picked_has_identifier(users@, user_ids@, author_id);
            lemma_picked_has_identifier(posts@, post_ids@, post_id);
        }
        comments.push(comment);
        i = i + 1;
    }

    // Step 2: Update some comments to have parent references
    let mut i: usize = 1;
    while i < count
        invariant
            1 <= i,
            comments@.len() == count,
            forall|k: int|
                0 <= k < count ==> {
                    &&& comment_shape((#[trigger] comments@[k])@, k as nat)
                    &&& has_identifier(users@, comments@[k].author_id)
                    &&& has_identifier(posts@, comments@[k].post_id)
                },
            forall|k: int| 0 <= k < i && k < count ==> parent_precedes(comments@, k),
            forall|k: int| i <= k < count ==> (#[trigger] comments@[k]).parent_comment_id is None,
        decreases count - i,
    {
        if random_ratio(&mut rng, REPLY_RATE, RATE_SCALE) {
            // Only a comment at a smaller position can be the parent
            let parent_idx = random_below(&mut rng, i);
            let ghost before = comments@;
            attach_parent(&mut comments, i, parent_idx);
            proof {
                assert(comments@[parent_idx as int].id == before[parent_idx as int].id);
                assert forall|k: int| 0 <= k < i implies parent_precedes(comments@, k) by {
                    assert(parent_precedes(before, k));
                    if let Some(parent) = before[k].parent_comment_id {
                        let j = choose|j: int| 0 <= j < k && (#[trigger] before[j]).id == parent;
                        assert(comments@[j].id == parent);
                    }
                }
            }
        }
        i = i + 1;
    }

    comments
}

/// The kind of an interaction: a like or a share.
pub open spec fn kind_for(liked: bool) -> Seq<char> {
    if liked {
        "like"@
    } else {
        "share"@
    }
}

/// Makes an interaction from a drawn identifier, user, post and kind, the
/// time `now` and a drawn number of hours to step back from it.
pub fn build_interaction(
    id: u128,
    user_id: u128,
    post_id: u128,
    liked: bool,
    now: Timestamp,
    hours_back: u32,
) -> (interaction: Interaction)
    requires
        now.secs - 3600 * hours_back >= i64::MIN,
    ensures
        interaction@ == (InteractionView {
            id,
            user_id,
            post_id,
            interaction_type: kind_for(liked),
            timestamp: now.minus_hours(hours_back as nat),
        }),
{
    let interaction_type = if liked {
        "like".to_owned()
    } else {
        "share".to_owned()
    };
    Interaction { id, user_id, post_id, interaction_type, timestamp: now.hours_before(hours_back) }
}

/// The moment `timestamp` lies a whole number of hours, fewer than the
/// window allows, before some reading of the clock.
pub open spec fn in_recent_window(timestamp: Timestamp) -> bool {
    exists|now: Timestamp, hours: nat|
        is_clock_reading(now) && hours < INTERACTION_WINDOW_HOURS && timestamp
            == #[trigger] now.minus_hours(hours)
}

/// What holds of every generated interaction.
pub open spec fn interaction_shape(interaction: InteractionView) -> bool {
    &&& is_random_uuid(interaction.id)
    &&& interaction.interaction_type == kind_for(true) || interaction.interaction_type
        == kind_for(false)
    &&& in_recent_window(interaction.timestamp)
}

/// What holds of a collection of `count` interactions generated for
/// `users` and `posts`.
pub open spec fn interactions_generated(
    interactions: Seq<Interaction>,
    users: Seq<User>,
    posts: Seq<Post>,
    count: nat,
) -> bool {
    &&& interactions.len() == count
    &&& forall|i: int|
        0 <= i < interactions.len() ==> {
            &&& interaction_shape((#[trigger] interactions[i])@)
            &&& has_identifier(users, interactions[i].user_id)
            &&& has_identifier(posts, interactions[i].post_id)
        }
}

/// Generates `count` random interactions of `users` with `posts`. There
/// must be a user and a post to pick unless no interaction is asked for.
pub fn generate_interactions(count: usize, users: &[User], posts: &[Post]) -> (interactions: Vec<
    Interaction,
>)
    requires
        count > 0 ==> users@.len() > 0 && posts@.len() > 0,
    ensures
        interactions_generated(interactions@, users@, posts@, count as nat),
{
    let mut rng = rand::thread_rng();
    let user_ids = collect_ids(users);
    let post_ids = collect_ids(posts);
    let mut interactions: Vec<Interaction> = Vec::new();
    let mut i: usize = 0;
    while i < count
        invariant
            i <= count,
            count > 0 ==> users@.len() > 0 && posts@.len() > 0,
            user_ids@.len() == users@.len(),
            forall|j: int| 0 <= j < users@.len() ==> user_ids@[j] == (#[trigger] users@[j]).id,
            post_ids@.len() == posts@.len(),
            forall|j: int| 0 <= j < posts@.len() ==> post_ids@[j] == (#[trigger] posts@[j]).id,
            interactions_generated(interactions@, users@, posts@, i as nat),
        decreases count - i,
    {
        let user_id = choose_random_id(&mut rng, user_ids.as_slice());
        let post_id = choose_random_id(&mut rng, post_ids.as_slice());
        let liked = random_ratio(&mut rng, LIKE_RATE, RATE_SCALE);
        let hours_back = random_below(&mut rng, INTERACTION_WINDOW_HOURS as usize) as u32;
        let now = utc_now();
        let interaction = build_interaction(fresh_id(), user_id, post_id, liked, now, hours_back);
        proof {
            lemma_picked_has_identifier(users@, user_ids@, user_id);
            lemma_picked_has_identifier(posts@, post_ids@, post_id);
            assert(interaction.timestamp == now.minus_hours(hours_back as nat));
        }
        interactions.push(interaction);
        i = i + 1;
    }
    interactions
}

/// Makes a recommendation from a drawn identifier, user, post and score.
pub fn build_recommendation(id: u128, user_id: u128, post_id: u128, tenths: u8) -> (recommendation:
    Recommendation)
    requires
        tenths < SCORE_STEPS,
    ensures
        recommendation == (Recommendation { id, user_id, post_id, score: Score { tenths } }),
{
    Recommendation { id, user_id, post_id, score: Score { tenths } }
}

/// What holds of every generated recommendation: its score is one of 0.0,
/// 0.1, and so on up to 4.9.
pub open spec fn recommendation_shape(recommendation: Recommendation) -> bool {
    &&& is_random_uuid(recommendation.id)
    &&& recommendation.score.tenths < SCORE_STEPS
}

/// What holds of a collection of `count` recommendations generated for
/// `users` and `posts`.
pub open spec fn recommendations_generated(
    recommendations: Seq<Recommendation>,
    users: Seq<User>,
    posts: Seq<Post>,
    count: nat,
) -> bool {
    &&& recommendations.len() == count
    &&& forall|i: int|
        0 <= i < recommendations.len() ==> {
            &&& recommendation_shape(#[trigger] recommendations[i])
            &&& has_identifier(users, recommendations[i].user_id)
            &&& has_identifier(posts, recommendations[i].post_id)
        }
}

/// Generates `count` random recommendations of `posts` to `users`. There
/// must be a user and a post to pick unless no recommendation is asked for.
pub fn generate_recommendations(count: usize, users: &[User], posts: &[Post]) -> (recommendations:
    Vec<Recommendation>)
    requires
        count > 0 ==> users@.len() > 0 && posts@.len() > 0,
    ensures
        recommendations_generated(recommendations@, users@, posts@, count as nat),
{
    let mut rng = rand::thread_rng();
    let user_ids = collect_ids(users);
    let post_ids = collect_ids(posts);
    let mut recommendations: Vec<Recommendation> = Vec::new();
    let mut i: usize = 0;
    while i < count
        invariant
            i <= count,
            count > 0 ==> users@.len() > 0 && posts@.len() > 0,
            user_ids@.len() == users@.len(),
            forall|j: int| 0 <= j < users@.len() ==> user_ids@[j] == (#[trigger] users@[j]).id,
            post_ids@.len() == posts@.len(),
            forall|j: int| 0 <= j < posts@.len() ==> post_ids@[j] == (#[trigger] posts@[j]).id,
            recommendations_generated(recommendations@, users@, posts@, i as nat),
        decreases count - i,
    {
        let user_id = choose_random_id(&mut rng, user_ids.as_slice());
        let post_id = choose_random_id(&mut rng, post_ids.as_slice());

        // A random score between 0.0 and 4.9 with one decimal place
        let tenths = random_below(&mut rng, SCORE_STEPS as usize) as u8;
        let recommendation = build_recommendation(fresh_id(), user_id, post_id, tenths);
        proof {
            lemma_picked_has_identifier(users@, user_ids@, user_id);
            lemma_picked_has_identifier(posts@, post_ids@, post_id);
        }
        recommendations.push(recommendation);
        i = i + 1;
    }
    recommendations
}

} // verus!
