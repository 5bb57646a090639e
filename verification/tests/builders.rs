use db_seeder::db::rows::{
    comment_row, interaction_row, post_row, recommendation_row, user_row, SqlValue,
};
use db_seeder::generators::data_generators::{
    add_user, attach_parent, build_comment, build_interaction, build_post, build_recommendation,
    build_user,
};
use db_seeder::generators::helpers::GenerationError;
use db_seeder::models::{
    Comment, Identifiable, Interaction, Post, Recommendation, Score, Timestamp, User,
};

#[test]
fn build_user_names_the_user_after_its_identifier() {
    let id: u128 = 0xa1a2a3a4b1b2c1c2d1d2d3d4d5d6d7d8;
    let user = build_user(0, id, String::from("hashed"));
    assert_eq!(user.id, id);
    assert_eq!(user.username, "user_a1a2a3a4");
    assert_eq!(user.email, "user_a1a2a3a4@example.com");
    assert_eq!(user.password_hash, "hashed");
    assert_eq!(user.role, "admin");
}

#[test]
fn build_user_pads_the_identifier_with_zeros() {
    let user = build_user(3, 0x1f, String::from("h"));
    assert_eq!(user.username, "user_00000000");
    assert_eq!(user.email, "user_00000000@example.com");
    assert_eq!(user.role, "user");
    let other = build_user(1, 0x0000_0abc_0000_0000_0000_0000_0000_0000, String::from("h"));
    assert_eq!(other.username, "user_00000abc");
}

#[test]
fn build_user_gives_the_elevated_role_to_position_zero_only() {
    assert_eq!(build_user(0, 1, String::new()).role, "admin");
    assert_eq!(build_user(1, 1, String::new()).role, "user");
    assert_eq!(build_user(19, 1, String::new()).role, "user");
    assert_eq!(build_user(usize::MAX, 1, String::new()).role, "user");
}

#[test]
fn build_post_fills_the_templates() {
    let post = build_post(7, 11, 22);
    assert_eq!(post.id, 11);
    assert_eq!(post.author_id, 22);
    assert_eq!(post.title, "Post title 7");
    assert_eq!(post.content, "This is the content of post 7. It's very interesting!");
    assert_eq!(
        post.markdown_content,
        "# Post title 7\n\nThis is the content of post 7. It's very interesting!"
    );
}

#[test]
fn build_post_with_a_long_position() {
    let post = build_post(1234, 1, 2);
    assert_eq!(post.title, "Post title 1234");
    assert_eq!(post.content, "This is the content of post 1234. It's very interesting!");
    assert_eq!(
        post.markdown_content,
        "# Post title 1234\n\nThis is the content of post 1234. It's very interesting!"
    );
}

#[test]
fn build_comment_has_no_parent() {
    let comment = build_comment(42, 5, 6, 7);
    assert_eq!(comment.id, 5);
    assert_eq!(comment.post_id, 6);
    assert_eq!(comment.author_id, 7);
    assert_eq!(comment.parent_comment_id, None);
    assert_eq!(comment.content, "This is comment 42!");
}

#[test]
fn attach_parent_links_to_the_earlier_comment_only() {
    let mut comments = vec![
        build_comment(0, 100, 1, 2),
        build_comment(1, 101, 1, 2),
        build_comment(2, 102, 1, 2),
    ];
    attach_parent(&mut comments, 2, 0);
    assert_eq!(comments.len(), 3);
    assert_eq!(comments[0].parent_comment_id, None);
    assert_eq!(comments[1].parent_comment_id, None);
    assert_eq!(comments[2].parent_comment_id, Some(100));
    assert_eq!(comments[2].id, 102);
    assert_eq!(comments[2].content, "This is comment 2!");
    attach_parent(&mut comments, 2, 1);
    assert_eq!(comments[2].parent_comment_id, Some(101));
    attach_parent(&mut comments, 1, 0);
    assert_eq!(comments[1].parent_comment_id, Some(100));
    assert_eq!(comments[0].parent_comment_id, None);
}

#[test]
fn build_interaction_names_its_kind() {
    let now = Timestamp { secs: 1_700_000_000, nanos: 42 };
    let like = build_interaction(1, 2, 3, true, now, 0);
    assert_eq!(like.id, 1);
    assert_eq!(like.user_id, 2);
    assert_eq!(like.post_id, 3);
    assert_eq!(like.interaction_type, "like");
    assert_eq!(like.timestamp, now);
    let share = build_interaction(1, 2, 3, false, now, 5);
    assert_eq!(share.interaction_type, "share");
    assert_eq!(share.timestamp, Timestamp { secs: 1_700_000_000 - 5 * 3600, nanos: 42 });
}

#[test]
fn build_recommendation_keeps_the_score() {
    let recommendation = build_recommendation(9, 8, 7, 37);
    assert_eq!(recommendation.id, 9);
    assert_eq!(recommendation.user_id, 8);
    assert_eq!(recommendation.post_id, 7);
    assert_eq!(recommendation.score, Score { tenths: 37 });
    assert_eq!(recommendation.score.to_text(), "3.7");
    assert_eq!(build_recommendation(9, 8, 7, 0).score.to_text(), "0.0");
    assert_eq!(build_recommendation(9, 8, 7, 49).score.to_text(), "4.9");
}

#[test]
fn every_record_exposes_its_identifier() {
    let user = build_user(0, 1, String::new());
    let post = build_post(0, 2, 1);
    let comment = build_comment(0, 3, 2, 1);
    let interaction = build_interaction(4, 1, 2, true, Timestamp { secs: 0, nanos: 0 }, 0);
    let recommendation = build_recommendation(5, 1, 2, 10);
    assert_eq!(user.id(), 1);
    assert_eq!(post.id(), 2);
    assert_eq!(comment.id(), 3);
    assert_eq!(interaction.id(), 4);
    assert_eq!(recommendation.id(), 5);
}

fn text_of(value: &SqlValue) -> String {
    match value {
        SqlValue::Text(text) => text.clone(),
        other => panic!("expected a text, found {:?}", other),
    }
}

fn uuid_of(value: &SqlValue) -> u128 {
    match value {
        SqlValue::Uuid(id) => *id,
        other => panic!("expected an identifier, found {:?}", other),
    }
}

#[test]
fn user_row_follows_the_column_order() {
    let user = User {
        id: 77,
        username: String::from("name"),
        email: String::from("mail"),
        password_hash: String::from("hash"),
        role: String::from("role"),
    };
    let row = user_row(&user);
    assert_eq!(row.len(), 5);
    assert_eq!(uuid_of(&row[0]), 77);
    assert_eq!(text_of(&row[1]), "name");
    assert_eq!(text_of(&row[2]), "mail");
    assert_eq!(text_of(&row[3]), "hash");
    assert_eq!(text_of(&row[4]), "role");
}

#[test]
fn post_row_follows_the_column_order() {
    let post = Post {
        id: 1,
        author_id: 2,
        title: String::from("t"),
        content: String::from("c"),
        markdown_content: String::from("m"),
    };
    let row = post_row(&post);
    assert_eq!(row.len(), 5);
    assert_eq!(uuid_of(&row[0]), 1);
    assert_eq!(uuid_of(&row[1]), 2);
    assert_eq!(text_of(&row[2]), "t");
    assert_eq!(text_of(&row[3]), "c");
    assert_eq!(text_of(&row[4]), "m");
}

#[test]
fn comment_row_follows_the_column_order() {
    let mut comment = Comment {
        id: 1,
        post_id: 2,
        author_id: 3,
        parent_comment_id: None,
        content: String::from("c"),
    };
    let row = comment_row(&comment);
    assert_eq!(row.len(), 5);
    assert_eq!(uuid_of(&row[0]), 1);
    assert_eq!(uuid_of(&row[1]), 2);
    assert_eq!(uuid_of(&row[2]), 3);
    assert!(matches!(row[3], SqlValue::NullableUuid(None)));
    assert_eq!(text_of(&row[4]), "c");
    comment.parent_comment_id = Some(9);
    let row = comment_row(&comment);
    assert!(matches!(row[3], SqlValue::NullableUuid(Some(9))));
}

#[test]
fn interaction_row_follows_the_column_order() {
    let interaction = Interaction {
        id: 1,
        user_id: 2,
        post_id: 3,
        interaction_type: String::from("like"),
        timestamp: Timestamp { secs: 5, nanos: 6 },
    };
    let row = interaction_row(&interaction);
    assert_eq!(row.len(), 5);
    assert_eq!(uuid_of(&row[0]), 1);
    assert_eq!(uuid_of(&row[1]), 2);
    assert_eq!(uuid_of(&row[2]), 3);
    assert_eq!(text_of(&row[3]), "like");
    assert!(matches!(row[4], SqlValue::Timestamp(Timestamp { secs: 5, nanos: 6 })));
}

#[test]
fn recommendation_row_follows_the_column_order() {
    let recommendation =
        Recommendation { id: 1, user_id: 2, post_id: 3, score: Score { tenths: 12 } };
    let row = recommendation_row(&recommendation);
    assert_eq!(row.len(), 4);
    assert_eq!(uuid_of(&row[0]), 1);
    assert_eq!(uuid_of(&row[1]), 2);
    assert_eq!(uuid_of(&row[2]), 3);
    assert!(matches!(row[3], SqlValue::Numeric(Score { tenths: 12 })));
}

#[test]
fn users_are_named_alike_exactly_when_their_identifiers_agree_in_the_first_eight_digits() {
    let first = build_user(1, 0xdeadbeef_0000_0000_0000_0000_0000_0001, String::new());
    let second = build_user(2, 0xdeadbeef_ffff_ffff_ffff_ffff_ffff_ffff, String::new());
    let third = build_user(3, 0xdeadbeee_0000_0000_0000_0000_0000_0001, String::new());
    assert_eq!(first.username, "user_deadbeef");
    assert_eq!(first.username, second.username);
    assert_eq!(first.email, second.email);
    assert_ne!(first.username, third.username);
    assert_ne!(first.email, third.email);
}

#[test]
fn add_user_puts_the_user_at_the_next_position() {
    let mut users: Vec<User> = Vec::new();
    assert_eq!(add_user(&mut users, 0x11, Ok(String::from("first hash"))), Ok(()));
    assert_eq!(add_user(&mut users, 0x22, Ok(String::from("second hash"))), Ok(()));
    assert_eq!(users.len(), 2);
    assert_eq!(users[0].id, 0x11);
    assert_eq!(users[0].username, "user_00000000");
    assert_eq!(users[0].email, "user_00000000@example.com");
    assert_eq!(users[0].password_hash, "first hash");
    assert_eq!(users[0].role, "admin");
    assert_eq!(users[1].id, 0x22);
    assert_eq!(users[1].password_hash, "second hash");
    assert_eq!(users[1].role, "user");
}

#[test]
fn add_user_hands_on_a_failed_hash_and_adds_nothing() {
    let mut users: Vec<User> = Vec::new();
    assert_eq!(add_user(&mut users, 1, Err(GenerationError::Hashing)), Err(GenerationError::Hashing));
    assert!(users.is_empty());
    assert_eq!(add_user(&mut users, 2, Ok(String::from("hash"))), Ok(()));
    assert_eq!(add_user(&mut users, 3, Err(GenerationError::Hashing)), Err(GenerationError::Hashing));
    assert_eq!(users.len(), 1);
    assert_eq!(users[0].id, 2);
    assert_eq!(users[0].role, "admin");
}
