//! The values that are bound to the insert statement of each record, in the
//! order of the statement's columns.

use vstd::prelude::*;
use crate::models::{
    Comment, CommentView, Interaction, InteractionView, Post, PostView, Recommendation, Score,
    Timestamp, User, UserView,
};

verus! {

/// One value bound to a positional parameter of a statement.
#[derive(Debug)]
pub enum SqlValue {
    /// An identifier
    Uuid(u128),
    /// An identifier that may be absent
    NullableUuid(Option<u128>),
    /// A text
    Text(String),
    /// A moment in UTC
    Timestamp(Timestamp),
    /// A number in fixed point
    Numeric(Score),
}

/// What a [`SqlValue`] holds, with texts as sequences of characters.
pub enum SqlValueView {
    Uuid(u128),
    NullableUuid(Option<u128>),
    Text(Seq<char>),
    Timestamp(Timestamp),
    Numeric(Score),
}

impl View for SqlValue {
    type V = SqlValueView;

    open spec fn view(&self) -> SqlValueView {
        match self {
            SqlValue::Uuid(id) => SqlValueView::Uuid(*id),
            SqlValue::NullableUuid(id) => SqlValueView::NullableUuid(*id),
            SqlValue::Text(text) => SqlValueView::Text(text@),
            SqlValue::Timestamp(moment) => SqlValueView::Timestamp(*moment),
            SqlValue::Numeric(score) => SqlValueView::Numeric(*score),
        }
    }
}

/// The views of the values of a row, in order.
pub open spec fn row_view(row: Seq<SqlValue>) -> Seq<SqlValueView> {
    Seq::new(row.len(), |i: int| row[i]@)
}

/// The row of a user: id, username, email, password_hash, role.
pub open spec fn user_row_view(user: UserView) -> Seq<SqlValueView> {
    seq![
        SqlValueView::Uuid(user.id),
        SqlValueView::Text(user.username),
        SqlValueView::Text(user.email),
        SqlValueView::Text(user.password_hash),
        SqlValueView::Text(user.role),
    ]
}

/// The row of a post: id, author_id, title, content, markdown_content.
pub open spec fn post_row_view(post: PostView) -> Seq<SqlValueView> {
    seq![
        SqlValueView::Uuid(post.id),
        SqlValueView::Uuid(post.author_id),
        SqlValueView::Text(post.title),
        SqlValueView::Text(post.content),
        SqlValueView::Text(post.markdown_content),
    ]
}

/// The row of a comment: id, post_id, author_id, parent_comment_id,
/// content.
pub open spec fn comment_row_view(comment: CommentView) -> Seq<SqlValueView> {
    seq![
        SqlValueView::Uuid(comment.id),
        SqlValueView::Uuid(comment.post_id),
        SqlValueView::Uuid(comment.author_id),
        SqlValueView::NullableUuid(comment.parent_comment_id),
        SqlValueView::Text(comment.content),
    ]
}

/// The row of an interaction: id, user_id, post_id, interaction_type,
/// timestamp.
pub open spec fn interaction_row_view(interaction: InteractionView) -> Seq<SqlValueView> {
    seq![
        SqlValueView::Uuid(interaction.id),
        SqlValueView::Uuid(interaction.user_id),
        SqlValueView::Uuid(interaction.post_id),
        SqlValueView::Text(interaction.interaction_type),
        SqlValueView::Timestamp(interaction.timestamp),
    ]
}

/// The row of a recommendation: id, user_id, post_id, score.
pub open spec fn recommendation_row_view(recommendation: Recommendation) -> Seq<SqlValueView> {
    seq![
        SqlValueView::Uuid(recommendation.id),
        SqlValueView::Uuid(recommendation.user_id),
        SqlValueView::Uuid(recommendation.post_id),
        SqlValueView::Numeric(recommendation.score),
    ]
}

/// The values to bind when `user` is inserted.
pub fn user_row(user: &User) -> (row: Vec<SqlValue>)
    ensures
        row_view(row@) == user_row_view(user@),
{
    let mut row: Vec<SqlValue> = Vec::new();
    row.push(SqlValue::Uuid(user.id));
    row.push(SqlValue::Text(user.username.clone()));
    row.push(SqlValue::Text(user.email.clone()));
    row.push(SqlValue::Text(user.password_hash.clone()));
    row.push(SqlValue::Text(user.role.clone()));
    assert(row_view(row@) =~= user_row_view(user@));
    row
}

/// The values to bind when `post` is inserted.
pub fn post_row(post: &Post) -> (row: Vec<SqlValue>)
    ensures
        row_view(row@) == post_row_view(post@),
{
    let mut row: Vec<SqlValue> = Vec::new();
    row.push(SqlValue::Uuid(post.id));
    row.push(SqlValue::Uuid(post.author_id));
    row.push(SqlValue::Text(post.title.clone()));
    row.push(SqlValue::Text(post.content.clone()));
    row.push(SqlValue::Text(post.markdown_content.clone()));
    assert(row_view(row@) =~= post_row_view(post@));
    row
}

/// The values to bind when `comment` is inserted.
pub fn comment_row(comment: &Comment) -> (row: Vec<SqlValue>)
    ensures
        row_view(row@) == comment_row_view(comment@),
{
    let mut row: Vec<SqlValue> = Vec::new();
    row.push(SqlValue::Uuid(comment.id));
    row.push(SqlValue::Uuid(comment.post_id));
    row.push(SqlValue::Uuid(comment.author_id));
    row.push(SqlValue::NullableUuid(comment.parent_comment_id));
    row.push(SqlValue::Text(comment.content.clone()));
    assert(row_view(row@) =~= comment_row_view(comment@));
    row
}

/// The values to bind when `interaction` is inserted.
pub fn interaction_row(interaction: &Interaction) -> (row: Vec<SqlValue>)
    ensures
        row_view(row@) == interaction_row_view(interaction@),
{
    let mut row: Vec<SqlValue> = Vec::new();
    row.push(SqlValue::Uuid(interaction.id));
    row.push(SqlValue::Uuid(interaction.user_id));
    row.push(SqlValue::Uuid(interaction.post_id));
    row.push(SqlValue::Text(interaction.interaction_type.clone()));
    row.push(SqlValue::Timestamp(interaction.timestamp));
    assert(row_view(row@) =~= interaction_row_view(interaction@));
    row
}

/// The values to bind when `recommendation` is inserted.
pub fn recommendation_row(recommendation: &Recommendation) -> (row: Vec<SqlValue>)
    ensures
        row_view(row@) == recommendation_row_view(*recommendation),
{
    let mut row: Vec<SqlValue> = Vec::new();
    row.push(SqlValue::Uuid(recommendation.id));
    row.push(SqlValue::Uuid(recommendation.user_id));
    row.push(SqlValue::Uuid(recommendation.post_id));
    row.push(SqlValue::Numeric(recommendation.score));
    assert(row_view(row@) =~= recommendation_row_view(*recommendation));
    row
}

} // verus!
