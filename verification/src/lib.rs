//! Synthesises a graph of related sample records (users, posts, comments,
//! interactions, recommendations) and plans how each batch is loaded into a
//! relational store.

pub mod config;
pub mod db;
pub mod generators;
pub mod models;
pub mod query;
pub mod sources;
pub mod text;

// Re-export commonly used items
pub use config::{NUM_COMMENTS, NUM_INTERACTIONS, NUM_POSTS, NUM_RECOMMENDATIONS, NUM_USERS};
pub use db::batch::{BatchAction, BatchState, StoreReply};
pub use db::rows::{
    comment_row, interaction_row, post_row, recommendation_row, user_row, SqlValue,
};
pub use generators::data_generators::{
    generate_comments, generate_interactions, generate_posts, generate_recommendations,
    generate_users,
};
pub use generators::helpers::{collect_ids, GenerationError};
pub use models::{
    Comment, Identifiable, Interaction, Post, Recommendation, Score, Timestamp, User,
};
pub use query::Query;
