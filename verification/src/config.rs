//! How many records a run generates, and the tuning of the random draws.

use vstd::prelude::*;

verus! {

/// Number of users to generate
pub const NUM_USERS: usize = 20;

/// Number of posts to generate
pub const NUM_POSTS: usize = 50;

/// Number of comments to generate
pub const NUM_COMMENTS: usize = 100;

/// Number of user interactions to generate
pub const NUM_INTERACTIONS: usize = 200;

/// Number of recommendations to generate
pub const NUM_RECOMMENDATIONS: usize = 100;

/// Length of the throwaway password that is hashed for each user
pub const PASSWORD_LENGTH: usize = 12;

/// Out of `RATE_SCALE` comments, how many reply to an earlier comment
pub const REPLY_RATE: u32 = 3;

/// Out of `RATE_SCALE` interactions, how many are likes; the rest are shares
pub const LIKE_RATE: u32 = 7;

/// What the two rates above are measured against
pub const RATE_SCALE: u32 = 10;

/// An interaction lies less than this many hours before its generation
pub const INTERACTION_WINDOW_HOURS: u32 = 48;

/// A generated score lies below this many tenths
pub const SCORE_STEPS: u8 = 50;

} // verus!
