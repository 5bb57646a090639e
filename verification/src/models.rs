//! The five record shapes, what identifies a record, and the two value types
//! that timestamps and scores are held in.

use vstd::prelude::*;
use crate::text::{decimal_string, decimal_text, digit_char};

verus! {

/// Records that carry an identifier of their own.
pub trait Identifiable {
    /// The identifier of `self`.
    spec fn identifier(&self) -> u128;

    /// Reads the identifier.
    fn id(&self) -> (id: u128)
        ensures
            id == self.identifier(),
    ;
}

/// Represents a user in the blog system
#[derive(Debug)]
pub struct User {
    pub id: u128,
    pub username: String,
    pub email: String,
    pub password_hash: String,
    pub role: String,
}

/// What a [`User`] holds, with texts as sequences of characters.
pub struct UserView {
    pub id: u128,
    pub username: Seq<char>,
    pub email: Seq<char>,
    pub password_hash: Seq<char>,
    pub role: Seq<char>,
}

impl View for User {
    type V = UserView;

    open spec fn view(&self) -> UserView {
        UserView {
            id: self.id,
            username: self.username@,
            email: self.email@,
            password_hash: self.password_hash@,
            role: self.role@,
        }
    }
}

impl Identifiable for User {
    open spec fn identifier(&self) -> u128 {
        self.id
    }

    fn id(&self) -> u128 {
        self.id
    }
}

/// Represents a blog post authored by a user
#[derive(Debug)]
pub struct Post {
    pub id: u128,
    pub author_id: u128,
    pub title: String,
    pub content: String,
    pub markdown_content: String,
}

/// What a [`Post`] holds, with texts as sequences of characters.
pub struct PostView {
    pub id: u128,
    pub author_id: u128,
    pub title: Seq<char>,
    pub content: Seq<char>,
    pub markdown_content: Seq<char>,
}

impl View for Post {
    type V = PostView;

    open spec fn view(&self) -> PostView {
        PostView {
            id: self.id,
            author_id: self.author_id,
            title: self.title@,
            content: self.content@,
            markdown_content: self.markdown_content@,
        }
    }
}

impl Identifiable for Post {
    open spec fn identifier(&self) -> u128 {
        self.id
    }

    fn id(&self) -> u128 {
        self.id
    }
}

/// Represents a comment on a blog post
#[derive(Debug)]
pub struct Comment {
    pub id: u128,
    pub post_id: u128,
    pub author_id: u128,
    pub parent_comment_id: Option<u128>,
    pub content: String,
}

/// What a [`Comment`] holds, with texts as sequences of characters.
pub struct CommentView {
    pub id: u128,
    pub post_id: u128,
    pub author_id: u128,
    pub parent_comment_id: Option<u128>,
    pub content: Seq<char>,
}

impl View for Comment {
    type V = CommentView;

    open spec fn view(&self) -> CommentView {
        CommentView {
            id: self.id,
            post_id: self.post_id,
            author_id: self.author_id,
            parent_comment_id: self.parent_comment_id,
            content: self.content@,
        }
    }
}

impl Identifiable for Comment {
    open spec fn identifier(&self) -> u128 {
        self.id
    }

    fn id(&self) -> u128 {
        self.id
    }
}

/// A moment in UTC: whole seconds since 1970-01-01 00:00:00 and the
/// nanoseconds past that second.
#[derive(Clone, Copy, Debug, PartialEq, Eq, Structural)]
pub struct Timestamp {
    pub secs: i64,
    pub nanos: u32,
}

impl Timestamp {
    /// The moment `hours` whole hours before `self`.
    pub open spec fn minus_hours(self, hours: nat) -> Timestamp {
        Timestamp { secs: (self.secs - 3600 * hours) as i64, nanos: self.nanos }
    }

    /// Steps back by `hours` whole hours.
    pub fn hours_before(self, hours: u32) -> (earlier: Timestamp)
        requires
            self.secs - 3600 * hours >= i64::MIN,
        ensures
            earlier == self.minus_hours(hours as nat),
            earlier.secs == self.secs - 3600 * hours,
            earlier.nanos == self.nanos,
    {
        Timestamp { secs: self.secs - 3600 * (hours as i64), nanos: self.nanos }
    }
}

/// Represents a user interaction with a post (view, like, share, etc.)
#[derive(Debug)]
pub struct Interaction {
    pub id: u128,
    pub user_id: u128,
    pub post_id: u128,
    pub interaction_type: String,
    pub timestamp: Timestamp,
}

/// What an [`Interaction`] holds, with texts as sequences of characters.
pub struct InteractionView {
    pub id: u128,
    pub user_id: u128,
    pub post_id: u128,
    pub interaction_type: Seq<char>,
    pub timestamp: Timestamp,
}

impl View for Interaction {
    type V = InteractionView;

    open spec fn view(&self) -> InteractionView {
        InteractionView {
            id: self.id,
            user_id: self.user_id,
            post_id: self.post_id,
            interaction_type: self.interaction_type@,
            timestamp: self.timestamp,
        }
    }
}

impl Identifiable for Interaction {
    open spec fn identifier(&self) -> u128 {
        self.id
    }

    fn id(&self) -> u128 {
        self.id
    }
}

/// The highest score, in tenths.
pub const MAX_SCORE_TENTHS: u8 = 50;

/// A score in fixed point with one fractional digit, held as a number of
/// tenths: `37` stands for 3.7.
#[derive(Clone, Copy, Debug, PartialEq, Eq, Structural)]
pub struct Score {
    pub tenths: u8,
}

impl Score {
    /// A score is valid when it lies between 0.0 and 5.0.
    pub open spec fn is_valid(self) -> bool {
        self.tenths <= MAX_SCORE_TENTHS
    }

    /// The score written with one fractional digit, such as `3.7`.
    pub open spec fn text(self) -> Seq<char> {
        decimal_text((self.tenths / 10) as nat).push('.').push(digit_char((self.tenths % 10) as nat))
    }

    /// Makes the score of `tenths` tenths, if that is no more than 5.0.
    pub fn from_tenths(tenths: u8) -> (score: Option<Score>)
        ensures
            tenths <= MAX_SCORE_TENTHS ==> score == Some(Score { tenths }),
            tenths > MAX_SCORE_TENTHS ==> score is None,
    {
        if tenths <= MAX_SCORE_TENTHS {
            Some(Score { tenths })
        } else {
            None
        }
    }

    /// Writes the score with one fractional digit.
    pub fn to_text(&self) -> (text: String)
        ensures
            text@ == self.text(),
    {
        let mut text = decimal_string((self.tenths / 10) as usize);
        text.push('.');
        text.push((48u8 + self.tenths % 10) as char);
        text
    }
}

/// Represents a post recommendation for a user
#[derive(Debug)]
pub struct Recommendation {
    pub id: u128,
    pub user_id: u128,
    pub post_id: u128,
    pub score: Score,
}

impl Identifiable for Recommendation {
    open spec fn identifier(&self) -> u128 {
        self.id
    }

    fn id(&self) -> u128 {
        self.id
    }
}

} // verus!
