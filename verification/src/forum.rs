//! Small forum-side companions of the thread client.
//!
//! The wire-level client itself is an external collaborator; these are the
//! plain values the surrounding process builds for it: the token holder
//! attached to every request, and the category a thread is filed under.

use vstd::prelude::*;

verus! {

/// Holds the access token that is attached to every request the thread
/// client sends.
pub struct AuthInterceptor {
    token: String,
}

impl View for AuthInterceptor {
    type V = Seq<char>;

    closed spec fn view(&self) -> Seq<char> {
        self.token@
    }
}

impl AuthInterceptor {
    /// Wrap the access token.
    pub fn new(token: String) -> (r: AuthInterceptor)
        ensures
            r@ == token@,
    {
        AuthInterceptor { token }
    }

    /// The token to attach to a request.
    pub fn token(&self) -> (r: &String)
        ensures
            r@ == self@,
    {
        &self.token
    }
}

/// The forum's thread categories.
#[derive(Clone, Copy, Debug, PartialEq, Eq, Structural)]
pub enum Category {
    /// General discussion.
    Main,
    /// Campus life.
    School,
    /// Late-night canteen.
    Canteen,
    /// Relationships.
    Emotion,
    /// Studies.
    Study,
    /// Technology.
    Tech,
    /// The duty room.
    DutyRoom,
    /// Games.
    Game,
    /// The deep end.
    Deep,
}

impl Category {
    /// The numeric identifier the forum gives this category.
    pub open spec fn spec_id(self) -> u64 {
        match self {
            Category::Main => 1,
            Category::School => 2,
            Category::Canteen => 3,
            Category::Emotion => 4,
            Category::Study => 5,
            Category::Tech => 6,
            Category::DutyRoom => 7,
            Category::Game => 8,
            Category::Deep => 9,
        }
    }

    /// The numeric identifier the forum gives this category.
    pub fn id(self) -> (r: u64)
        ensures
            r == self.spec_id(),
    {
        match self {
            Category::Main => 1,
            Category::School => 2,
            Category::Canteen => 3,
            Category::Emotion => 4,
            Category::Study => 5,
            Category::Tech => 6,
            Category::DutyRoom => 7,
            Category::Game => 8,
            Category::Deep => 9,
        }
    }
}

} // verus!
