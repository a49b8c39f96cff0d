use vstd::prelude::*;

verus! {

/// Widest actor identifier that the store's record-stamp columns hold.
pub const ACTOR_WIDTH: usize = 8;

/// `user_id` cut to the store's actor width.
pub open spec fn actor_text(user_id: Seq<char>) -> Seq<char> {
    if user_id.len() > ACTOR_WIDTH {
        user_id.take(ACTOR_WIDTH as int)
    } else {
        user_id
    }
}

/// The identifier stamped on rows a transfer writes: the user's identifier,
/// cut to its first eight characters.
#[derive(Debug, Clone)]
pub struct ActorRef {
    id: String,
}

impl ActorRef {
    pub closed spec fn view(&self) -> Seq<char> {
        self.id@
    }

    /// The actor reference for `user_id`.
    pub fn from_user_id(user_id: &str) -> (r: ActorRef)
        ensures
            r@ == actor_text(user_id@),
            r@.len() <= ACTOR_WIDTH,
    {
        let n = user_id.unicode_len();
        if n > ACTOR_WIDTH {
            ActorRef { id: String::from_str(user_id.substring_char(0, ACTOR_WIDTH)) }
        } else {
            ActorRef { id: String::from_str(user_id) }
        }
    }

    /// The same reference.
    pub fn duplicate(&self) -> (r: ActorRef)
        ensures
            r@ == self@,
    {
        ActorRef { id: self.id.clone() }
    }

    /// The identifier as text.
    pub fn as_str(&self) -> (r: &str)
        ensures
            r@ == self@,
    {
        self.id.as_str()
    }
}

} // verus!
