//! Plain data model of the engine.
//!
//! Users, rooms (sessions) and words are identified by opaque strings.  The
//! durable Store keeps timestamps for its rows; here a timestamp is a plain
//! signed number of seconds, so that everything the logic reads from a record
//! is a value Verus can reason about.  The `*View` ghost types are the
//! mathematical images of the exec records, used throughout the contracts.

use vstd::prelude::*;

verus! {

/// A member of one or more sessions, as the Store returns it.
#[derive(Debug, PartialEq, Eq)]
pub struct User {
    pub id: String,
    pub name: Option<String>,
    pub created_at: i64,
}

pub ghost struct UserView {
    pub id: Seq<char>,
    pub name: Option<Seq<char>>,
    pub created_at: i64,
}

impl View for User {
    type V = UserView;

    open spec fn view(&self) -> UserView {
        UserView {
            id: self.id@,
            name: match self.name {
                Some(n) => Some(n@),
                None => None,
            },
            created_at: self.created_at,
        }
    }
}

impl User {
    /// An equal copy, for fanning one record out to several recipients.
    pub fn duplicate(&self) -> (r: User)
        ensures
            r == *self,
    {
        User {
            id: self.id.clone(),
            name: match &self.name {
                Some(n) => Some(n.clone()),
                None => None,
            },
            created_at: self.created_at,
        }
    }
}

/// The image of a user list, as the contracts speak of it.
pub open spec fn user_views(s: Seq<User>) -> Seq<UserView> {
    s.map_values(|u: User| u@)
}

/// The ids of a user list, in order.
pub open spec fn user_ids(s: Seq<UserView>) -> Seq<Seq<char>> {
    s.map_values(|u: UserView| u.id)
}

/// The image of a list of strings.
pub open spec fn str_views(s: Seq<String>) -> Seq<Seq<char>> {
    s.map_values(|x: String| x@)
}

/// One word of a session's shared word list, as the Store returns it.
#[derive(Debug, PartialEq, Eq)]
pub struct Word {
    pub word: String,
    pub created_at: i64,
    pub session_id: String,
    pub user_id: String,
}

pub ghost struct WordView {
    pub word: Seq<char>,
    pub created_at: i64,
    pub session_id: Seq<char>,
    pub user_id: Seq<char>,
}

impl View for Word {
    type V = WordView;

    open spec fn view(&self) -> WordView {
        WordView {
            word: self.word@,
            created_at: self.created_at,
            session_id: self.session_id@,
            user_id: self.user_id@,
        }
    }
}

/// The image of a word list.
pub open spec fn word_views(s: Seq<Word>) -> Seq<WordView> {
    s.map_values(|w: Word| w@)
}

/// A user row to be inserted into the Store.
pub struct NewUser {
    pub id: String,
    pub name: Option<String>,
}

/// A word row to be inserted into the Store.
pub struct NewWord {
    pub word: String,
    pub session_id: String,
    pub user_id: String,
}

/// A session row to be inserted into the Store.
pub struct NewSession {
    pub id: String,
    pub public: bool,
    pub admin_user_id: String,
}

/// One row of the many-to-many user/session relation.
pub struct UsersSession {
    pub user_id: String,
    pub session_id: String,
}

/// Request payload for creating a session.
pub struct NewSessionDto {
    pub id: String,
    pub public: Option<bool>,
}

/// Request payload for naming a user.
pub struct NewUserDto {
    pub name: Option<String>,
}

/// Request payload for submitting a word.
pub struct NewWordDto {
    pub word: String,
}

/// A plain message body for simple replies.
pub struct Response {
    pub message: String,
}

/// The authenticated identity a connection acts under.
#[derive(Debug, Clone, PartialEq, Eq)]
pub struct UserId(pub String);

impl From<String> for UserId {
    fn from(user_id: String) -> (r: UserId) {
        UserId(user_id)
    }
}

impl vstd::std_specs::convert::FromSpecImpl<String> for UserId {
    open spec fn obeys_from_spec() -> bool {
        true
    }

    open spec fn from_spec(user_id: String) -> UserId {
        UserId(user_id)
    }
}

impl From<UserId> for String {
    fn from(user_id: UserId) -> (r: String) {
        user_id.0
    }
}

impl vstd::std_specs::convert::FromSpecImpl<UserId> for String {
    open spec fn obeys_from_spec() -> bool {
        true
    }

    open spec fn from_spec(user_id: UserId) -> String {
        user_id.0
    }
}

/// The process configuration, read once at start by the surrounding program.
pub struct Environment {
    pub database_url: String,
    pub cookie_secret: String,
    pub redis_url: String,
}

/// The connection string of the durable Store.
pub fn database_url(env: &Environment) -> (r: String)
    ensures
        r@ == env.database_url@,
{
    env.database_url.clone()
}

/// The key that session cookies are sealed with.
pub fn cookie_secret(env: &Environment) -> (r: String)
    ensures
        r@ == env.cookie_secret@,
{
    env.cookie_secret.clone()
}

/// The connection string of the Presence Cache.
pub fn redis_url(env: &Environment) -> (r: String)
    ensures
        r@ == env.redis_url@,
{
    env.redis_url.clone()
}

} // verus!
