//! The client/server message protocol.
//!
//! Inbound and outbound wire messages are closed sum types, matched
//! exhaustively wherever they are handled, so that adding a variant is a
//! compile-time-checked change.  An outbound message is immutable once
//! constructed and duplicated for multi-recipient delivery; `duplicate`
//! proves that the copy has the same image as the original.

use vstd::prelude::*;

use crate::errors::ApiError;
use crate::errors::api_error_message;
use crate::models::User;
use crate::models::UserView;
use crate::models::user_views;

verus! {

/// A message a connected client may send.
#[derive(Debug, PartialEq, Eq)]
pub enum ClientMessage {
    StartSession { session_id: String },
    AddWord { word: String },
}

pub ghost enum ClientMessageView {
    StartSession { session_id: Seq<char> },
    AddWord { word: Seq<char> },
}

impl View for ClientMessage {
    type V = ClientMessageView;

    open spec fn view(&self) -> ClientMessageView {
        match self {
            ClientMessage::StartSession { session_id } => ClientMessageView::StartSession {
                session_id: session_id@,
            },
            ClientMessage::AddWord { word } => ClientMessageView::AddWord { word: word@ },
        }
    }
}

/// A message the coordinator may emit to one or many connections.
#[derive(Debug, PartialEq, Eq)]
pub enum ServerMessage {
    UsersUpdate { online_users: Vec<User>, offline_users: Vec<User> },
    AddWord { number_of_words: u16 },
    AddWordPersonal { number_of_words: u16, my_words: Vec<String> },
    Error { error: String },
    Empty,
}

pub ghost enum ServerMessageView {
    UsersUpdate { online_users: Seq<UserView>, offline_users: Seq<UserView> },
    AddWord { number_of_words: u16 },
    AddWordPersonal { number_of_words: u16, my_words: Seq<Seq<char>> },
    Error { error: Seq<char> },
    Empty,
}

impl View for ServerMessage {
    type V = ServerMessageView;

    open spec fn view(&self) -> ServerMessageView {
        match self {
            ServerMessage::UsersUpdate { online_users, offline_users } => {
                ServerMessageView::UsersUpdate {
                    online_users: user_views(online_users@),
                    offline_users: user_views(offline_users@),
                }
            },
            ServerMessage::AddWord { number_of_words } => ServerMessageView::AddWord {
                number_of_words: *number_of_words,
            },
            ServerMessage::AddWordPersonal { number_of_words, my_words } => {
                ServerMessageView::AddWordPersonal {
                    number_of_words: *number_of_words,
                    my_words: my_words@.map_values(|w: String| w@),
                }
            },
            ServerMessage::Error { error } => ServerMessageView::Error { error: error@ },
            ServerMessage::Empty => ServerMessageView::Empty,
        }
    }
}

fn duplicate_users(v: &Vec<User>) -> (r: Vec<User>)
    ensures
        user_views(r@) == user_views(v@),
{
    let mut r: Vec<User> = Vec::new();
    let mut i: usize = 0;
    while i < v.len()
        invariant
            i <= v@.len(),
            r@.len() == i,
            forall|j: int| 0 <= j < i ==> r@[j]@ == #[trigger] v@[j]@,
        decreases v@.len() - i,
    {
        r.push(v[i].duplicate());
        i = i + 1;
    }
    proof {
        assert(user_views(r@) =~= user_views(v@));
    }
    r
}

fn duplicate_strings(v: &Vec<String>) -> (r: Vec<String>)
    ensures
        r@.map_values(|w: String| w@) == v@.map_values(|w: String| w@),
{
    let mut r: Vec<String> = Vec::new();
    let mut i: usize = 0;
    while i < v.len()
        invariant
            i <= v@.len(),
            r@.len() == i,
            forall|j: int| 0 <= j < i ==> r@[j]@ == #[trigger] v@[j]@,
        decreases v@.len() - i,
    {
        r.push(v[i].clone());
        i = i + 1;
    }
    proof {
        assert(r@.map_values(|w: String| w@) =~= v@.map_values(|w: String| w@));
    }
    r
}

impl ServerMessage {
    /// A copy with the same image, for delivery to a further recipient.
    pub fn duplicate(&self) -> (r: ServerMessage)
        ensures
            r@ == self@,
    {
        match self {
            ServerMessage::UsersUpdate { online_users, offline_users } => {
                ServerMessage::UsersUpdate {
                    online_users: duplicate_users(online_users),
                    offline_users: duplicate_users(offline_users),
                }
            },
            ServerMessage::AddWord { number_of_words } => ServerMessage::AddWord {
                number_of_words: *number_of_words,
            },
            ServerMessage::AddWordPersonal { number_of_words, my_words } => {
                ServerMessage::AddWordPersonal {
                    number_of_words: *number_of_words,
                    my_words: duplicate_strings(my_words),
                }
            },
            ServerMessage::Error { error } => ServerMessage::Error { error: error.clone() },
            ServerMessage::Empty => ServerMessage::Empty,
        }
    }
}

impl From<ApiError> for ServerMessage {
    fn from(error: ApiError) -> (r: ServerMessage) {
        match error {
            ApiError::Internal { message } => ServerMessage::Error { error: message },
            ApiError::BadRequest { message } => ServerMessage::Error { error: message },
            ApiError::NotFound { message } => ServerMessage::Error { error: message },
            ApiError::Unauthorized { message } => ServerMessage::Error { error: message },
            ApiError::UniqueViolation { message } => ServerMessage::Error { error: message },
            ApiError::Validation { message, .. } => ServerMessage::Error { error: message },
            ApiError::CheckViolation { message } => ServerMessage::Error { error: message },
            ApiError::ForeignKeyViolation { message } => ServerMessage::Error { error: message },
            ApiError::NotNullViolation { message } => ServerMessage::Error { error: message },
        }
    }
}

impl vstd::std_specs::convert::FromSpecImpl<ApiError> for ServerMessage {
    open spec fn obeys_from_spec() -> bool {
        true
    }

    open spec fn from_spec(error: ApiError) -> ServerMessage {
        match error {
            ApiError::Internal { message } => ServerMessage::Error { error: message },
            ApiError::BadRequest { message } => ServerMessage::Error { error: message },
            ApiError::NotFound { message } => ServerMessage::Error { error: message },
            ApiError::Unauthorized { message } => ServerMessage::Error { error: message },
            ApiError::UniqueViolation { message } => ServerMessage::Error { error: message },
            ApiError::Validation { message, .. } => ServerMessage::Error { error: message },
            ApiError::CheckViolation { message } => ServerMessage::Error { error: message },
            ApiError::ForeignKeyViolation { message } => ServerMessage::Error { error: message },
            ApiError::NotNullViolation { message } => ServerMessage::Error { error: message },
        }
    }
}

/// Every error becomes a private `Error` message carrying its text.
pub proof fn lemma_api_error_to_message(e: ApiError)
    ensures
        <ServerMessage as vstd::std_specs::convert::FromSpec<ApiError>>::from_spec(e)@
            == (ServerMessageView::Error { error: api_error_message(e@) }),
{
}

} // verus!
