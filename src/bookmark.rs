use vstd::prelude::*;
use crate::custom_id::{parse_uuid, uuid_from_text};
use crate::record::{check_message_json, is_message_json};
use crate::text::{decimal_u64, parse_u64};

verus! {

/// A message that a user bookmarked, before it is stored.
#[derive(Debug)]
pub struct BookmarkedMessage {
    bookmark_id: u128,
    user_id: u64,
    message: String,
}

/// A stored bookmark, with the key that storage gave it.
#[derive(Debug)]
pub struct PersistedBookmarkedMessage {
    pk: i64,
    bookmark_id: u128,
    user_id: u64,
    message: String,
}

/// Why a stored row could not be read back as a bookmark.
#[derive(Debug, Clone, Copy, PartialEq, Eq, Structural)]
pub enum ParseBookmarkedMessageError {
    /// The bookmark id is not a UUID.
    BookmarkId,
    /// The user id is not a decimal unsigned 64-bit integer.
    UserId,
    /// The message is not the JSON form of a chat message.
    Message,
}

/// Why the stored fields do not read as a bookmark: the first of bookmark
/// id, user id and message that does not read; `None` when all three do.
pub open spec fn bookmark_row_error(bookmark_id: Seq<char>, user_id: Seq<char>, message: Seq<char>) -> Option<
    ParseBookmarkedMessageError,
> {
    if uuid_from_text(bookmark_id) is None {
        Some(ParseBookmarkedMessageError::BookmarkId)
    } else if decimal_u64(user_id) is None {
        Some(ParseBookmarkedMessageError::UserId)
    } else if !is_message_json(message) {
        Some(ParseBookmarkedMessageError::Message)
    } else {
        None
    }
}

impl BookmarkedMessage {
    pub closed spec fn id(&self) -> u128 {
        self.bookmark_id
    }

    pub closed spec fn owner(&self) -> u64 {
        self.user_id
    }

    pub closed spec fn payload(&self) -> Seq<char> {
        self.message@
    }

    pub fn new(bookmark_id: u128, user_id: u64, message: String) -> (r: Self)
        ensures
            r.id() == bookmark_id,
            r.owner() == user_id,
            r.payload() == message@,
    {
        BookmarkedMessage { bookmark_id, user_id, message }
    }

    pub fn bookmark_id(&self) -> (r: u128)
        ensures
            r == self.id(),
    {
        self.bookmark_id
    }

    pub fn user_id(&self) -> (r: u64)
        ensures
            r == self.owner(),
    {
        self.user_id
    }

    pub fn message(&self) -> (r: &String)
        ensures
            r@ == self.payload(),
    {
        &self.message
    }
}

impl PersistedBookmarkedMessage {
    pub closed spec fn key(&self) -> i64 {
        self.pk
    }

    pub closed spec fn id(&self) -> u128 {
        self.bookmark_id
    }

    pub closed spec fn owner(&self) -> u64 {
        self.user_id
    }

    pub closed spec fn payload(&self) -> Seq<char> {
        self.message@
    }

    /// The stored form of `bookmark`, under the key `pk`.
    pub fn from_bookmarked_message(bookmark: BookmarkedMessage, pk: i64) -> (r: Self)
        ensures
            r.key() == pk,
            r.id() == bookmark.id(),
            r.owner() == bookmark.owner(),
            r.payload() == bookmark.payload(),
    {
        PersistedBookmarkedMessage {
            pk,
            bookmark_id: bookmark.bookmark_id,
            user_id: bookmark.user_id,
            message: bookmark.message,
        }
    }

    /// Reads a stored row back: the bookmark id as a UUID, the user id in
    /// decimal and the message as the JSON of a chat message. The first field
    /// that does not read names the error.
    pub fn from_row(pk: i64, bookmark_id: String, user_id: String, message: String) -> (r: Result<
        Self,
        ParseBookmarkedMessageError,
    >)
        ensures
            match r {
                Ok(b) => {
                    &&& bookmark_row_error(bookmark_id@, user_id@, message@) is None
                    &&& b.key() == pk
                    &&& uuid_from_text(bookmark_id@) == Some(b.id())
                    &&& decimal_u64(user_id@) == Some(b.owner())
                    &&& b.payload() == message@
                },
                Err(e) => bookmark_row_error(bookmark_id@, user_id@, message@) == Some(e),
            },
    {
        let id = match parse_uuid(bookmark_id.as_str()) {
            Some(u) => u,
            None => {
                return Err(ParseBookmarkedMessageError::BookmarkId);
            },
        };
        let user = match parse_u64(user_id.as_str()) {
            Some(u) => u,
            None => {
                return Err(ParseBookmarkedMessageError::UserId);
            },
        };
        if !check_message_json(message.as_str()) {
            return Err(ParseBookmarkedMessageError::Message);
        }
        Ok(PersistedBookmarkedMessage { pk, bookmark_id: id, user_id: user, message })
    }

    pub fn pk(&self) -> (r: i64)
        ensures
            r == self.key(),
    {
        self.pk
    }

    pub fn bookmark_id(&self) -> (r: u128)
        ensures
            r == self.id(),
    {
        self.bookmark_id
    }

    pub fn user_id(&self) -> (r: u64)
        ensures
            r == self.owner(),
    {
        self.user_id
    }

    pub fn message(&self) -> (r: &String)
        ensures
            r@ == self.payload(),
    {
        &self.message
    }
}

} // verus!
