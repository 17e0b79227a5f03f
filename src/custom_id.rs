use vstd::prelude::*;
use vstd::string::{StrSliceExecFns, StringExecFns};
use crate::text::{digit_char, same_text};

verus! {

/// The custom id of the button that deletes a bot message.
pub const DELETE_MESSAGE_INTERACTION_CUSTOM_ID: &'static str = "delete_message";

/// The custom id prefix of the menu that sets a reminder on a bookmark.
pub const SET_REMINDER_INTERACTION_CUSTOM_ID: &'static str = "set_reminder";

/// The 128 bits of the UUID that uuid's `parse_str` reads from the text.
pub uninterp spec fn uuid_from_text(s: Seq<char>) -> Option<u128>;

/// The lower-case hexadecimal digit for `d`, which is below sixteen.
pub open spec fn hex_char(d: nat) -> char {
    if d < 10 {
        digit_char(d)
    } else {
        ((d - 10 + 'a' as nat) as u32) as char
    }
}

/// Which of the 32 hexadecimal digits, most significant first, stands at
/// position `i` of the hyphenated form.
pub open spec fn nibble_at(i: int) -> int {
    if i < 8 {
        i
    } else if i < 13 {
        i - 1
    } else if i < 18 {
        i - 2
    } else if i < 23 {
        i - 3
    } else {
        i - 4
    }
}

/// The hyphenated lower-case form of a UUID: 32 hexadecimal digits, most
/// significant first, in groups of 8, 4, 4, 4 and 12 joined by `-`.
pub open spec fn uuid_hyphenated(u: u128) -> Seq<char> {
    Seq::new(
        36,
        |i: int|
            if i == 8 || i == 13 || i == 18 || i == 23 {
                '-'
            } else {
                hex_char(((u >> ((4 * (31 - nibble_at(i))) as u128)) & 15u128) as nat)
            },
    )
}

/// Relies on `uuid::Uuid::parse_str` and `Uuid::as_u128`: the UUID the text
/// holds, if it holds one.
#[verifier::external_body]
pub(crate) fn parse_uuid(s: &str) -> (r: Option<u128>)
    ensures
        r == uuid_from_text(s@),
{
    match uuid::Uuid::parse_str(s) {
        Ok(u) => Some(u.as_u128()),
        Err(_) => None,
    }
}

/// Relies on `uuid::Uuid::from_u128` and `Uuid`'s `Display`, which writes
/// the hyphenated lower-case form.
#[verifier::external_body]
fn uuid_to_text(u: u128) -> (r: String)
    ensures
        r@ == uuid_hyphenated(u),
{
    uuid::Uuid::from_u128(u).to_string()
}

/// What a button or menu of the bot was made for.
#[derive(Debug, Clone, Copy, PartialEq, Eq, Structural)]
pub enum InteractionCustomId {
    /// Delete the message that holds the button.
    DeleteMessage,
    /// Set a reminder on the bookmark with this UUID.
    SetReminder(u128),
}

/// The custom id text of `id`.
pub open spec fn custom_id_text(id: InteractionCustomId) -> Seq<char> {
    match id {
        InteractionCustomId::DeleteMessage => "delete_message"@,
        InteractionCustomId::SetReminder(u) => "set_reminder:"@ + uuid_hyphenated(u),
    }
}

/// What a custom id text names: `delete_message` alone, or `set_reminder`,
/// one `:` and a UUID, with no further `:`.
pub open spec fn parse_custom_id(s: Seq<char>) -> Option<InteractionCustomId> {
    if s == "delete_message"@ {
        Some(InteractionCustomId::DeleteMessage)
    } else if s.len() >= 13 && s.take(13) == "set_reminder:"@ && !s.skip(13).contains(':') {
        match uuid_from_text(s.skip(13)) {
            Some(u) => Some(InteractionCustomId::SetReminder(u)),
            None => None,
        }
    } else {
        None
    }
}

fn has_colon(s: &str) -> (r: bool)
    ensures
        r == s@.contains(':'),
{
    let n = s.unicode_len();
    let mut i: usize = 0;
    while i < n
        invariant
            n == s@.len(),
            i <= n,
            forall|j: int| 0 <= j < i ==> s@[j] != ':',
        decreases n - i,
    {
        if s.get_char(i) == ':' {
            return true;
        }
        i = i + 1;
    }
    false
}

impl InteractionCustomId {
    /// The custom id text to put on a button or menu.
    pub fn to_custom_id(&self) -> (r: String)
        ensures
            r@ == custom_id_text(*self),
    {
        match self {
            InteractionCustomId::DeleteMessage => String::from_str("delete_message"),
            InteractionCustomId::SetReminder(u) => {
                let mut r = String::from_str("set_reminder:");
                let t = uuid_to_text(*u);
                r.append(t.as_str());
                r
            },
        }
    }

    /// Reads a custom id text back. The error says what was wrong with it.
    pub fn parse(value: &str) -> (r: Result<InteractionCustomId, String>)
        ensures
            match r {
                Ok(id) => parse_custom_id(value@) == Some(id),
                Err(msg) => {
                    &&& parse_custom_id(value@) is None
                    &&& msg@ == if value@.len() >= 13 && value@.take(13) == "set_reminder:"@
                        && !value@.skip(13).contains(':') {
                        "Received invalid UUID for set_reminder: "@ + value@.skip(13)
                    } else {
                        "Received invalid custom ID: "@ + value@
                    }
                },
            },
    {
        proof {
            reveal_strlit("delete_message");
            reveal_strlit("set_reminder:");
        }
        if same_text(value, "delete_message") {
            return Ok(InteractionCustomId::DeleteMessage);
        }
        let n = value.unicode_len();
        if n >= 13 {
            let head = value.substring_char(0, 13);
            if same_text(head, "set_reminder:") {
                let rest = value.substring_char(13, n);
                assert(rest@ =~= value@.skip(13));
                if !has_colon(rest) {
                    match parse_uuid(rest) {
                        Some(u) => {
                            return Ok(InteractionCustomId::SetReminder(u));
                        },
                        None => {
                            let mut msg = String::from_str(
                                "Received invalid UUID for set_reminder: ",
                            );
                            msg.append(rest);
                            return Err(msg);
                        },
                    }
                }
            }
        }
        let mut msg = String::from_str("Received invalid custom ID: ");
        msg.append(value);
        Err(msg)
    }
}

} // verus!
