use vstd::prelude::*;
use crate::text::{decimal_u64, parse_u64};
use crate::time::Timestamp;

verus! {

/// Whether the text is the JSON form of a chat message, as serde_json reads
/// it into the chat platform's message type.
pub uninterp spec fn is_message_json(s: Seq<char>) -> bool;

/// The instant that an RFC 3339 date-time denotes, as chrono reads it:
/// seconds since the Unix epoch and nanoseconds within the second.
pub uninterp spec fn rfc3339_instant(s: Seq<char>) -> Option<(i64, u32)>;

/// Relies on `serde_json::from_str::<poise::serenity_prelude::Message>`:
/// succeeds exactly on the texts that hold a chat message.
#[verifier::external_body]
pub(crate) fn check_message_json(s: &str) -> (r: bool)
    ensures
        r == is_message_json(s@),
{
    serde_json::from_str::<poise::serenity_prelude::Message>(s).is_ok()
}

/// Relies on `chrono::DateTime::parse_from_rfc3339`, with `timestamp` and
/// `timestamp_subsec_nanos` of its result: the UTC instant the text denotes.
#[verifier::external_body]
fn parse_rfc3339(s: &str) -> (r: Option<(i64, u32)>)
    ensures
        r == rfc3339_instant(s@),
{
    match chrono::DateTime::parse_from_rfc3339(s) {
        Ok(t) => Some((t.timestamp(), t.timestamp_subsec_nanos())),
        Err(_) => None,
    }
}

/// A reminder that has not been stored yet: deliver `message` to the user
/// `user_id` no earlier than `remind_at`.
#[derive(Debug)]
pub struct Reminder {
    user_id: u64,
    message: String,
    remind_at: Timestamp,
}

/// A stored reminder, with the key that storage gave it.
#[derive(Debug)]
pub struct PersistedReminder {
    pk: i64,
    user_id: u64,
    message: String,
    remind_at: Timestamp,
}

/// Why a stored row could not be read back as a reminder.
#[derive(Debug, Clone, Copy, PartialEq, Eq, Structural)]
pub enum ParseReminderError {
    /// The user id is not a decimal unsigned 64-bit integer.
    UserId,
    /// The message is not the JSON form of a chat message.
    Message,
    /// The due time is not an RFC 3339 date-time.
    RemindAt,
}

/// Why the stored fields do not read as a reminder: the first of user id,
/// message and due time that does not read; `None` when all three do.
pub open spec fn row_error(user_id: Seq<char>, message: Seq<char>, remind_at: Seq<char>) -> Option<
    ParseReminderError,
> {
    if decimal_u64(user_id) is None {
        Some(ParseReminderError::UserId)
    } else if !is_message_json(message) {
        Some(ParseReminderError::Message)
    } else if rfc3339_instant(remind_at) is None {
        Some(ParseReminderError::RemindAt)
    } else {
        None
    }
}

/// Whether `rec` is what the stored fields say: the key, the user id read
/// in decimal, the message text and the instant of the RFC 3339 due time.
pub open spec fn reads_as(
    rec: PersistedReminder,
    pk: i64,
    user_id: Seq<char>,
    message: Seq<char>,
    remind_at: Seq<char>,
) -> bool {
    &&& rec.key() == pk
    &&& decimal_u64(user_id) == Some(rec.recipient())
    &&& rec.payload() == message
    &&& rfc3339_instant(remind_at) == Some((rec.due().secs, rec.due().nanos))
}

impl Reminder {
    pub closed spec fn recipient(&self) -> u64 {
        self.user_id
    }

    pub closed spec fn payload(&self) -> Seq<char> {
        self.message@
    }

    pub closed spec fn due(&self) -> Timestamp {
        self.remind_at
    }

    pub fn new(user_id: u64, message: String, remind_at: Timestamp) -> (r: Self)
        ensures
            r.recipient() == user_id,
            r.payload() == message@,
            r.due() == remind_at,
    {
        Reminder { user_id, message, remind_at }
    }

    pub fn user_id(&self) -> (r: u64)
        ensures
            r == self.recipient(),
    {
        self.user_id
    }

    pub fn message(&self) -> (r: &String)
        ensures
            r@ == self.payload(),
    {
        &self.message
    }

    pub fn remind_at(&self) -> (r: &Timestamp)
        ensures
            *r == self.due(),
    {
        &self.remind_at
    }
}

impl PersistedReminder {
    pub closed spec fn key(&self) -> i64 {
        self.pk
    }

    pub closed spec fn recipient(&self) -> u64 {
        self.user_id
    }

    pub closed spec fn payload(&self) -> Seq<char> {
        self.message@
    }

    pub closed spec fn due(&self) -> Timestamp {
        self.remind_at
    }

    /// The due time as nanoseconds since the Unix epoch: what orders reminders.
    pub open spec fn due_at(&self) -> int {
        self.due().instant()
    }

    /// The stored form of `reminder`, under the key `pk`.
    pub fn from_reminder(reminder: Reminder, pk: i64) -> (r: Self)
        ensures
            r.key() == pk,
            r.recipient() == reminder.recipient(),
            r.payload() == reminder.payload(),
            r.due() == reminder.due(),
    {
        PersistedReminder {
            pk,
            user_id: reminder.user_id,
            message: reminder.message,
            remind_at: reminder.remind_at,
        }
    }

    /// Reads a stored row back: the user id in decimal, the message as the
    /// JSON of a chat message and the due time in RFC 3339. The first field
    /// that does not read names the error.
    pub fn from_row(pk: i64, user_id: String, message: String, remind_at: String) -> (r: Result<
        Self,
        ParseReminderError,
    >)
        ensures
            match r {
                Ok(rec) => row_error(user_id@, message@, remind_at@) is None && reads_as(
                    rec,
                    pk,
                    user_id@,
                    message@,
                    remind_at@,
                ),
                Err(e) => row_error(user_id@, message@, remind_at@) == Some(e),
            },
    {
        let user = match parse_u64(user_id.as_str()) {
            Some(u) => u,
            None => {
                return Err(ParseReminderError::UserId);
            },
        };
        if !check_message_json(message.as_str()) {
            return Err(ParseReminderError::Message);
        }
        let due = match parse_rfc3339(remind_at.as_str()) {
            Some((secs, nanos)) => Timestamp::new(secs, nanos),
            None => {
                return Err(ParseReminderError::RemindAt);
            },
        };
        Ok(PersistedReminder { pk, user_id: user, message, remind_at: due })
    }

    /// How long to wait from `now` until the reminder is due, in
    /// nanoseconds; zero once it is past due.
    pub fn get_sleep_time_until_reminder_should_trigger(&self, now: &Timestamp) -> (r: u128)
        ensures
            r == if self.due_at() > now.instant() {
                self.due_at() - now.instant()
            } else {
                0
            },
    {
        self.remind_at.nanos_until(now)
    }

    /// Whether this reminder is due strictly before `other`.
    pub fn due_before(&self, other: &PersistedReminder) -> (r: bool)
        ensures
            r == (self.due_at() < other.due_at()),
    {
        self.remind_at.is_before(&other.remind_at)
    }

    pub fn pk(&self) -> (r: i64)
        ensures
            r == self.key(),
    {
        self.pk
    }

    pub fn user_id(&self) -> (r: u64)
        ensures
            r == self.recipient(),
    {
        self.user_id
    }

    pub fn message(&self) -> (r: &String)
        ensures
            r@ == self.payload(),
    {
        &self.message
    }

    pub fn remind_at(&self) -> (r: &Timestamp)
        ensures
            *r == self.due(),
    {
        &self.remind_at
    }
}

} // verus!
