use vstd::prelude::*;
use vstd::string::StringExecFns;
use vstd::utf8::{decode_utf8, encode_utf8, is_char_boundary};
use crate::text::{decimal_text, push_i64, same_text};
use crate::time::Timestamp;

verus! {

/// The reaction that asks the bot to delete one of its own messages.
pub const DELETE_MESSAGE_EMOJI: &'static str = "\u{1F5D1}\u{FE0F}";

/// Longest embed title, in bytes.
pub const MAX_EMBED_TITLE_LENGTH: usize = 256;

/// Longest embed description, in bytes.
pub const MAX_EMBED_DESCRIPTION_LENGTH: usize = 4096;

/// Longest embed field name, in bytes.
pub const MAX_EMBED_FIELD_NAME_LENGTH: usize = 256;

/// Whether `r` is `s` cut to at most `max` bytes of UTF-8: `r` is a
/// prefix of `s`, its encoding is a prefix of the encoding of `s` that ends
/// at a character boundary, and no later boundary of `s` lies at or below
/// `max`. So `r` is all of `s` when `s` fits, and otherwise its first `max`
/// bytes whenever byte `max` starts a character.
pub open spec fn clipped(s: Seq<char>, r: Seq<char>, max: nat) -> bool {
    let b = encode_utf8(s);
    let n = encode_utf8(r).len();
    &&& n <= max
    &&& encode_utf8(r) == b.take(n as int)
    &&& r == s.take(r.len() as int)
    &&& (b.len() <= max ==> r == s)
    &&& forall|j: int| n < j <= max ==> !is_char_boundary(b, j)
}

fn clip(s: &str, max: usize) -> (r: &str)
    ensures
        clipped(s@, r@, max as nat),
{
    broadcast use vstd::utf8::group_utf8_lib;

    let ghost b = encode_utf8(s@);
    let n = s.as_bytes().len();
    assert(vstd::utf8::valid_utf8(b));
    if n <= max {
        assert(b.take(n as int) =~= b);
        assert(s@.take(s@.len() as int) =~= s@);
        assert forall|j: int| n < j <= max implies !is_char_boundary(b, j) by {
            assert(b.len() < j);
        }
        return s;
    }
    let mut i = max;
    while i > 0 && !s.is_char_boundary(i)
        invariant
            i <= max < n == b.len(),
            b == encode_utf8(s@),
            forall|j: int| i < j <= max ==> !is_char_boundary(b, j),
        decreases i,
    {
        i = i - 1;
    }
    assert(is_char_boundary(b, i as int));
    let (head, _tail) = s.split_at(i);
    proof {
        let h = head@;
        assert(encode_utf8(h) == b.subrange(0, i as int));
        assert(b.take(i as int) =~= b.subrange(0, i as int));
        vstd::utf8::decode_utf8_split(b, i as int);
        assert(decode_utf8(encode_utf8(h)) == h);
        assert(decode_utf8(b) == s@);
        assert(s@ =~= h + decode_utf8(b.subrange(i as int, b.len() as int)));
        assert(h =~= s@.take(h.len() as int));
    }
    head
}

/// The title cut to what an embed accepts.
pub fn trim_embed_title(title: &str) -> (r: &str)
    ensures
        clipped(title@, r@, MAX_EMBED_TITLE_LENGTH as nat),
{
    clip(title, MAX_EMBED_TITLE_LENGTH)
}

/// The description cut to what an embed accepts.
pub fn trim_embed_description(description: &str) -> (r: &str)
    ensures
        clipped(description@, r@, MAX_EMBED_DESCRIPTION_LENGTH as nat),
{
    clip(description, MAX_EMBED_DESCRIPTION_LENGTH)
}

/// The field name cut to what an embed accepts.
pub fn trim_embed_field_name(field_name: &str) -> (r: &str)
    ensures
        clipped(field_name@, r@, MAX_EMBED_FIELD_NAME_LENGTH as nat),
{
    clip(field_name, MAX_EMBED_FIELD_NAME_LENGTH)
}

/// The reason recorded in the audit log when a user has a message deleted.
pub fn get_delete_message_audit_log_reason(responsible_user_name: &str) -> (r: String)
    ensures
        r@ == "Deletion requested by: "@ + responsible_user_name@,
{
    let mut r = String::from_str("Deletion requested by: ");
    r.append(responsible_user_name);
    r
}

/// A chat markup that shows the instant relative to the reader's now.
pub fn get_discord_relative_timestamp_string(remind_at: &Timestamp) -> (r: String)
    ensures
        r@ == "<t:"@ + decimal_text(remind_at.secs as int) + ":R>"@,
{
    let mut r = String::from_str("<t:");
    push_i64(&mut r, remind_at.secs);
    r.append(":R>");
    r
}

/// The reply text that confirms a new reminder.
pub fn get_reminder_created_text(remind_at: &Timestamp) -> (r: String)
    ensures
        r@ == "Reminder set for <t:"@ + decimal_text(remind_at.secs as int) + ":R>"@,
{
    let mut r = String::from_str("Reminder set for ");
    let t = get_discord_relative_timestamp_string(remind_at);
    r.append(t.as_str());
    assert(r@ =~= "Reminder set for <t:"@ + decimal_text(remind_at.secs as int) + ":R>"@) by {
        reveal_strlit("Reminder set for ");
        reveal_strlit("Reminder set for <t:");
        reveal_strlit("<t:");
    }
    r
}

/// The delays that the reminder menu offers.
#[derive(Debug, Clone, Copy, PartialEq, Eq, Structural)]
pub enum ReminderSelectMenuValue {
    TenSeconds,
    OneHour,
    TwentyFourHours,
}

/// The label of each menu value, which is also how it is sent back.
pub open spec fn menu_label(v: ReminderSelectMenuValue) -> Seq<char> {
    match v {
        ReminderSelectMenuValue::TenSeconds => "10 seconds"@,
        ReminderSelectMenuValue::OneHour => "1 hour"@,
        ReminderSelectMenuValue::TwentyFourHours => "24 hours"@,
    }
}

/// The delay of each menu value, in seconds.
pub open spec fn menu_seconds(v: ReminderSelectMenuValue) -> i64 {
    match v {
        ReminderSelectMenuValue::TenSeconds => 10,
        ReminderSelectMenuValue::OneHour => 3600,
        ReminderSelectMenuValue::TwentyFourHours => 86400,
    }
}

impl ReminderSelectMenuValue {
    /// Every menu value, in menu order.
    pub fn all() -> (r: Vec<ReminderSelectMenuValue>)
        ensures
            r@ == seq![
                ReminderSelectMenuValue::TenSeconds,
                ReminderSelectMenuValue::OneHour,
                ReminderSelectMenuValue::TwentyFourHours,
            ],
    {
        let r = vec![
            ReminderSelectMenuValue::TenSeconds,
            ReminderSelectMenuValue::OneHour,
            ReminderSelectMenuValue::TwentyFourHours,
        ];
        assert(r@ =~= seq![
            ReminderSelectMenuValue::TenSeconds,
            ReminderSelectMenuValue::OneHour,
            ReminderSelectMenuValue::TwentyFourHours,
        ]);
        r
    }

    /// The label shown in the menu.
    pub fn to_string(&self) -> (r: String)
        ensures
            r@ == menu_label(*self),
    {
        match self {
            ReminderSelectMenuValue::TenSeconds => String::from_str("10 seconds"),
            ReminderSelectMenuValue::OneHour => String::from_str("1 hour"),
            ReminderSelectMenuValue::TwentyFourHours => String::from_str("24 hours"),
        }
    }

    /// The menu value whose label is exactly `s`.
    pub fn parse(s: &str) -> (r: Option<ReminderSelectMenuValue>)
        ensures
            match r {
                Some(v) => menu_label(v) == s@,
                None => forall|v: ReminderSelectMenuValue| menu_label(v) != s@,
            },
    {
        proof {
            reveal_strlit("10 seconds");
            reveal_strlit("1 hour");
            reveal_strlit("24 hours");
        }
        if same_text(s, "10 seconds") {
            Some(ReminderSelectMenuValue::TenSeconds)
        } else if same_text(s, "1 hour") {
            Some(ReminderSelectMenuValue::OneHour)
        } else if same_text(s, "24 hours") {
            Some(ReminderSelectMenuValue::TwentyFourHours)
        } else {
            None
        }
    }

    /// The delay, in seconds.
    pub fn duration_seconds(&self) -> (r: i64)
        ensures
            r == menu_seconds(*self),
    {
        match self {
            ReminderSelectMenuValue::TenSeconds => 10,
            ReminderSelectMenuValue::OneHour => 3600,
            ReminderSelectMenuValue::TwentyFourHours => 86400,
        }
    }
}

impl std::str::FromStr for ReminderSelectMenuValue {
    type Err = ();

    fn from_str(s: &str) -> Result<ReminderSelectMenuValue, ()> {
        match ReminderSelectMenuValue::parse(s) {
            Some(v) => Ok(v),
            None => Err(()),
        }
    }
}

} // verus!
