use vstd::prelude::*;
use vstd::string::{StrSliceExecFns, StringExecFns};
use crate::components::{
    clipped, trim_embed_description, trim_embed_field_name, trim_embed_title,
    MAX_EMBED_DESCRIPTION_LENGTH, MAX_EMBED_FIELD_NAME_LENGTH, MAX_EMBED_TITLE_LENGTH,
};
use crate::text::{decimal_digits, decimal_text, push_decimal, push_i64, trim_end, trimmed_end_len};
use crate::time::Timestamp;

verus! {

/// Characters of a bookmarked message shown in a list of bookmarks.
pub const MESSAGE_PREVIEW_LENGTH: usize = 33;

/// `s` when there is more than one, nothing otherwise.
pub open spec fn plural(count: nat) -> Seq<char> {
    if count > 1 {
        "s"@
    } else {
        ""@
    }
}

fn push_plural(out: &mut String, count: usize)
    ensures
        final(out)@ == old(out)@ + plural(count as nat),
{
    proof {
        reveal_strlit("s");
        reveal_strlit("");
    }
    if count > 1 {
        out.append("s");
    } else {
        out.append("");
    }
    assert(final(out)@ =~= old(out)@ + plural(count as nat));
}

/// The title of a list of `count` reminders, cut to what an embed accepts.
pub fn get_reminders_reply_title(count: usize) -> (r: String)
    ensures
        clipped(
            "Retrieved up to "@ + decimal_digits(count as nat) + " reminder"@ + plural(count as nat)
                + ".\nThere may be more reminders not shown."@,
            r@, MAX_EMBED_TITLE_LENGTH as nat,
        ),
{
    let mut t = String::from_str("Retrieved up to ");
    push_decimal(&mut t, count as u64);
    t.append(" reminder");
    push_plural(&mut t, count);
    t.append(".\nThere may be more reminders not shown.");
    String::from_str(trim_embed_title(t.as_str()))
}

/// The description of a list of `count` reminders.
pub fn get_reminders_reply_description(count: usize) -> (r: String)
    ensures
        clipped(
            "## Queued Reminders: "@ + decimal_digits(count as nat),
            r@, MAX_EMBED_DESCRIPTION_LENGTH as nat,
        ),
{
    let mut t = String::from_str("## Queued Reminders: ");
    push_decimal(&mut t, count as u64);
    String::from_str(trim_embed_description(t.as_str()))
}

/// The field that lists one reminder: the link to its message and when it
/// is due.
pub fn get_reminder_field_name(link: &str, remind_at: &Timestamp) -> (r: String)
    ensures
        clipped(
            link@ + " at: <t:"@ + decimal_text(remind_at.secs as int) + ":R>"@,
            r@, MAX_EMBED_FIELD_NAME_LENGTH as nat,
        ),
{
    let mut t = String::from_str(link);
    t.append(" at: <t:");
    push_i64(&mut t, remind_at.secs);
    t.append(":R>");
    String::from_str(trim_embed_field_name(t.as_str()))
}

/// The title of a list of `count` bookmarks, cut to what an embed accepts.
pub fn get_bookmarks_reply_title(count: usize) -> (r: String)
    ensures
        clipped(
            "Retrieved up to "@ + decimal_digits(count as nat) + " bookmark"@ + plural(count as nat)
                + ".\nThere may be more bookmarks not shown."@,
            r@, MAX_EMBED_TITLE_LENGTH as nat,
        ),
{
    let mut t = String::from_str("Retrieved up to ");
    push_decimal(&mut t, count as u64);
    t.append(" bookmark");
    push_plural(&mut t, count);
    t.append(".\nThere may be more bookmarks not shown.");
    String::from_str(trim_embed_title(t.as_str()))
}

/// The description of a list of `count` bookmarks.
pub fn get_bookmarks_reply_description(count: usize) -> (r: String)
    ensures
        clipped(
            "## Retrieved Bookmarks: "@ + decimal_digits(count as nat),
            r@, MAX_EMBED_DESCRIPTION_LENGTH as nat,
        ),
{
    let mut t = String::from_str("## Retrieved Bookmarks: ");
    push_decimal(&mut t, count as u64);
    String::from_str(trim_embed_description(t.as_str()))
}

/// What a preview of `s` shows: all of it when it is short enough, else its
/// first characters without trailing white space, then `...`.
pub open spec fn preview_of(s: Seq<char>) -> Seq<char> {
    if s.len() > MESSAGE_PREVIEW_LENGTH {
        let p = s.take(MESSAGE_PREVIEW_LENGTH as int);
        p.take(trimmed_end_len(p) as int) + "..."@
    } else {
        s
    }
}

/// A short preview of a text.
pub fn get_trimmed_message_preview(content: &str) -> (r: String)
    ensures
        r@ == preview_of(content@),
{
    let n = content.unicode_len();
    if n > MESSAGE_PREVIEW_LENGTH {
        let p = content.substring_char(0, MESSAGE_PREVIEW_LENGTH);
        let mut r = String::from_str(trim_end(p));
        r.append("...");
        r
    } else {
        String::from_str(content)
    }
}

/// The value of the field that lists one bookmark: a preview of who wrote
/// the message and what it says.
pub fn get_bookmark_field_value(author: &str, content: &str) -> (r: String)
    ensures
        r@ == preview_of(author@ + ": "@ + content@),
{
    let mut t = String::from_str(author);
    t.append(": ");
    t.append(content);
    get_trimmed_message_preview(t.as_str())
}

/// The title of a delivered reminder, naming the channel it came from.
pub fn get_reminder_embed_title(channel_name: &str) -> (r: String)
    ensures
        clipped("Reminder from "@ + channel_name@, r@, MAX_EMBED_TITLE_LENGTH as nat),
{
    let mut t = String::from_str("Reminder from ");
    t.append(channel_name);
    String::from_str(trim_embed_title(t.as_str()))
}

/// The title of a bookmark sent to its owner, naming the channel it came
/// from.
pub fn get_bookmark_embed_title(channel_name: &str) -> (r: String)
    ensures
        clipped("Bookmarked message from "@ + channel_name@, r@, MAX_EMBED_TITLE_LENGTH as nat),
{
    let mut t = String::from_str("Bookmarked message from ");
    t.append(channel_name);
    String::from_str(trim_embed_title(t.as_str()))
}

/// The description of a delivered reminder or a bookmark: the message
/// itself and the link to it.
pub fn get_message_embed_description(content: &str, link: &str) -> (r: String)
    ensures
        clipped("# "@ + content@ + " \n # "@ + link@, r@, MAX_EMBED_DESCRIPTION_LENGTH as nat),
{
    let mut t = String::from_str("# ");
    t.append(content);
    t.append(" \n # ");
    t.append(link);
    String::from_str(trim_embed_description(t.as_str()))
}

} // verus!
