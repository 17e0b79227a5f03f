use reminder_bot::reply::{
    get_bookmark_embed_title, get_bookmark_field_value, get_bookmarks_reply_description,
    get_bookmarks_reply_title, get_message_embed_description, get_reminder_embed_title,
    get_reminder_field_name, get_reminders_reply_description, get_reminders_reply_title,
    get_trimmed_message_preview,
};
use reminder_bot::time::Timestamp;

#[test]
fn reminders_reply_texts() {
    assert_eq!(
        get_reminders_reply_title(1),
        "Retrieved up to 1 reminder.\nThere may be more reminders not shown."
    );
    assert_eq!(
        get_reminders_reply_title(2),
        "Retrieved up to 2 reminders.\nThere may be more reminders not shown."
    );
    assert_eq!(get_reminders_reply_description(1), "## Queued Reminders: 1");
    assert_eq!(get_reminders_reply_description(20), "## Queued Reminders: 20");
}

#[test]
fn reminder_field_name_links_and_times() {
    let name = get_reminder_field_name(
        "https://discord.com/channels/1/2/3",
        &Timestamp::new(1700000000, 12),
    );
    assert_eq!(name, "https://discord.com/channels/1/2/3 at: <t:1700000000:R>");
}

#[test]
fn bookmarks_reply_texts() {
    assert_eq!(
        get_bookmarks_reply_title(1),
        "Retrieved up to 1 bookmark.\nThere may be more bookmarks not shown."
    );
    assert_eq!(
        get_bookmarks_reply_title(2),
        "Retrieved up to 2 bookmarks.\nThere may be more bookmarks not shown."
    );
    assert_eq!(get_bookmarks_reply_description(2), "## Retrieved Bookmarks: 2");
}

#[test]
fn bookmark_previews() {
    assert_eq!(
        get_bookmark_field_value(
            "TestUser",
            "This is a test message content for the bookmarked message."
        ),
        "TestUser: This is a test message..."
    );
    assert_eq!(
        get_bookmark_field_value(
            "User2",
            "This is a longer test message content to test trimming behavior."
        ),
        "User2: This is a longer test mess..."
    );
    assert_eq!(
        get_bookmark_field_value("User1", "Short message."),
        "User1: Short message."
    );
    let exactly = "a".repeat(33);
    assert_eq!(get_trimmed_message_preview(&exactly), exactly);
    assert_eq!(get_trimmed_message_preview(""), "");
}

#[test]
fn embed_texts() {
    assert_eq!(get_reminder_embed_title("#test_channel"), "Reminder from #test_channel");
    assert_eq!(
        get_bookmark_embed_title("test_channel"),
        "Bookmarked message from test_channel"
    );
    assert_eq!(
        get_message_embed_description("hi", "https://x/1"),
        "# hi \n # https://x/1"
    );
    let long = "n".repeat(300);
    assert_eq!(get_reminder_embed_title(&long).len(), 256);
    let wide = "\u{e9}".repeat(300);
    assert_eq!(get_reminder_embed_title(&wide).len(), 256);
    let odd = format!("x{}", wide);
    assert_eq!(get_reminder_embed_title(&odd).len(), 255);
}
