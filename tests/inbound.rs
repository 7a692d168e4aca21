use telecord::inbound::{
    handle_message, regular_message, DiscordAttachment, DiscordMessage, PhotoSize, TelegramMessage,
    TelegramRelay, TelegramUser,
};
use telecord::tg::{self, FileKind};
use telecord::{dc, Config};

const PNG: &[u8] = b"\x89PNG\r\n\x1a\n\x00\x00\x00\rIHDR";

fn config(mappings: &str) -> Config {
    Config::new(mappings, String::new(), String::new()).unwrap()
}

fn discord(author: &str, bot: bool, channel_id: u64, content: &str, attachments: Vec<DiscordAttachment>) -> DiscordMessage {
    DiscordMessage {
        author_name: author.to_string(),
        author_bot: bot,
        channel_id,
        content: content.to_string(),
        attachments,
    }
}

#[test]
fn discord_text_reaches_linked_chat_as_html() {
    let out = regular_message(&config("100:200"), discord("alice", false, 200, "hello", vec![]));
    assert_eq!(out.len(), 1);
    let m = out.into_iter().next().unwrap();
    assert_eq!(m.from, "alice");
    assert_eq!(m.chat_id, 100);
    match tg::handle_forward(m) {
        tg::Outgoing::Text { chat_id, html } => {
            assert_eq!(chat_id, 100);
            assert_eq!(html, "<b>alice</b>: hello");
        }
        _ => panic!("not text"),
    }
}

#[test]
fn bot_messages_are_not_relayed() {
    let out = regular_message(&config("100:200"), discord("relay", true, 200, "hello", vec![]));
    assert!(out.is_empty());
}

#[test]
fn unlinked_channel_is_not_relayed() {
    let out = regular_message(&config("100:200"), discord("alice", false, 201, "hello", vec![]));
    assert!(out.is_empty());
}

#[test]
fn each_downloaded_attachment_becomes_a_file() {
    let atts = vec![
        DiscordAttachment { filename: "a.png".to_string(), contents: Some(PNG.to_vec()) },
        DiscordAttachment { filename: "lost.txt".to_string(), contents: None },
        DiscordAttachment { filename: "b.txt".to_string(), contents: Some(b"words".to_vec()) },
    ];
    let out = regular_message(&config("100:200"), discord("alice", false, 200, "look", atts));
    assert_eq!(out.len(), 2);
    match &out[0].content {
        tg::MessageContent::File(f) => {
            assert_eq!(f.caption.as_deref(), Some("look"));
            assert_eq!(f.filename, "a.png");
            assert_eq!(f.contents, PNG.to_vec());
            assert_eq!(f.kind, FileKind::Image);
        }
        _ => panic!("not a file"),
    }
    match &out[1].content {
        tg::MessageContent::File(f) => {
            assert_eq!(f.filename, "b.txt");
            assert_eq!(f.kind, FileKind::Document);
        }
        _ => panic!("not a file"),
    }
    assert_eq!(out[1].chat_id, 100);
}

#[test]
fn attachment_without_text_has_no_caption() {
    let atts = vec![DiscordAttachment { filename: "a.png".to_string(), contents: Some(PNG.to_vec()) }];
    let out = regular_message(&config("100:200"), discord("alice", false, 200, "", atts));
    match &out[0].content {
        tg::MessageContent::File(f) => assert_eq!(f.caption, None),
        _ => panic!("not a file"),
    }
}

#[test]
fn failed_downloads_send_nothing() {
    let atts = vec![DiscordAttachment { filename: "a".to_string(), contents: None }];
    let out = regular_message(&config("100:200"), discord("alice", false, 200, "text", atts));
    assert!(out.is_empty());
}

fn user(username: Option<&str>, first: &str, last: Option<&str>) -> TelegramUser {
    TelegramUser {
        username: username.map(|s| s.to_string()),
        first_name: first.to_string(),
        last_name: last.map(|s| s.to_string()),
    }
}

fn telegram(from: Option<TelegramUser>, chat_id: i64, text: Option<&str>) -> TelegramMessage {
    TelegramMessage {
        from,
        chat_id,
        forward_from: None,
        reply_to_from: None,
        text: text.map(|s| s.to_string()),
        caption: None,
        audio: None,
        document: None,
        photo: None,
        sticker: None,
        voice: None,
    }
}

fn text_of(r: Option<TelegramRelay>) -> dc::Message {
    match r {
        Some(TelegramRelay::Text(m)) => m,
        _ => panic!("not text"),
    }
}

fn file_of(r: Option<TelegramRelay>) -> telecord::inbound::PendingFile {
    match r {
        Some(TelegramRelay::File(p)) => p,
        _ => panic!("not a file"),
    }
}

#[test]
fn telegram_text_reaches_linked_channel() {
    let m = text_of(handle_message(&config("100:200"), telegram(Some(user(Some("ann"), "Ann", None)), 100, Some("hi"))));
    assert_eq!(m.from, "ann");
    assert_eq!(m.channel_id, 200);
    match m.content {
        dc::MessageContent::Text(t) => assert_eq!(t, "hi"),
        _ => panic!("not text"),
    }
}

#[test]
fn user_name_fallbacks() {
    let c = config("100:200");
    let m = text_of(handle_message(&c, telegram(Some(user(None, "Ann", Some("Lee"))), 100, Some("x"))));
    assert_eq!(m.from, "Ann Lee");
    let m = text_of(handle_message(&c, telegram(Some(user(None, "Ann", None)), 100, Some("x"))));
    assert_eq!(m.from, "Ann");
}

#[test]
fn forward_label_wins_over_reply() {
    let mut msg = telegram(Some(user(Some("carol"), "Carol", None)), 100, Some("x"));
    msg.forward_from = Some(user(Some("dave"), "Dave", None));
    msg.reply_to_from = Some(user(Some("erin"), "Erin", None));
    let m = text_of(handle_message(&config("100:200"), msg));
    assert_eq!(m.from, "carol, forwarded from dave");
}

#[test]
fn reply_label() {
    let mut msg = telegram(Some(user(Some("carol"), "Carol", None)), 100, Some("x"));
    msg.reply_to_from = Some(user(None, "Erin", Some("Fox")));
    let m = text_of(handle_message(&config("100:200"), msg));
    assert_eq!(m.from, "carol, in reply to Erin Fox");
}

#[test]
fn telegram_messages_that_are_dropped() {
    let c = config("100:200");
    assert!(handle_message(&c, telegram(None, 100, Some("x"))).is_none());
    assert!(handle_message(&c, telegram(Some(user(Some("a"), "A", None)), 101, Some("x"))).is_none());
    assert!(handle_message(&c, telegram(Some(user(Some("a"), "A", None)), 100, None)).is_none());
}

#[test]
fn attachment_precedence() {
    let c = config("100:200");
    let mut msg = telegram(Some(user(Some("a"), "A", None)), 100, Some("x"));
    msg.caption = Some("cap".to_string());
    msg.voice = Some("voice-id".to_string());
    msg.sticker = Some("sticker-id".to_string());
    msg.document = Some("doc-id".to_string());
    msg.audio = Some("audio-id".to_string());
    let p = file_of(handle_message(&c, msg));
    assert_eq!(p.file_id, "audio-id");
    assert_eq!(p.caption.as_deref(), Some("cap"));
    assert_eq!(p.channel_id, 200);
    assert!(p.sticker);

    let mut msg = telegram(Some(user(Some("a"), "A", None)), 100, None);
    msg.voice = Some("voice-id".to_string());
    msg.sticker = Some("sticker-id".to_string());
    let p = file_of(handle_message(&c, msg));
    assert_eq!(p.file_id, "sticker-id");
}

fn photo(id: &str, width: i64) -> PhotoSize {
    PhotoSize { file_id: id.to_string(), width }
}

#[test]
fn widest_photo_is_chosen_last_of_equals() {
    let c = config("100:200");
    let mut msg = telegram(Some(user(Some("a"), "A", None)), 100, None);
    msg.photo = Some(vec![photo("small", 90), photo("big", 800), photo("mid", 320), photo("big2", 800)]);
    msg.voice = Some("voice-id".to_string());
    let p = file_of(handle_message(&c, msg));
    assert_eq!(p.file_id, "big2");
    assert!(!p.sticker);
}

#[test]
fn empty_photo_list_falls_back_to_text() {
    let c = config("100:200");
    let mut msg = telegram(Some(user(Some("a"), "A", None)), 100, Some("words"));
    msg.photo = Some(vec![]);
    msg.voice = Some("voice-id".to_string());
    let m = text_of(handle_message(&c, msg));
    assert!(matches!(m.content, dc::MessageContent::Text(ref t) if t == "words"));
}
