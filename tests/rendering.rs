use telecord::dc;
use telecord::tg::{self, FileKind};

#[test]
fn html_is_escaped() {
    assert_eq!(tg::escape("a<b>&c"), "a&lt;b&gt;&amp;c");
    assert_eq!(tg::escape(""), "");
    assert_eq!(tg::escape("plain ü"), "plain ü");
}

#[test]
fn telegram_text_shows_sender_in_bold() {
    let out = tg::handle_forward(tg::Message::text("bob".to_string(), 7, "1 < 2 & 3 > 2".to_string()));
    match out {
        tg::Outgoing::Text { chat_id, html } => {
            assert_eq!(chat_id, 7);
            assert_eq!(html, "<b>bob</b>: 1 &lt; 2 &amp; 3 &gt; 2");
        }
        _ => panic!("not text"),
    }
}

fn upload_of(kind: FileKind, caption: Option<&str>) -> tg::Outgoing {
    tg::handle_forward(tg::Message::file(
        "bob".to_string(),
        7,
        caption.map(|c| c.to_string()),
        "f.bin".to_string(),
        vec![1, 2, 3],
        kind,
    ))
}

#[test]
fn telegram_file_call_follows_kind() {
    assert!(matches!(upload_of(FileKind::Image, None), tg::Outgoing::Photo(_)));
    assert!(matches!(upload_of(FileKind::Audio, None), tg::Outgoing::Audio(_)));
    assert!(matches!(upload_of(FileKind::Video, None), tg::Outgoing::Video(_)));
    assert!(matches!(upload_of(FileKind::Document, None), tg::Outgoing::Document(_)));
}

#[test]
fn telegram_file_captions() {
    match upload_of(FileKind::Image, Some("look")) {
        tg::Outgoing::Photo(u) => {
            assert_eq!(u.chat_id, 7);
            assert_eq!(u.filename, "f.bin");
            assert_eq!(u.contents, vec![1, 2, 3]);
            assert_eq!(u.caption, "bob: look");
        }
        _ => panic!("not a photo"),
    }
    match upload_of(FileKind::Document, None) {
        tg::Outgoing::Document(u) => assert_eq!(u.caption, "bob sent a file"),
        _ => panic!("not a document"),
    }
}

#[test]
fn discord_text_shows_sender_in_bold() {
    match dc::forward(dc::Message::text("ann".to_string(), 9, "hi *there*".to_string())) {
        dc::Outgoing::Text { channel_id, content } => {
            assert_eq!(channel_id, 9);
            assert_eq!(content, "**ann**: hi *there*");
        }
        _ => panic!("not text"),
    }
}

#[test]
fn discord_file_text() {
    let m = dc::Message::file("ann".to_string(), 9, None, "a.webp".to_string(), vec![5]);
    match dc::forward(m) {
        dc::Outgoing::File { channel_id, filename, contents, content } => {
            assert_eq!(channel_id, 9);
            assert_eq!(filename, "a.webp");
            assert_eq!(contents, vec![5]);
            assert_eq!(content, "**ann**: *sent a file*");
        }
        _ => panic!("not a file"),
    }
    let m = dc::Message::file("ann".to_string(), 9, Some("see".to_string()), "a".to_string(), vec![]);
    match dc::forward(m) {
        dc::Outgoing::File { content, .. } => assert_eq!(content, "**ann**: see"),
        _ => panic!("not a file"),
    }
}
