//! Messages on their way to Telegram, and how each is sent there.
use vstd::prelude::*;
use vstd::string::StringExecFns;

use crate::text::{opt_view, push_char};

verus! {

/// The kinds of file that Telegram sends each with its own call; anything that is not an
/// image, a video or audio goes as a document.
#[derive(Debug, Clone, Copy, PartialEq, Eq, Structural)]
pub enum FileKind {
    Image,
    Video,
    Audio,
    Document,
}

/// A file with its optional caption.
pub struct FileMessage {
    /// The text that came with the file, if any.
    pub caption: Option<String>,
    /// The name of the file.
    pub filename: String,
    /// The bytes of the file.
    pub contents: Vec<u8>,
    /// How Telegram is to present the file.
    pub kind: FileKind,
}

/// What a message carries.
pub enum MessageContent {
    Text(String),
    File(FileMessage),
}

/// A message relayed to a Telegram chat.
pub struct Message {
    /// Who wrote the message, as shown to the chat.
    pub from: String,
    /// The chat it goes to.
    pub chat_id: i64,
    /// What it carries.
    pub content: MessageContent,
}

impl Message {
    /// A text message.
    pub fn text(user: String, chat_id: i64, content: String) -> (r: Message)
        ensures
            r == (Message { from: user, chat_id, content: MessageContent::Text(content) }),
    {
        Message { from: user, chat_id, content: MessageContent::Text(content) }
    }

    /// A file message.
    pub fn file(
        user: String,
        chat_id: i64,
        caption: Option<String>,
        filename: String,
        contents: Vec<u8>,
        kind: FileKind,
    ) -> (r: Message)
        ensures
            r == (Message {
                from: user,
                chat_id,
                content: MessageContent::File(FileMessage { caption, filename, contents, kind }),
            }),
    {
        Message {
            from: user,
            chat_id,
            content: MessageContent::File(FileMessage { caption, filename, contents, kind }),
        }
    }
}

/// A file to upload to a chat, with the caption shown under it.
pub struct Upload {
    pub chat_id: i64,
    pub filename: String,
    pub contents: Vec<u8>,
    pub caption: String,
}

/// One call to the Telegram API.
pub enum Outgoing {
    /// Send text rendered as HTML.
    Text { chat_id: i64, html: String },
    Photo(Upload),
    Audio(Upload),
    Video(Upload),
    Document(Upload),
}

/// What a character becomes in HTML text.
pub open spec fn escaped_char(c: char) -> Seq<char> {
    if c == '&' {
        "&amp;"@
    } else if c == '<' {
        "&lt;"@
    } else if c == '>' {
        "&gt;"@
    } else {
        seq![c]
    }
}

/// Text with `&`, `<` and `>` written as HTML entities.
pub open spec fn escape_html(s: Seq<char>) -> Seq<char>
    decreases s.len(),
{
    if s.len() == 0 {
        Seq::empty()
    } else {
        escape_html(s.drop_last()) + escaped_char(s.last())
    }
}

/// A text message as the chat sees it: the sender in bold, then the escaped text.
pub open spec fn html_text(user: Seq<char>, content: Seq<char>) -> Seq<char> {
    "<b>"@ + user + "</b>: "@ + escape_html(content)
}

/// The caption under a relayed file.
pub open spec fn file_caption(user: Seq<char>, caption: Option<Seq<char>>) -> Seq<char> {
    match caption {
        Some(c) => user + ": "@ + c,
        None => user + " sent a file"@,
    }
}

/// `u` uploads the file of `f`, sent by `user`, to `chat_id`.
pub open spec fn uploads(u: Upload, chat_id: i64, user: Seq<char>, f: FileMessage) -> bool {
    &&& u.chat_id == chat_id
    &&& u.filename == f.filename
    &&& u.contents == f.contents
    &&& u.caption@ == file_caption(user, opt_view(f.caption))
}

/// `out` is the call that delivers `m`: text goes as HTML, a file by the call for its kind.
pub open spec fn delivers(out: Outgoing, m: Message) -> bool {
    match (m.content, out) {
        (MessageContent::Text(c), Outgoing::Text { chat_id, html }) => chat_id == m.chat_id
            && html@ == html_text(m.from@, c@),
        (MessageContent::File(f), Outgoing::Photo(u)) => f.kind == FileKind::Image && uploads(
            u,
            m.chat_id,
            m.from@,
            f,
        ),
        (MessageContent::File(f), Outgoing::Audio(u)) => f.kind == FileKind::Audio && uploads(
            u,
            m.chat_id,
            m.from@,
            f,
        ),
        (MessageContent::File(f), Outgoing::Video(u)) => f.kind == FileKind::Video && uploads(
            u,
            m.chat_id,
            m.from@,
            f,
        ),
        (MessageContent::File(f), Outgoing::Document(u)) => f.kind == FileKind::Document
            && uploads(u, m.chat_id, m.from@, f),
        _ => false,
    }
}

/// Writes `&`, `<` and `>` of `content` as HTML entities.
pub fn escape(content: &str) -> (r: String)
    ensures
        r@ == escape_html(content@),
{
    let mut out = String::new();
    for c in it: content.chars()
        invariant
            it.seq() == content@,
            out@ == escape_html(content@.subrange(0, it.index())),
    {
        let ghost i = it.index();
        proof {
            assert(content@.subrange(0, i + 1).drop_last() =~= content@.subrange(0, i));
            assert(content@.subrange(0, i + 1).last() == c);
        }
        if c == '&' {
            out.append("&amp;");
        } else if c == '<' {
            out.append("&lt;");
        } else if c == '>' {
            out.append("&gt;");
        } else {
            push_char(&mut out, c);
        }
    }
    proof {
        assert(content@.subrange(0, content@.len() as int) =~= content@);
    }
    out
}

/// The HTML that shows a text message in a chat.
pub fn render_text(user: &str, content: &str) -> (r: String)
    ensures
        r@ == html_text(user@, content@),
{
    let mut out = String::from_str("<b>");
    out.append(user);
    out.append("</b>: ");
    let escaped = escape(content);
    out.append(escaped.as_str());
    out
}

/// The caption shown under a file that `user` sent.
pub fn render_caption(user: &str, caption: Option<String>) -> (r: String)
    ensures
        r@ == file_caption(user@, opt_view(caption)),
{
    let mut out = String::from_str(user);
    match caption {
        Some(c) => {
            out.append(": ");
            out.append(c.as_str());
        },
        None => {
            out.append(" sent a file");
        },
    }
    out
}

/// The Telegram call that delivers a relayed message.
pub fn handle_forward(message: Message) -> (r: Outgoing)
    ensures
        delivers(r, message),
{
    let Message { from, chat_id, content } = message;
    match content {
        MessageContent::Text(c) => {
            let html = render_text(from.as_str(), c.as_str());
            Outgoing::Text { chat_id, html }
        },
        MessageContent::File(file) => {
            let FileMessage { caption, filename, contents, kind } = file;
            let caption = render_caption(from.as_str(), caption);
            let upload = Upload { chat_id, filename, contents, caption };
            match kind {
                FileKind::Image => Outgoing::Photo(upload),
                FileKind::Audio => Outgoing::Audio(upload),
                FileKind::Video => Outgoing::Video(upload),
                FileKind::Document => Outgoing::Document(upload),
            }
        },
    }
}

} // verus!
