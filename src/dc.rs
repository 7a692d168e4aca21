//! Messages on their way to Discord, and how each is sent there.
use vstd::prelude::*;
use vstd::string::StringExecFns;

use crate::text::opt_view;

verus! {

/// A file with its optional caption. Discord decides by itself how to show a file.
pub struct FileMessage {
    /// The text that came with the file, if any.
    pub caption: Option<String>,
    /// The name of the file.
    pub filename: String,
    /// The bytes of the file.
    pub contents: Vec<u8>,
}

/// What a message carries.
pub enum MessageContent {
    Text(String),
    File(FileMessage),
}

/// A message relayed to a Discord channel.
pub struct Message {
    /// Who wrote the message, as shown to the channel.
    pub from: String,
    /// The channel it goes to.
    pub channel_id: u64,
    /// What it carries.
    pub content: MessageContent,
}

impl Message {
    /// A text message.
    pub fn text(user: String, channel_id: u64, content: String) -> (r: Message)
        ensures
            r == (Message { from: user, channel_id, content: MessageContent::Text(content) }),
    {
        Message { from: user, channel_id, content: MessageContent::Text(content) }
    }

    /// A file message.
    pub fn file(
        user: String,
        channel_id: u64,
        caption: Option<String>,
        filename: String,
        contents: Vec<u8>,
    ) -> (r: Message)
        ensures
            r == (Message {
                from: user,
                channel_id,
                content: MessageContent::File(FileMessage { caption, filename, contents }),
            }),
    {
        Message {
            from: user,
            channel_id,
            content: MessageContent::File(FileMessage { caption, filename, contents }),
        }
    }
}

/// One call to the Discord API.
pub enum Outgoing {
    /// Say `content` in the channel.
    Text { channel_id: u64, content: String },
    /// Upload one file, with `content` as the message text.
    File { channel_id: u64, filename: String, contents: Vec<u8>, content: String },
}

/// A line as the channel sees it: the sender in bold, then the text.
pub open spec fn signed_text(user: Seq<char>, text: Seq<char>) -> Seq<char> {
    "**"@ + user + "**: "@ + text
}

/// The text that goes with a relayed file.
pub open spec fn file_text(user: Seq<char>, caption: Option<Seq<char>>) -> Seq<char> {
    match caption {
        Some(c) => signed_text(user, c),
        None => signed_text(user, "*sent a file*"@),
    }
}

/// `out` is the call that delivers `m`.
pub open spec fn delivers(out: Outgoing, m: Message) -> bool {
    match (m.content, out) {
        (MessageContent::Text(t), Outgoing::Text { channel_id, content }) => channel_id
            == m.channel_id && content@ == signed_text(m.from@, t@),
        (
            MessageContent::File(f),
            Outgoing::File { channel_id, filename, contents, content },
        ) => channel_id == m.channel_id && filename == f.filename && contents == f.contents
            && content@ == file_text(m.from@, opt_view(f.caption)),
        _ => false,
    }
}

/// The sender in bold, then `text`.
pub fn sign(user: &str, text: &str) -> (r: String)
    ensures
        r@ == signed_text(user@, text@),
{
    let mut out = String::from_str("**");
    out.append(user);
    out.append("**: ");
    out.append(text);
    out
}

/// The Discord call that delivers a relayed message.
pub fn forward(message: Message) -> (r: Outgoing)
    ensures
        delivers(r, message),
{
    let Message { from, channel_id, content } = message;
    match content {
        MessageContent::Text(t) => {
            let content = sign(from.as_str(), t.as_str());
            Outgoing::Text { channel_id, content }
        },
        MessageContent::File(file) => {
            let FileMessage { caption, filename, contents } = file;
            let content = match caption {
                Some(c) => sign(from.as_str(), c.as_str()),
                None => sign(from.as_str(), "*sent a file*"),
            };
            Outgoing::File { channel_id, filename, contents, content }
        },
    }
}

} // verus!
