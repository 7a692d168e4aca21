//! How an event of either platform becomes a relayed message.
//!
//! A Discord message in a linked channel becomes one message for Telegram per attachment, or
//! one text message where it has none; messages of bots are never relayed. A Telegram message
//! in a linked chat becomes a text message for Discord, or a file to fetch first where it
//! carries one.
use vstd::prelude::*;
use vstd::string::StringExecFns;

use crate::config::Config;
use crate::dc;
use crate::media::{kind_of_media_type, sniffed_type};
use crate::text::opt_view;
use crate::tg;

verus! {

/// A file attached to a Discord message.
pub struct DiscordAttachment {
    /// The name of the file.
    pub filename: String,
    /// The bytes of the file, or `None` where downloading it failed.
    pub contents: Option<Vec<u8>>,
}

/// A message posted in a Discord channel.
pub struct DiscordMessage {
    /// The author's name.
    pub author_name: String,
    /// Whether the author is a bot account, the relay's own included.
    pub author_bot: bool,
    /// The channel it was posted in.
    pub channel_id: u64,
    /// Its text; empty where it has none.
    pub content: String,
    /// Its attachments, in order.
    pub attachments: Vec<DiscordAttachment>,
}

/// The Telegram chat that a Discord message goes to: the one linked to its channel, unless
/// the author is a bot.
pub open spec fn discord_route(to_telegram: Map<u64, i64>, channel_id: u64, author_bot: bool) -> Option<
    i64,
> {
    if to_telegram.contains_key(channel_id) && !author_bot {
        Some(to_telegram[channel_id])
    } else {
        None
    }
}

/// The caption that the files of a Discord message carry: its text, if it has any.
pub open spec fn discord_caption(content: Seq<char>) -> Option<Seq<char>> {
    if content.len() == 0 {
        None
    } else {
        Some(content)
    }
}

/// The attachments that were downloaded, as (file name, bytes), in order.
pub open spec fn downloaded(atts: Seq<DiscordAttachment>) -> Seq<(Seq<char>, Seq<u8>)>
    decreases atts.len(),
{
    if atts.len() == 0 {
        Seq::empty()
    } else {
        let init = downloaded(atts.drop_last());
        match atts.last().contents {
            Some(b) => init.push((atts.last().filename@, b@)),
            None => init,
        }
    }
}

/// `m` is the text message `text` from `user` to `chat_id`.
pub open spec fn is_text_for_telegram(m: tg::Message, user: Seq<char>, chat_id: i64, text: Seq<char>) -> bool {
    &&& m.from@ == user
    &&& m.chat_id == chat_id
    &&& m.content matches tg::MessageContent::Text(t) && t@ == text
}

/// `m` relays the file `file` (name, bytes) from `user` to `chat_id` under `caption`, with
/// the kind its content shows.
pub open spec fn is_file_for_telegram(
    m: tg::Message,
    user: Seq<char>,
    chat_id: i64,
    caption: Option<Seq<char>>,
    file: (Seq<char>, Seq<u8>),
) -> bool {
    &&& m.from@ == user
    &&& m.chat_id == chat_id
    &&& m.content matches tg::MessageContent::File(f) && opt_view(f.caption) == caption
        && f.filename@ == file.0 && f.contents@ == file.1 && f.kind == kind_of_media_type(
        sniffed_type(file.1),
    )
}

/// `r` are the messages that relay `msg`, from `to_telegram`'s point of view.
pub open spec fn relays_discord_message(
    r: Seq<tg::Message>,
    to_telegram: Map<u64, i64>,
    msg: DiscordMessage,
) -> bool {
    match discord_route(to_telegram, msg.channel_id, msg.author_bot) {
        None => r.len() == 0,
        Some(chat_id) => if msg.attachments@.len() == 0 {
            r.len() == 1 && is_text_for_telegram(r[0], msg.author_name@, chat_id, msg.content@)
        } else {
            let files = downloaded(msg.attachments@);
            &&& r.len() == files.len()
            &&& forall|i: int|
                0 <= i < r.len() ==> #[trigger] is_file_for_telegram(
                    r[i],
                    msg.author_name@,
                    chat_id,
                    discord_caption(msg.content@),
                    files[i],
                )
        },
    }
}

/// A message whose author is a bot, the relay's own account included, is never relayed.
pub proof fn lemma_bots_not_relayed(r: Seq<tg::Message>, to_telegram: Map<u64, i64>, msg: DiscordMessage)
    requires
        msg.author_bot,
        relays_discord_message(r, to_telegram, msg),
    ensures
        r.len() == 0,
{
}

/// The Telegram chat that a Discord message in `channel_id` goes to, if any.
pub fn destination_chat(config: &Config, channel_id: u64, author_bot: bool) -> (r: Option<i64>)
    ensures
        r == discord_route(config.to_telegram(), channel_id, author_bot),
{
    if author_bot {
        return None;
    }
    config.telegram_chat_id(&channel_id)
}

/// The messages for Telegram that relay a Discord message.
pub fn regular_message(config: &Config, message: DiscordMessage) -> (r: Vec<tg::Message>)
    ensures
        relays_discord_message(r@, config.to_telegram(), message),
{
    let mut out: Vec<tg::Message> = Vec::new();
    let chat_id = match destination_chat(config, message.channel_id, message.author_bot) {
        Some(c) => c,
        None => return out,
    };
    if message.attachments.len() == 0 {
        out.push(tg::Message::text(message.author_name.clone(), chat_id, message.content.clone()));
        return out;
    }
    let caption = if message.content.as_str().is_empty() {
        None
    } else {
        Some(message.content.clone())
    };
    let ghost atts = message.attachments@;
    let mut i: usize = 0;
    while i < message.attachments.len()
        invariant
            i <= atts.len(),
            atts == message.attachments@,
            opt_view(caption) == discord_caption(message.content@),
            out@.len() == downloaded(atts.subrange(0, i as int)).len(),
            forall|k: int|
                0 <= k < out@.len() ==> #[trigger] is_file_for_telegram(
                    out@[k],
                    message.author_name@,
                    chat_id,
                    discord_caption(message.content@),
                    downloaded(atts.subrange(0, i as int))[k],
                ),
        decreases atts.len() - i,
    {
        proof {
            assert(atts.subrange(0, i + 1).drop_last() =~= atts.subrange(0, i as int));
        }
        let attachment = &message.attachments[i];
        match &attachment.contents {
            Some(bytes) => {
                let kind = tg::FileKind::of_contents(bytes.as_slice());
                let contents = bytes.clone();
                let m = tg::Message::file(
                    message.author_name.clone(),
                    chat_id,
                    caption.clone(),
                    attachment.filename.clone(),
                    contents,
                    kind,
                );
                let ghost before = out@;
                out.push(m);
                proof {
                    assert(contents@ == bytes@);
                    assert forall|k: int| 0 <= k < out@.len() implies #[trigger] is_file_for_telegram(
                        out@[k],
                        message.author_name@,
                        chat_id,
                        discord_caption(message.content@),
                        downloaded(atts.subrange(0, i + 1))[k],
                    ) by {
                        if k < before.len() {
                            assert(out@[k] == before[k]);
                        }
                    }
                }
            },
            None => {},
        }
        i = i + 1;
    }
    proof {
        assert(atts.subrange(0, atts.len() as int) =~= atts);
    }
    out
}

/// A Telegram account.
pub struct TelegramUser {
    pub username: Option<String>,
    pub first_name: String,
    pub last_name: Option<String>,
}

/// One resolution of a Telegram photo.
pub struct PhotoSize {
    pub file_id: String,
    pub width: i64,
}

/// A message posted in a Telegram chat. Attachments are given by their Telegram file ids.
pub struct TelegramMessage {
    /// The author, if Telegram names one.
    pub from: Option<TelegramUser>,
    /// The chat it was posted in.
    pub chat_id: i64,
    /// The author of the original message, where this one forwards it.
    pub forward_from: Option<TelegramUser>,
    /// The author of the message this one replies to, where it is a reply and Telegram names
    /// that author.
    pub reply_to_from: Option<TelegramUser>,
    pub text: Option<String>,
    pub caption: Option<String>,
    pub audio: Option<String>,
    pub document: Option<String>,
    /// The resolutions a photo is offered in.
    pub photo: Option<Vec<PhotoSize>>,
    pub sticker: Option<String>,
    pub voice: Option<String>,
}

/// A file of a Telegram message that is to be fetched and relayed to Discord.
pub struct PendingFile {
    pub channel_id: u64,
    /// The sender label.
    pub user: String,
    /// The Telegram file id.
    pub file_id: String,
    pub caption: Option<String>,
    /// Whether the file is a sticker, whose file name lacks its extension.
    pub sticker: bool,
}

/// What relaying a Telegram message takes.
pub enum TelegramRelay {
    /// Send this text message to Discord.
    Text(dc::Message),
    /// Fetch this file, then send it to Discord.
    File(PendingFile),
}

/// How a Telegram account is named: its username, else first and last name, else first name.
pub open spec fn user_name(u: TelegramUser) -> Seq<char> {
    match u.username {
        Some(n) => n@,
        None => match u.last_name {
            Some(l) => u.first_name@ + " "@ + l@,
            None => u.first_name@,
        },
    }
}

/// The sender label of a message by `author`: a forward names the original author, else a
/// reply names the author replied to; never both.
pub open spec fn sender_label(
    author: TelegramUser,
    forward_from: Option<TelegramUser>,
    reply_to_from: Option<TelegramUser>,
) -> Seq<char> {
    match forward_from {
        Some(f) => user_name(author) + ", forwarded from "@ + user_name(f),
        None => match reply_to_from {
            Some(r) => user_name(author) + ", in reply to "@ + user_name(r),
            None => user_name(author),
        },
    }
}

/// A message that both forwards and replies is labelled as a forward only.
pub proof fn lemma_forward_before_reply(author: TelegramUser, original: TelegramUser, replied: TelegramUser)
    ensures
        sender_label(author, Some(original), Some(replied)) == user_name(author)
            + ", forwarded from "@ + user_name(original),
{
}

/// `i` is the widest photo: none is wider, and each later one is narrower.
pub open spec fn is_widest(ps: Seq<PhotoSize>, i: int) -> bool {
    &&& 0 <= i < ps.len()
    &&& forall|j: int| 0 <= j < ps.len() ==> #[trigger] ps[j].width <= ps[i].width
    &&& forall|j: int| i < j < ps.len() ==> #[trigger] ps[j].width < ps[i].width
}

pub open spec fn widest_file_id(ps: Seq<PhotoSize>) -> Option<Seq<char>> {
    if ps.len() == 0 {
        None
    } else {
        Some(ps[choose|i: int| is_widest(ps, i)].file_id@)
    }
}

/// The file a Telegram message carries: audio, document, photo, sticker, voice, the first
/// present in that order.
pub open spec fn message_file_id(m: TelegramMessage) -> Option<Seq<char>> {
    match m.audio {
        Some(a) => Some(a@),
        None => match m.document {
            Some(d) => Some(d@),
            None => match m.photo {
                Some(ps) => widest_file_id(ps@),
                None => match m.sticker {
                    Some(s) => Some(s@),
                    None => match m.voice {
                        Some(v) => Some(v@),
                        None => None,
                    },
                },
            },
        },
    }
}

/// `r` relays the Telegram message `m`, from `to_discord`'s point of view.
pub open spec fn relays_telegram_message(
    r: Option<TelegramRelay>,
    to_discord: Map<i64, u64>,
    m: TelegramMessage,
) -> bool {
    match m.from {
        None => r is None,
        Some(author) => if !to_discord.contains_key(m.chat_id) {
            r is None
        } else {
            let channel_id = to_discord[m.chat_id];
            let label = sender_label(author, m.forward_from, m.reply_to_from);
            match message_file_id(m) {
                Some(file_id) => match r {
                    Some(TelegramRelay::File(p)) => {
                        &&& p.channel_id == channel_id
                        &&& p.user@ == label
                        &&& p.file_id@ == file_id
                        &&& opt_view(p.caption) == opt_view(m.caption)
                        &&& p.sticker == m.sticker is Some
                    },
                    _ => false,
                },
                None => match m.text {
                    Some(t) => match r {
                        Some(TelegramRelay::Text(d)) => {
                            &&& d.from@ == label
                            &&& d.channel_id == channel_id
                            &&& d.content matches dc::MessageContent::Text(dt) && dt@ == t@
                        },
                        _ => false,
                    },
                    None => r is None,
                },
            }
        },
    }
}

/// Names a Telegram account.
pub fn get_user_name(user: &TelegramUser) -> (r: String)
    ensures
        r@ == user_name(*user),
{
    match &user.username {
        Some(n) => n.clone(),
        None => match &user.last_name {
            Some(l) => {
                let mut out = user.first_name.clone();
                out.append(" ");
                out.append(l.as_str());
                out
            },
            None => user.first_name.clone(),
        },
    }
}

/// The sender label of a Telegram message by `author`.
pub fn get_sender_label(
    author: &TelegramUser,
    forward_from: &Option<TelegramUser>,
    reply_to_from: &Option<TelegramUser>,
) -> (r: String)
    ensures
        r@ == sender_label(*author, *forward_from, *reply_to_from),
{
    let mut out = get_user_name(author);
    match forward_from {
        Some(f) => {
            out.append(", forwarded from ");
            let name = get_user_name(f);
            out.append(name.as_str());
        },
        None => match reply_to_from {
            Some(r) => {
                out.append(", in reply to ");
                let name = get_user_name(r);
                out.append(name.as_str());
            },
            None => {},
        },
    }
    out
}

proof fn lemma_widest_unique(ps: Seq<PhotoSize>, i: int, k: int)
    requires
        is_widest(ps, i),
        is_widest(ps, k),
    ensures
        i == k,
{
    if i < k {
        assert(ps[k].width < ps[i].width);
        assert(ps[i].width <= ps[k].width);
    } else if k < i {
        assert(ps[i].width < ps[k].width);
        assert(ps[k].width <= ps[i].width);
    }
}

/// The file id of the widest photo; of equally wide ones, the last.
pub fn widest_photo(photos: &Vec<PhotoSize>) -> (r: Option<String>)
    ensures
        opt_view(r) == widest_file_id(photos@),
{
    let n = photos.len();
    if n == 0 {
        return None;
    }
    let mut best: usize = 0;
    let mut i: usize = 1;
    while i < n
        invariant
            n == photos@.len(),
            best < i <= n,
            forall|j: int| 0 <= j < i ==> #[trigger] photos@[j].width <= photos@[best as int].width,
            forall|j: int| best < j < i ==> #[trigger] photos@[j].width < photos@[best as int].width,
        decreases n - i,
    {
        if photos[i].width >= photos[best].width {
            best = i;
        }
        i = i + 1;
    }
    proof {
        let ps = photos@;
        assert(is_widest(ps, best as int));
        let c = choose|i: int| is_widest(ps, i);
        lemma_widest_unique(ps, best as int, c);
    }
    Some(photos[best].file_id.clone())
}

/// The file id of the file a Telegram message carries, if any.
pub fn get_file_id(message: &TelegramMessage) -> (r: Option<String>)
    ensures
        opt_view(r) == message_file_id(*message),
{
    if let Some(a) = &message.audio {
        Some(a.clone())
    } else if let Some(d) = &message.document {
        Some(d.clone())
    } else if let Some(ps) = &message.photo {
        widest_photo(ps)
    } else if let Some(s) = &message.sticker {
        Some(s.clone())
    } else if let Some(v) = &message.voice {
        Some(v.clone())
    } else {
        None
    }
}

/// What relaying a Telegram message takes: nothing for a message without author, in an
/// unlinked chat, or with neither file nor text.
pub fn handle_message(config: &Config, message: TelegramMessage) -> (r: Option<TelegramRelay>)
    ensures
        relays_telegram_message(r, config.to_discord(), message),
{
    let author = match &message.from {
        Some(a) => a,
        None => return None,
    };
    let user = get_sender_label(author, &message.forward_from, &message.reply_to_from);
    let channel_id = match config.discord_channel_id(&message.chat_id) {
        Some(c) => c,
        None => return None,
    };
    let file_id = get_file_id(&message);
    let sticker = message.sticker.is_some();
    match file_id {
        Some(file_id) => Some(
            TelegramRelay::File(
                PendingFile { channel_id, user, file_id, caption: message.caption.clone(), sticker },
            ),
        ),
        None => match &message.text {
            Some(t) => Some(TelegramRelay::Text(dc::Message::text(user, channel_id, t.clone()))),
            None => None,
        },
    }
}

} // verus!
