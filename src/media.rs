//! Telling what kind of file a byte content is, by sniffing the content itself.
use mime_sniffer::MimeTypeSniffer;
use vstd::prelude::*;

use crate::tg::FileKind;
use crate::text::{opt_view, text_eq};

verus! {

/// The media type that mime-sniffer reads from a content, if it recognises one.
pub uninterp spec fn sniffed_type(b: Seq<u8>) -> Option<Seq<char>>;

/// The top-level type (the part before `/`) of a media type, as the mime crate parses it.
pub uninterp spec fn top_level_of(t: Seq<char>) -> Option<Seq<char>>;

/// Relies on mime-sniffer's `MimeTypeSniffer::sniff_mime_type` for byte slices, which looks
/// the content's leading bytes up in fixed tables of magic numbers.
#[verifier::external_body]
fn sniff(bytes: &[u8]) -> (r: Option<String>)
    ensures
        opt_view(r) == sniffed_type(bytes@),
{
    match bytes.sniff_mime_type() {
        Some(t) => Some(t.to_string()),
        None => None,
    }
}

/// Relies on `str::parse::<mime::Mime>` and `Mime::type_`: the top-level type of a parsed
/// media type, `None` where the text does not parse.
#[verifier::external_body]
fn top_level(media_type: &str) -> (r: Option<String>)
    ensures
        opt_view(r) == top_level_of(media_type@),
{
    match media_type.parse::<mime::Mime>() {
        Ok(m) => Some(m.type_().as_str().to_string()),
        Err(_) => None,
    }
}

/// The kind of file that a top-level media type stands for.
pub open spec fn kind_of_top_level(t: Seq<char>) -> FileKind {
    if t == "image"@ {
        FileKind::Image
    } else if t == "video"@ {
        FileKind::Video
    } else if t == "audio"@ {
        FileKind::Audio
    } else {
        FileKind::Document
    }
}

/// The kind of file that a sniffed media type stands for; anything unrecognised is a document.
pub open spec fn kind_of_media_type(sniffed: Option<Seq<char>>) -> FileKind {
    match sniffed {
        None => FileKind::Document,
        Some(t) => match top_level_of(t) {
            None => FileKind::Document,
            Some(top) => kind_of_top_level(top),
        },
    }
}

impl FileKind {
    /// The kind that a top-level media type (`image`, `video`, `audio`, ...) stands for.
    pub fn from_top_level(top: &str) -> (r: FileKind)
        ensures
            r == kind_of_top_level(top@),
    {
        if text_eq(top, "image") {
            FileKind::Image
        } else if text_eq(top, "video") {
            FileKind::Video
        } else if text_eq(top, "audio") {
            FileKind::Audio
        } else {
            FileKind::Document
        }
    }

    /// The kind that a sniffed media type stands for; `None` (nothing recognised) and text
    /// that is no media type give a document.
    pub fn from_media_type(sniffed: Option<&str>) -> (r: FileKind)
        ensures
            r == kind_of_media_type(
                match sniffed {
                    Some(t) => Some(t@),
                    None => None,
                },
            ),
    {
        match sniffed {
            None => FileKind::Document,
            Some(t) => match top_level(t) {
                None => FileKind::Document,
                Some(top) => FileKind::from_top_level(top.as_str()),
            },
        }
    }

    /// The kind of a file, told from its content.
    pub fn of_contents(contents: &[u8]) -> (r: FileKind)
        ensures
            r == kind_of_media_type(sniffed_type(contents@)),
    {
        let sniffed = sniff(contents);
        match sniffed {
            Some(t) => FileKind::from_media_type(Some(t.as_str())),
            None => FileKind::from_media_type(None),
        }
    }
}

} // verus!
