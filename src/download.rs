//! The checks and names that come before and after downloading a Telegram file.
//!
//! A file is fetched only where Telegram reports its size and that size is under the limit
//! that Discord puts on uploads; its name is the last segment of the download URL.
use vstd::prelude::*;
use vstd::string::StringExecFns;

use crate::dc;
use crate::inbound::PendingFile;
use crate::text::opt_view;

verus! {

/// Files of this many bytes or more are not relayed.
pub const MAX_FILE_SIZE: i64 = 8000000;

/// Why a file was not downloaded.
#[derive(Debug, PartialEq, Eq)]
pub enum DownloadError {
    /// The HTTP request failed; it holds the transport's message.
    Transport(String),
    /// The server answered with a status outside 200..=299.
    Not2XX(u16),
    /// The file is too large; it holds the reported size.
    FileTooLarge(i64),
    /// Telegram reported no size for the file.
    FileSizeUnknown,
    /// No file name could be told from the download path.
    FileName,
}

/// What Telegram tells of a file before it is downloaded.
pub struct RemoteFile {
    /// The size in bytes, if known.
    pub file_size: Option<i64>,
    /// The path to download it from, if Telegram gives one.
    pub file_path: Option<String>,
}

/// Where to download a file from, and the name to give it.
pub struct Request {
    pub url: String,
    pub filename: String,
}

/// The last component of a path, as `std::path::Path::file_name` reads it.
pub uninterp spec fn file_name_of(path: Seq<char>) -> Option<Seq<char>>;

/// Relies on `std::path::Path::file_name`: the final component of the path, `None` where
/// the path ends in `..` or has no component. A component of a `&str` is valid UTF-8, so
/// `to_str` always succeeds.
#[verifier::external_body]
fn path_file_name(path: &str) -> (r: Option<String>)
    ensures
        opt_view(r) == file_name_of(path@),
{
    match std::path::Path::new(path).file_name() {
        Some(name) => match name.to_str() {
            Some(s) => Some(s.to_string()),
            None => None,
        },
        None => None,
    }
}

/// The URL that a file of the bot with `token` is downloaded from.
pub open spec fn file_url(token: Seq<char>, path: Seq<char>) -> Seq<char> {
    "https://api.telegram.org/file/bot"@ + token + "/"@ + path
}

/// The outcome of the checks made before downloading `file`.
pub open spec fn request_for(token: Seq<char>, file: RemoteFile, r: Result<Request, DownloadError>) -> bool {
    match file.file_size {
        None => r == Err::<Request, DownloadError>(DownloadError::FileSizeUnknown),
        Some(size) => if size >= MAX_FILE_SIZE {
            r == Err::<Request, DownloadError>(DownloadError::FileTooLarge(size))
        } else {
            match file.file_path {
                None => r == Err::<Request, DownloadError>(DownloadError::FileName),
                Some(path) => {
                    let url = file_url(token, path@);
                    match file_name_of(url) {
                        None => r == Err::<Request, DownloadError>(DownloadError::FileName),
                        Some(name) => r matches Ok(req) && req.url@ == url && req.filename@
                            == name,
                    }
                },
            }
        },
    }
}

/// Checks a file before it is downloaded and tells where from and under which name.
pub fn prepare_request(token: &str, file: RemoteFile) -> (r: Result<Request, DownloadError>)
    ensures
        request_for(token@, file, r),
{
    let size = match file.file_size {
        Some(s) => s,
        None => return Err(DownloadError::FileSizeUnknown),
    };
    if size >= MAX_FILE_SIZE {
        return Err(DownloadError::FileTooLarge(size));
    }
    let path = match &file.file_path {
        Some(p) => p,
        None => return Err(DownloadError::FileName),
    };
    let mut url = String::from_str("https://api.telegram.org/file/bot");
    url.append(token);
    url.append("/");
    url.append(path.as_str());
    match path_file_name(url.as_str()) {
        Some(filename) => Ok(Request { url, filename }),
        None => Err(DownloadError::FileName),
    }
}

/// Accepts the HTTP status of a download when it is 2xx.
pub fn check_status(code: u16) -> (r: Result<(), DownloadError>)
    ensures
        200 <= code <= 299 ==> r is Ok,
        !(200 <= code <= 299) ==> r == Err::<(), DownloadError>(DownloadError::Not2XX(code)),
{
    if 200 <= code && code < 300 {
        Ok(())
    } else {
        Err(DownloadError::Not2XX(code))
    }
}

/// The name a fetched file is uploaded under: stickers get the `.webp` extension they lack.
pub open spec fn upload_name(filename: Seq<char>, sticker: bool) -> Seq<char> {
    if sticker {
        filename + ".webp"@
    } else {
        filename
    }
}

impl PendingFile {
    /// The Discord message that relays the file once it has been fetched.
    pub fn complete(self, contents: Vec<u8>, filename: String) -> (r: dc::Message)
        ensures
            r.from == self.user,
            r.channel_id == self.channel_id,
            r.content matches dc::MessageContent::File(f) && f.caption == self.caption
                && f.contents == contents && f.filename@ == upload_name(filename@, self.sticker),
    {
        let PendingFile { channel_id, user, file_id: _, caption, sticker } = self;
        let filename = if sticker {
            filename.concat(".webp")
        } else {
            filename
        };
        dc::Message::file(user, channel_id, caption, filename, contents)
    }
}

} // verus!
