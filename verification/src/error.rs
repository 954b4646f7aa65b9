use vstd::prelude::*;
use crate::text::{decimal_text, i64_text, joined_text};

verus! {

/// Why a resolution, a transfer, a merge or a batch run stopped.
///
/// Every variant is fatal to the item or session it arose in: nothing is
/// retried, and files written so far are left in place.
#[derive(Clone, Copy, Debug, PartialEq, Eq, Structural)]
pub enum Error {
    /// No known identifier shape occurs in the input.
    UnresolvableURL,
    /// A short link answered with something other than a redirect.
    RedirectResolutionFailure,
    /// The platform did not deliver the metadata of an item.
    MetadataFetchError,
    /// The server answered a request with a client or server error status.
    HTTPStatusError(u16),
    /// The response declared no usable content length.
    ContentLengthMissing,
    /// The reader or the writer of a transfer failed, or the stream did not
    /// deliver exactly the bytes that were expected.
    StreamAbort,
    /// The merge process ended with the given non-zero exit code.
    MergeProcessError(i32),
    /// A file or directory could not be created, opened or inspected, or a
    /// program that is needed could not be started.
    FileSystemError,
}

/// What is said of an error to the user.
pub open spec fn message_text(error: Error) -> Seq<char> {
    match error {
        Error::UnresolvableURL => "no video, series or collection found in the input"@,
        Error::RedirectResolutionFailure => "resolve short links error"@,
        Error::MetadataFetchError => "the platform did not deliver the metadata"@,
        Error::HTTPStatusError(status) => "HTTP status "@ + decimal_text(status as int),
        Error::ContentLengthMissing => "未能取得文件长度"@,
        Error::StreamAbort => "the stream did not deliver the expected bytes"@,
        Error::MergeProcessError(code) => "FFMPEG 未能成功运行 : EXIT CODE : "@ + decimal_text(
            code as int,
        ),
        Error::FileSystemError => "a file or program is missing or cannot be used"@,
    }
}

impl Error {
    /// Describes the error, with the status or exit code where it has one.
    pub fn message(&self) -> (text: String)
        ensures
            text@ == message_text(*self),
    {
        match self {
            Error::UnresolvableURL => "no video, series or collection found in the input".to_owned(),
            Error::RedirectResolutionFailure => "resolve short links error".to_owned(),
            Error::MetadataFetchError => "the platform did not deliver the metadata".to_owned(),
            Error::HTTPStatusError(status) => {
                let digits = i64_text(*status as i64);
                joined_text("HTTP status ", digits.as_str())
            },
            Error::ContentLengthMissing => "未能取得文件长度".to_owned(),
            Error::StreamAbort => "the stream did not deliver the expected bytes".to_owned(),
            Error::MergeProcessError(code) => {
                let digits = i64_text(*code as i64);
                joined_text("FFMPEG 未能成功运行 : EXIT CODE : ", digits.as_str())
            },
            Error::FileSystemError => "a file or program is missing or cannot be used".to_owned(),
        }
    }
}

} // verus!
