//! The content fetcher's bookkeeping: whether a response is to be stored,
//! how far a download has come, and when its progress is reported.

use crate::text::{chars_of, decimal, push_chars, push_decimal};
use vstd::prelude::*;

verus! {

/// How far a download has come. One such value is reported after each piece
/// of the body that has been stored.
#[derive(Debug, PartialEq, Eq)]
pub struct DownloadProgress {
    /// Number of bytes stored so far.
    pub downloaded: u64,
    /// Total size in bytes that the server declared; 0 where it declared none.
    pub total: u64,
    /// Path of the file that the body is stored in.
    pub file_path: String,
}

/// What a `DownloadProgress` holds, as mathematical values.
pub struct ProgressView {
    pub downloaded: nat,
    pub total: nat,
    pub file_path: Seq<char>,
}

impl View for DownloadProgress {
    type V = ProgressView;

    open spec fn view(&self) -> ProgressView {
        ProgressView {
            downloaded: self.downloaded as nat,
            total: self.total as nat,
            file_path: self.file_path@,
        }
    }
}

impl Clone for DownloadProgress {
    fn clone(&self) -> (copy: Self)
        ensures
            copy@ == self@,
    {
        DownloadProgress {
            downloaded: self.downloaded,
            total: self.total,
            file_path: self.file_path.clone(),
        }
    }
}

/// Why a download failed. Whatever has been stored of the body stays where
/// it is; it is not a valid file.
#[derive(Debug, PartialEq, Eq)]
pub enum FetchError {
    /// The directory of the destination could not be created.
    CreateDirectory(String),
    /// The request could not be sent.
    Request(String),
    /// The server answered with a status that is no success; it is carried along.
    Status(u16),
    /// The destination file could not be created.
    CreateFile(String),
    /// The body broke off.
    Stream(String),
    /// A piece of the body could not be stored.
    Write(String),
}

/// A `FetchError` as a mathematical value.
pub enum FetchErrorView {
    CreateDirectory(Seq<char>),
    Request(Seq<char>),
    Status(u16),
    CreateFile(Seq<char>),
    Stream(Seq<char>),
    Write(Seq<char>),
}

impl View for FetchError {
    type V = FetchErrorView;

    open spec fn view(&self) -> FetchErrorView {
        match self {
            FetchError::CreateDirectory(why) => FetchErrorView::CreateDirectory(why@),
            FetchError::Request(why) => FetchErrorView::Request(why@),
            FetchError::Status(status) => FetchErrorView::Status(*status),
            FetchError::CreateFile(why) => FetchErrorView::CreateFile(why@),
            FetchError::Stream(why) => FetchErrorView::Stream(why@),
            FetchError::Write(why) => FetchErrorView::Write(why@),
        }
    }
}

/// The status code stands for success: it is one of the codes from 200 to 299.
pub open spec fn is_success(status: u16) -> bool {
    200 <= status <= 299
}

impl FetchErrorView {
    /// The text that the user is shown for the error.
    pub open spec fn text(self) -> Seq<char> {
        match self {
            FetchErrorView::CreateDirectory(why) => "Failed to create directory: "@ + why,
            FetchErrorView::Request(why) => "Failed to send request: "@ + why,
            FetchErrorView::Status(status) => "Download request failed with status: "@ + decimal(
                status as nat,
            ),
            FetchErrorView::CreateFile(why) => "Failed to create file: "@ + why,
            FetchErrorView::Stream(why) => "Error while downloading: "@ + why,
            FetchErrorView::Write(why) => "Failed to write to file: "@ + why,
        }
    }
}

impl FetchError {
    /// The text that the user is shown for the error.
    pub fn message(&self) -> (message: String)
        ensures
            message@ == self@.text(),
    {
        let mut message = String::new();
        match self {
            FetchError::CreateDirectory(why) => {
                push_chars(&mut message, &chars_of("Failed to create directory: "));
                push_chars(&mut message, &chars_of(why.as_str()));
            },
            FetchError::Request(why) => {
                push_chars(&mut message, &chars_of("Failed to send request: "));
                push_chars(&mut message, &chars_of(why.as_str()));
            },
            FetchError::Status(status) => {
                push_chars(&mut message, &chars_of("Download request failed with status: "));
                push_decimal(&mut message, *status as u128);
            },
            FetchError::CreateFile(why) => {
                push_chars(&mut message, &chars_of("Failed to create file: "));
                push_chars(&mut message, &chars_of(why.as_str()));
            },
            FetchError::Stream(why) => {
                push_chars(&mut message, &chars_of("Error while downloading: "));
                push_chars(&mut message, &chars_of(why.as_str()));
            },
            FetchError::Write(why) => {
                push_chars(&mut message, &chars_of("Failed to write to file: "));
                push_chars(&mut message, &chars_of(why.as_str()));
            },
        }
        message
    }
}

/// The declared length of a body; 0 where none was declared.
pub open spec fn declared_total(content_length: Option<u64>) -> nat {
    match content_length {
        Some(n) => n as nat,
        None => 0,
    }
}

/// Begins a download into `destination` once the server has answered.
///
/// A status that is no success is an error, which carries the status.
/// Otherwise nothing has been stored yet, and the total is the length that
/// the server declared, or 0 for an unknown length.
pub fn begin_download(status: u16, content_length: Option<u64>, destination: &str) -> (begun:
    Result<DownloadProgress, FetchError>)
    ensures
        !is_success(status) ==> begun is Err && begun->Err_0@ == FetchErrorView::Status(status),
        is_success(status) ==> begun is Ok && begun->Ok_0@ == (ProgressView {
            downloaded: 0,
            total: declared_total(content_length),
            file_path: destination@,
        }),
{
    if status < 200 || status > 299 {
        return Err(FetchError::Status(status));
    }
    let total = match content_length {
        Some(n) => n,
        None => 0,
    };
    Ok(DownloadProgress { downloaded: 0, total, file_path: destination.to_owned() })
}

impl DownloadProgress {
    /// The progress after `chunk_len` more bytes have been stored.
    pub open spec fn after(self, chunk_len: nat) -> ProgressView {
        ProgressView { downloaded: self@.downloaded + chunk_len, ..self@ }
    }

    /// Records that a piece of `chunk_len` bytes has been stored, and hands
    /// out the progress to report: the new progress where the total is
    /// known, nothing where it is not.
    ///
    /// The count of stored bytes never decreases.
    pub fn record_chunk(&mut self, chunk_len: usize) -> (report: Option<DownloadProgress>)
        requires
            old(self).downloaded + chunk_len <= u64::MAX,
        ensures
            final(self)@ == old(self).after(chunk_len as nat),
            final(self).downloaded >= old(self).downloaded,
            old(self).total > 0 ==> report is Some && report->0@ == final(self)@,
            old(self).total == 0 ==> report is None,
    {
        self.downloaded = self.downloaded + chunk_len as u64;
        if self.total > 0 {
            Some(self.clone())
        } else {
            None
        }
    }
}

} // verus!
