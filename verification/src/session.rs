//! The files that a session has downloaded: how a download is named and
//! described, the store that keeps the files by their identifiers, and where
//! a file is saved to.

use crate::text::{chars_of, decimal, push_chars, push_decimal, same_chars};
use vstd::prelude::*;

verus! {

/// A downloaded file.
#[derive(Debug, PartialEq, Eq)]
pub struct FileInfo {
    /// Identifier of the file within the session.
    pub id: String,
    /// The address that the file was downloaded from.
    pub original_url: String,
    /// Where the file is stored.
    pub file_path: String,
    /// The file's name, taken from the address.
    pub file_name: String,
    /// The media type guessed from the file's extension.
    pub mime_type: String,
    /// The number of bytes downloaded.
    pub size: u64,
}

/// What a `FileInfo` holds, as mathematical values.
pub struct FileView {
    pub id: Seq<char>,
    pub original_url: Seq<char>,
    pub file_path: Seq<char>,
    pub file_name: Seq<char>,
    pub mime_type: Seq<char>,
    pub size: u64,
}

impl View for FileInfo {
    type V = FileView;

    open spec fn view(&self) -> FileView {
        FileView {
            id: self.id@,
            original_url: self.original_url@,
            file_path: self.file_path@,
            file_name: self.file_name@,
            mime_type: self.mime_type@,
            size: self.size,
        }
    }
}

impl Clone for FileInfo {
    fn clone(&self) -> (copy: Self)
        ensures
            copy@ == self@,
    {
        FileInfo {
            id: self.id.clone(),
            original_url: self.original_url.clone(),
            file_path: self.file_path.clone(),
            file_name: self.file_name.clone(),
            mime_type: self.mime_type.clone(),
            size: self.size,
        }
    }
}

/// What can go wrong with the files of a session.
#[derive(Debug, PartialEq, Eq)]
pub enum SessionError {
    /// The download failed; the text says how.
    DownloadError(String),
    /// The text is no address.
    InvalidUrl(String),
    /// Reading or writing failed; the text says how.
    IoError(String),
    /// The request failed; the text says how.
    RequestError(String),
    /// The session holds no file with this identifier.
    FileNotFound(String),
}

/// A `SessionError` as a mathematical value.
pub enum SessionErrorView {
    DownloadError(Seq<char>),
    InvalidUrl(Seq<char>),
    IoError(Seq<char>),
    RequestError(Seq<char>),
    FileNotFound(Seq<char>),
}

impl View for SessionError {
    type V = SessionErrorView;

    open spec fn view(&self) -> SessionErrorView {
        match self {
            SessionError::DownloadError(s) => SessionErrorView::DownloadError(s@),
            SessionError::InvalidUrl(s) => SessionErrorView::InvalidUrl(s@),
            SessionError::IoError(s) => SessionErrorView::IoError(s@),
            SessionError::RequestError(s) => SessionErrorView::RequestError(s@),
            SessionError::FileNotFound(s) => SessionErrorView::FileNotFound(s@),
        }
    }
}

impl SessionErrorView {
    /// The text that the user is shown for the error.
    pub open spec fn text(self) -> Seq<char> {
        match self {
            SessionErrorView::DownloadError(s) => "Failed to download file: "@ + s,
            SessionErrorView::InvalidUrl(s) => "Invalid URL: "@ + s,
            SessionErrorView::IoError(s) => "IO error: "@ + s,
            SessionErrorView::RequestError(s) => "Request error: "@ + s,
            SessionErrorView::FileNotFound(s) => "File not found: "@ + s,
        }
    }
}

impl SessionError {
    /// The text that the user is shown for the error.
    pub fn message(&self) -> (message: String)
        ensures
            message@ == self@.text(),
    {
        let mut message = String::new();
        match self {
            SessionError::DownloadError(s) => {
                push_chars(&mut message, &chars_of("Failed to download file: "));
                push_chars(&mut message, &chars_of(s.as_str()));
            },
            SessionError::InvalidUrl(s) => {
                push_chars(&mut message, &chars_of("Invalid URL: "));
                push_chars(&mut message, &chars_of(s.as_str()));
            },
            SessionError::IoError(s) => {
                push_chars(&mut message, &chars_of("IO error: "));
                push_chars(&mut message, &chars_of(s.as_str()));
            },
            SessionError::RequestError(s) => {
                push_chars(&mut message, &chars_of("Request error: "));
                push_chars(&mut message, &chars_of(s.as_str()));
            },
            SessionError::FileNotFound(s) => {
                push_chars(&mut message, &chars_of("File not found: "));
                push_chars(&mut message, &chars_of(s.as_str()));
            },
        }
        message
    }
}

/// `url::Url`, a parsed address. Nothing is known of its inside; what it
/// holds is told by `url_segments`.
#[verifier::external_type_specification]
#[verifier::external_body]
pub struct ExUrl(url::Url);

/// `url::ParseError`, the reason why a text is no address. It is only
/// carried, never read.
#[verifier::external_type_specification]
#[verifier::external_body]
pub struct ExUrlParseError(url::ParseError);

/// The path segments of a parsed address; none for an address that cannot
/// be a base.
pub uninterp spec fn url_segments(url: url::Url) -> Option<Seq<Seq<char>>>;

/// What parsing the text `input` as an address comes to: nothing where it
/// is no absolute address, else its path segments.
pub uninterp spec fn parsed_segments(input: Seq<char>) -> Option<Option<Seq<Seq<char>>>>;

/// The views of the strings in `v`, in order.
pub open spec fn string_views(v: Seq<String>) -> Seq<Seq<char>> {
    v.map_values(|s: String| s@)
}

/// `url::Url::parse`: an absolute address is parsed from the text, or the
/// text is refused. The outcome depends on the text alone.
#[verifier::external_body]
fn parse_url(input: &str) -> (parsed: Result<url::Url, url::ParseError>)
    ensures
        match parsed {
            Ok(url) => parsed_segments(input@) == Some(url_segments(url)),
            Err(_) => parsed_segments(input@) is None,
        },
{
    url::Url::parse(input)
}

/// `url::Url::path_segments`: the segments of the path between its slashes,
/// none for an address that cannot be a base. Where there are segments,
/// there is at least one, which may be empty.
#[verifier::external_body]
fn path_segments(url: &url::Url) -> (segments: Option<Vec<String>>)
    ensures
        match segments {
            Some(found) => url_segments(*url) == Some(string_views(found@)) && found@.len() >= 1,
            None => url_segments(*url) is None,
        },
{
    url.path_segments().map(|parts| parts.map(|part| part.to_string()).collect())
}

/// The media type that `mime_guess` has for a path.
pub uninterp spec fn guessed_mime(path: Seq<char>) -> Seq<char>;

/// `mime_guess::from_path` and, of its guess, `first_or_octet_stream`, the
/// pair that `mime_guess` offers for guessing one type: the first media
/// type on record for the extension of the path, or the type of arbitrary
/// bytes. The contract only names the result.
#[verifier::external_body]
fn guess_mime(path: &str) -> (mime: String)
    ensures
        mime@ == guessed_mime(path@),
{
    mime_guess::from_path(path).first_or_octet_stream().to_string()
}

/// The name for a file without a name in its address.
pub open spec fn default_file_name() -> Seq<char> {
    "downloaded_file"@
}

/// The file name that path segments give: the last segment, or the default
/// name where there are no segments.
pub open spec fn file_name_of(segments: Option<Seq<Seq<char>>>) -> Seq<char> {
    match segments {
        Some(found) => if found.len() > 0 {
            found.last()
        } else {
            default_file_name()
        },
        None => default_file_name(),
    }
}

/// The file name that the path segments of an address give.
pub fn file_name_from_segments(segments: Option<Vec<String>>) -> (name: String)
    ensures
        name@ == file_name_of(
            match segments {
                Some(found) => Some(string_views(found@)),
                None => None,
            },
        ),
{
    match segments {
        Some(found) => {
            if found.len() > 0 {
                found[found.len() - 1].clone()
            } else {
                "downloaded_file".to_owned()
            }
        },
        None => "downloaded_file".to_owned(),
    }
}

/// The name under which the file at the address `url` is stored: the last
/// segment of the address's path. A text that is no address is refused.
pub fn file_name_from_url(url: &str) -> (name: Result<String, SessionError>)
    ensures
        match parsed_segments(url@) {
            Some(segments) => name is Ok && name->Ok_0@ == file_name_of(segments),
            None => name is Err && name->Err_0@ == SessionErrorView::InvalidUrl(url@),
        },
{
    match parse_url(url) {
        Ok(parsed) => Ok(file_name_from_segments(path_segments(&parsed))),
        Err(_) => Err(SessionError::InvalidUrl(url.to_owned())),
    }
}

/// The identifier of the file whose download began at `timestamp_millis`.
pub open spec fn file_id_of(timestamp_millis: nat) -> Seq<char> {
    "file_"@ + decimal(timestamp_millis)
}

/// The identifier of the file whose download began at `timestamp_millis`,
/// in milliseconds since the epoch.
pub fn file_id(timestamp_millis: u128) -> (id: String)
    ensures
        id@ == file_id_of(timestamp_millis as nat),
{
    let mut id = String::new();
    push_chars(&mut id, &chars_of("file_"));
    push_decimal(&mut id, timestamp_millis);
    id
}

/// The error for a download that the server answered with `status`, if that
/// is no success.
pub open spec fn status_error(status: u16) -> Option<SessionErrorView> {
    if crate::fetch::is_success(status) {
        None
    } else {
        Some(
            SessionErrorView::DownloadError(
                "Failed to download file: HTTP status "@ + decimal(status as nat),
            ),
        )
    }
}

/// Lets a download go on if the server answered with a success.
pub fn check_download_status(status: u16) -> (checked: Result<(), SessionError>)
    ensures
        match status_error(status) {
            None => checked is Ok,
            Some(error) => checked is Err && checked->Err_0@ == error,
        },
{
    if 200 <= status && status <= 299 {
        Ok(())
    } else {
        let mut text = String::new();
        push_chars(&mut text, &chars_of("Failed to download file: HTTP status "));
        push_decimal(&mut text, status as u128);
        Err(SessionError::DownloadError(text))
    }
}

/// The description of a finished download. The media type is guessed from
/// the path that the file is stored at.
pub fn describe_download(
    id: String,
    original_url: String,
    file_path: String,
    file_name: String,
    size: u64,
) -> (info: FileInfo)
    ensures
        info@ == (FileView {
            id: id@,
            original_url: original_url@,
            file_path: file_path@,
            file_name: file_name@,
            mime_type: guessed_mime(file_path@),
            size,
        }),
{
    let mime_type = guess_mime(file_path.as_str());
    FileInfo { id, original_url, file_path, file_name, mime_type, size }
}

/// The files that `entries` hold, by identifier. Of two entries with one
/// identifier the later one counts.
pub open spec fn files_by_id(entries: Seq<FileInfo>) -> Map<Seq<char>, FileView>
    decreases entries.len(),
{
    if entries.len() == 0 {
        Map::empty()
    } else {
        files_by_id(entries.drop_last()).insert(entries.last().id@, entries.last()@)
    }
}

/// The file of an optional description.
pub open spec fn optional_view(file: Option<FileInfo>) -> Option<FileView> {
    match file {
        Some(info) => Some(info@),
        None => None,
    }
}

/// The downloaded files of one session: each file by its identifier, and
/// the file that was downloaded last.
#[derive(Debug, PartialEq, Eq)]
pub struct SessionStore {
    current_file: Option<FileInfo>,
    downloaded_files: Vec<FileInfo>,
}

impl SessionStore {
    /// The file that was downloaded last.
    pub closed spec fn current(self) -> Option<FileView> {
        optional_view(self.current_file)
    }

    /// The downloaded files, by identifier.
    pub closed spec fn files(self) -> Map<Seq<char>, FileView> {
        files_by_id(self.downloaded_files@)
    }

    /// The store of a session without downloads.
    pub fn new() -> (store: SessionStore)
        ensures
            store.current() is None,
            store.files() == Map::<Seq<char>, FileView>::empty(),
    {
        SessionStore { current_file: None, downloaded_files: Vec::new() }
    }

    /// Takes up a finished download: it becomes the current file and is
    /// kept under its identifier, in place of what was kept under it before.
    pub fn record_download(&mut self, info: FileInfo)
        ensures
            final(self).current() == Some(info@),
            final(self).files() == old(self).files().insert(info.id@, info@),
    {
        let copy = info.clone();
        proof {
            assert(self.downloaded_files@.push(info).drop_last() == self.downloaded_files@);
        }
        self.downloaded_files.push(info);
        self.current_file = Some(copy);
    }

    /// The file that was downloaded last, if any.
    pub fn get_current_file(&self) -> (file: Option<FileInfo>)
        ensures
            optional_view(file) == self.current(),
    {
        match &self.current_file {
            Some(info) => Some(info.clone()),
            None => None,
        }
    }

    /// The file that is kept under `id`; an error that names `id` where
    /// there is none.
    pub fn get_file_by_id(&self, id: &str) -> (file: Result<FileInfo, SessionError>)
        ensures
            self.files().contains_key(id@) ==> file is Ok && file->Ok_0@ == self.files()[id@],
            !self.files().contains_key(id@) ==> file is Err && file->Err_0@
                == SessionErrorView::FileNotFound(id@),
    {
        let key = chars_of(id);
        let mut i: usize = self.downloaded_files.len();
        assert(self.downloaded_files@.take(i as int) == self.downloaded_files@);
        while i > 0
            invariant
                i <= self.downloaded_files.len(),
                key@ == id@,
                self.files().contains_key(id@) == files_by_id(
                    self.downloaded_files@.take(i as int),
                ).contains_key(id@),
                self.files().contains_key(id@) ==> self.files()[id@] == files_by_id(
                    self.downloaded_files@.take(i as int),
                )[id@],
            decreases i,
        {
            proof {
                let upto = self.downloaded_files@.take(i as int);
                assert(upto.drop_last() == self.downloaded_files@.take(i - 1));
            }
            let entry = &self.downloaded_files[i - 1];
            if same_chars(&chars_of(entry.id.as_str()), &key) {
                return Ok(entry.clone());
            }
            i -= 1;
        }
        Err(SessionError::FileNotFound(id.to_owned()))
    }
}

/// What saving a file begins with.
#[derive(Debug, PartialEq, Eq)]
pub enum SaveStep {
    /// The destination is known: the file is copied there.
    CopyTo { destination: String },
    /// The user is asked for the destination; the dialog proposes the file's name.
    AskUser { suggested_name: String },
}

/// A `SaveStep` as a mathematical value.
pub enum SaveStepView {
    CopyTo { destination: Seq<char> },
    AskUser { suggested_name: Seq<char> },
}

impl View for SaveStep {
    type V = SaveStepView;

    open spec fn view(&self) -> SaveStepView {
        match self {
            SaveStep::CopyTo { destination } => SaveStepView::CopyTo { destination: destination@ },
            SaveStep::AskUser { suggested_name } => SaveStepView::AskUser {
                suggested_name: suggested_name@,
            },
        }
    }
}

/// How the file `info` is saved: to the path that was asked for, or, where
/// none was, to the path that the user is to choose.
pub fn plan_save(info: &FileInfo, save_path: Option<String>) -> (step: SaveStep)
    ensures
        step@ == (match save_path {
            Some(path) => SaveStepView::CopyTo { destination: path@ },
            None => SaveStepView::AskUser { suggested_name: info.file_name@ },
        }),
{
    match save_path {
        Some(path) => SaveStep::CopyTo { destination: path },
        None => SaveStep::AskUser { suggested_name: info.file_name.clone() },
    }
}

/// The text of the error for a save dialog that the user closed.
pub open spec fn save_cancelled_text() -> Seq<char> {
    "Save cancelled by user"@
}

/// The destination that the user chose in the save dialog; an error where
/// the user closed the dialog without choosing.
pub fn dialog_destination(choice: Option<String>) -> (destination: Result<String, SessionError>)
    ensures
        match choice {
            Some(path) => destination is Ok && destination->Ok_0@ == path@,
            None => destination is Err && destination->Err_0@ == SessionErrorView::IoError(
                save_cancelled_text(),
            ),
        },
{
    match choice {
        Some(path) => Ok(path),
        None => Err(SessionError::IoError("Save cancelled by user".to_owned())),
    }
}


/// What the run of the clipboard tool comes to: a tool that did not end
/// with success has failed, and the error holds what it wrote to its
/// error output.
pub open spec fn clipboard_failure(error_output: Seq<char>) -> Seq<char> {
    "fct.exe failed: "@ + error_output
}

/// Judges the run of the tool that puts a file on the clipboard, by whether
/// it ended with success and by what it wrote to its error output.
pub fn clipboard_outcome(succeeded: bool, error_output: &str) -> (outcome: Result<(), String>)
    ensures
        succeeded ==> outcome is Ok,
        !succeeded ==> outcome is Err && outcome->Err_0@ == clipboard_failure(error_output@),
{
    if succeeded {
        Ok(())
    } else {
        let mut text = String::new();
        push_chars(&mut text, &chars_of("fct.exe failed: "));
        push_chars(&mut text, &chars_of(error_output));
        Err(text)
    }
}

} // verus!
