//! What the service answers.

use vstd::prelude::*;

verus! {

/// Status of a successful request.
pub const STATUS_OK: u16 = 200;

/// Status of a request that the client got wrong.
pub const STATUS_BAD_REQUEST: u16 = 400;

/// Status of a download whose file is not stored.
pub const STATUS_NOT_FOUND: u16 = 404;

/// Status of a request that failed on the service's side.
pub const STATUS_INTERNAL_ERROR: u16 = 500;

/// The structured answer: a file's name, a time in seconds since the epoch,
/// and an error text that is empty on success.
#[derive(Clone, Debug, PartialEq, Eq)]
pub struct File {
    pub name: String,
    pub time: u64,
    pub err: String,
}

/// The mathematical content of a [`File`].
pub struct FileView {
    pub name: Seq<char>,
    pub time: u64,
    pub err: Seq<char>,
}

impl View for File {
    type V = FileView;

    open spec fn view(&self) -> FileView {
        FileView { name: self.name@, time: self.time, err: self.err@ }
    }
}

/// An answer to a request.
#[derive(Clone, Debug, PartialEq, Eq)]
pub enum Reply {
    /// A status and a structured body.
    Json { status: u16, file: File },
    /// Status 200 with a `Content-Disposition` header and the raw bytes of a file.
    Content { disposition: String, data: Vec<u8> },
}

/// The mathematical content of a [`Reply`].
pub enum ReplyView {
    Json { status: u16, file: FileView },
    Content { disposition: Seq<char>, data: Seq<u8> },
}

impl View for Reply {
    type V = ReplyView;

    open spec fn view(&self) -> ReplyView {
        match self {
            Reply::Json { status, file } => ReplyView::Json { status: *status, file: file@ },
            Reply::Content { disposition, data } => ReplyView::Content {
                disposition: disposition@,
                data: data@,
            },
        }
    }
}

/// The error text of a download whose file is not stored.
pub open spec fn missing_text() -> Seq<char> {
    "file does not exists"@
}

/// The error text of an upload part that declares no file name.
pub open spec fn unnamed_text() -> Seq<char> {
    "file name is missing"@
}

/// The error text of a request that failed on the service's side.
pub open spec fn fault_text() -> Seq<char> {
    "internal error"@
}

/// The answer to a successful upload.
pub open spec fn stored_reply(name: Seq<char>, time: u64) -> ReplyView {
    ReplyView::Json { status: STATUS_OK, file: FileView { name, time, err: Seq::empty() } }
}

/// The answer to an upload part without a file name.
pub open spec fn unnamed_reply(name: Seq<char>, time: u64) -> ReplyView {
    ReplyView::Json {
        status: STATUS_BAD_REQUEST,
        file: FileView { name, time, err: unnamed_text() },
    }
}

/// The answer to a download whose file is not stored.
pub open spec fn missing_reply(name: Seq<char>, time: u64) -> ReplyView {
    ReplyView::Json { status: STATUS_NOT_FOUND, file: FileView { name, time, err: missing_text() } }
}

/// The answer to a request that failed on the service's side.
pub open spec fn fault_reply(name: Seq<char>, time: u64) -> ReplyView {
    ReplyView::Json {
        status: STATUS_INTERNAL_ERROR,
        file: FileView { name, time, err: fault_text() },
    }
}

/// The value of the `Content-Disposition` header of a download.
pub open spec fn disposition(name: Seq<char>) -> Seq<char> {
    "form-data; filename="@ + name
}

/// The answer to a download that found its file.
pub open spec fn content_reply(name: Seq<char>, data: Seq<u8>) -> ReplyView {
    ReplyView::Content { disposition: disposition(name), data }
}

impl Reply {
    /// The status code of this answer.
    pub open spec fn spec_status(&self) -> u16 {
        match self {
            Reply::Json { status, .. } => *status,
            Reply::Content { .. } => STATUS_OK,
        }
    }

    /// The status code of this answer.
    pub fn status(&self) -> (code: u16)
        ensures
            code == self.spec_status(),
    {
        match self {
            Reply::Json { status, .. } => *status,
            Reply::Content { .. } => STATUS_OK,
        }
    }

    /// Builds the answer to a successful upload.
    pub fn stored(name: String, time: u64) -> (reply: Reply)
        ensures
            reply@ == stored_reply(name@, time),
    {
        let err = String::new();
        assert(err@ =~= Seq::<char>::empty());
        Reply::Json { status: STATUS_OK, file: File { name, time, err } }
    }

    /// Builds the answer to an upload part without a file name.
    pub fn unnamed(name: String, time: u64) -> (reply: Reply)
        ensures
            reply@ == unnamed_reply(name@, time),
    {
        let err = String::from_str("file name is missing");
        Reply::Json { status: STATUS_BAD_REQUEST, file: File { name, time, err } }
    }

    /// Builds the answer to a download whose file is not stored.
    pub fn missing(name: String, time: u64) -> (reply: Reply)
        ensures
            reply@ == missing_reply(name@, time),
    {
        let err = String::from_str("file does not exists");
        Reply::Json { status: STATUS_NOT_FOUND, file: File { name, time, err } }
    }

    /// Builds the answer to a request that failed on the service's side.
    pub fn fault(name: String, time: u64) -> (reply: Reply)
        ensures
            reply@ == fault_reply(name@, time),
    {
        let err = String::from_str("internal error");
        Reply::Json { status: STATUS_INTERNAL_ERROR, file: File { name, time, err } }
    }

    /// Builds the answer to a download that found its file.
    pub fn content(name: &str, data: Vec<u8>) -> (reply: Reply)
        ensures
            reply@ == content_reply(name@, data@),
    {
        let mut disposition = String::from_str("form-data; filename=");
        disposition.append(name);
        Reply::Content { disposition, data }
    }
}

} // verus!
