//! Answering a download.

use crate::config::Config;
use crate::naming::{is_safe_name, is_segment, join_path, storage_path};
use crate::reply::{content_reply, fault_reply, missing_reply, Reply, ReplyView};
use vstd::prelude::*;

verus! {

/// A download request: the name taken from the request path.
#[derive(Clone, Debug, PartialEq, Eq)]
pub struct Download {
    pub name: String,
}

/// What the storage directory holds for a requested name.
#[derive(Clone, Debug, PartialEq, Eq)]
pub enum Lookup {
    /// No file is stored under the name.
    Missing,
    /// The file exists and these are its bytes.
    Found { data: Vec<u8> },
    /// The file exists but could not be read.
    Unreadable,
}

/// The mathematical content of a [`Lookup`].
pub enum LookupView {
    Missing,
    Found { data: Seq<u8> },
    Unreadable,
}

impl View for Lookup {
    type V = LookupView;

    open spec fn view(&self) -> LookupView {
        match self {
            Lookup::Missing => LookupView::Missing,
            Lookup::Found { data } => LookupView::Found { data: data@ },
            Lookup::Unreadable => LookupView::Unreadable,
        }
    }
}

/// The path to look at for a requested name: the entry of that name in the
/// storage directory, and none for a name that would lead elsewhere.
pub open spec fn download_path(dir: Seq<char>, name: Seq<char>) -> Option<Seq<char>> {
    if is_segment(name) {
        Some(storage_path(dir, name))
    } else {
        None
    }
}

/// The answer to a download of `name` at time `now`, given what was found.
pub open spec fn download_reply(name: Seq<char>, lookup: LookupView, now: u64) -> ReplyView {
    match lookup {
        LookupView::Missing => missing_reply(name, now),
        LookupView::Found { data } => content_reply(name, data),
        LookupView::Unreadable => fault_reply(name, now),
    }
}

impl Download {
    /// The path whose existence and content decide the answer. Without a
    /// path the file counts as missing: the name holds a path separator or
    /// is `.` or `..`, and no stored file has such a name.
    pub fn locate(&self, config: &Config) -> (path: Option<String>)
        ensures
            match path {
                Some(p) => download_path(config.storage_dir@, self.name@) == Some(p@),
                None => download_path(config.storage_dir@, self.name@) is None,
            },
    {
        if is_safe_name(self.name.as_str()) {
            Some(join_path(config.storage_dir.as_str(), self.name.as_str()))
        } else {
            None
        }
    }
}

/// Answers a download, given what was found at the located path and the
/// current time in seconds since the epoch.
pub fn download(info: &Download, lookup: Lookup, now: u64) -> (reply: Reply)
    ensures
        reply@ == download_reply(info.name@, lookup@, now),
{
    match lookup {
        Lookup::Missing => Reply::missing(info.name.clone(), now),
        Lookup::Found { data } => Reply::content(info.name.as_str(), data),
        Lookup::Unreadable => Reply::fault(info.name.clone(), now),
    }
}

} // verus!
