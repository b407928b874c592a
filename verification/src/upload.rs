//! Receiving an upload, one step at a time.
//!
//! The caller owns the request stream and the file system. It performs the
//! [`Action`] it is given and reports what happened as the next [`Event`];
//! [`Upload::step`] decides what follows.

use crate::config::Config;
use crate::download::download_path;
use crate::naming::{is_segment, is_within, join_path, storage_path, stored, stored_name};
use crate::reply::{fault_reply, stored_reply, unnamed_reply, Reply, ReplyView};
use vstd::prelude::*;

verus! {

/// Where an upload stands.
#[derive(Clone, Copy, Debug, PartialEq, Eq, Structural)]
pub enum Phase {
    /// The storage directory is being created.
    Preparing,
    /// The next part of the request is awaited.
    Awaiting,
    /// The file of the current part is being created.
    Opening,
    /// The next chunk of the current part is awaited.
    Receiving,
    /// A chunk is being appended to the file of the current part.
    Writing,
    /// The file of the current part is being removed after a failure.
    Discarding,
    /// The request was answered.
    Finished,
}

/// The two readings of the clock taken when an event arrives.
#[derive(Clone, Copy, Debug)]
pub struct Clock {
    /// Whole seconds since the epoch.
    pub secs: u64,
    /// Microseconds since the epoch.
    pub micros: u128,
}

/// The state of one upload request.
#[derive(Clone, Debug, PartialEq, Eq)]
pub struct Upload {
    /// The storage directory.
    pub dir: String,
    /// The name of the last file this request began to store; empty before the first.
    pub name: String,
    pub phase: Phase,
}

/// The mathematical content of an [`Upload`].
pub struct UploadView {
    pub dir: Seq<char>,
    pub name: Seq<char>,
    pub phase: Phase,
}

impl View for Upload {
    type V = UploadView;

    open spec fn view(&self) -> UploadView {
        UploadView { dir: self.dir@, name: self.name@, phase: self.phase }
    }
}

/// What the caller reports after performing an action.
#[derive(Clone, Debug, PartialEq, Eq)]
pub enum Event {
    /// The directory or file was created, or the chunk was written.
    Done,
    /// The action failed: the file system refused it, or the request could not be read.
    Failed,
    /// The request holds another part, which may declare a file name.
    Field { file_name: Option<String> },
    /// The current part yielded the next chunk of its body.
    Chunk { data: Vec<u8> },
    /// The request holds no further part, or the current part no further chunk.
    End,
}

/// The mathematical content of an [`Event`].
pub enum EventView {
    Done,
    Failed,
    Field { file_name: Option<Seq<char>> },
    Chunk { data: Seq<u8> },
    End,
}

impl View for Event {
    type V = EventView;

    open spec fn view(&self) -> EventView {
        match self {
            Event::Done => EventView::Done,
            Event::Failed => EventView::Failed,
            Event::Field { file_name } => EventView::Field {
                file_name: match file_name {
                    Some(name) => Some(name@),
                    None => None,
                },
            },
            Event::Chunk { data } => EventView::Chunk { data: data@ },
            Event::End => EventView::End,
        }
    }
}

/// What the caller is to do next.
#[derive(Clone, Debug, PartialEq, Eq)]
pub enum Action {
    /// Create the directory at `path`, with its parents, unless it exists.
    CreateDir { path: String },
    /// Create the file at `path`, or empty it, and keep it open for writing.
    CreateFile { path: String },
    /// Append `data` to the open file.
    Append { data: Vec<u8> },
    /// Close the open file, if any, and ask the request for its next part.
    NextField,
    /// Ask the current part for its next chunk.
    NextChunk,
    /// Close the open file and remove the file at `path`.
    RemoveFile { path: String },
    /// Answer the request.
    Respond { reply: Reply },
}

/// The mathematical content of an [`Action`].
pub enum ActionView {
    CreateDir { path: Seq<char> },
    CreateFile { path: Seq<char> },
    Append { data: Seq<u8> },
    NextField,
    NextChunk,
    RemoveFile { path: Seq<char> },
    Respond { reply: ReplyView },
}

impl View for Action {
    type V = ActionView;

    open spec fn view(&self) -> ActionView {
        match self {
            Action::CreateDir { path } => ActionView::CreateDir { path: path@ },
            Action::CreateFile { path } => ActionView::CreateFile { path: path@ },
            Action::Append { data } => ActionView::Append { data: data@ },
            Action::NextField => ActionView::NextField,
            Action::NextChunk => ActionView::NextChunk,
            Action::RemoveFile { path } => ActionView::RemoveFile { path: path@ },
            Action::Respond { reply } => ActionView::Respond { reply: reply@ },
        }
    }
}

impl UploadView {
    /// This state moved to another phase.
    pub open spec fn at(self, phase: Phase) -> UploadView {
        UploadView { dir: self.dir, name: self.name, phase }
    }

    /// The state in which the request is answered with `reply`.
    pub open spec fn answered(self, reply: ReplyView) -> (UploadView, ActionView) {
        (self.at(Phase::Finished), ActionView::Respond { reply })
    }

    /// The path of the file that the current part is written to.
    pub open spec fn target(self) -> Seq<char> {
        storage_path(self.dir, self.name)
    }
}

/// The state and first action of an upload into the directory `dir`.
pub open spec fn initial(dir: Seq<char>) -> (UploadView, ActionView) {
    (
        UploadView { dir, name: Seq::empty(), phase: Phase::Preparing },
        ActionView::CreateDir { path: dir },
    )
}

/// The transition of an upload: the state and action that follow when
/// `event` arrives in state `s` with the clock reading `clock`.
///
/// A part with a file name is stored under the sanitized composition of the
/// clock's microseconds and that name, and its chunks are appended in the
/// order they arrive, one action per chunk. When the request holds no further
/// part it is answered with the name of the last part stored. A part without
/// a file name is the client's error. A failure, or an event that the
/// current phase does not expect, ends the request with an internal error;
/// where a part was being received, its unfinished file is removed first.
pub open spec fn next(s: UploadView, event: EventView, clock: Clock) -> (UploadView, ActionView) {
    match (s.phase, event) {
        (Phase::Preparing, EventView::Done) => (s.at(Phase::Awaiting), ActionView::NextField),
        (Phase::Awaiting, EventView::Field { file_name: Some(declared) }) => {
            let name = stored(clock.micros as nat, declared);
            (
                UploadView { dir: s.dir, name, phase: Phase::Opening },
                ActionView::CreateFile { path: storage_path(s.dir, name) },
            )
        },
        (Phase::Awaiting, EventView::Field { file_name: None }) => s.answered(
            unnamed_reply(s.name, clock.secs),
        ),
        (Phase::Awaiting, EventView::End) => s.answered(stored_reply(s.name, clock.secs)),
        (Phase::Opening, EventView::Done) => (s.at(Phase::Receiving), ActionView::NextChunk),
        (Phase::Receiving, EventView::Chunk { data }) => (
            s.at(Phase::Writing),
            ActionView::Append { data },
        ),
        (Phase::Receiving, EventView::End) => (s.at(Phase::Awaiting), ActionView::NextField),
        (Phase::Writing, EventView::Done) => (s.at(Phase::Receiving), ActionView::NextChunk),
        (Phase::Receiving, _) | (Phase::Writing, _) => (
            s.at(Phase::Discarding),
            ActionView::RemoveFile { path: s.target() },
        ),
        _ => s.answered(fault_reply(s.name, clock.secs)),
    }
}

impl Upload {
    /// The name recorded in this state stays inside the storage directory.
    pub open spec fn wf(&self) -> bool {
        is_segment(self.name@)
    }

    /// Begins an upload: the storage directory is created before anything is written.
    pub fn start(config: &Config) -> (out: (Upload, Action))
        ensures
            out.0@ == initial(config.storage_dir@).0,
            out.1@ == initial(config.storage_dir@).1,
            out.0.wf(),
    {
        let name = String::new();
        assert(name@ =~= Seq::<char>::empty());
        assert(seq!['.'].len() == 1 && seq!['.', '.'].len() == 2);
        (
            Upload { dir: config.storage_dir.clone(), name, phase: Phase::Preparing },
            Action::CreateDir { path: config.storage_dir.clone() },
        )
    }

    /// Whether the request was answered.
    pub fn is_finished(&self) -> (done: bool)
        ensures
            done == (self.phase == Phase::Finished),
    {
        match self.phase {
            Phase::Finished => true,
            _ => false,
        }
    }

    /// Moves to `phase` and asks for `action`.
    fn proceed(self, phase: Phase, action: Action) -> (out: (Upload, Action))
        ensures
            out.0@ == self@.at(phase),
            out.1 == action,
    {
        (Upload { dir: self.dir, name: self.name, phase }, action)
    }

    /// Ends the request with an internal error.
    fn fail(self, clock: Clock) -> (out: (Upload, Action))
        ensures
            (out.0@, out.1@) == self@.answered(fault_reply(self.name@, clock.secs)),
    {
        let reply = Reply::fault(self.name.clone(), clock.secs);
        self.proceed(Phase::Finished, Action::Respond { reply })
    }

    /// Gives up the part that is being received: its file is to be removed.
    fn discard(self) -> (out: (Upload, Action))
        ensures
            out.0@ == self@.at(Phase::Discarding),
            out.1@ == (ActionView::RemoveFile { path: self@.target() }),
    {
        let path = join_path(self.dir.as_str(), self.name.as_str());
        self.proceed(Phase::Discarding, Action::RemoveFile { path })
    }

    /// Takes the event that followed the last action and decides the next one.
    ///
    /// A file is only ever created directly under the storage directory,
    /// whatever file name the client declared, and it is the file that a
    /// download of the recorded name looks at. Only the file of the current
    /// part is ever removed.
    pub fn step(self, event: Event, clock: Clock) -> (out: (Upload, Action))
        ensures
            out.0@ == next(self@, event@, clock).0,
            out.1@ == next(self@, event@, clock).1,
            self.wf() ==> out.0.wf(),
            out.1 matches Action::CreateFile { path } ==> is_within(self.dir@, path@)
                && path@ == out.0@.target()
                && download_path(self.dir@, out.0@.name) == Some(path@),
            out.1 matches Action::RemoveFile { path } ==> path@ == self@.target() && (self.wf()
                ==> is_within(self.dir@, path@)),
    {
        match self.phase {
            Phase::Preparing => match event {
                Event::Done => self.proceed(Phase::Awaiting, Action::NextField),
                _ => self.fail(clock),
            },
            Phase::Awaiting => match event {
                Event::Field { file_name } => match file_name {
                    Some(declared) => {
                        let name = stored_name(clock.micros, declared.as_str());
                        let path = join_path(self.dir.as_str(), name.as_str());
                        (
                            Upload { dir: self.dir, name, phase: Phase::Opening },
                            Action::CreateFile { path },
                        )
                    },
                    None => {
                        let reply = Reply::unnamed(self.name.clone(), clock.secs);
                        self.proceed(Phase::Finished, Action::Respond { reply })
                    },
                },
                Event::End => {
                    let reply = Reply::stored(self.name.clone(), clock.secs);
                    self.proceed(Phase::Finished, Action::Respond { reply })
                },
                _ => self.fail(clock),
            },
            Phase::Opening => match event {
                Event::Done => self.proceed(Phase::Receiving, Action::NextChunk),
                _ => self.fail(clock),
            },
            Phase::Receiving => match event {
                Event::Chunk { data } => self.proceed(Phase::Writing, Action::Append { data }),
                Event::End => self.proceed(Phase::Awaiting, Action::NextField),
                _ => self.discard(),
            },
            Phase::Writing => match event {
                Event::Done => self.proceed(Phase::Receiving, Action::NextChunk),
                _ => self.discard(),
            },
            Phase::Discarding => self.fail(clock),
            Phase::Finished => self.fail(clock),
        }
    }
}

/// Nothing is written before the storage directory was created, nor after
/// the request was answered, and the request is answered exactly when the
/// upload finishes.
pub proof fn lemma_writes_follow_preparation(s: UploadView, event: EventView, clock: Clock)
    ensures
        ({
            let (after, action) = next(s, event, clock);
            &&& action is CreateFile ==> s.phase == Phase::Awaiting
            &&& action is Append ==> s.phase == Phase::Receiving
            &&& action is RemoveFile ==> s.phase == Phase::Receiving || s.phase == Phase::Writing
            &&& !(action is CreateDir)
            &&& action is Respond <==> after.phase == Phase::Finished
            &&& s.phase == Phase::Finished ==> after.phase == Phase::Finished
            &&& after.dir == s.dir
        }),
{
}

/// An upload keeps nothing of the bytes it passes on: the state after a
/// chunk is the same whatever the chunk holds, and the chunk goes out in the
/// action as it came in.
pub proof fn lemma_chunks_are_not_retained(
    s: UploadView,
    first: Seq<u8>,
    second: Seq<u8>,
    clock: Clock,
)
    ensures
        next(s, EventView::Chunk { data: first }, clock).0 == next(
            s,
            EventView::Chunk { data: second },
            clock,
        ).0,
        s.phase == Phase::Receiving ==> next(s, EventView::Chunk { data: first }, clock).1
            == (ActionView::Append { data: first }),
{
}

} // verus!
