//! A model of the storage directory, and what uploads and downloads mean on it.
//!
//! The directory is a map from paths to file contents. The model says what a
//! caller who performs every action faithfully does to that map, and the
//! laws below are proved of it: they say nothing of a real file system.

use crate::download::{download_reply, LookupView};
use crate::naming::{storage_path, stored};
use crate::reply::{content_reply, missing_reply, stored_reply};
use crate::upload::{initial, next, ActionView, Clock, EventView, Phase, UploadView};
use vstd::prelude::*;

verus! {

/// The files of a directory: each path with the bytes stored there.
pub type Files = Map<Seq<char>, Seq<u8>>;

/// The directory after `action` was performed for the upload in state `s`,
/// the state in which the action was asked for. Creating a file empties it;
/// a chunk is appended to the file of the current part; a removed file is gone.
pub open spec fn perform(files: Files, s: UploadView, action: ActionView) -> Files {
    match action {
        ActionView::CreateFile { path } => files.insert(path, Seq::empty()),
        ActionView::Append { data } => if files.contains_key(s.target()) {
            files.insert(s.target(), files[s.target()] + data)
        } else {
            files
        },
        ActionView::RemoveFile { path } => files.remove(path),
        _ => files,
    }
}

/// Whether `action` touches no file but the one of the current part of `s`.
pub open spec fn writes_own_file(s: UploadView, action: ActionView) -> bool {
    &&& action matches ActionView::CreateFile { path } ==> path == s.target()
    &&& action matches ActionView::RemoveFile { path } ==> path == s.target()
}

/// What a caller finds at `path`.
pub open spec fn lookup(files: Files, path: Seq<char>) -> LookupView {
    if files.contains_key(path) {
        LookupView::Found { data: files[path] }
    } else {
        LookupView::Missing
    }
}

/// The chunks of a body, joined in order.
pub open spec fn joined(chunks: Seq<Seq<u8>>) -> Seq<u8>
    decreases chunks.len(),
{
    if chunks.len() == 0 {
        Seq::empty()
    } else {
        joined(chunks.drop_last()) + chunks.last()
    }
}

/// The state and directory after the chunks of a part arrived one by one and
/// each write succeeded.
pub open spec fn receive(s: UploadView, files: Files, chunks: Seq<Seq<u8>>, clock: Clock) -> (
    UploadView,
    Files,
)
    decreases chunks.len(),
{
    if chunks.len() == 0 {
        (s, files)
    } else {
        let (before, files) = receive(s, files, chunks.drop_last(), clock);
        let (writing, append) = next(before, EventView::Chunk { data: chunks.last() }, clock);
        let (after, ask) = next(writing, EventView::Done, clock);
        (after, perform(perform(files, writing, append), after, ask))
    }
}

/// The answer and the directory after a request with one part, whose file
/// name is `declared` and whose body arrives as `chunks`, was taken through
/// an upload into `dir` with every action succeeding. The part arrives at
/// `opened`, the request ends at `closed`.
pub open spec fn upload_one(
    dir: Seq<char>,
    files: Files,
    declared: Seq<char>,
    chunks: Seq<Seq<u8>>,
    opened: Clock,
    closed: Clock,
) -> (ActionView, Files) {
    let awaiting = next(initial(dir).0, EventView::Done, opened).0;
    let (opening, create) = next(
        awaiting,
        EventView::Field { file_name: Some(declared) },
        opened,
    );
    let created = perform(files, opening, create);
    let receiving = next(opening, EventView::Done, opened).0;
    let (received, written) = receive(receiving, created, chunks, opened);
    let between = next(received, EventView::End, closed).0;
    let answer = next(between, EventView::End, closed).1;
    (answer, written)
}

/// Receiving the chunks of a part appends their bytes, in order, to the file
/// of that part and to no other, and leaves the upload ready for more.
pub proof fn lemma_receive_appends(
    s: UploadView,
    files: Files,
    chunks: Seq<Seq<u8>>,
    clock: Clock,
)
    requires
        s.phase == Phase::Receiving,
        files.contains_key(s.target()),
    ensures
        receive(s, files, chunks, clock) == (
            s,
            files.insert(s.target(), files[s.target()] + joined(chunks)),
        ),
    decreases chunks.len(),
{
    let t = s.target();
    if chunks.len() == 0 {
        assert(files[t] + joined(chunks) =~= files[t]);
        assert(files.insert(t, files[t]) =~= files);
    } else {
        lemma_receive_appends(s, files, chunks.drop_last(), clock);
        let before = files.insert(t, files[t] + joined(chunks.drop_last()));
        let writing = s.at(Phase::Writing);
        assert(writing.target() == t);
        assert(writing.at(Phase::Receiving) == s);
        assert((files[t] + joined(chunks.drop_last())) + chunks.last() =~= files[t] + joined(
            chunks,
        ));
        assert(before.insert(t, before[t] + chunks.last()) =~= files.insert(
            t,
            files[t] + joined(chunks),
        ));
    }
}

/// An upload of one part answers with the name it stored the part under,
/// leaves exactly the part's bytes at that name in the storage directory and
/// every other file as it was; a download that finds the file of the
/// answered name returns those bytes.
pub proof fn lemma_download_returns_upload(
    dir: Seq<char>,
    files: Files,
    declared: Seq<char>,
    chunks: Seq<Seq<u8>>,
    opened: Clock,
    closed: Clock,
    now: u64,
)
    ensures
        ({
            let name = stored(opened.micros as nat, declared);
            let path = storage_path(dir, name);
            let (answer, after) = upload_one(dir, files, declared, chunks, opened, closed);
            &&& answer == ActionView::Respond { reply: stored_reply(name, closed.secs) }
            &&& after == files.insert(path, joined(chunks))
            &&& download_reply(name, lookup(after, path), now) == content_reply(
                name,
                joined(chunks),
            )
        }),
{
    let name = stored(opened.micros as nat, declared);
    let path = storage_path(dir, name);
    let receiving = UploadView { dir, name, phase: Phase::Receiving };
    let created = files.insert(path, Seq::empty());
    lemma_receive_appends(receiving, created, chunks, opened);
    assert(created[path] + joined(chunks) =~= joined(chunks));
    assert(created.insert(path, joined(chunks)) =~= files.insert(path, joined(chunks)));
}

/// A download of a name under which the directory holds nothing is answered
/// as missing, whatever else is stored.
pub proof fn lemma_unknown_name_is_missing(dir: Seq<char>, files: Files, name: Seq<char>, now: u64)
    requires
        !files.contains_key(storage_path(dir, name)),
    ensures
        download_reply(name, lookup(files, storage_path(dir, name)), now)
            == missing_reply(name, now),
{
}

/// Every action of an upload touches no file but the one of its current part.
pub proof fn lemma_upload_writes_own_file(s: UploadView, event: EventView, clock: Clock)
    ensures
        writes_own_file(next(s, event, clock).0, next(s, event, clock).1),
{
}

/// Two uploads that write to different files do not disturb each other: the
/// directory is the same whichever of their actions is performed first.
pub proof fn lemma_uploads_are_independent(
    files: Files,
    s1: UploadView,
    a1: ActionView,
    s2: UploadView,
    a2: ActionView,
)
    requires
        s1.target() != s2.target(),
        writes_own_file(s1, a1),
        writes_own_file(s2, a2),
    ensures
        perform(perform(files, s1, a1), s2, a2) == perform(perform(files, s2, a2), s1, a1),
{
    assert(perform(perform(files, s1, a1), s2, a2) =~= perform(perform(files, s2, a2), s1, a1));
}

} // verus!
