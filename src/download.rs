use vstd::prelude::*;

use crate::invoke::{decimal, decimal_spec};

verus! {

/// Why a download did not produce a model file.
#[derive(Clone, Copy, Debug, PartialEq, Eq, Structural)]
pub enum DownloadError {
    /// The connection failed or the body could not be read.
    Network,
    /// The server answered with a status outside the success range.
    HttpStatus { status: u16 },
    /// Creating the directory or writing, creating or renaming a file failed.
    Io,
}

impl DownloadError {
    /// A message for the user.
    pub fn message(&self) -> (r: String)
        ensures
            r@ == match *self {
                DownloadError::Network => "network failure while downloading the model"@,
                DownloadError::HttpStatus { status } => "server answered with HTTP status "@
                    + decimal_spec(status as nat),
                DownloadError::Io => "could not write the model file"@,
            },
    {
        match *self {
            DownloadError::Network => String::from_str("network failure while downloading the model"),
            DownloadError::HttpStatus { status } => {
                let mut r = String::from_str("server answered with HTTP status ");
                let d = decimal(status as u32);
                r.append(d.as_str());
                r
            },
            DownloadError::Io => String::from_str("could not write the model file"),
        }
    }
}

/// Statuses in the 2xx range count as success.
pub open spec fn is_success_spec(status: u16) -> bool {
    200 <= status && status < 300
}

/// Whether an HTTP status is a success status.
pub fn is_success_status(status: u16) -> (r: bool)
    ensures
        r == is_success_spec(status),
{
    200 <= status && status < 300
}

/// How much of a download has arrived. `total_size` is 0 when the server
/// did not report a length; then only the byte count means something.
#[derive(Clone, Copy, Debug, PartialEq, Eq, Structural)]
pub struct DownloadProgress {
    pub total_size: u64,
    pub downloaded_bytes: u64,
}

/// The count after `len` more bytes: clamped to the total when one is known,
/// otherwise the plain sum, held at the largest `u64`.
pub open spec fn advanced_spec(total_size: u64, downloaded: u64, len: u64) -> u64 {
    if total_size > 0 {
        if downloaded + len > total_size {
            total_size
        } else {
            (downloaded + len) as u64
        }
    } else {
        if downloaded + len > u64::MAX {
            u64::MAX
        } else {
            (downloaded + len) as u64
        }
    }
}

impl DownloadProgress {
    /// A known total is never exceeded.
    pub open spec fn wf(&self) -> bool {
        self.total_size > 0 ==> self.downloaded_bytes <= self.total_size
    }

    /// Progress before any byte has arrived.
    pub fn new(total_size: u64) -> (r: DownloadProgress)
        ensures
            r.total_size == total_size,
            r.downloaded_bytes == 0,
            r.wf(),
    {
        DownloadProgress { total_size, downloaded_bytes: 0 }
    }

    /// Counts a chunk of `chunk_len` bytes.
    pub fn advance(&mut self, chunk_len: u64)
        requires
            old(self).wf(),
        ensures
            final(self).total_size == old(self).total_size,
            final(self).downloaded_bytes == advanced_spec(
                old(self).total_size,
                old(self).downloaded_bytes,
                chunk_len,
            ),
            final(self).wf(),
    {
        if self.total_size > 0 {
            if chunk_len > self.total_size - self.downloaded_bytes {
                self.downloaded_bytes = self.total_size;
            } else {
                self.downloaded_bytes = self.downloaded_bytes + chunk_len;
            }
        } else {
            if chunk_len > u64::MAX - self.downloaded_bytes {
                self.downloaded_bytes = u64::MAX;
            } else {
                self.downloaded_bytes = self.downloaded_bytes + chunk_len;
            }
        }
    }

    pub fn total_size(&self) -> (r: u64)
        ensures
            r == self.total_size,
    {
        self.total_size
    }

    pub fn downloaded_bytes(&self) -> (r: u64)
        ensures
            r == self.downloaded_bytes,
    {
        self.downloaded_bytes
    }
}

/// Where a download session stands.
#[derive(Clone, Copy, Debug, PartialEq, Eq, Structural)]
pub enum Phase {
    /// The request is out; no response has arrived yet.
    AwaitingResponse,
    /// A success response arrived; its body is being written to the
    /// in-progress file.
    Receiving,
    /// The body is complete; the in-progress file is being renamed to the
    /// model file.
    Finishing,
    /// The model file is in place.
    Completed,
    /// The download stopped; no model file was produced.
    Failed { error: DownloadError },
}

/// What the network or the filesystem reports to a session.
pub enum DownloadEvent {
    /// The response head: its status and, when sent, its `Content-Length`.
    Response { status: u16, content_length: Option<u64> },
    /// The next piece of the response body.
    Chunk { data: Vec<u8> },
    /// The response body ended.
    EndOfBody,
    /// The in-progress file was renamed to the model file.
    Stored,
    /// The connection failed or the body could not be read.
    NetworkFailed,
    /// A filesystem operation failed.
    IoFailed,
}

/// What the caller is to do next on behalf of a session.
pub enum DownloadAction {
    /// Create (or truncate) the in-progress file.
    CreatePartialFile,
    /// Append these bytes to the in-progress file.
    WriteChunk { data: Vec<u8> },
    /// Rename the in-progress file to the model file.
    CommitModel,
    /// Stop and report the error; the in-progress file may be removed.
    Abort { error: DownloadError },
    /// Nothing to do.
    Nothing,
}

/// Mathematical form of a `DownloadEvent`.
pub enum EventModel {
    Response { status: u16, content_length: Option<u64> },
    Chunk { data: Seq<u8> },
    EndOfBody,
    Stored,
    NetworkFailed,
    IoFailed,
}

/// Mathematical form of a `DownloadAction`.
pub enum ActionModel {
    CreatePartialFile,
    WriteChunk { data: Seq<u8> },
    CommitModel,
    Abort { error: DownloadError },
    Nothing,
}

impl View for DownloadEvent {
    type V = EventModel;

    open spec fn view(&self) -> EventModel {
        match self {
            DownloadEvent::Response { status, content_length } => EventModel::Response {
                status: *status,
                content_length: *content_length,
            },
            DownloadEvent::Chunk { data } => EventModel::Chunk { data: data@ },
            DownloadEvent::EndOfBody => EventModel::EndOfBody,
            DownloadEvent::Stored => EventModel::Stored,
            DownloadEvent::NetworkFailed => EventModel::NetworkFailed,
            DownloadEvent::IoFailed => EventModel::IoFailed,
        }
    }
}

impl View for DownloadAction {
    type V = ActionModel;

    open spec fn view(&self) -> ActionModel {
        match self {
            DownloadAction::CreatePartialFile => ActionModel::CreatePartialFile,
            DownloadAction::WriteChunk { data } => ActionModel::WriteChunk { data: data@ },
            DownloadAction::CommitModel => ActionModel::CommitModel,
            DownloadAction::Abort { error } => ActionModel::Abort { error: *error },
            DownloadAction::Nothing => ActionModel::Nothing,
        }
    }
}

/// A single download: the phase it is in and the progress of its body.
#[derive(Clone, Copy, Debug, PartialEq, Eq, Structural)]
pub struct DownloadSession {
    pub phase: Phase,
    pub progress: DownloadProgress,
}

/// The session right after the request went out.
pub open spec fn initial_session() -> DownloadSession {
    DownloadSession {
        phase: Phase::AwaitingResponse,
        progress: DownloadProgress { total_size: 0, downloaded_bytes: 0 },
    }
}

/// The session after `s` failed with `error`.
pub open spec fn failed(s: DownloadSession, error: DownloadError) -> (DownloadSession, ActionModel) {
    (DownloadSession { phase: Phase::Failed { error }, ..s }, ActionModel::Abort { error })
}

/// How a session reacts to one event: its next state and the action asked
/// of the caller. Events that do not fit the phase leave it unchanged.
pub open spec fn next(s: DownloadSession, e: EventModel) -> (DownloadSession, ActionModel) {
    match s.phase {
        Phase::AwaitingResponse => match e {
            EventModel::Response { status, content_length } => if is_success_spec(status) {
                let total = match content_length {
                    Some(n) => n,
                    None => 0,
                };
                (
                    DownloadSession {
                        phase: Phase::Receiving,
                        progress: DownloadProgress { total_size: total, downloaded_bytes: 0 },
                    },
                    ActionModel::CreatePartialFile,
                )
            } else {
                failed(s, DownloadError::HttpStatus { status })
            },
            EventModel::NetworkFailed => failed(s, DownloadError::Network),
            EventModel::IoFailed => failed(s, DownloadError::Io),
            _ => (s, ActionModel::Nothing),
        },
        Phase::Receiving => match e {
            EventModel::Chunk { data } => (
                DownloadSession {
                    progress: DownloadProgress {
                        downloaded_bytes: advanced_spec(
                            s.progress.total_size,
                            s.progress.downloaded_bytes,
                            data.len() as u64,
                        ),
                        ..s.progress
                    },
                    ..s
                },
                ActionModel::WriteChunk { data },
            ),
            EventModel::EndOfBody => (
                DownloadSession { phase: Phase::Finishing, ..s },
                ActionModel::CommitModel,
            ),
            EventModel::NetworkFailed => failed(s, DownloadError::Network),
            EventModel::IoFailed => failed(s, DownloadError::Io),
            _ => (s, ActionModel::Nothing),
        },
        Phase::Finishing => match e {
            EventModel::Stored => (
                DownloadSession { phase: Phase::Completed, ..s },
                ActionModel::Nothing,
            ),
            EventModel::IoFailed => failed(s, DownloadError::Io),
            _ => (s, ActionModel::Nothing),
        },
        _ => (s, ActionModel::Nothing),
    }
}

impl DownloadSession {
    pub open spec fn wf(&self) -> bool {
        self.progress.wf()
    }

    /// A session whose request has just been sent.
    pub fn new() -> (r: DownloadSession)
        ensures
            r == initial_session(),
            r.wf(),
    {
        DownloadSession {
            phase: Phase::AwaitingResponse,
            progress: DownloadProgress::new(0),
        }
    }

    fn fail(&mut self, error: DownloadError) -> (a: DownloadAction)
        ensures
            (*final(self), a@) == failed(*old(self), error),
    {
        self.phase = Phase::Failed { error };
        DownloadAction::Abort { error }
    }

    /// Feeds one event to the session and returns what the caller is to do.
    pub fn step(&mut self, event: DownloadEvent) -> (a: DownloadAction)
        requires
            old(self).wf(),
        ensures
            (*final(self), a@) == next(*old(self), event@),
            final(self).wf(),
    {
        match self.phase {
            Phase::AwaitingResponse => match event {
                DownloadEvent::Response { status, content_length } => {
                    if is_success_status(status) {
                        let total = match content_length {
                            Some(n) => n,
                            None => 0,
                        };
                        self.phase = Phase::Receiving;
                        self.progress = DownloadProgress::new(total);
                        DownloadAction::CreatePartialFile
                    } else {
                        self.fail(DownloadError::HttpStatus { status })
                    }
                },
                DownloadEvent::NetworkFailed => self.fail(DownloadError::Network),
                DownloadEvent::IoFailed => self.fail(DownloadError::Io),
                _ => DownloadAction::Nothing,
            },
            Phase::Receiving => match event {
                DownloadEvent::Chunk { data } => {
                    self.progress.advance(data.len() as u64);
                    DownloadAction::WriteChunk { data }
                },
                DownloadEvent::EndOfBody => {
                    self.phase = Phase::Finishing;
                    DownloadAction::CommitModel
                },
                DownloadEvent::NetworkFailed => self.fail(DownloadError::Network),
                DownloadEvent::IoFailed => self.fail(DownloadError::Io),
                _ => DownloadAction::Nothing,
            },
            Phase::Finishing => match event {
                DownloadEvent::Stored => {
                    self.phase = Phase::Completed;
                    DownloadAction::Nothing
                },
                DownloadEvent::IoFailed => self.fail(DownloadError::Io),
                _ => DownloadAction::Nothing,
            },
            _ => DownloadAction::Nothing,
        }
    }

    /// The final result once the session has ended: `Ok` when the model file
    /// is in place, the error when it failed, `None` while it runs.
    pub fn outcome(&self) -> (r: Option<Result<(), DownloadError>>)
        ensures
            r == match self.phase {
                Phase::Completed => Some(Ok(())),
                Phase::Failed { error } => Some(Err(error)),
                _ => None::<Result<(), DownloadError>>,
            },
    {
        match self.phase {
            Phase::Completed => Some(Ok(())),
            Phase::Failed { error } => Some(Err(error)),
            _ => None,
        }
    }
}

/// Progress never goes back, and never passes a known total.
pub proof fn lemma_progress_monotone(p: DownloadProgress, chunk_len: u64)
    requires
        p.wf(),
    ensures
        advanced_spec(p.total_size, p.downloaded_bytes, chunk_len) >= p.downloaded_bytes,
        p.total_size > 0 ==> advanced_spec(p.total_size, p.downloaded_bytes, chunk_len)
            <= p.total_size,
{
}

/// The session after a sequence of events, and the actions asked on the way.
pub open spec fn run(s: DownloadSession, events: Seq<EventModel>) -> (DownloadSession, Seq<
    ActionModel,
>)
    decreases events.len(),
{
    if events.len() == 0 {
        (s, Seq::empty())
    } else {
        let (s1, a) = next(s, events[0]);
        let (s2, rest) = run(s1, events.drop_first());
        (s2, seq![a] + rest)
    }
}

/// The bytes that a sequence of actions appends to the in-progress file.
pub open spec fn written(actions: Seq<ActionModel>) -> Seq<u8>
    decreases actions.len(),
{
    if actions.len() == 0 {
        Seq::empty()
    } else {
        let here = match actions[0] {
            ActionModel::WriteChunk { data } => data,
            _ => Seq::empty(),
        };
        here + written(actions.drop_first())
    }
}

/// A response body handed over in chunks, as events.
pub open spec fn chunk_events(chunks: Seq<Seq<u8>>) -> Seq<EventModel> {
    chunks.map_values(|c: Seq<u8>| EventModel::Chunk { data: c })
}

/// The whole body: the chunks one after another.
pub open spec fn body(chunks: Seq<Seq<u8>>) -> Seq<u8>
    decreases chunks.len(),
{
    if chunks.len() == 0 {
        Seq::empty()
    } else {
        chunks[0] + body(chunks.drop_first())
    }
}

/// The events of a download that succeeds: a success response, its body in
/// chunks, the end of the body and the rename of the finished file.
pub open spec fn successful_download(
    status: u16,
    content_length: Option<u64>,
    chunks: Seq<Seq<u8>>,
) -> Seq<EventModel> {
    seq![EventModel::Response { status, content_length }] + chunk_events(chunks) + seq![
        EventModel::EndOfBody,
        EventModel::Stored,
    ]
}

pub open spec fn is_commit(a: ActionModel) -> bool {
    a is CommitModel
}

proof fn lemma_run_append(s: DownloadSession, a: Seq<EventModel>, b: Seq<EventModel>)
    ensures
        run(s, a + b) == (run(run(s, a).0, b).0, run(s, a).1 + run(run(s, a).0, b).1),
    decreases a.len(),
{
    if a.len() == 0 {
        assert(a + b =~= b);
        assert(run(s, a).1 + run(s, b).1 =~= run(s, b).1);
    } else {
        assert((a + b).drop_first() =~= a.drop_first() + b);
        lemma_run_append(next(s, a[0]).0, a.drop_first(), b);
        let s1 = next(s, a[0]).0;
        assert(seq![next(s, a[0]).1] + (run(s1, a.drop_first()).1 + run(run(s1, a.drop_first()).0, b).1)
            =~= (seq![next(s, a[0]).1] + run(s1, a.drop_first()).1) + run(run(s1, a.drop_first()).0, b).1);
    }
}

proof fn lemma_run_len(s: DownloadSession, events: Seq<EventModel>)
    ensures
        run(s, events).1.len() == events.len(),
    decreases events.len(),
{
    if events.len() > 0 {
        lemma_run_len(next(s, events[0]).0, events.drop_first());
    }
}

proof fn lemma_written_append(x: Seq<ActionModel>, y: Seq<ActionModel>)
    ensures
        written(x + y) == written(x) + written(y),
    decreases x.len(),
{
    if x.len() == 0 {
        assert(x + y =~= y);
        assert(written(x) + written(y) =~= written(y));
    } else {
        assert((x + y).drop_first() =~= x.drop_first() + y);
        lemma_written_append(x.drop_first(), y);
        let here = match x[0] {
            ActionModel::WriteChunk { data } => data,
            _ => Seq::<u8>::empty(),
        };
        assert(here + (written(x.drop_first()) + written(y)) =~= (here + written(
            x.drop_first(),
        )) + written(y));
    }
}

/// While the body arrives, every chunk becomes one write of the same bytes,
/// in order, and the session keeps receiving.
proof fn lemma_receive_chunks(s: DownloadSession, chunks: Seq<Seq<u8>>)
    requires
        s.phase == Phase::Receiving,
        s.wf(),
    ensures
        run(s, chunk_events(chunks)).0.phase == Phase::Receiving,
        run(s, chunk_events(chunks)).0.wf(),
        written(run(s, chunk_events(chunks)).1) == body(chunks),
        forall|i: int|
            0 <= i < run(s, chunk_events(chunks)).1.len() ==> !is_commit(
                #[trigger] run(s, chunk_events(chunks)).1[i],
            ),
    decreases chunks.len(),
{
    let evs = chunk_events(chunks);
    if chunks.len() == 0 {
        assert(evs =~= Seq::<EventModel>::empty());
    } else {
        let rest = chunks.drop_first();
        assert(evs.drop_first() =~= chunk_events(rest));
        assert(evs[0] == EventModel::Chunk { data: chunks[0] });
        let s1 = next(s, evs[0]).0;
        lemma_receive_chunks(s1, rest);
        let acts = run(s, evs).1;
        assert(acts.drop_first() =~= run(s1, chunk_events(rest)).1);
        assert forall|i: int| 0 <= i < acts.len() implies !is_commit(#[trigger] acts[i]) by {
            if i > 0 {
                assert(acts[i] == run(s1, chunk_events(rest)).1[i - 1]);
            }
        }
    }
}

/// A completed download writes to disk exactly the bytes of the response
/// body, in order, and renames the file to the model file only after the
/// last of them; with or without a reported length.
pub proof fn lemma_completed_download_writes_body(
    status: u16,
    content_length: Option<u64>,
    chunks: Seq<Seq<u8>>,
)
    requires
        is_success_spec(status),
    ensures
        ({
            let (end, actions) = run(
                initial_session(),
                successful_download(status, content_length, chunks),
            );
            &&& end.phase == Phase::Completed
            &&& written(actions) == body(chunks)
            &&& actions.len() == chunks.len() + 3
            &&& actions[0] == ActionModel::CreatePartialFile
            &&& actions[actions.len() - 2] == ActionModel::CommitModel
            &&& forall|i: int| 0 <= i < actions.len() - 2 ==> !is_commit(#[trigger] actions[i])
        }),
{
    let s0 = initial_session();
    let head = seq![EventModel::Response { status, content_length }];
    let mid = chunk_events(chunks);
    let tail = seq![EventModel::EndOfBody, EventModel::Stored];
    assert(successful_download(status, content_length, chunks) =~= head + (mid + tail));
    lemma_run_append(s0, head, mid + tail);
    assert(head.drop_first() =~= Seq::<EventModel>::empty());
    assert(head[0] == EventModel::Response { status, content_length });
    let n0 = next(s0, head[0]);
    assert(run(n0.0, head.drop_first()) == (n0.0, Seq::<ActionModel>::empty()));
    assert(run(s0, head).1 =~= seq![n0.1]);
    let s1 = run(s0, head).0;
    assert(s1 == n0.0);
    assert(s1.phase == Phase::Receiving);
    lemma_run_append(s1, mid, tail);
    lemma_receive_chunks(s1, chunks);
    let s2 = run(s1, mid).0;
    let t = run(s2, tail);
    let tail1 = tail.drop_first();
    assert(tail1 =~= seq![EventModel::Stored]);
    assert(tail1.drop_first() =~= Seq::<EventModel>::empty());
    assert(tail[0] == EventModel::EndOfBody);
    assert(tail1[0] == EventModel::Stored);
    let s3 = next(s2, tail[0]).0;
    assert(s3.phase == Phase::Finishing);
    let s4 = next(s3, tail1[0]).0;
    assert(s4.phase == Phase::Completed);
    assert(run(s4, tail1.drop_first()) == (s4, Seq::<ActionModel>::empty()));
    assert(run(s3, tail1).1 =~= seq![ActionModel::Nothing]);
    assert(t.1 =~= seq![ActionModel::CommitModel, ActionModel::Nothing]);
    let w1 = seq![ActionModel::Nothing];
    assert(w1.drop_first() =~= Seq::<ActionModel>::empty());
    assert(written(w1.drop_first()) == Seq::<u8>::empty());
    assert(written(w1) =~= Seq::<u8>::empty());
    assert(written(t.1) =~= Seq::<u8>::empty()) by {
        assert(t.1.drop_first() =~= w1);
    }
    let a0 = run(s0, head).1;
    assert(a0 =~= seq![ActionModel::CreatePartialFile]);
    assert(written(a0) =~= Seq::<u8>::empty()) by {
        assert(a0.drop_first() =~= Seq::<ActionModel>::empty());
    }
    let a1 = run(s1, mid).1;
    lemma_written_append(a1, t.1);
    lemma_written_append(a0, a1 + t.1);
    let actions = a0 + (a1 + t.1);
    assert(mid.len() == chunks.len());
    assert(a1.len() == mid.len()) by {
        lemma_run_len(s1, mid);
    }
    assert(run(s0, successful_download(status, content_length, chunks)) == (t.0, actions));
    assert(t.0 == s4);
    assert(actions.len() == chunks.len() + 3);
    assert(actions[actions.len() - 2] == t.1[0]);
    assert(written(actions) =~= body(chunks));
    assert forall|i: int| 0 <= i < actions.len() - 2 implies !is_commit(#[trigger] actions[i]) by {
        if i > 0 {
            assert(actions[i] == a1[i - 1]);
        }
    }
}

proof fn lemma_failed_absorbs(s: DownloadSession, events: Seq<EventModel>)
    requires
        s.phase is Failed,
    ensures
        run(s, events).0 == s,
        forall|i: int| 0 <= i < run(s, events).1.len() ==> #[trigger] run(s, events).1[i]
            == ActionModel::Nothing,
    decreases events.len(),
{
    if events.len() > 0 {
        lemma_failed_absorbs(s, events.drop_first());
        let acts = run(s, events).1;
        assert forall|i: int| 0 <= i < acts.len() implies #[trigger] acts[i]
            == ActionModel::Nothing by {
            if i > 0 {
                assert(acts[i] == run(s, events.drop_first()).1[i - 1]);
            }
        }
    }
}

/// A response with a status outside the success range fails the download
/// with that status, and nothing that follows makes the model file appear:
/// no rename is ever asked for and the session stays failed.
pub proof fn lemma_failed_status_never_commits(
    status: u16,
    content_length: Option<u64>,
    rest: Seq<EventModel>,
)
    requires
        !is_success_spec(status),
    ensures
        ({
            let (end, actions) = run(
                initial_session(),
                seq![EventModel::Response { status, content_length }] + rest,
            );
            &&& end.phase == Phase::Failed { error: DownloadError::HttpStatus { status } }
            &&& actions[0] == ActionModel::Abort { error: DownloadError::HttpStatus { status } }
            &&& forall|i: int| 0 <= i < actions.len() ==> !is_commit(#[trigger] actions[i])
        }),
{
    let evs = seq![EventModel::Response { status, content_length }] + rest;
    assert(evs.drop_first() =~= rest);
    let s1 = next(initial_session(), evs[0]).0;
    lemma_failed_absorbs(s1, rest);
    let acts = run(initial_session(), evs).1;
    assert forall|i: int| 0 <= i < acts.len() implies !is_commit(#[trigger] acts[i]) by {
        if i > 0 {
            assert(acts[i] == run(s1, rest).1[i - 1]);
        }
    }
}

/// Within one session the known total is never exceeded, and while the body
/// arrives the byte count never goes back and the total stays as reported.
pub proof fn lemma_session_progress(s: DownloadSession, e: EventModel)
    requires
        s.wf(),
    ensures
        next(s, e).0.wf(),
        s.phase == Phase::Receiving ==> next(s, e).0.progress.total_size == s.progress.total_size
            && next(s, e).0.progress.downloaded_bytes >= s.progress.downloaded_bytes,
{
    match e {
        EventModel::Chunk { data } => lemma_progress_monotone(s.progress, data.len() as u64),
        _ => {},
    }
}

} // verus!
