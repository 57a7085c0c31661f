//! Orchestration core of the transfer manager.
//!
//! Three pieces stand here, each a pure decision the manager takes around
//! its external collaborators: the chunked-transfer policy that decides
//! whether a transfer of a given size is split; the mapping of backend
//! fetch failures into the manager's error taxonomy; and the per-call
//! download state machine that announces the total, drains the body chunk
//! by chunk into the destination buffer, and reports completion — firing
//! each configured progress callback the right number of times, in the
//! right order.  The network client and the async runtime that feed this
//! state machine live outside the library.

use vstd::prelude::*;

use crate::stream::ProgressObserver;
use crate::stream::chunk_lens;
use crate::stream::lemma_sum_lens_flatten;
use crate::stream::sum_lens;
use crate::uri::S3Uri;
use crate::uri;

verus! {

/// Concurrency and threshold configuration of a transfer manager.
#[derive(Clone, Copy, Debug, PartialEq, Eq, Structural)]
pub struct S3TransferConfig {
    pub max_concurrency: usize,
    pub br_threshold: usize,
    pub mp_threshold: usize,
    pub mp_chunk_size: usize,
}

/// The byte-range split size the policy yields, when it splits at all:
/// a download is split only under concurrency above one and a size above
/// the byte-range threshold, and the range size divides the threshold —
/// not the object size — by the concurrency.
pub open spec fn spec_download_chunk_size(cfg: S3TransferConfig, objsz: usize) -> Option<usize> {
    if cfg.max_concurrency > 1 && objsz > cfg.br_threshold {
        Some((cfg.br_threshold as int / cfg.max_concurrency as int) as usize)
    } else {
        None
    }
}

/// The multipart chunk size the policy yields, when it splits at all.
pub open spec fn spec_upload_chunk_size(cfg: S3TransferConfig, objsz: usize) -> Option<usize> {
    if cfg.max_concurrency > 1 && objsz > cfg.mp_threshold {
        Some(cfg.mp_chunk_size)
    } else {
        None
    }
}

impl S3TransferConfig {
    /// Defaults: a single stream, both split thresholds effectively
    /// disabled, and one-mebibyte multipart chunks.
    pub fn new() -> (c: S3TransferConfig)
        ensures
            c.max_concurrency == 1,
            c.br_threshold == usize::MAX,
            c.mp_threshold == usize::MAX,
            c.mp_chunk_size == 1048576,
    {
        S3TransferConfig {
            max_concurrency: 1,
            br_threshold: usize::MAX,
            mp_threshold: usize::MAX,
            mp_chunk_size: 1048576,
        }
    }

    /// Byte-range plan for a download of `objsz` bytes: `Some(range_size)`
    /// to split into concurrent range gets, `None` to fetch unsplit.
    pub fn get_download_chunk_size(&self, objsz: usize) -> (r: Option<usize>)
        ensures
            r == spec_download_chunk_size(*self, objsz),
    {
        if self.max_concurrency > 1 && objsz > self.br_threshold {
            let range = self.br_threshold / self.max_concurrency;
            Some(range)
        } else {
            None
        }
    }

    /// Multipart plan for an upload of `objsz` bytes: `Some(chunk_size)`
    /// to split into parts, `None` to upload unsplit.
    pub fn get_upload_chunk_size(&self, objsz: usize) -> (r: Option<usize>)
        ensures
            r == spec_upload_chunk_size(*self, objsz),
    {
        if self.max_concurrency > 1 && objsz > self.mp_threshold {
            Some(self.mp_chunk_size)
        } else {
            None
        }
    }
}

/// Error taxonomy of the transfer manager.  Backend and address failures
/// are mapped into it at the manager boundary and returned to the caller;
/// nothing here is thrown.
#[derive(Debug, PartialEq, Eq)]
pub enum TransferError {
    /// The address string was malformed.
    InvalidAddress { message: String },
    /// The object does not exist.
    NotFound { message: String },
    /// The object exists but is not retrievable in its current state.
    InvalidRemoteState { message: String },
    /// Any other service- or transport-level failure, diagnostic text kept.
    BackendOther { message: String },
    /// Destination file creation or write failure.
    LocalIo { message: String },
}

/// A failed object fetch, as the backend collaborator distinguishes it:
/// the two service conditions the manager tells apart, any other service
/// error, and transport-level failures that never reached the service.
#[derive(Debug, PartialEq, Eq)]
pub enum GetObjectFailure {
    NoSuchKey { message: String },
    InvalidObjectState { message: String },
    Service { message: String },
    Transport { message: String },
}

/// Where each backend fetch failure lands in the error taxonomy.
pub open spec fn spec_map_get_object_failure(f: GetObjectFailure) -> TransferError {
    match f {
        GetObjectFailure::NoSuchKey { message } => TransferError::NotFound { message },
        GetObjectFailure::InvalidObjectState { message } => TransferError::InvalidRemoteState {
            message,
        },
        GetObjectFailure::Service { message } => TransferError::BackendOther { message },
        GetObjectFailure::Transport { message } => TransferError::BackendOther { message },
    }
}

/// Maps a failed object fetch into the error taxonomy, preserving the
/// reported diagnostic text.
pub fn map_get_object_failure(failure: GetObjectFailure) -> (r: TransferError)
    ensures
        r == spec_map_get_object_failure(failure),
{
    match failure {
        GetObjectFailure::NoSuchKey { message } => TransferError::NotFound { message },
        GetObjectFailure::InvalidObjectState { message } => TransferError::InvalidRemoteState {
            message,
        },
        GetObjectFailure::Service { message } => TransferError::BackendOther { message },
        GetObjectFailure::Transport { message } => TransferError::BackendOther { message },
    }
}

/// Validates a textual address before any backend call: the parsed
/// container and key on success, a typed `InvalidAddress` failure — never
/// a crash — otherwise.
pub fn prepare_transfer(address: &str) -> (r: Result<S3Uri, TransferError>)
    ensures
        match r {
            Ok(a) => {
                &&& uri::parse_ok(address@)
                &&& a.bucket@ == uri::addr_bucket(address@)
                &&& a.key@ == uri::addr_key(address@)
            },
            Err(e) => match e {
                TransferError::InvalidAddress { message } => {
                    &&& !uri::parse_ok(address@)
                    &&& message@ == uri::parse_fail_message(address@)
                },
                _ => false,
            },
        },
{
    match S3Uri::parse(address) {
        Ok(a) => Ok(a),
        Err(e) => Err(TransferError::InvalidAddress { message: e.message.to_owned() }),
    }
}

/// Which of the three optional progress callbacks the caller supplied.
#[derive(Clone, Copy, Debug, PartialEq, Eq, Structural)]
pub struct ProgressSinkShape {
    pub has_set_total: bool,
    pub has_on_progress: bool,
    pub has_on_finished: bool,
}

/// One progress callback invocation the manager asks its caller to
/// perform, synchronously, at the point it is handed out.
#[derive(Clone, Copy, Debug, PartialEq, Eq, Structural)]
pub enum ProgressEvent {
    SetTotal(usize),
    Progress(usize),
    Finished,
}

/// Phase of one download call.
#[derive(Clone, Copy, Debug, PartialEq, Eq, Structural)]
pub enum SessionPhase {
    /// Backend response accepted; the total is not announced yet.
    Requested,
    /// Body chunks are being drained into the destination.
    Receiving,
    /// End-of-stream was reached and completion reported.
    Completed,
    /// A mid-drain failure aborted the transfer.
    Failed,
}

/// The total handed to `set_total`: the reported content length, or zero
/// when the backend reported none.
pub open spec fn spec_announced_total(content_length: Option<usize>) -> usize {
    match content_length {
        Some(n) => n,
        None => 0,
    }
}

/// The `set_total` invocations a download performs: one, right after the
/// response arrives, when that callback exists; none otherwise.
pub open spec fn set_total_events(sink: ProgressSinkShape, content_length: Option<usize>) -> Seq<
    ProgressEvent,
> {
    if sink.has_set_total {
        seq![ProgressEvent::SetTotal(spec_announced_total(content_length))]
    } else {
        Seq::empty()
    }
}

/// The `on_progress` invocations a download performs for the given drained
/// chunks: one per chunk with that chunk's length, in order, when the
/// callback exists; none otherwise.
pub open spec fn progress_events(sink: ProgressSinkShape, chunks: Seq<Seq<u8>>) -> Seq<
    ProgressEvent,
> {
    if sink.has_on_progress {
        chunks.map_values(|c: Seq<u8>| ProgressEvent::Progress(c.len() as usize))
    } else {
        Seq::empty()
    }
}

/// The `on_finished` invocations of a successfully completed download:
/// exactly one, at the very end, when the callback exists.
pub open spec fn finish_events(sink: ProgressSinkShape) -> Seq<ProgressEvent> {
    if sink.has_on_finished {
        seq![ProgressEvent::Finished]
    } else {
        Seq::empty()
    }
}

/// An optional event, as the piece of trace it contributes.
pub open spec fn opt_event(ev: Option<ProgressEvent>) -> Seq<ProgressEvent> {
    match ev {
        Some(e) => seq![e],
        None => Seq::empty(),
    }
}

/// Appends a chunk to the destination buffer, byte for byte.
fn append_bytes(buf: &mut Vec<u8>, chunk: &[u8])
    ensures
        final(buf)@ == old(buf)@ + chunk@,
{
    let mut i: usize = 0;
    proof {
        assert(old(buf)@ + chunk@.subrange(0, 0) =~= old(buf)@);
    }
    while i < chunk.len()
        invariant
            i <= chunk@.len(),
            buf@ == old(buf)@ + chunk@.subrange(0, i as int),
        decreases chunk@.len() - i,
    {
        buf.push(chunk[i]);
        proof {
            assert(chunk@.subrange(0, i as int).push(chunk@[i as int]) =~= chunk@.subrange(
                0,
                i + 1,
            ));
            assert(buf@ =~= old(buf)@ + chunk@.subrange(0, i + 1));
        }
        i = i + 1;
    }
    proof {
        assert(chunk@.subrange(0, chunk@.len() as int) =~= chunk@);
    }
}

/// Orchestration state of one download call, from accepted backend
/// response to completion or failure.
///
/// `trace` records, in order, every progress callback invocation handed
/// out so far; the observer inside records the drained chunks.  The
/// well-formedness invariant pins the whole trace shape: the announced
/// total first (at most once), then one report per drained chunk, then —
/// only on completion — the finish report.
pub struct DownloadSession {
    pub sink: ProgressSinkShape,
    pub phase: SessionPhase,
    pub observer: ProgressObserver,
    pub announced: Ghost<Option<usize>>,
    pub trace: Ghost<Seq<ProgressEvent>>,
}

impl DownloadSession {
    pub open spec fn wf(self) -> bool {
        &&& self.observer.wf()
        &&& self.observer.has_callback == self.sink.has_on_progress
        &&& match self.phase {
            SessionPhase::Requested => {
                &&& !self.observer.terminated
                &&& self.observer.delivered@ == Seq::<Seq<u8>>::empty()
                &&& self.trace@ == Seq::<ProgressEvent>::empty()
            },
            SessionPhase::Receiving => {
                &&& !self.observer.terminated
                &&& self.trace@ == set_total_events(self.sink, self.announced@) + progress_events(
                    self.sink,
                    self.observer.delivered@,
                )
            },
            SessionPhase::Completed => {
                &&& self.observer.terminated
                &&& self.trace@ == set_total_events(self.sink, self.announced@) + progress_events(
                    self.sink,
                    self.observer.delivered@,
                ) + finish_events(self.sink)
            },
            SessionPhase::Failed => {
                &&& self.observer.terminated
                &&& self.trace@ == set_total_events(self.sink, self.announced@) + progress_events(
                    self.sink,
                    self.observer.delivered@,
                )
            },
        }
    }

    /// A fresh call, right after the backend accepted the request.
    pub fn new(sink: ProgressSinkShape) -> (s: DownloadSession)
        ensures
            s.wf(),
            s.phase == SessionPhase::Requested,
            s.sink == sink,
            s.trace@ == Seq::<ProgressEvent>::empty(),
            s.observer.delivered@ == Seq::<Seq<u8>>::empty(),
    {
        DownloadSession {
            sink,
            phase: SessionPhase::Requested,
            observer: ProgressObserver::new(sink.has_on_progress),
            announced: Ghost(None),
            trace: Ghost(Seq::empty()),
        }
    }

    /// Announces the response's total length — the reported content length,
    /// or zero when unknown — through `set_total`, once, before any chunk
    /// is drained; the returned invocation is to be performed now.
    pub fn announce_total(&mut self, content_length: Option<usize>) -> (ev: Option<ProgressEvent>)
        requires
            old(self).wf(),
            old(self).phase == SessionPhase::Requested,
        ensures
            final(self).wf(),
            final(self).phase == SessionPhase::Receiving,
            final(self).sink == old(self).sink,
            final(self).announced@ == content_length,
            final(self).observer.delivered@ == old(self).observer.delivered@,
            ev == (if old(self).sink.has_set_total {
                Some(ProgressEvent::SetTotal(spec_announced_total(content_length)))
            } else {
                None::<ProgressEvent>
            }),
            final(self).trace@ == old(self).trace@ + opt_event(ev),
    {
        self.announced = Ghost(content_length);
        self.phase = SessionPhase::Receiving;
        proof {
            assert(progress_events(self.sink, self.observer.delivered@)
                =~= Seq::<ProgressEvent>::empty());
        }
        if self.sink.has_set_total {
            let total = match content_length {
                Some(n) => n,
                None => 0,
            };
            let ev = ProgressEvent::SetTotal(total);
            self.trace = Ghost(self.trace@.push(ev));
            proof {
                assert(self.trace@ =~= set_total_events(self.sink, self.announced@)
                    + progress_events(self.sink, self.observer.delivered@));
                assert(self.trace@ =~= old(self).trace@ + opt_event(Some(ev)));
            }
            Some(ev)
        } else {
            proof {
                assert(self.trace@ =~= set_total_events(self.sink, self.announced@)
                    + progress_events(self.sink, self.observer.delivered@));
                assert(self.trace@ =~= old(self).trace@ + opt_event(None::<ProgressEvent>));
            }
            None
        }
    }

    /// Drains one body chunk: appends it, unchanged and in order, to the
    /// destination buffer, and reports its length through `on_progress` —
    /// exactly once, never split or coalesced; the returned invocation is
    /// to be performed now.
    pub fn accept_chunk(&mut self, buf: &mut Vec<u8>, chunk: &[u8]) -> (ev: Option<ProgressEvent>)
        requires
            old(self).wf(),
            old(self).phase == SessionPhase::Receiving,
        ensures
            final(self).wf(),
            final(self).phase == SessionPhase::Receiving,
            final(self).sink == old(self).sink,
            final(self).announced@ == old(self).announced@,
            final(self).observer.delivered@ == old(self).observer.delivered@.push(chunk@),
            final(buf)@ == old(buf)@ + chunk@,
            ev == (if old(self).sink.has_on_progress {
                Some(ProgressEvent::Progress(chunk@.len() as usize))
            } else {
                None::<ProgressEvent>
            }),
            final(self).trace@ == old(self).trace@ + opt_event(ev),
    {
        let report = self.observer.observe_chunk(chunk);
        append_bytes(buf, chunk);
        proof {
            if self.sink.has_on_progress {
                assert(progress_events(self.sink, self.observer.delivered@) =~= progress_events(
                    self.sink,
                    old(self).observer.delivered@,
                ).push(ProgressEvent::Progress(chunk@.len() as usize)));
            }
        }
        match report {
            Some(n) => {
                let ev = ProgressEvent::Progress(n);
                self.trace = Ghost(self.trace@.push(ev));
                proof {
                    assert(self.trace@ =~= set_total_events(self.sink, self.announced@)
                        + progress_events(self.sink, self.observer.delivered@));
                    assert(self.trace@ =~= old(self).trace@ + opt_event(Some(ev)));
                }
                Some(ev)
            },
            None => {
                proof {
                    assert(self.trace@ =~= old(self).trace@ + opt_event(None::<ProgressEvent>));
                }
                None
            },
        }
    }

    /// End-of-stream: the drain is complete, and completion is reported
    /// through `on_finished` — exactly once, only now, never on failure;
    /// the returned invocation is to be performed now.
    pub fn complete(&mut self) -> (ev: Option<ProgressEvent>)
        requires
            old(self).wf(),
            old(self).phase == SessionPhase::Receiving,
        ensures
            final(self).wf(),
            final(self).phase == SessionPhase::Completed,
            final(self).sink == old(self).sink,
            final(self).announced@ == old(self).announced@,
            final(self).observer.delivered@ == old(self).observer.delivered@,
            ev == (if old(self).sink.has_on_finished {
                Some(ProgressEvent::Finished)
            } else {
                None::<ProgressEvent>
            }),
            final(self).trace@ == old(self).trace@ + opt_event(ev),
    {
        self.observer.observe_end();
        self.phase = SessionPhase::Completed;
        if self.sink.has_on_finished {
            let ev = ProgressEvent::Finished;
            self.trace = Ghost(self.trace@.push(ev));
            proof {
                assert(self.trace@ =~= set_total_events(self.sink, self.announced@)
                    + progress_events(self.sink, self.observer.delivered@) + finish_events(
                    self.sink,
                ));
                assert(self.trace@ =~= old(self).trace@ + opt_event(Some(ev)));
            }
            Some(ev)
        } else {
            proof {
                assert(self.trace@ =~= set_total_events(self.sink, self.announced@)
                    + progress_events(self.sink, self.observer.delivered@) + finish_events(
                    self.sink,
                ));
                assert(self.trace@ =~= old(self).trace@ + opt_event(None::<ProgressEvent>));
            }
            None
        }
    }

    /// A mid-drain failure: the transfer aborts where it stands, the
    /// destination keeps what was already drained, and no completion is
    /// ever reported.
    pub fn fail(&mut self)
        requires
            old(self).wf(),
            old(self).phase == SessionPhase::Receiving,
        ensures
            final(self).wf(),
            final(self).phase == SessionPhase::Failed,
            final(self).sink == old(self).sink,
            final(self).announced@ == old(self).announced@,
            final(self).observer.delivered@ == old(self).observer.delivered@,
            final(self).trace@ == old(self).trace@,
    {
        self.observer.observe_failure();
        self.phase = SessionPhase::Failed;
    }
}

/// Views of a vector of byte chunks, as a sequence of byte sequences.
pub open spec fn views_of(chunks: Seq<Vec<u8>>) -> Seq<Seq<u8>> {
    chunks.map_values(|c: Vec<u8>| c@)
}

/// Drains a whole backend response body into the destination buffer,
/// chunk by chunk, exactly as the manager's download path does: announce
/// the total, append every chunk in order while reporting its length,
/// then either report completion or surface the stream failure.
///
/// `chunks` are the body chunks the stream yielded, in order;
/// `stream_failure` is the mid-drain read error, if the stream ended in
/// one instead of end-of-stream.  The returned trace lists every progress
/// callback invocation, in order; the destination grows by exactly the
/// concatenation of the chunks, whether or not the drain then failed.
pub fn drain_body(
    sink: ProgressSinkShape,
    content_length: Option<usize>,
    chunks: &Vec<Vec<u8>>,
    stream_failure: Option<&str>,
    buf: &mut Vec<u8>,
) -> (out: (Vec<ProgressEvent>, Result<(), TransferError>))
    ensures
        final(buf)@ == old(buf)@ + views_of(chunks@).flatten(),
        final(buf)@.len() == old(buf)@.len() + sum_lens(chunk_lens(views_of(chunks@))),
        out.0@ == set_total_events(sink, content_length) + progress_events(
            sink,
            views_of(chunks@),
        ) + (if stream_failure is None {
            finish_events(sink)
        } else {
            Seq::<ProgressEvent>::empty()
        }),
        match out.1 {
            Ok(_) => stream_failure is None,
            Err(e) => match e {
                TransferError::BackendOther { message } => stream_failure matches Some(m)
                    && message@ == m@,
                _ => false,
            },
        },
{
    let ghost buf0 = buf@;
    let ghost all_chunks = views_of(chunks@);
    let mut events: Vec<ProgressEvent> = Vec::new();
    let mut session = DownloadSession::new(sink);
    let announce = session.announce_total(content_length);
    if let Some(ev) = announce {
        events.push(ev);
    }
    proof {
        assert(events@ =~= opt_event(announce));
        assert(buf@ =~= buf0 + all_chunks.subrange(0, 0).flatten());
        assert(all_chunks.subrange(0, 0) =~= Seq::<Seq<u8>>::empty());
    }
    let mut idx: usize = 0;
    while idx < chunks.len()
        invariant
            idx <= chunks@.len(),
            all_chunks == views_of(chunks@),
            all_chunks.len() == chunks@.len(),
            session.wf(),
            session.phase == SessionPhase::Receiving,
            session.sink == sink,
            session.announced@ == content_length,
            session.observer.delivered@ == all_chunks.subrange(0, idx as int),
            buf@ == buf0 + all_chunks.subrange(0, idx as int).flatten(),
            events@ == session.trace@,
        decreases chunks@.len() - idx,
    {
        let chunk: &Vec<u8> = &chunks[idx];
        proof {
            assert(all_chunks[idx as int] == chunk@);
        }
        let ghost trace0 = session.trace@;
        let step = session.accept_chunk(buf, chunk.as_slice());
        if let Some(ev) = step {
            events.push(ev);
        }
        proof {
            assert(events@ =~= trace0 + opt_event(step));
            assert(all_chunks.subrange(0, idx as int).push(chunk@) =~= all_chunks.subrange(
                0,
                idx + 1,
            ));
            all_chunks.subrange(0, idx as int).lemma_flatten_push(chunk@);
        }
        idx = idx + 1;
    }
    proof {
        assert(all_chunks.subrange(0, chunks@.len() as int) =~= all_chunks);
        lemma_sum_lens_flatten(all_chunks);
    }
    match stream_failure {
        None => {
            let ghost trace0 = session.trace@;
            let finish = session.complete();
            if let Some(ev) = finish {
                events.push(ev);
            }
            proof {
                assert(events@ =~= trace0 + opt_event(finish));
            }
            (events, Ok(()))
        },
        Some(m) => {
            session.fail();
            proof {
                assert(events@ + Seq::<ProgressEvent>::empty() =~= events@);
            }
            (events, Err(TransferError::BackendOther { message: m.to_owned() }))
        },
    }
}

} // verus!
