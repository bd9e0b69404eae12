//! The single-fetch state machine: conditional TLS upgrade, one HTTP/1.1
//! GET, and deadline-bounded body accumulation.
//!
//! The machine owns every decision of the fetch; the surrounding runtime
//! only performs the I/O a phase asks for and reports the outcome back.
//! The status code is recorded the moment response headers arrive, before
//! any body frame.  The deadline clock starts at the first body frame; a
//! frame arriving once the deadline has elapsed is not consumed, the body
//! is marked truncated, and the stream read halts.

use vstd::prelude::*;

verus! {

/// Body accumulation halts once this many milliseconds have elapsed since
/// the first body frame.
pub const BODY_DEADLINE_MS: u64 = 10000;

/// Has the body-read deadline elapsed at `elapsed_ms` milliseconds after
/// the first body frame?
pub open spec fn deadline_hit(elapsed_ms: u64) -> bool {
    elapsed_ms >= BODY_DEADLINE_MS
}

/// What the fetch has produced so far: the status code, the accumulated
/// body bytes, and whether the deadline cut the body short.
#[derive(Debug)]
pub struct HttpResponseSnapshot {
    pub status_code: u16,
    pub body: Vec<u8>,
    pub truncated: bool,
}

/// Mathematical model of an [`HttpResponseSnapshot`].
pub struct HttpResponseSnapshotModel {
    pub status_code: u16,
    pub body: Seq<u8>,
    pub truncated: bool,
}

impl View for HttpResponseSnapshot {
    type V = HttpResponseSnapshotModel;

    open spec fn view(&self) -> HttpResponseSnapshotModel {
        HttpResponseSnapshotModel {
            status_code: self.status_code,
            body: self.body@,
            truncated: self.truncated,
        }
    }
}

/// The phase of one fetch, in the order the phases are traversed.
#[derive(Debug)]
pub enum FetchPhase {
    /// The tunnel is up and the destination is secure: the stream must be
    /// wrapped in TLS before anything else.
    AwaitingTls,
    /// The HTTP handshake and the GET may be sent; headers are awaited.
    AwaitingHeaders,
    /// Headers arrived; body frames are being consumed.
    Streaming,
    /// The fetch ended and a snapshot is available.
    Complete,
    /// A TLS or I/O failure ended the fetch; no snapshot exists.
    Failed,
}

/// The state machine of one fetch over an established tunnel stream.
#[derive(Debug)]
pub struct FetchSession {
    /// Does the destination scheme require TLS?
    pub secure: bool,
    /// Has a TLS upgrade completed successfully?
    pub tls_established: bool,
    pub phase: FetchPhase,
    pub snapshot: Option<HttpResponseSnapshot>,
}

/// A snapshot after one body frame: a frame past the deadline marks the
/// body truncated and adds nothing; any other frame appends its bytes.
pub open spec fn frame_applied(
    snap: HttpResponseSnapshotModel,
    data: Seq<u8>,
    elapsed_ms: u64,
) -> HttpResponseSnapshotModel {
    if deadline_hit(elapsed_ms) {
        HttpResponseSnapshotModel {
            status_code: snap.status_code,
            body: snap.body,
            truncated: true,
        }
    } else {
        HttpResponseSnapshotModel {
            status_code: snap.status_code,
            body: snap.body + data,
            truncated: snap.truncated,
        }
    }
}

impl FetchSession {
    /// Every reachable state satisfies this; in particular a snapshot only
    /// ever exists once TLS is established on a secure destination, and a
    /// failed session holds none.
    pub open spec fn wf(self) -> bool {
        &&& (self.tls_established ==> self.secure)
        &&& (self.phase is AwaitingTls ==> self.secure && !self.tls_established
            && self.snapshot is None)
        &&& (self.phase is AwaitingHeaders ==> (self.secure ==> self.tls_established)
            && self.snapshot is None)
        &&& (self.phase is Streaming ==> (self.secure ==> self.tls_established)
            && self.snapshot is Some && !self.snapshot.unwrap()@.truncated)
        &&& (self.phase is Complete ==> (self.secure ==> self.tls_established)
            && self.snapshot is Some)
        &&& (self.phase is Failed ==> self.snapshot is None)
    }

    /// Opens a session over a fresh tunnel stream.  A secure destination
    /// must upgrade to TLS first; any other goes straight to the HTTP
    /// handshake.
    pub fn start(secure: bool) -> (s: FetchSession)
        ensures
            s.wf(),
            s.secure == secure,
            !s.tls_established,
            secure ==> s.phase is AwaitingTls,
            !secure ==> s.phase is AwaitingHeaders,
            s.snapshot is None,
    {
        FetchSession {
            secure,
            tls_established: false,
            phase: if secure {
                FetchPhase::AwaitingTls
            } else {
                FetchPhase::AwaitingHeaders
            },
            snapshot: None,
        }
    }

    /// Records the outcome of the TLS upgrade.  Success moves on to the
    /// HTTP handshake; failure ends the fetch with no snapshot.
    pub fn on_tls_result(&mut self, ok: bool)
        requires
            old(self).wf(),
            old(self).phase is AwaitingTls,
        ensures
            final(self).wf(),
            final(self).secure == old(self).secure,
            final(self).snapshot is None,
            ok ==> final(self).phase is AwaitingHeaders && final(self).tls_established,
            !ok ==> final(self).phase is Failed && !final(self).tls_established,
    {
        if ok {
            self.tls_established = true;
            self.phase = FetchPhase::AwaitingHeaders;
        } else {
            self.phase = FetchPhase::Failed;
        }
    }

    /// Records the response status code the moment headers arrive: the
    /// snapshot exists from here on, with an empty body, even if no body
    /// frame is ever read.
    pub fn on_headers(&mut self, status_code: u16)
        requires
            old(self).wf(),
            old(self).phase is AwaitingHeaders,
        ensures
            final(self).wf(),
            final(self).secure == old(self).secure,
            final(self).tls_established == old(self).tls_established,
            final(self).phase is Streaming,
            final(self).snapshot is Some,
            final(self).snapshot.unwrap()@ == (HttpResponseSnapshotModel {
                status_code,
                body: Seq::<u8>::empty(),
                truncated: false,
            }),
    {
        self.snapshot = Some(
            HttpResponseSnapshot { status_code, body: Vec::new(), truncated: false },
        );
        self.phase = FetchPhase::Streaming;
        proof {
            assert(self.snapshot.unwrap()@.body =~= Seq::<u8>::empty());
        }
    }

    /// Consumes one body frame, `elapsed_ms` milliseconds after the first
    /// frame.  Returns whether the stream read goes on: a frame past the
    /// deadline is dropped, marks the body truncated and halts the read.
    pub fn on_frame(&mut self, data: Vec<u8>, elapsed_ms: u64) -> (kept: bool)
        requires
            old(self).wf(),
            old(self).phase is Streaming,
        ensures
            final(self).wf(),
            final(self).secure == old(self).secure,
            final(self).tls_established == old(self).tls_established,
            final(self).snapshot is Some,
            final(self).snapshot.unwrap()@ == frame_applied(
                old(self).snapshot.unwrap()@,
                data@,
                elapsed_ms,
            ),
            kept == !deadline_hit(elapsed_ms),
            kept ==> final(self).phase is Streaming,
            !kept ==> final(self).phase is Complete,
    {
        let mut data = data;
        let mut snap = self.snapshot.take().unwrap();
        if elapsed_ms >= BODY_DEADLINE_MS {
            snap.truncated = true;
            self.snapshot = Some(snap);
            self.phase = FetchPhase::Complete;
            false
        } else {
            snap.body.append(&mut data);
            self.snapshot = Some(snap);
            true
        }
    }

    /// The stream ended before the deadline: the fetch is complete and the
    /// body is not truncated.
    pub fn on_stream_end(&mut self)
        requires
            old(self).wf(),
            old(self).phase is Streaming,
        ensures
            final(self).wf(),
            final(self).secure == old(self).secure,
            final(self).tls_established == old(self).tls_established,
            final(self).phase is Complete,
            final(self).snapshot == old(self).snapshot,
    {
        self.phase = FetchPhase::Complete;
    }

    /// An I/O failure during handshake, send or read ends the fetch; the
    /// partial snapshot is discarded.
    pub fn on_io_error(&mut self)
        requires
            old(self).wf(),
            !(old(self).phase is Complete),
            !(old(self).phase is Failed),
        ensures
            final(self).wf(),
            final(self).secure == old(self).secure,
            final(self).tls_established == old(self).tls_established,
            final(self).phase is Failed,
            final(self).snapshot is None,
    {
        self.snapshot = None;
        self.phase = FetchPhase::Failed;
    }

    /// Hands out the snapshot of a completed fetch; any other session,
    /// a failed one in particular, yields none.
    pub fn into_snapshot(self) -> (r: Option<HttpResponseSnapshot>)
        requires
            self.wf(),
        ensures
            (r is Some) == (self.phase is Complete),
            r is Some ==> r.unwrap() == self.snapshot.unwrap(),
    {
        match self.phase {
            FetchPhase::Complete => self.snapshot,
            _ => None,
        }
    }
}

/// The snapshot after the frames from position `i` on arrive in order,
/// each paired with its data and the milliseconds elapsed since the first
/// frame: exactly the repeated application of [`frame_applied`], halting at
/// the first frame past the deadline.
pub open spec fn stream_run(
    snap: HttpResponseSnapshotModel,
    frames: Seq<(Seq<u8>, u64)>,
    i: int,
) -> HttpResponseSnapshotModel
    decreases frames.len() - i,
    when 0 <= i <= frames.len()
{
    if i >= frames.len() {
        snap
    } else if deadline_hit(frames[i].1) {
        frame_applied(snap, frames[i].0, frames[i].1)
    } else {
        stream_run(frame_applied(snap, frames[i].0, frames[i].1), frames, i + 1)
    }
}

/// Position of the first frame past the deadline, or the frame count when
/// every frame was in time.
pub open spec fn first_late_frame(frames: Seq<(Seq<u8>, u64)>, i: int) -> int
    decreases frames.len() - i,
    when 0 <= i <= frames.len()
{
    if i >= frames.len() {
        frames.len() as int
    } else if deadline_hit(frames[i].1) {
        i
    } else {
        first_late_frame(frames, i + 1)
    }
}

/// The bytes of the frames that are consumed: everything before the first
/// frame past the deadline.
pub open spec fn consumed_body(frames: Seq<(Seq<u8>, u64)>, i: int) -> Seq<u8>
    decreases frames.len() - i,
    when 0 <= i <= frames.len()
{
    if i >= frames.len() || deadline_hit(frames[i].1) {
        Seq::empty()
    } else {
        frames[i].0 + consumed_body(frames, i + 1)
    }
}

proof fn lemma_stream_run_from(snap: HttpResponseSnapshotModel, frames: Seq<(Seq<u8>, u64)>, i: int)
    requires
        0 <= i <= frames.len(),
        !snap.truncated,
    ensures
        stream_run(snap, frames, i).status_code == snap.status_code,
        stream_run(snap, frames, i).body =~= snap.body + consumed_body(frames, i),
        stream_run(snap, frames, i).truncated == (first_late_frame(frames, i) < frames.len()),
    decreases frames.len() - i,
{
    if i >= frames.len() || deadline_hit(frames[i].1) {
        assert(snap.body + consumed_body(frames, i) =~= snap.body);
    } else {
        let next = frame_applied(snap, frames[i].0, frames[i].1);
        lemma_stream_run_from(next, frames, i + 1);
        assert((snap.body + frames[i].0) + consumed_body(frames, i + 1) =~= snap.body + (
        frames[i].0 + consumed_body(frames, i + 1)));
    }
}

/// Body accumulation halts exactly when the deadline has elapsed since the
/// first body frame: the fetch is marked truncated precisely when some
/// frame arrived past the deadline, everything before the first such frame
/// is in the body, nothing after it is, and the status code recorded at
/// the headers is untouched by any of it.
pub proof fn lemma_deadline_halts_stream(
    snap: HttpResponseSnapshotModel,
    frames: Seq<(Seq<u8>, u64)>,
)
    requires
        !snap.truncated,
    ensures
        stream_run(snap, frames, 0).status_code == snap.status_code,
        stream_run(snap, frames, 0).body =~= snap.body + consumed_body(frames, 0),
        stream_run(snap, frames, 0).truncated <==> exists|i: int|
            0 <= i < frames.len() && deadline_hit(frames[i].1),
{
    lemma_stream_run_from(snap, frames, 0);
    lemma_first_late_frame_bounds(frames, 0);
}

proof fn lemma_first_late_frame_bounds(frames: Seq<(Seq<u8>, u64)>, i: int)
    requires
        0 <= i <= frames.len(),
    ensures
        i <= first_late_frame(frames, i) <= frames.len(),
        first_late_frame(frames, i) < frames.len() ==> deadline_hit(
            frames[first_late_frame(frames, i)].1,
        ),
        forall|k: int| i <= k < first_late_frame(frames, i) ==> !deadline_hit(frames[k].1),
        (first_late_frame(frames, i) < frames.len()) <==> exists|k: int|
            i <= k < frames.len() && deadline_hit(frames[k].1),
    decreases frames.len() - i,
{
    if i < frames.len() && !deadline_hit(frames[i].1) {
        lemma_first_late_frame_bounds(frames, i + 1);
    }
}

/// On a secure destination no snapshot — and so no status code — exists in
/// any reachable session state unless the TLS upgrade has succeeded.
pub proof fn lemma_no_snapshot_without_tls(s: FetchSession)
    requires
        s.wf(),
        s.secure,
        !s.tls_established,
    ensures
        s.snapshot is None,
        !(s.phase is Streaming),
        !(s.phase is Complete),
{
}

} // verus!
