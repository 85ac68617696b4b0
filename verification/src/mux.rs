//! The multiplexer: the verified decision logic of the transfer loop.
//!
//! The loop itself is asynchronous I/O and lives with the caller.  The
//! caller waits for the next source read or the shutdown signal, hands the
//! outcome to [`Multiplexer::handle_event`] as a plain event, performs the
//! pending writes the multiplexer decides on, and reports each write's
//! outcome back through [`note_write_outcome`].  Every decision — fan-out
//! order, what is fatal, what is discarded — is made here.
//!
//! Write policy: writes are attempted without blocking, and a destination
//! that cannot accept data immediately has the frame discarded for that
//! destination only.  Delivery is best-effort; the loop never blocks on a
//! slow destination.

use vstd::prelude::*;

use crate::error::Error;
use crate::frame::{frame_bytes, frame_clone};
use crate::routing::{contains_id, id_views, RoutingTable};

verus! {

/// The transfer loop's phase: still acting on events, or stopped for good.
///
/// A shutdown observed while a read's fan-out is under way takes effect
/// only after that fan-out completes — the whole fan-out is decided in one
/// step — so no separate draining phase is ever stored.
#[derive(PartialEq, Eq, Structural)]
pub enum MuxState {
    Running,
    Stopped,
}

/// What the loop observed while waiting.
pub enum MuxEvent {
    /// The cooperative shutdown signal fired.
    Shutdown,
    /// Every source stream has ended.
    SourcesClosed,
    /// A read on the named source failed.
    ReadFailed { source_id: String, cause: std::io::Error },
    /// A read on the named source produced a frame of bytes.
    Frame { source_id: String, frame: bytes::Bytes },
}

/// One pending write: this frame, byte for byte, to this destination.
pub struct Delivery {
    pub destination_id: String,
    pub frame: bytes::Bytes,
}

/// What the loop must do next.
pub enum StepOutcome {
    /// Keep running; write the frame to each destination, in this order.
    /// An empty list means the frame had no route and is discarded.
    Deliver { writes: Vec<Delivery> },
    /// The loop is over: gracefully (`Ok`) or with a fatal error.
    Stop { result: Result<(), Error> },
}

/// The transfer loop's state: the registered source and sink identifiers,
/// the validated routing table, and the loop phase.  The caller owns the
/// streams themselves; the multiplexer owns every decision about them.
pub struct Multiplexer {
    table: RoutingTable,
    source_ids: Vec<String>,
    sink_ids: Vec<String>,
    state: MuxState,
}

/// Plans the fan-out of one frame: one pending write per destination of
/// `source_id`, in edge-declaration order, every one carrying the same
/// bytes.  Fails with the offending identifier if a routed destination has
/// no registered sink.
fn plan_fanout(
    table: &RoutingTable,
    sink_ids: &Vec<String>,
    source_id: &String,
    frame: &bytes::Bytes,
) -> (r: Result<Vec<Delivery>, String>)
    ensures
        ({
            let dests = table.spec_dests(source_id@);
            match r {
                Ok(writes) => {
                    &&& writes@.len() == dests.len()
                    &&& forall|i: int|
                        0 <= i < dests.len() ==> (#[trigger] writes@[i]).destination_id@
                            == dests[i] && frame_bytes(writes@[i].frame) == frame_bytes(
                            *frame,
                        )
                    &&& forall|i: int|
                        0 <= i < dests.len() ==> id_views(sink_ids@).contains(
                            #[trigger] dests[i],
                        )
                },
                Err(d) => {
                    &&& dests.contains(d@)
                    &&& !id_views(sink_ids@).contains(d@)
                },
            }
        }),
{
    let dests = table.destinations_of(source_id);
    let mut writes: Vec<Delivery> = Vec::new();
    let n = dests.len();
    let mut i: usize = 0;
    while i < n
        invariant
            i <= n,
            n == dests@.len(),
            id_views(dests@) == table.spec_dests(source_id@),
            writes@.len() == i,
            forall|t: int|
                0 <= t < i ==> (#[trigger] writes@[t]).destination_id@ == dests@[t]@
                    && frame_bytes(writes@[t].frame) == frame_bytes(*frame),
            forall|t: int| 0 <= t < i ==> id_views(sink_ids@).contains(#[trigger] dests@[t]@),
        decreases n - i,
    {
        proof {
            assert(id_views(dests@)[i as int] == dests@[i as int]@);
        }
        if !contains_id(sink_ids, &dests[i]) {
            proof {
                assert(table.spec_dests(source_id@)[i as int] == dests@[i as int]@);
            }
            return Err(dests[i].clone());
        }
        let destination_id = dests[i].clone();
        let copy = frame_clone(frame);
        writes.push(Delivery { destination_id, frame: copy });
        i += 1;
    }
    proof {
        assert forall|t: int| 0 <= t < table.spec_dests(source_id@).len() implies id_views(
            sink_ids@,
        ).contains(#[trigger] table.spec_dests(source_id@)[t]) by {
            assert(table.spec_dests(source_id@)[t] == dests@[t]@);
        }
        assert forall|t: int|
            0 <= t < table.spec_dests(source_id@).len() implies (
        #[trigger] writes@[t]).destination_id@ == table.spec_dests(source_id@)[t]
            && frame_bytes(writes@[t].frame) == frame_bytes(*frame) by {
            assert(table.spec_dests(source_id@)[t] == dests@[t]@);
        }
    }
    Ok(writes)
}

impl Multiplexer {
    /// The validated routing table.
    pub closed spec fn spec_table(&self) -> RoutingTable {
        self.table
    }

    /// The registered source identifiers.
    pub closed spec fn spec_sources(&self) -> Seq<Seq<char>> {
        id_views(self.source_ids@)
    }

    /// The registered sink identifiers.
    pub closed spec fn spec_sinks(&self) -> Seq<Seq<char>> {
        id_views(self.sink_ids@)
    }

    /// The loop phase.
    pub closed spec fn spec_state(&self) -> MuxState {
        self.state
    }

    /// The destinations of `src`, in edge-declaration order.
    pub open spec fn spec_dests(&self, src: Seq<char>) -> Seq<Seq<char>> {
        self.spec_table().spec_dests(src)
    }

    /// Every destination routed from `src` has a registered sink.
    pub open spec fn sinks_cover(&self, src: Seq<char>) -> bool {
        forall|i: int|
            0 <= i < self.spec_dests(src).len() ==> self.spec_sinks().contains(
                #[trigger] self.spec_dests(src)[i],
            )
    }

    /// Registers the split stream halves by identifier and starts the loop
    /// in `Running`.
    pub fn new(table: RoutingTable, source_ids: Vec<String>, sink_ids: Vec<String>) -> (m:
        Multiplexer)
        ensures
            m.spec_table() == table,
            m.spec_sources() == id_views(source_ids@),
            m.spec_sinks() == id_views(sink_ids@),
            m.spec_state() == MuxState::Running,
    {
        Multiplexer { table, source_ids, sink_ids, state: MuxState::Running }
    }

    /// True while the loop may still act on events.
    pub fn is_running(&self) -> (r: bool)
        ensures
            r == (self.spec_state() == MuxState::Running),
    {
        match self.state {
            MuxState::Running => true,
            MuxState::Stopped => false,
        }
    }

    /// Decides the loop's reaction to one observed event.
    ///
    /// The shutdown signal and the end of all sources stop the loop
    /// gracefully, with no further writes — in particular, no write is
    /// performed for any read handed in after the signal.  A read error on
    /// any source is fatal to the whole loop.  A successful read is fanned
    /// out: one pending write per declared destination of the source, in
    /// edge-declaration order, each carrying the same bytes; a source with
    /// no outgoing edges has its frame discarded without error.  A routed
    /// destination with no registered sink means the table was not
    /// validated against the registrations, and is fatal.
    pub fn handle_event(&mut self, event: MuxEvent) -> (r: StepOutcome)
        ensures
            final(self).spec_table() == old(self).spec_table(),
            final(self).spec_sources() == old(self).spec_sources(),
            final(self).spec_sinks() == old(self).spec_sinks(),
            old(self).spec_state() == MuxState::Stopped ==> {
                &&& *final(self) == *old(self)
                &&& r matches StepOutcome::Stop { result } && result is Ok
            },
            old(self).spec_state() == MuxState::Running ==> match event {
                MuxEvent::Shutdown => {
                    &&& final(self).spec_state() == MuxState::Stopped
                    &&& r matches StepOutcome::Stop { result } && result is Ok
                },
                MuxEvent::SourcesClosed => {
                    &&& final(self).spec_state() == MuxState::Stopped
                    &&& r matches StepOutcome::Stop { result } && result is Ok
                },
                MuxEvent::ReadFailed { source_id, cause } => {
                    &&& final(self).spec_state() == MuxState::Stopped
                    &&& r matches StepOutcome::Stop { result } && result matches Err(
                        Error::Read { source_id: s, cause: c },
                    ) && s@ == source_id@ && c == cause
                },
                MuxEvent::Frame { source_id, frame } => {
                    let dests = old(self).spec_dests(source_id@);
                    if old(self).sinks_cover(source_id@) {
                        &&& final(self).spec_state() == MuxState::Running
                        &&& r matches StepOutcome::Deliver { writes } && {
                            &&& writes@.len() == dests.len()
                            &&& forall|i: int|
                                0 <= i < dests.len() ==> (
                                #[trigger] writes@[i]).destination_id@ == dests[i]
                                    && frame_bytes(writes@[i].frame) == frame_bytes(frame)
                        }
                    } else {
                        &&& final(self).spec_state() == MuxState::Stopped
                        &&& r matches StepOutcome::Stop { result } && result matches Err(
                            Error::RoutingIntegrity { destination_id },
                        ) && dests.contains(destination_id@) && !old(self).spec_sinks().contains(
                            destination_id@,
                        )
                    }
                },
            },
    {
        match self.state {
            MuxState::Stopped => StepOutcome::Stop { result: Ok(()) },
            MuxState::Running => match event {
                MuxEvent::Shutdown => {
                    self.state = MuxState::Stopped;
                    StepOutcome::Stop { result: Ok(()) }
                },
                MuxEvent::SourcesClosed => {
                    self.state = MuxState::Stopped;
                    StepOutcome::Stop { result: Ok(()) }
                },
                MuxEvent::ReadFailed { source_id, cause } => {
                    self.state = MuxState::Stopped;
                    StepOutcome::Stop { result: Err(Error::Read { source_id, cause }) }
                },
                MuxEvent::Frame { source_id, frame } => {
                    match plan_fanout(&self.table, &self.sink_ids, &source_id, &frame) {
                        Ok(writes) => StepOutcome::Deliver { writes },
                        Err(destination_id) => {
                            self.state = MuxState::Stopped;
                            StepOutcome::Stop {
                                result: Err(Error::RoutingIntegrity { destination_id }),
                            }
                        },
                    }
                },
            },
        }
    }
}

/// The outcome of one destination's write, reported by the caller that
/// performed it.
pub enum WriteOutcome {
    /// The write completed.
    Wrote,
    /// The destination could not accept the bytes without blocking.
    WouldBlock,
    /// The write failed outright.
    Failed { cause: std::io::Error },
}

/// What the loop does about one destination's outcome — never more than a
/// report, so one destination's failure cannot stop the loop or another
/// delivery.
pub enum WriteDisposition {
    /// The frame reached the destination.
    Delivered,
    /// The frame was discarded for this destination only (backpressure).
    Discarded,
    /// The failure is reported against this destination alone.
    Reported { error: Error },
}

/// The shape of a write outcome, with the I/O cause abstracted away.
#[derive(PartialEq, Eq, Structural)]
pub enum WriteOutcomeKind {
    Wrote,
    WouldBlock,
    Failed,
}

/// The shape of a disposition.
#[derive(PartialEq, Eq, Structural)]
pub enum DispositionKind {
    Delivered,
    Discarded,
    Reported,
}

/// The shape of `outcome`.
pub open spec fn outcome_kind(outcome: WriteOutcome) -> WriteOutcomeKind {
    match outcome {
        WriteOutcome::Wrote => WriteOutcomeKind::Wrote,
        WriteOutcome::WouldBlock => WriteOutcomeKind::WouldBlock,
        WriteOutcome::Failed { .. } => WriteOutcomeKind::Failed,
    }
}

/// The shape of `disposition`.
pub open spec fn disposition_kind(disposition: WriteDisposition) -> DispositionKind {
    match disposition {
        WriteDisposition::Delivered => DispositionKind::Delivered,
        WriteDisposition::Discarded => DispositionKind::Discarded,
        WriteDisposition::Reported { .. } => DispositionKind::Reported,
    }
}

/// How the loop disposes of one outcome shape.
pub open spec fn spec_disposition(kind: WriteOutcomeKind) -> DispositionKind {
    match kind {
        WriteOutcomeKind::Wrote => DispositionKind::Delivered,
        WriteOutcomeKind::WouldBlock => DispositionKind::Discarded,
        WriteOutcomeKind::Failed => DispositionKind::Reported,
    }
}

/// Decides the loop's reaction to one destination's write outcome: a
/// completed write is delivered; backpressure discards the frame for that
/// destination only; any other failure is reported against that
/// destination.  No outcome stops the loop.
pub fn note_write_outcome(destination_id: String, outcome: WriteOutcome) -> (r:
    WriteDisposition)
    ensures
        disposition_kind(r) == spec_disposition(outcome_kind(outcome)),
        match outcome {
            WriteOutcome::Wrote => r is Delivered,
            WriteOutcome::WouldBlock => r is Discarded,
            WriteOutcome::Failed { cause } => r matches WriteDisposition::Reported { error }
                && error matches Error::Write { destination_id: d, cause: c } && d@
                == destination_id@ && c == cause,
        },
{
    match outcome {
        WriteOutcome::Wrote => WriteDisposition::Delivered,
        WriteOutcome::WouldBlock => WriteDisposition::Discarded,
        WriteOutcome::Failed { cause } => WriteDisposition::Reported {
            error: Error::Write { destination_id, cause },
        },
    }
}

/// The disposition shapes of a whole fan-out, one entry per destination:
/// each is a function of that destination's own outcome alone.
pub open spec fn spec_dispositions(outcomes: Seq<WriteOutcomeKind>) -> Seq<DispositionKind> {
    outcomes.map_values(|k: WriteOutcomeKind| spec_disposition(k))
}

/// Fan-out independence: making one destination's write fail (or changing
/// its outcome in any other way) changes no other destination's
/// disposition — every other destination of the same frame is handled
/// exactly as before.
pub proof fn lemma_fanout_independence(
    a: Seq<WriteOutcomeKind>,
    b: Seq<WriteOutcomeKind>,
    j: int,
)
    requires
        a.len() == b.len(),
        0 <= j < a.len(),
        forall|i: int| 0 <= i < a.len() && i != j ==> a[i] == b[i],
    ensures
        forall|i: int|
            0 <= i < a.len() && i != j ==> spec_dispositions(a)[i] == spec_dispositions(b)[i],
{
    assert forall|i: int|
        0 <= i < a.len() && i != j implies spec_dispositions(a)[i] == spec_dispositions(
        b,
    )[i] by {
        assert(spec_dispositions(a)[i] == spec_disposition(a[i]));
        assert(spec_dispositions(b)[i] == spec_disposition(b[i]));
    }
}

} // verus!
