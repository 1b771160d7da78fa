//! The bidirectional relay of a tunnel, as a state machine without I/O.
//!
//! A tunnel joins two duplex streams: the client's and the destination's.
//! Each direction is a pipe with a bounded buffer between a source and a
//! sink. The relay says what it wants done (a read, a write, a shutdown); the
//! driver does it on the sockets and reports what happened. Both directions
//! proceed independently until each has shut its sink, or until anything
//! fails, which ends the whole tunnel.

use vstd::prelude::*;

verus! {

/// The most bytes a pipe holds between its source and its sink.
pub const BUFFER_CAPACITY: usize = 8192;

/// One of the two directions of a tunnel.
#[derive(Clone, Copy, Debug, PartialEq, Eq, Structural)]
pub enum Direction {
    /// From the client to the destination.
    Upstream,
    /// From the destination to the client.
    Downstream,
}

/// What the driver was doing when a stream failed.
#[derive(Clone, Copy, Debug, PartialEq, Eq, Structural)]
pub enum Operation {
    Read,
    Write,
    Shutdown,
}

/// The cause of an I/O failure, as far as the proxy tells causes apart.
#[derive(Clone, Copy, Debug, PartialEq, Eq, Structural)]
pub enum IoCause {
    ConnectionRefused,
    ConnectionReset,
    ConnectionAborted,
    NotConnected,
    BrokenPipe,
    TimedOut,
    /// The sink accepted none of the bytes offered to it.
    WriteZero,
    Other,
}

/// The failure that ended a tunnel.
#[derive(Clone, Copy, Debug, PartialEq, Eq, Structural)]
pub struct RelayError {
    pub direction: Direction,
    pub operation: Operation,
    pub cause: IoCause,
}

/// How a tunnel ended.
#[derive(Clone, Copy, Debug, PartialEq, Eq, Structural)]
pub enum TunnelStatus {
    /// Both directions reached the end of their stream and shut their sink.
    Success,
    /// A read, a write or a shutdown failed.
    Failed(RelayError),
}

/// The report of a finished tunnel.
#[derive(Clone, Copy, Debug, PartialEq, Eq, Structural)]
pub struct TunnelResult {
    /// Bytes the destination accepted from the client.
    pub from_client: u64,
    /// Bytes the client accepted from the destination.
    pub from_server: u64,
    pub status: TunnelStatus,
}

/// What the relay wants done on one direction. Nothing is wanted of a
/// finished tunnel.
#[derive(Clone, Copy, Debug, PartialEq, Eq, Structural)]
pub struct Demand {
    /// The most bytes to read from the source; 0 where no read is wanted.
    pub read: usize,
    /// The number of pending bytes to offer to the sink; 0 where none.
    pub write: usize,
    /// Whether the write side of the sink is to be shut down.
    pub shutdown: bool,
}

/// A byte count as the report holds it: exact up to `u64::MAX`, where it stays.
pub open spec fn count(len: nat) -> u64 {
    if len <= u64::MAX {
        len as u64
    } else {
        u64::MAX
    }
}

/// One direction of a tunnel, with the whole history of its bytes.
pub struct PipeView {
    /// Every byte read from the source, in order.
    pub received: Seq<u8>,
    /// Every byte the sink accepted, in order.
    pub delivered: Seq<u8>,
    /// The source has not reported its end yet.
    pub source_open: bool,
    /// The write side of the sink has not been shut down yet.
    pub sink_open: bool,
}

impl PipeView {
    /// A pipe on which nothing has happened.
    pub open spec fn fresh() -> PipeView {
        PipeView {
            received: Seq::empty(),
            delivered: Seq::empty(),
            source_open: true,
            sink_open: true,
        }
    }

    /// The bytes read and not yet accepted by the sink.
    pub open spec fn pending(self) -> Seq<u8> {
        self.received.skip(self.delivered.len() as int)
    }

    /// What holds of every pipe: the sink got a prefix of what the source
    /// gave, the rest fits the buffer, and a sink is shut only after the end
    /// of the source, with nothing left to write.
    pub open spec fn wf(self) -> bool {
        &&& self.delivered.len() <= self.received.len()
        &&& self.received.take(self.delivered.len() as int) == self.delivered
        &&& self.pending().len() <= BUFFER_CAPACITY
        &&& !self.sink_open ==> !self.source_open && self.pending().len() == 0
    }

    /// The most bytes a read may bring: the free part of the buffer while the
    /// source is open.
    pub open spec fn room(self) -> nat {
        if self.source_open {
            (BUFFER_CAPACITY - self.pending().len()) as nat
        } else {
            0
        }
    }

    /// The sink is to be shut down: the source has ended and every byte that
    /// it gave has been delivered.
    pub open spec fn wants_shutdown(self) -> bool {
        !self.source_open && self.sink_open && self.pending().len() == 0
    }

    /// The direction is complete.
    pub open spec fn done(self) -> bool {
        !self.sink_open
    }

    /// A read may bring `data` now. No bytes stand for the end of the source.
    pub open spec fn can_read(self, data: Seq<u8>) -> bool {
        0 < self.room() && data.len() <= self.room()
    }

    /// The pipe after a read that brought `data`.
    pub open spec fn read(self, data: Seq<u8>) -> PipeView {
        if data.len() == 0 {
            PipeView { source_open: false, ..self }
        } else {
            PipeView { received: self.received + data, ..self }
        }
    }

    /// The sink may have accepted the first `n` pending bytes.
    pub open spec fn can_write(self, n: nat) -> bool {
        0 < n <= self.pending().len()
    }

    /// The pipe after the sink accepted the first `n` pending bytes.
    pub open spec fn written(self, n: nat) -> PipeView {
        PipeView { delivered: self.delivered + self.pending().take(n as int), ..self }
    }

    /// The pipe after the shutdown of its sink.
    pub open spec fn shut(self) -> PipeView {
        PipeView { sink_open: false, ..self }
    }
}

/// A tunnel: its two directions and the failure that ended it, if any.
pub struct RelayView {
    pub upstream: PipeView,
    pub downstream: PipeView,
    pub failure: Option<RelayError>,
}

impl Direction {
    /// The other direction.
    pub open spec fn spec_reverse(self) -> Direction {
        match self {
            Direction::Upstream => Direction::Downstream,
            Direction::Downstream => Direction::Upstream,
        }
    }

    /// The other direction.
    #[verifier::when_used_as_spec(spec_reverse)]
    pub fn reverse(self) -> (r: Direction)
        ensures
            r == self.spec_reverse(),
    {
        match self {
            Direction::Upstream => Direction::Downstream,
            Direction::Downstream => Direction::Upstream,
        }
    }
}

impl RelayView {
    /// A tunnel on which nothing has happened.
    pub open spec fn fresh() -> RelayView {
        RelayView { upstream: PipeView::fresh(), downstream: PipeView::fresh(), failure: None }
    }

    pub open spec fn wf(self) -> bool {
        self.upstream.wf() && self.downstream.wf()
    }

    /// The pipe of one direction.
    pub open spec fn pipe(self, dir: Direction) -> PipeView {
        match dir {
            Direction::Upstream => self.upstream,
            Direction::Downstream => self.downstream,
        }
    }

    /// This tunnel with the pipe of one direction replaced.
    pub open spec fn with_pipe(self, dir: Direction, pipe: PipeView) -> RelayView {
        match dir {
            Direction::Upstream => RelayView { upstream: pipe, ..self },
            Direction::Downstream => RelayView { downstream: pipe, ..self },
        }
    }

    /// The tunnel has ended: it failed, or both directions are complete.
    pub open spec fn finished(self) -> bool {
        self.failure is Some || (self.upstream.done() && self.downstream.done())
    }

    /// What is wanted on one direction.
    pub open spec fn demand(self, dir: Direction) -> Demand {
        if self.finished() {
            Demand { read: 0, write: 0, shutdown: false }
        } else {
            Demand {
                read: self.pipe(dir).room() as usize,
                write: self.pipe(dir).pending().len() as usize,
                shutdown: self.pipe(dir).wants_shutdown(),
            }
        }
    }

    /// A report of a read is taken.
    pub open spec fn accepts_read(self, dir: Direction, data: Seq<u8>) -> bool {
        !self.finished() && self.pipe(dir).can_read(data)
    }

    /// The tunnel after the report of a read on `dir` that brought `data`,
    /// where no bytes stand for the end of the source.
    pub open spec fn on_read(self, dir: Direction, data: Seq<u8>) -> RelayView {
        if self.accepts_read(dir, data) {
            self.with_pipe(dir, self.pipe(dir).read(data))
        } else {
            self
        }
    }

    /// A report of a write is taken.
    pub open spec fn accepts_written(self, dir: Direction, n: nat) -> bool {
        !self.finished() && 0 < self.pipe(dir).pending().len() && n <= self.pipe(
            dir,
        ).pending().len()
    }

    /// The tunnel after the report that the sink of `dir` accepted `n` of the
    /// pending bytes. A sink that accepts none has failed.
    pub open spec fn on_written(self, dir: Direction, n: nat) -> RelayView {
        if !self.accepts_written(dir, n) {
            self
        } else if n == 0 {
            self.failed(dir, Operation::Write, IoCause::WriteZero)
        } else {
            self.with_pipe(dir, self.pipe(dir).written(n))
        }
    }

    /// A report of a shutdown is taken.
    pub open spec fn accepts_shutdown(self, dir: Direction) -> bool {
        !self.finished() && self.pipe(dir).wants_shutdown()
    }

    /// The tunnel after the report that the sink of `dir` was shut down.
    pub open spec fn on_shutdown(self, dir: Direction) -> RelayView {
        if self.accepts_shutdown(dir) {
            self.with_pipe(dir, self.pipe(dir).shut())
        } else {
            self
        }
    }

    /// This tunnel, ended by a failure.
    pub open spec fn failed(self, dir: Direction, operation: Operation, cause: IoCause) -> RelayView {
        RelayView { failure: Some(RelayError { direction: dir, operation, cause }), ..self }
    }

    /// The tunnel after the report of a failure on `dir`.
    pub open spec fn on_error(self, dir: Direction, operation: Operation, cause: IoCause) -> RelayView {
        if self.finished() {
            self
        } else {
            self.failed(dir, operation, cause)
        }
    }

    /// The report of the tunnel: none while it runs.
    pub open spec fn result(self) -> Option<TunnelResult> {
        if self.finished() {
            Some(
                TunnelResult {
                    from_client: count(self.upstream.delivered.len()),
                    from_server: count(self.downstream.delivered.len()),
                    status: match self.failure {
                        Some(e) => TunnelStatus::Failed(e),
                        None => TunnelStatus::Success,
                    },
                },
            )
        } else {
            None
        }
    }
}

/// A tunnel starts well formed.
pub proof fn lemma_fresh_is_well_formed()
    ensures
        RelayView::fresh().wf(),
{
    let fresh = PipeView::fresh();
    assert(fresh.received.take(0) =~= fresh.delivered);
}

/// Every report leaves a well-formed tunnel well formed, whether it is taken
/// or refused.
pub proof fn lemma_reports_keep_well_formed(
    r: RelayView,
    dir: Direction,
    data: Seq<u8>,
    n: nat,
    operation: Operation,
    cause: IoCause,
)
    requires
        r.wf(),
    ensures
        r.on_read(dir, data).wf(),
        r.on_written(dir, n).wf(),
        r.on_shutdown(dir).wf(),
        r.on_error(dir, operation, cause).wf(),
{
    let p = r.pipe(dir);
    if r.accepts_read(dir, data) && data.len() > 0 {
        let q = p.read(data);
        assert(q.pending() =~= p.pending() + data);
        assert(q.received.take(q.delivered.len() as int) =~= p.received.take(
            p.delivered.len() as int,
        ));
    }
    if r.accepts_written(dir, n) && n > 0 {
        let q = p.written(n);
        assert(q.pending() =~= p.pending().skip(n as int));
        assert(q.received.take(q.delivered.len() as int) =~= q.delivered);
    }
}

/// Bytes arrive as they were sent. In each direction the sink has accepted a
/// prefix of what the source gave, byte for byte and in order, and what is
/// pending is the rest. A tunnel that ended in success has delivered, in
/// both directions, everything that was read.
pub proof fn lemma_bytes_arrive_in_order(r: RelayView, dir: Direction)
    requires
        r.wf(),
    ensures
        r.pipe(dir).delivered + r.pipe(dir).pending() == r.pipe(dir).received,
        r.pipe(dir).delivered.is_prefix_of(r.pipe(dir).received),
        r.finished() && r.failure is None ==> r.pipe(dir).delivered == r.pipe(dir).received,
{
    let p = r.pipe(dir);
    assert(p.delivered + p.pending() =~= p.received);
    if p.pending().len() == 0 {
        assert(p.delivered =~= p.received);
    }
}

/// A report on one direction leaves the other direction as it was.
pub proof fn lemma_directions_do_not_mix(
    r: RelayView,
    dir: Direction,
    data: Seq<u8>,
    n: nat,
    operation: Operation,
    cause: IoCause,
)
    ensures
        r.on_read(dir, data).pipe(dir.reverse()) == r.pipe(dir.reverse()),
        r.on_written(dir, n).pipe(dir.reverse()) == r.pipe(dir.reverse()),
        r.on_shutdown(dir).pipe(dir.reverse()) == r.pipe(dir.reverse()),
        r.on_error(dir, operation, cause).pipe(dir.reverse()) == r.pipe(dir.reverse()),
{
}

/// Half-close. When the source of one direction ends, the bytes it gave are
/// still owed to the sink, and the sink is shut down only once none is left.
/// The tunnel goes on, and the other direction wants what it wanted before.
pub proof fn lemma_half_close(r: RelayView, dir: Direction)
    requires
        r.wf(),
        r.accepts_read(dir, Seq::empty()),
    ensures
        ({
            let h = r.on_read(dir, Seq::empty());
            &&& !h.finished()
            &&& !h.pipe(dir).source_open
            &&& h.pipe(dir).received == r.pipe(dir).received
            &&& h.pipe(dir).pending() == r.pipe(dir).pending()
            &&& h.demand(dir).read == 0
            &&& h.demand(dir).write == r.pipe(dir).pending().len()
            &&& h.demand(dir).shutdown <==> r.pipe(dir).pending().len() == 0
            &&& h.pipe(dir.reverse()) == r.pipe(dir.reverse())
            &&& h.demand(dir.reverse()) == r.demand(dir.reverse())
        }),
{
}

/// A sink is offered the end of its input only after every byte that its
/// source gave, and a direction is complete only then.
pub proof fn lemma_shutdown_follows_delivery(r: RelayView, dir: Direction)
    requires
        r.wf(),
        r.demand(dir).shutdown || r.pipe(dir).done(),
    ensures
        !r.pipe(dir).source_open,
        r.pipe(dir).delivered == r.pipe(dir).received,
{
    lemma_bytes_arrive_in_order(r, dir);
    let p = r.pipe(dir);
    assert(p.delivered =~= p.received);
}

/// A failure ends the whole tunnel. The report names it and holds the bytes
/// that each sink had accepted until then; nothing more is wanted on either
/// direction.
pub proof fn lemma_failure_reports_partial_counts(
    r: RelayView,
    dir: Direction,
    operation: Operation,
    cause: IoCause,
    other: Direction,
)
    requires
        !r.finished(),
    ensures
        r.on_error(dir, operation, cause).result() == Some(
            TunnelResult {
                from_client: count(r.upstream.delivered.len()),
                from_server: count(r.downstream.delivered.len()),
                status: TunnelStatus::Failed(RelayError { direction: dir, operation, cause }),
            },
        ),
        r.on_error(dir, operation, cause).demand(other) == (Demand {
            read: 0,
            write: 0,
            shutdown: false,
        }),
{
}

/// Nothing changes a tunnel that has ended: every later report is refused.
pub proof fn lemma_finished_is_final(
    r: RelayView,
    dir: Direction,
    data: Seq<u8>,
    n: nat,
    operation: Operation,
    cause: IoCause,
)
    requires
        r.finished(),
    ensures
        r.on_read(dir, data) == r,
        r.on_written(dir, n) == r,
        r.on_shutdown(dir) == r,
        r.on_error(dir, operation, cause) == r,
{
}

/// While a tunnel runs and is well formed, something is wanted on each
/// direction that is not complete: the relay never stalls by itself.
pub proof fn lemma_running_wants_work(r: RelayView, dir: Direction)
    requires
        r.wf(),
        !r.finished(),
        !r.pipe(dir).done(),
    ensures
        r.demand(dir).read > 0 || r.demand(dir).write > 0 || r.demand(dir).shutdown,
{
}

/// What a driver may report of a step on the sockets.
pub enum IoReport {
    /// A read on a direction brought these bytes; none stand for the end.
    Read(Direction, Seq<u8>),
    /// The sink of a direction accepted this many of the pending bytes.
    Written(Direction, nat),
    /// The write side of the sink of a direction was shut down.
    ShutDown(Direction),
    /// An operation failed on a direction.
    Failed(Direction, Operation, IoCause),
}

/// A report, and which of two tunnels it is about.
pub struct Tagged {
    pub first: bool,
    pub report: IoReport,
}

impl RelayView {
    /// The tunnel after one report.
    pub open spec fn apply(self, report: IoReport) -> RelayView {
        match report {
            IoReport::Read(dir, data) => self.on_read(dir, data),
            IoReport::Written(dir, n) => self.on_written(dir, n),
            IoReport::ShutDown(dir) => self.on_shutdown(dir),
            IoReport::Failed(dir, operation, cause) => self.on_error(dir, operation, cause),
        }
    }

    /// The tunnel after a sequence of reports, taken in order.
    pub open spec fn replay(self, reports: Seq<IoReport>) -> RelayView
        decreases reports.len(),
    {
        if reports.len() == 0 {
            self
        } else {
            self.replay(reports.drop_last()).apply(reports.last())
        }
    }
}

/// The reports among `reports` that are about one of two tunnels, in order.
pub open spec fn own(reports: Seq<Tagged>, first: bool) -> Seq<IoReport>
    decreases reports.len(),
{
    if reports.len() == 0 {
        Seq::empty()
    } else if reports.last().first == first {
        own(reports.drop_last(), first).push(reports.last().report)
    } else {
        own(reports.drop_last(), first)
    }
}

/// Two tunnels after a sequence of reports, each report about one of them.
pub open spec fn replay_both(a: RelayView, b: RelayView, reports: Seq<Tagged>) -> (
    RelayView,
    RelayView,
)
    decreases reports.len(),
{
    if reports.len() == 0 {
        (a, b)
    } else {
        let (x, y) = replay_both(a, b, reports.drop_last());
        if reports.last().first {
            (x.apply(reports.last().report), y)
        } else {
            (x, y.apply(reports.last().report))
        }
    }
}

/// Whatever is reported of a tunnel, and in whatever order, it stays well
/// formed: what the laws of this module state of a well-formed tunnel holds
/// in every state that a tunnel can reach.
pub proof fn lemma_every_state_is_well_formed(reports: Seq<IoReport>)
    ensures
        RelayView::fresh().replay(reports).wf(),
    decreases reports.len(),
{
    let none = Seq::<u8>::empty();
    if reports.len() == 0 {
        lemma_fresh_is_well_formed();
    } else {
        lemma_every_state_is_well_formed(reports.drop_last());
        let r = RelayView::fresh().replay(reports.drop_last());
        match reports.last() {
            IoReport::Read(dir, data) => {
                lemma_reports_keep_well_formed(r, dir, data, 0, Operation::Read, IoCause::Other);
            },
            IoReport::Written(dir, n) => {
                lemma_reports_keep_well_formed(r, dir, none, n, Operation::Read, IoCause::Other);
            },
            IoReport::ShutDown(dir) => {
                lemma_reports_keep_well_formed(r, dir, none, 0, Operation::Read, IoCause::Other);
            },
            IoReport::Failed(dir, operation, cause) => {
                lemma_reports_keep_well_formed(r, dir, none, 0, operation, cause);
            },
        }
    }
}

/// Tunnels do not touch each other. However the reports about two tunnels
/// are interleaved, each tunnel ends where its own reports alone lead it:
/// it holds, delivers and counts only bytes of its own streams.
pub proof fn lemma_tunnels_are_independent(a: RelayView, b: RelayView, reports: Seq<Tagged>)
    ensures
        replay_both(a, b, reports) == (
            a.replay(own(reports, true)),
            b.replay(own(reports, false)),
        ),
    decreases reports.len(),
{
    if reports.len() > 0 {
        let front = reports.drop_last();
        let last = reports.last();
        lemma_tunnels_are_independent(a, b, front);
        if last.first {
            assert(own(reports, true).drop_last() =~= own(front, true));
        } else {
            assert(own(reports, false).drop_last() =~= own(front, false));
        }
    }
}

/// One direction of a running tunnel.
struct Pipe {
    buffer: Vec<u8>,
    source_open: bool,
    sink_open: bool,
    relayed: u64,
    received: Ghost<Seq<u8>>,
    delivered: Ghost<Seq<u8>>,
}

impl Pipe {
    spec fn model(&self) -> PipeView {
        PipeView {
            received: self.received@,
            delivered: self.delivered@,
            source_open: self.source_open,
            sink_open: self.sink_open,
        }
    }

    spec fn wf(&self) -> bool {
        &&& self.model().wf()
        &&& self.buffer@ == self.model().pending()
        &&& self.relayed == count(self.delivered@.len())
    }

    fn new() -> (p: Pipe)
        ensures
            p.wf(),
            p.model() == PipeView::fresh(),
    {
        let p = Pipe {
            buffer: Vec::new(),
            source_open: true,
            sink_open: true,
            relayed: 0,
            received: Ghost(Seq::empty()),
            delivered: Ghost(Seq::empty()),
        };
        assert(p.model().pending() =~= Seq::<u8>::empty());
        assert(p.model().received.take(0) =~= p.model().delivered);
        p
    }

    fn room(&self) -> (r: usize)
        requires
            self.wf(),
        ensures
            r == self.model().room(),
    {
        if self.source_open {
            BUFFER_CAPACITY - self.buffer.len()
        } else {
            0
        }
    }

    fn read(&mut self, data: &[u8])
        requires
            old(self).wf(),
            old(self).model().can_read(data@),
        ensures
            final(self).wf(),
            final(self).model() == old(self).model().read(data@),
    {
        let n: usize = data.len();
        if n == 0 {
            self.source_open = false;
            return ;
        }
        let ghost before = self.model();
        let mut i: usize = 0;
        while i < n
            invariant
                i <= n == data@.len(),
                self.buffer@ == before.pending() + data@.take(i as int),
                self.source_open == before.source_open,
                self.sink_open == before.sink_open,
                self.relayed == count(before.delivered.len()),
                self.received@ == before.received,
                self.delivered@ == before.delivered,
            decreases n - i,
        {
            self.buffer.push(data[i]);
            assert(data@.take(i + 1) =~= data@.take(i as int).push(data@[i as int]));
            assert(self.buffer@ =~= before.pending() + data@.take(i + 1));
            i += 1;
        }
        proof {
            assert(data@.take(n as int) =~= data@);
            self.received@ = before.received + data@;
            let after = self.model();
            assert(after.pending() =~= before.pending() + data@);
            assert(after.received.take(after.delivered.len() as int) =~= before.received.take(
                before.delivered.len() as int,
            ));
        }
    }

    fn written(&mut self, n: usize)
        requires
            old(self).wf(),
            old(self).model().can_write(n as nat),
        ensures
            final(self).wf(),
            final(self).model() == old(self).model().written(n as nat),
    {
        let ghost before = self.model();
        let rest = self.buffer.split_off(n);
        self.buffer = rest;
        let step: u64 = n as u64;
        self.relayed = if step > u64::MAX - self.relayed {
            u64::MAX
        } else {
            self.relayed + step
        };
        proof {
            self.delivered@ = before.delivered + before.pending().take(n as int);
            let after = self.model();
            assert(after.pending() =~= before.pending().skip(n as int));
            assert(after.received.take(after.delivered.len() as int) =~= after.delivered);
        }
    }

    fn shut(&mut self)
        requires
            old(self).wf(),
            old(self).model().wants_shutdown(),
        ensures
            final(self).wf(),
            final(self).model() == old(self).model().shut(),
    {
        self.sink_open = false;
    }
}

/// The relay of one tunnel. Its view holds both directions with the history
/// of their bytes.
pub struct Relay {
    upstream: Pipe,
    downstream: Pipe,
    failure: Option<RelayError>,
}

impl View for Relay {
    type V = RelayView;

    closed spec fn view(&self) -> RelayView {
        RelayView {
            upstream: self.upstream.model(),
            downstream: self.downstream.model(),
            failure: self.failure,
        }
    }
}

impl Relay {
    #[verifier::type_invariant]
    spec fn inv(&self) -> bool {
        self.upstream.wf() && self.downstream.wf()
    }

    /// A relay for two streams that were just opened.
    pub fn new() -> (r: Relay)
        ensures
            r@ == RelayView::fresh(),
            r@.wf(),
    {
        Relay { upstream: Pipe::new(), downstream: Pipe::new(), failure: None }
    }

    /// Takes the pipe of `dir` out of the relay and leaves an unused one in
    /// its place, so that it can be worked on by itself.
    fn detach(&mut self, dir: Direction) -> (pipe: Pipe)
        ensures
            pipe.wf(),
            pipe.model() == old(self)@.pipe(dir),
            final(self)@.pipe(dir.reverse()) == old(self)@.pipe(dir.reverse()),
            final(self)@.failure == old(self)@.failure,
    {
        proof {
            use_type_invariant(&*self);
        }
        let mut pipe = Pipe::new();
        match dir {
            Direction::Upstream => core::mem::swap(&mut pipe, &mut self.upstream),
            Direction::Downstream => core::mem::swap(&mut pipe, &mut self.downstream),
        }
        pipe
    }

    /// Puts a pipe back in the place of `dir`.
    fn attach(&mut self, dir: Direction, pipe: Pipe)
        requires
            pipe.wf(),
        ensures
            final(self)@ == old(self)@.with_pipe(dir, pipe.model()),
            final(self)@.wf(),
    {
        proof {
            use_type_invariant(&*self);
        }
        match dir {
            Direction::Upstream => {
                self.upstream = pipe;
            },
            Direction::Downstream => {
                self.downstream = pipe;
            },
        }
    }

    /// Whether the tunnel has ended.
    pub fn is_finished(&self) -> (r: bool)
        ensures
            r == self@.finished(),
            self@.wf(),
    {
        proof {
            use_type_invariant(self);
        }
        self.failure.is_some() || (!self.upstream.sink_open && !self.downstream.sink_open)
    }

    /// What the relay wants done on `dir` now.
    pub fn demand(&self, dir: Direction) -> (r: Demand)
        ensures
            r == self@.demand(dir),
            self@.wf(),
    {
        proof {
            use_type_invariant(self);
        }
        if self.is_finished() {
            return Demand { read: 0, write: 0, shutdown: false };
        }
        let pipe = match dir {
            Direction::Upstream => &self.upstream,
            Direction::Downstream => &self.downstream,
        };
        Demand {
            read: pipe.room(),
            write: pipe.buffer.len(),
            shutdown: !pipe.source_open && pipe.sink_open && pipe.buffer.len() == 0,
        }
    }

    /// The bytes read on `dir` that its sink has not accepted yet, oldest first.
    pub fn pending(&self, dir: Direction) -> (r: &[u8])
        ensures
            r@ == self@.pipe(dir).pending(),
            self@.wf(),
    {
        proof {
            use_type_invariant(self);
        }
        match dir {
            Direction::Upstream => self.upstream.buffer.as_slice(),
            Direction::Downstream => self.downstream.buffer.as_slice(),
        }
    }

    /// Takes the report of a read on `dir` that brought `data`; no bytes
    /// stand for the end of the source. A report that does not fit the state
    /// is refused and changes nothing.
    pub fn on_read(&mut self, dir: Direction, data: &[u8]) -> (accepted: bool)
        ensures
            accepted == old(self)@.accepts_read(dir, data@),
            final(self)@ == old(self)@.on_read(dir, data@),
            final(self)@.wf(),
    {
        proof {
            use_type_invariant(&*self);
        }
        let room: usize = self.demand(dir).read;
        if room == 0 || data.len() > room {
            return false;
        }
        let ghost before = self@;
        let mut pipe = self.detach(dir);
        pipe.read(data);
        self.attach(dir, pipe);
        assert(self@ == before.with_pipe(dir, before.pipe(dir).read(data@)));
        true
    }

    /// Takes the report that the sink of `dir` accepted the first `n` pending
    /// bytes. A sink that accepted none has failed, which ends the tunnel.
    pub fn on_written(&mut self, dir: Direction, n: usize) -> (accepted: bool)
        ensures
            accepted == old(self)@.accepts_written(dir, n as nat),
            final(self)@ == old(self)@.on_written(dir, n as nat),
            final(self)@.wf(),
    {
        proof {
            use_type_invariant(&*self);
        }
        if self.is_finished() {
            return false;
        }
        let held: usize = match dir {
            Direction::Upstream => self.upstream.buffer.len(),
            Direction::Downstream => self.downstream.buffer.len(),
        };
        if held == 0 || n > held {
            return false;
        }
        if n == 0 {
            self.failure = Some(
                RelayError { direction: dir, operation: Operation::Write, cause: IoCause::WriteZero },
            );
            return true;
        }
        let ghost before = self@;
        let mut pipe = self.detach(dir);
        pipe.written(n);
        self.attach(dir, pipe);
        assert(self@ == before.with_pipe(dir, before.pipe(dir).written(n as nat)));
        true
    }

    /// Takes the report that the write side of the sink of `dir` was shut down.
    pub fn on_shutdown(&mut self, dir: Direction) -> (accepted: bool)
        ensures
            accepted == old(self)@.accepts_shutdown(dir),
            final(self)@ == old(self)@.on_shutdown(dir),
            final(self)@.wf(),
    {
        proof {
            use_type_invariant(&*self);
        }
        if !self.demand(dir).shutdown {
            return false;
        }
        let ghost before = self@;
        let mut pipe = self.detach(dir);
        pipe.shut();
        self.attach(dir, pipe);
        assert(self@ == before.with_pipe(dir, before.pipe(dir).shut()));
        true
    }

    /// Takes the report that `operation` failed on `dir`. The first failure
    /// ends the tunnel; nothing is taken after its end.
    pub fn on_error(
        &mut self,
        dir: Direction,
        operation: Operation,
        cause: IoCause,
    ) -> (accepted: bool)
        ensures
            accepted == !old(self)@.finished(),
            final(self)@ == old(self)@.on_error(dir, operation, cause),
            final(self)@.wf(),
    {
        proof {
            use_type_invariant(&*self);
        }
        if self.is_finished() {
            return false;
        }
        self.failure = Some(RelayError { direction: dir, operation, cause });
        true
    }

    /// The report of the tunnel, once it has ended.
    pub fn outcome(&self) -> (r: Option<TunnelResult>)
        ensures
            r == self@.result(),
            self@.wf(),
    {
        proof {
            use_type_invariant(self);
        }
        if !self.is_finished() {
            return None;
        }
        let status = match self.failure {
            Some(e) => TunnelStatus::Failed(e),
            None => TunnelStatus::Success,
        };
        Some(
            TunnelResult {
                from_client: self.upstream.relayed,
                from_server: self.downstream.relayed,
                status,
            },
        )
    }
}

} // verus!
