//! The subscription session state machine and event dispatch.
//!
//! A live session is driven by a read loop: at the top of each iteration it
//! observes the shared cancellation flag, then handles the next stream
//! event. The decision logic lives here as a state machine: what the next
//! state is and whether the update is delivered to dispatch. The loop
//! itself, the transport, and the shared atomic flag live with the caller;
//! any clone of a session handle may set the flag, and the loop observes
//! whatever value the flag has at each iteration boundary.

use vstd::prelude::*;

verus! {

/// The lifecycle state of a subscription session. `Stopped` is terminal.
#[derive(Clone, Copy, Debug, PartialEq, Eq, Structural)]
pub enum SessionState {
    /// No connection yet.
    Idle,
    /// The transport channel is established.
    Connected,
    /// The subscription request was sent and a stream handle obtained.
    Subscribed,
    /// The read loop is consuming updates.
    Streaming,
    /// The session has terminated.
    Stopped,
}

/// The kind of a raw update received from the transport.
#[derive(Clone, Copy, Debug, PartialEq, Eq, Structural)]
pub enum UpdateKind {
    /// An account change.
    Account,
    /// A transaction.
    Transaction,
    /// A full block.
    Block,
    /// Block metadata only.
    BlockMeta,
}

/// A raw update as delivered by the transport: an opaque payload tagged
/// with its kind, carrying a slot number, a commitment indicator, and the
/// subject accounts the payload touches.
#[derive(Clone, Debug, PartialEq)]
pub struct RawUpdate {
    /// Which wire-level category the update belongs to.
    pub kind: UpdateKind,
    /// The slot the update belongs to.
    pub slot: u64,
    /// The commitment indicator carried by the update, as its wire code.
    pub commitment: Option<i32>,
    /// The accounts the update's payload touches; protocol matching runs
    /// over these.
    pub accounts: Vec<String>,
    /// The update's transaction index within its slot, when it has one.
    pub transaction_index: Option<u64>,
}

/// Mathematical model of a [`RawUpdate`].
#[verifier::ext_equal]
pub ghost struct RawUpdateV {
    pub kind: UpdateKind,
    pub slot: u64,
    pub commitment: Option<i32>,
    pub accounts: Seq<Seq<char>>,
    pub transaction_index: Option<u64>,
}

impl View for RawUpdate {
    type V = RawUpdateV;

    open spec fn view(&self) -> RawUpdateV {
        RawUpdateV {
            kind: self.kind,
            slot: self.slot,
            commitment: self.commitment,
            accounts: self.accounts.deep_view(),
            transaction_index: self.transaction_index,
        }
    }
}

impl DeepView for RawUpdate {
    type V = RawUpdateV;

    open spec fn deep_view(&self) -> RawUpdateV {
        self.view()
    }
}

/// One external protocol decoder, identified by the program it monitors.
#[derive(Clone, Debug, PartialEq)]
pub struct Protocol {
    /// The stable identifier of the monitored program.
    pub program_id: String,
}

impl View for Protocol {
    type V = Seq<char>;

    open spec fn view(&self) -> Seq<char> {
        self.program_id@
    }
}

impl DeepView for Protocol {
    type V = Seq<char>;

    open spec fn deep_view(&self) -> Seq<char> {
        self.program_id@
    }
}

/// The metadata record every decoded event envelope carries.
#[derive(Clone, Copy, Debug, PartialEq)]
pub struct Metadata {
    /// The event's category.
    pub category: UpdateKind,
    /// The transaction index of the underlying update, when it has one.
    pub transaction_index: Option<u64>,
    /// The slot of the underlying update.
    pub slot: u64,
    /// The index, into the active protocol list, of the decoder the event
    /// is routed to; `None` for metadata-only block events.
    pub protocol_index: Option<usize>,
}

/// Whether the active protocol at index `i` matches the update's subject
/// accounts: its program id occurs among them.
pub open spec fn spec_matching(accounts: Seq<Seq<char>>, protocols: Seq<Seq<char>>, i: int) -> bool {
    0 <= i < protocols.len() && accounts.contains(protocols[i])
}

/// Whether `v` holds a string equal to `s`.
fn contains_str(v: &Vec<String>, s: &String) -> (r: bool)
    ensures
        r == v.deep_view().contains(s@),
{
    let mut i: usize = 0;
    while i < v.len()
        invariant
            i <= v.len(),
            forall|j: int| 0 <= j < i ==> v.deep_view()[j] != s@,
        decreases v.len() - i,
    {
        if v[i].eq(s) {
            proof {
                assert(v.deep_view()[i as int] == s@);
            }
            return true;
        }
        proof {
            assert(v.deep_view()[i as int] == v@[i as int]@);
        }
        i = i + 1;
    }
    proof {
        assert(forall|j: int| 0 <= j < v.deep_view().len() ==> v.deep_view()[j] != s@);
    }
    false
}

/// The indices of the active protocols whose program identifier occurs
/// among the update's subject accounts, in increasing order. An update
/// matching no protocol yields an empty list and is dropped silently by
/// dispatch.
pub fn matching_protocols(update: &RawUpdate, protocols: &Vec<Protocol>) -> (r: Vec<usize>)
    ensures
        forall|k: int|
            0 <= k < r@.len() ==> spec_matching(update@.accounts, protocols.deep_view(), r@[k] as int),
        forall|k1: int, k2: int| 0 <= k1 < k2 < r@.len() ==> r@[k1] < r@[k2],
        forall|i: int|
            spec_matching(update@.accounts, protocols.deep_view(), i) ==> r@.contains(i as usize),
{
    let mut r: Vec<usize> = Vec::new();
    let mut i: usize = 0;
    while i < protocols.len()
        invariant
            i <= protocols.len(),
            forall|k: int|
                0 <= k < r@.len() ==> spec_matching(
                    update@.accounts,
                    protocols.deep_view(),
                    r@[k] as int,
                ) && r@[k] < i,
            forall|k1: int, k2: int| 0 <= k1 < k2 < r@.len() ==> r@[k1] < r@[k2],
            forall|j: int|
                0 <= j < i && spec_matching(update@.accounts, protocols.deep_view(), j)
                    ==> r@.contains(j as usize),
        decreases protocols.len() - i,
    {
        let p = &protocols[i];
        proof {
            assert(protocols.deep_view()[i as int] == p.program_id@);
        }
        if contains_str(&update.accounts, &p.program_id) {
            let ghost prev = r@;
            r.push(i);
            proof {
                assert forall|j: int|
                    0 <= j <= i && spec_matching(update@.accounts, protocols.deep_view(), j)
                        implies r@.contains(j as usize) by {
                    if j < i {
                        assert(prev.contains(j as usize));
                        let k = choose|k: int| 0 <= k < prev.len() && prev[k] == j as usize;
                        assert(r@[k] == j as usize);
                    } else {
                        assert(r@[r@.len() - 1] == i);
                    }
                }
            }
        }
        i = i + 1;
    }
    r
}

/// The metadata-only event envelope surfaced for a block or block-metadata
/// update; such updates bypass protocol matching.
pub fn block_event_metadata(update: &RawUpdate) -> (r: Metadata)
    requires
        update.kind == UpdateKind::Block || update.kind == UpdateKind::BlockMeta,
    ensures
        r == (Metadata {
            category: update.kind,
            transaction_index: update.transaction_index,
            slot: update.slot,
            protocol_index: None,
        }),
{
    Metadata {
        category: update.kind,
        transaction_index: update.transaction_index,
        slot: update.slot,
        protocol_index: None,
    }
}

/// One event read from the duplex stream by the read loop.
#[derive(Clone, Debug, PartialEq)]
pub enum StreamEvent {
    /// The next raw update.
    Update(RawUpdate),
    /// A terminal transport error.
    Failure,
    /// The remote closed the stream.
    Closed,
}

/// What one iteration of the read loop decided.
#[derive(Clone, Copy, Debug, PartialEq, Eq, Structural)]
pub enum LoopOutcome {
    /// Deliver the update to dispatch and continue streaming.
    Deliver,
    /// Report the transport error once, out of band, and terminate.
    ReportError,
    /// Terminate without reporting: the stop flag was observed set, or the
    /// remote closed the stream.
    Exited,
}

/// The mutable core of a session handle: its lifecycle state and the
/// cancellation flag as last observed. The caller shares the flag across
/// clones (one atomically-observable cell reachable from every clone);
/// this core holds the observed value and makes every decision.
#[derive(Clone, Copy, Debug, PartialEq, Eq, Structural)]
pub struct SessionCore {
    /// The lifecycle state.
    pub state: SessionState,
    /// Whether a stop request has been observed.
    pub cancelled: bool,
}

/// The model of a stop request: it sets the cancellation flag and touches
/// nothing else. Applying it twice equals applying it once.
pub open spec fn spec_stop(s: SessionCore) -> SessionCore {
    SessionCore { state: s.state, cancelled: true }
}

/// The model of one read-loop iteration from the `Streaming` state:
/// observing the flag set terminates without delivery; otherwise an update
/// is delivered and streaming continues, a transport error terminates with
/// a single out-of-band report, and a closed stream terminates silently.
pub open spec fn spec_step(s: SessionCore, flag: bool, event: StreamEvent) -> (SessionCore, LoopOutcome) {
    if s.cancelled || flag {
        (SessionCore { state: SessionState::Stopped, cancelled: true }, LoopOutcome::Exited)
    } else {
        match event {
            StreamEvent::Update(_) => (s, LoopOutcome::Deliver),
            StreamEvent::Failure => (
                SessionCore { state: SessionState::Stopped, cancelled: s.cancelled },
                LoopOutcome::ReportError,
            ),
            StreamEvent::Closed => (
                SessionCore { state: SessionState::Stopped, cancelled: s.cancelled },
                LoopOutcome::Exited,
            ),
        }
    }
}

impl SessionCore {
    /// A fresh session core: idle, not cancelled.
    pub fn new() -> (r: Self)
        ensures
            r.state == SessionState::Idle,
            !r.cancelled,
    {
        SessionCore { state: SessionState::Idle, cancelled: false }
    }

    /// Record that the transport channel was established.
    pub fn on_connected(&mut self)
        requires
            old(self).state == SessionState::Idle,
        ensures
            final(self).state == SessionState::Connected,
            final(self).cancelled == old(self).cancelled,
    {
        self.state = SessionState::Connected;
    }

    /// Record that the subscription request was acknowledged with a stream
    /// handle.
    pub fn on_subscribed(&mut self)
        requires
            old(self).state == SessionState::Connected,
        ensures
            final(self).state == SessionState::Subscribed,
            final(self).cancelled == old(self).cancelled,
    {
        self.state = SessionState::Subscribed;
    }

    /// Record that the read loop started consuming updates.
    pub fn on_streaming(&mut self)
        requires
            old(self).state == SessionState::Subscribed,
        ensures
            final(self).state == SessionState::Streaming,
            final(self).cancelled == old(self).cancelled,
    {
        self.state = SessionState::Streaming;
    }

    /// Request termination. Idempotent: calling it again, in any state,
    /// leaves the core exactly as one call left it, and it never fails.
    pub fn stop(&mut self)
        ensures
            *final(self) == spec_stop(*old(self)),
    {
        self.cancelled = true;
    }

    /// One iteration of the read loop: observe the shared cancellation
    /// flag (its value is `flag`), then handle the next stream event.
    pub fn step(&mut self, flag: bool, event: &StreamEvent) -> (r: LoopOutcome)
        requires
            old(self).state == SessionState::Streaming,
        ensures
            (*final(self), r) == spec_step(*old(self), flag, *event),
    {
        if self.cancelled || flag {
            self.cancelled = true;
            self.state = SessionState::Stopped;
            return LoopOutcome::Exited;
        }
        match event {
            StreamEvent::Update(_) => LoopOutcome::Deliver,
            StreamEvent::Failure => {
                self.state = SessionState::Stopped;
                LoopOutcome::ReportError
            },
            StreamEvent::Closed => {
                self.state = SessionState::Stopped;
                LoopOutcome::Exited
            },
        }
    }
}

impl SessionCore {
    /// Drive the read loop over a recorded sequence of iterations: element
    /// `i` holds the cancellation-flag value observed at the top of
    /// iteration `i` and the stream event read there. Returns the
    /// outcomes, one per iteration the loop ran; the run ends when the
    /// session leaves the `Streaming` state.
    pub fn run(&mut self, steps: &Vec<(bool, StreamEvent)>) -> (r: Vec<LoopOutcome>)
        ensures
            r@ == spec_outcomes(*old(self), steps@),
    {
        let ghost start = *self;
        let mut r: Vec<LoopOutcome> = Vec::new();
        let mut i: usize = 0;
        proof {
            assert(steps@.skip(0) =~= steps@);
            assert(Seq::<LoopOutcome>::empty() + spec_outcomes(start, steps@) =~= spec_outcomes(
                start,
                steps@,
            ));
        }
        while i < steps.len() && self.state == SessionState::Streaming
            invariant
                i <= steps.len(),
                spec_outcomes(start, steps@) == r@ + spec_outcomes(*self, steps@.skip(i as int)),
            decreases steps.len() - i,
        {
            let ghost pre = *self;
            let ghost rest = steps@.skip(i as int);
            let pair = &steps[i];
            let outcome = self.step(pair.0, &pair.1);
            let ghost r_before = r@;
            r.push(outcome);
            proof {
                assert(rest[0] == steps@[i as int]);
                assert(rest.drop_first() =~= steps@.skip(i as int + 1));
                assert(spec_outcomes(pre, rest) == seq![outcome] + spec_outcomes(
                    *self,
                    steps@.skip(i as int + 1),
                ));
                assert(r@ + spec_outcomes(*self, steps@.skip(i as int + 1)) =~= r_before + (
                seq![outcome] + spec_outcomes(*self, steps@.skip(i as int + 1))));
            }
            i = i + 1;
        }
        proof {
            assert(spec_outcomes(*self, steps@.skip(i as int)) =~= Seq::<LoopOutcome>::empty());
            assert(r@ + Seq::<LoopOutcome>::empty() =~= r@);
        }
        r
    }
}

/// The outcomes of a whole run of the read loop: iteration `i` observes
/// `steps[i].0` as the cancellation flag and reads `steps[i].1` from the
/// stream; the run ends when the session leaves the `Streaming` state.
pub open spec fn spec_outcomes(s: SessionCore, steps: Seq<(bool, StreamEvent)>) -> Seq<LoopOutcome>
    decreases steps.len(),
{
    if steps.len() == 0 || s.state != SessionState::Streaming {
        Seq::empty()
    } else {
        let next = spec_step(s, steps[0].0, steps[0].1);
        seq![next.1] + spec_outcomes(next.0, steps.drop_first())
    }
}

/// Law: stop is idempotent. Two stop requests, from one handle or from
/// two clones sharing the flag, leave the session exactly as one does,
/// and both observe the flag set.
pub proof fn lemma_stop_idempotent(s: SessionCore)
    ensures
        spec_stop(spec_stop(s)) == spec_stop(s),
        spec_stop(s).cancelled,
{
}

/// Law: once an iteration observes the cancellation flag set, the loop
/// exits at that iteration without delivering, so no update arriving
/// strictly after the observation reaches the handler.
pub proof fn lemma_no_delivery_after_stop(
    s: SessionCore,
    steps: Seq<(bool, StreamEvent)>,
    k: int,
)
    requires
        0 <= k < steps.len(),
        0 <= k < spec_outcomes(s, steps).len(),
        steps[k].0,
    ensures
        spec_outcomes(s, steps)[k] != LoopOutcome::Deliver,
        spec_outcomes(s, steps).len() <= k + 1,
    decreases k,
{
    assert(steps.len() > 0 && s.state == SessionState::Streaming);
    let next = spec_step(s, steps[0].0, steps[0].1);
    let rest = spec_outcomes(next.0, steps.drop_first());
    assert(spec_outcomes(s, steps) == seq![next.1] + rest);
    if k == 0 {
        assert(rest =~= Seq::<LoopOutcome>::empty());
    } else {
        assert(steps.drop_first()[k - 1] == steps[k]);
        lemma_no_delivery_after_stop(next.0, steps.drop_first(), k - 1);
        assert(spec_outcomes(s, steps)[k] == rest[k - 1]);
    }
}

/// Law: a session whose cancellation flag is already observed set
/// delivers nothing at all: the loop exits at its first iteration.
pub proof fn lemma_stopped_session_delivers_nothing(s: SessionCore, steps: Seq<(bool, StreamEvent)>)
    requires
        s.cancelled,
    ensures
        spec_outcomes(s, steps).len() <= 1,
        forall|j: int|
            0 <= j < spec_outcomes(s, steps).len() ==> spec_outcomes(s, steps)[j]
                != LoopOutcome::Deliver,
{
    if steps.len() > 0 && s.state == SessionState::Streaming {
        let next = spec_step(s, steps[0].0, steps[0].1);
        assert(spec_outcomes(next.0, steps.drop_first()) =~= Seq::<LoopOutcome>::empty());
    }
}

} // verus!
