//! The persistence consumer as a state machine. The driver receives from the
//! pipeline, hands each event here, and performs the action that comes back.
//! A failed write is fatal to the consumer loop: it stops, naming the record.
use crate::persist::{plan_of, plan_write, record_fits, PacketRecord, PlanView, RecordView, WritePlan};
use vstd::prelude::*;

verus! {

#[derive(Clone, Copy, Debug, PartialEq, Eq, Structural)]
pub enum ConsumerPhase {
    /// Waiting for the next record from the pipeline.
    Receiving,
    /// The write of the last record received is under way.
    Writing,
    /// The pipeline reported end-of-stream.
    Done,
    /// A write failed; nothing more is consumed.
    Failed,
}

pub enum ConsumerEvent {
    /// The pipeline delivered a record.
    Received(PacketRecord),
    /// The write of the pending record succeeded.
    Written,
    /// The write of the pending record failed.
    WriteFailed,
    /// All producers are gone and the pipeline is empty.
    Closed,
}

pub enum ConsumerAction {
    /// Log the summary, then write the content to the path.
    Write(WritePlan),
    /// Receive the next record.
    ReceiveNext,
    /// Terminate cleanly.
    Finish,
    /// Terminate with a persistence error for the record with this identifier.
    Abort(String),
    /// The event does not apply in the current phase; nothing changes.
    Ignore,
}

pub enum EventView {
    Received(RecordView),
    Written,
    WriteFailed,
    Closed,
}

pub enum ActionView {
    Write(PlanView),
    ReceiveNext,
    Finish,
    Abort(Seq<char>),
    Ignore,
}

impl View for ConsumerEvent {
    type V = EventView;

    open spec fn view(&self) -> EventView {
        match self {
            ConsumerEvent::Received(r) => EventView::Received(r@),
            ConsumerEvent::Written => EventView::Written,
            ConsumerEvent::WriteFailed => EventView::WriteFailed,
            ConsumerEvent::Closed => EventView::Closed,
        }
    }
}

impl View for ConsumerAction {
    type V = ActionView;

    open spec fn view(&self) -> ActionView {
        match self {
            ConsumerAction::Write(p) => ActionView::Write(p@),
            ConsumerAction::ReceiveNext => ActionView::ReceiveNext,
            ConsumerAction::Finish => ActionView::Finish,
            ConsumerAction::Abort(id) => ActionView::Abort(id@),
            ConsumerAction::Ignore => ActionView::Ignore,
        }
    }
}

pub struct Consumer {
    phase: ConsumerPhase,
    pending: Option<String>,
    received: Ghost<Seq<Seq<char>>>,
}

pub struct ConsumerView {
    pub phase: ConsumerPhase,
    /// The identifier of the record whose write is under way.
    pub pending: Option<Seq<char>>,
    /// The identifiers of all records received, in order of receipt.
    pub received: Seq<Seq<char>>,
}

impl View for Consumer {
    type V = ConsumerView;

    closed spec fn view(&self) -> ConsumerView {
        ConsumerView {
            phase: self.phase,
            pending: match self.pending {
                Some(id) => Some(id@),
                None => None,
            },
            received: self.received@,
        }
    }
}

/// A pending identifier exists exactly while a write is under way.
pub open spec fn consumer_wf(s: ConsumerView) -> bool {
    (s.phase == ConsumerPhase::Writing) == (s.pending is Some)
}

/// The transition of the consumer on one event, and the action it asks for.
pub open spec fn consumer_step(s: ConsumerView, e: EventView) -> (ConsumerView, ActionView) {
    match (s.phase, e) {
        (ConsumerPhase::Receiving, EventView::Received(r)) => (
            ConsumerView {
                phase: ConsumerPhase::Writing,
                pending: Some(r.id),
                received: s.received.push(r.id),
            },
            ActionView::Write(plan_of(r)),
        ),
        (ConsumerPhase::Receiving, EventView::Closed) => (
            ConsumerView { phase: ConsumerPhase::Done, ..s },
            ActionView::Finish,
        ),
        (ConsumerPhase::Writing, EventView::Written) => (
            ConsumerView { phase: ConsumerPhase::Receiving, pending: None, ..s },
            ActionView::ReceiveNext,
        ),
        (ConsumerPhase::Writing, EventView::WriteFailed) => (
            ConsumerView { phase: ConsumerPhase::Failed, pending: None, ..s },
            ActionView::Abort(s.pending->0),
        ),
        _ => (s, ActionView::Ignore),
    }
}

/// The consumer after each record of `rs` is received and written in turn,
/// with every action asked for along the way.
pub open spec fn deliver_all(s: ConsumerView, rs: Seq<RecordView>) -> (ConsumerView, Seq<ActionView>)
    decreases rs.len(),
{
    if rs.len() == 0 {
        (s, Seq::empty())
    } else {
        let (t, acts) = deliver_all(s, rs.drop_last());
        let (t1, a1) = consumer_step(t, EventView::Received(rs.last()));
        let (t2, a2) = consumer_step(t1, EventView::Written);
        (t2, acts + seq![a1, a2])
    }
}

/// The identifiers of a sequence of records, in the same order.
pub open spec fn ids_of(rs: Seq<RecordView>) -> Seq<Seq<char>> {
    rs.map_values(|r: RecordView| r.id)
}

/// Records handed to a waiting consumer one after another are observed and
/// written in the order in which they were delivered: the consumer's history
/// grows by their identifiers in that order, and the `i`-th write it asks for
/// is the plan of the `i`-th record.
pub proof fn lemma_consumer_fifo(s: ConsumerView, rs: Seq<RecordView>)
    requires
        s.phase == ConsumerPhase::Receiving,
        consumer_wf(s),
    ensures
        deliver_all(s, rs).0.phase == ConsumerPhase::Receiving,
        consumer_wf(deliver_all(s, rs).0),
        deliver_all(s, rs).0.received == s.received + ids_of(rs),
        deliver_all(s, rs).1.len() == 2 * rs.len(),
        forall|i: int|
            0 <= i < rs.len() ==> #[trigger] deliver_all(s, rs).1[2 * i] == ActionView::Write(
                plan_of(rs[i]),
            ),
    decreases rs.len(),
{
    if rs.len() == 0 {
        assert(ids_of(rs) =~= Seq::<Seq<char>>::empty());
        assert(s.received + ids_of(rs) =~= s.received);
    } else {
        let prefix = rs.drop_last();
        lemma_consumer_fifo(s, prefix);
        let (t, acts) = deliver_all(s, prefix);
        assert(ids_of(rs) =~= ids_of(prefix).push(rs.last().id));
        assert(s.received + ids_of(rs) =~= (s.received + ids_of(prefix)).push(rs.last().id));
        let all = deliver_all(s, rs).1;
        assert forall|i: int| 0 <= i < rs.len() implies #[trigger] all[2 * i] == ActionView::Write(
            plan_of(rs[i]),
        ) by {
            if i < prefix.len() {
                assert(all[2 * i] == acts[2 * i]);
                assert(prefix[i] == rs[i]);
            }
        }
    }
}

impl Consumer {
    /// A consumer waiting for its first record.
    pub fn new() -> (r: Consumer)
        ensures
            r@ == (ConsumerView {
                phase: ConsumerPhase::Receiving,
                pending: None,
                received: Seq::empty(),
            }),
    {
        Consumer { phase: ConsumerPhase::Receiving, pending: None, received: Ghost(Seq::empty()) }
    }

    pub fn phase(&self) -> (r: ConsumerPhase)
        ensures
            r == self@.phase,
    {
        self.phase
    }

    /// Whether the consumer loop has ended, cleanly or not.
    pub fn is_finished(&self) -> (r: bool)
        ensures
            r == (self@.phase == ConsumerPhase::Done || self@.phase == ConsumerPhase::Failed),
    {
        self.phase == ConsumerPhase::Done || self.phase == ConsumerPhase::Failed
    }

    /// Applies one event and returns the action to perform.
    pub fn handle(&mut self, event: ConsumerEvent) -> (a: ConsumerAction)
        requires
            consumer_wf(old(self)@),
            event matches ConsumerEvent::Received(r) ==> record_fits(r@),
        ensures
            consumer_wf(final(self)@),
            (final(self)@, a@) == consumer_step(old(self)@, event@),
    {
        match event {
            ConsumerEvent::Received(record) => {
                if self.phase == ConsumerPhase::Receiving {
                    let plan = plan_write(&record);
                    self.received = Ghost(self.received@.push(record.id@));
                    self.phase = ConsumerPhase::Writing;
                    self.pending = Some(record.id);
                    ConsumerAction::Write(plan)
                } else {
                    ConsumerAction::Ignore
                }
            },
            ConsumerEvent::Written => {
                if self.phase == ConsumerPhase::Writing {
                    self.phase = ConsumerPhase::Receiving;
                    self.pending = None;
                    ConsumerAction::ReceiveNext
                } else {
                    ConsumerAction::Ignore
                }
            },
            ConsumerEvent::WriteFailed => {
                if self.phase == ConsumerPhase::Writing {
                    let id = match self.pending.take() {
                        Some(id) => id,
                        None => String::new(),
                    };
                    self.phase = ConsumerPhase::Failed;
                    ConsumerAction::Abort(id)
                } else {
                    ConsumerAction::Ignore
                }
            },
            ConsumerEvent::Closed => {
                if self.phase == ConsumerPhase::Receiving {
                    self.phase = ConsumerPhase::Done;
                    ConsumerAction::Finish
                } else {
                    ConsumerAction::Ignore
                }
            },
        }
    }
}

} // verus!
