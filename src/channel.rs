//! The job channel: an unbounded FIFO queue that producers send jobs into and
//! workers take jobs from, with a close signal. The channel keeps, as ghost
//! state, every job it ever accepted and every job it handed out, so that its
//! contracts can say that each accepted job is handed out exactly once, in order.

use std::collections::VecDeque;
use vstd::prelude::*;

verus! {

/// The abstract state of a channel.
pub ghost struct ChannelModel<J> {
    /// Jobs accepted and not yet handed out, oldest first.
    pub pending: Seq<J>,
    /// Whether the channel still accepts jobs.
    pub open: bool,
    /// Every job ever accepted, in order of acceptance.
    pub sent: Seq<J>,
    /// Every job ever handed out, in order.
    pub delivered: Seq<J>,
}

/// One operation on a channel, as a proof sees it.
pub ghost enum ChannelOp<J> {
    Send(J),
    Receive,
    Close,
}

impl<J> ChannelModel<J> {
    /// The channel's books balance: what was accepted is exactly what was handed
    /// out followed by what is still waiting.
    pub open spec fn wf(self) -> bool {
        self.sent == self.delivered + self.pending
    }

    pub open spec fn fresh() -> ChannelModel<J> {
        ChannelModel { pending: Seq::empty(), open: true, sent: Seq::empty(), delivered: Seq::empty() }
    }

    /// Sending: accepted at the back while open, refused (nothing changes) once closed.
    pub open spec fn after_send(self, job: J) -> ChannelModel<J> {
        if self.open {
            ChannelModel {
                pending: self.pending.push(job),
                sent: self.sent.push(job),
                ..self
            }
        } else {
            self
        }
    }

    /// Receiving: the oldest pending job is handed out, if there is one.
    pub open spec fn after_receive(self) -> ChannelModel<J> {
        if self.pending.len() > 0 {
            ChannelModel {
                pending: self.pending.drop_first(),
                delivered: self.delivered.push(self.pending[0]),
                ..self
            }
        } else {
            self
        }
    }

    pub open spec fn after_close(self) -> ChannelModel<J> {
        ChannelModel { open: false, ..self }
    }

    pub open spec fn apply(self, op: ChannelOp<J>) -> ChannelModel<J> {
        match op {
            ChannelOp::Send(job) => self.after_send(job),
            ChannelOp::Receive => self.after_receive(),
            ChannelOp::Close => self.after_close(),
        }
    }

    /// The state after the operations `ops`, applied in order.
    pub open spec fn run(self, ops: Seq<ChannelOp<J>>) -> ChannelModel<J>
        decreases ops.len(),
    {
        if ops.len() == 0 {
            self
        } else {
            self.apply(ops[0]).run(ops.drop_first())
        }
    }
}

/// Whatever operations come, from however many callers and in whatever
/// interleaving, a balanced channel stays balanced: no accepted job is lost or
/// duplicated, nothing accepted or handed out is ever taken back, and once no
/// job is pending every accepted job has been handed out exactly once.
pub proof fn lemma_exactly_once<J>(m: ChannelModel<J>, ops: Seq<ChannelOp<J>>)
    requires
        m.wf(),
    ensures
        m.run(ops).wf(),
        m.sent.is_prefix_of(m.run(ops).sent),
        m.delivered.is_prefix_of(m.run(ops).delivered),
        m.run(ops).pending.len() == 0 ==> m.run(ops).delivered == m.run(ops).sent,
    decreases ops.len(),
{
    if ops.len() == 0 {
        if m.pending.len() == 0 {
            lemma_drained_delivers_all(m);
        }
    } else {
        let n = m.apply(ops[0]);
        match ops[0] {
            ChannelOp::Send(job) => {
                if m.open {
                    assert(n.sent =~= n.delivered + n.pending);
                }
            },
            ChannelOp::Receive => {
                if m.pending.len() > 0 {
                    assert(n.sent =~= n.delivered + n.pending);
                }
            },
            ChannelOp::Close => {},
        }
        lemma_exactly_once(n, ops.drop_first());
    }
}

/// Once a balanced channel has no pending job, every job it accepted was
/// handed out exactly once, in the order in which it was accepted.
pub proof fn lemma_drained_delivers_all<J>(m: ChannelModel<J>)
    requires
        m.wf(),
        m.pending.len() == 0,
    ensures
        m.delivered == m.sent,
{
    assert(m.delivered + m.pending =~= m.delivered);
}

/// A closed channel stays closed and accepts no job, whatever operations come.
pub proof fn lemma_closed_stays_closed<J>(m: ChannelModel<J>, ops: Seq<ChannelOp<J>>)
    requires
        !m.open,
    ensures
        !m.run(ops).open,
        m.run(ops).sent == m.sent,
    decreases ops.len(),
{
    if ops.len() > 0 {
        lemma_closed_stays_closed(m.apply(ops[0]), ops.drop_first());
    }
}

/// What a receive found.
pub enum Received<J> {
    /// The oldest pending job, now handed to the caller.
    Job(J),
    /// No job is pending and the channel is still open: wait for one.
    Empty,
    /// No job is pending and the channel is closed: no job will ever come.
    Closed,
}

/// A send on a closed channel; it hands the job back.
pub struct ChannelClosed<J> {
    pub job: J,
}

/// The channel. The receiving side is shared by the workers under mutual
/// exclusion; each receive takes at most one job.
pub struct Channel<J> {
    queue: VecDeque<J>,
    open: bool,
    sent: Ghost<Seq<J>>,
    delivered: Ghost<Seq<J>>,
}

impl<J> View for Channel<J> {
    type V = ChannelModel<J>;

    closed spec fn view(&self) -> ChannelModel<J> {
        ChannelModel {
            pending: self.queue@,
            open: self.open,
            sent: self.sent@,
            delivered: self.delivered@,
        }
    }
}

impl<J> Channel<J> {
    /// An open channel with no job.
    pub fn new() -> (r: Channel<J>)
        ensures
            r@ == ChannelModel::<J>::fresh(),
            r@.wf(),
    {
        let r = Channel { queue: VecDeque::new(), open: true, sent: Ghost(Seq::empty()), delivered: Ghost(Seq::empty()) };
        assert(r@.sent =~= r@.delivered + r@.pending);
        r
    }

    /// Enqueues `job` while the channel is open; on a closed channel hands the
    /// job back and changes nothing.
    pub fn send(&mut self, job: J) -> (r: Result<(), ChannelClosed<J>>)
        requires
            old(self)@.wf(),
        ensures
            final(self)@ == old(self)@.after_send(job),
            final(self)@.wf(),
            r is Ok <==> old(self)@.open,
            match r {
                Ok(_) => true,
                Err(e) => e.job == job,
            },
    {
        if self.open {
            self.queue.push_back(job);
            proof {
                let ghost j = self.queue@.last();
                self.sent@ = self.sent@.push(j);
                assert(self@.sent =~= self@.delivered + self@.pending);
            }
            assert(self@ =~= old(self)@.after_send(job));
            Ok(())
        } else {
            Err(ChannelClosed { job })
        }
    }

    /// Takes the oldest pending job, or tells the caller to wait (open and
    /// empty) or to stop (closed and drained).
    pub fn receive(&mut self) -> (r: Received<J>)
        requires
            old(self)@.wf(),
        ensures
            final(self)@ == old(self)@.after_receive(),
            final(self)@.wf(),
            old(self)@.pending.len() > 0 ==> r == Received::Job(old(self)@.pending[0]),
            old(self)@.pending.len() == 0 && old(self)@.open ==> r is Empty,
            old(self)@.pending.len() == 0 && !old(self)@.open ==> r is Closed,
    {
        match self.queue.pop_front() {
            Some(job) => {
                proof {
                    self.delivered@ = self.delivered@.push(job);
                    assert(self@.sent =~= self@.delivered + self@.pending);
                }
                assert(self@ =~= old(self)@.after_receive());
                Received::Job(job)
            },
            None => {
                if self.open {
                    Received::Empty
                } else {
                    Received::Closed
                }
            },
        }
    }

    /// Stops the channel from accepting jobs. Pending jobs stay and can still be
    /// received. Closing twice is the same as closing once.
    pub fn close(&mut self)
        requires
            old(self)@.wf(),
        ensures
            final(self)@ == old(self)@.after_close(),
            final(self)@.wf(),
    {
        self.open = false;
        assert(self@ =~= old(self)@.after_close());
    }

    pub fn is_open(&self) -> (r: bool)
        ensures
            r == self@.open,
    {
        self.open
    }

    /// The number of pending jobs.
    pub fn len(&self) -> (r: usize)
        ensures
            r == self@.pending.len(),
    {
        self.queue.len()
    }
}

} // verus!
