//! The coordinator's dispatch context: the FIFO envelope queue, the
//! re-entrancy guard, the deferred host-notification flag, and the channel
//! of requests that only the host can carry out (file reads and writes).
//! Plugins see this context while handling a message; publishing from a
//! handler only appends to the queue being drained, it never starts a
//! nested drain.

use vstd::prelude::*;

use crate::commands::Envelope;
use crate::commands::ICommand;
use crate::commands::SpecEnvelope;
use crate::value::SpecValue;
use crate::value::StructValue;
use std::collections::VecDeque;

verus! {

/// Work that only the host can perform, emitted by plugins during dispatch
/// and collected by the host after `publish_message` returns.  The host
/// answers by publishing a completion envelope.  Paths name the project
/// directory; the file layout below it is the host's affair.
#[derive(Debug)]
pub enum HostRequest {
    /// Read and parse the project file under `path`.
    ReadProjectFile { path: String },
    /// Write the encoded project description under `path`.
    WriteProjectFile { path: String, value: StructValue },
    /// Walk the file tree under `path`.
    ScanProjectFiles { path: String },
    /// Read the persisted window dock state for the project under `path`.
    ReadDockSettings { path: String },
    /// Persist the window dock state for the project under `path`.
    WriteDockSettings { path: String, value: StructValue },
}

/// The mathematical model of a `HostRequest`.
#[verifier::ext_equal]
pub ghost enum HostRequestV {
    ReadProjectFile { path: Seq<char> },
    WriteProjectFile { path: Seq<char>, value: SpecValue },
    ScanProjectFiles { path: Seq<char> },
    ReadDockSettings { path: Seq<char> },
    WriteDockSettings { path: Seq<char>, value: SpecValue },
}

impl View for HostRequest {
    type V = HostRequestV;

    open spec fn view(&self) -> HostRequestV {
        match self {
            HostRequest::ReadProjectFile { path } => HostRequestV::ReadProjectFile {
                path: path@,
            },
            HostRequest::WriteProjectFile { path, value } => HostRequestV::WriteProjectFile {
                path: path@,
                value: value@,
            },
            HostRequest::ScanProjectFiles { path } => HostRequestV::ScanProjectFiles {
                path: path@,
            },
            HostRequest::ReadDockSettings { path } => HostRequestV::ReadDockSettings {
                path: path@,
            },
            HostRequest::WriteDockSettings { path, value } => HostRequestV::WriteDockSettings {
                path: path@,
                value: value@,
            },
        }
    }
}

/// One delivery of one envelope to one plugin, by registry position.
#[verifier::ext_equal]
pub ghost struct DeliveryRec {
    pub env: SpecEnvelope,
    pub plugin: int,
}

/// One fully dispatched envelope, with the enabled-flags of the registry at
/// the moment its delivery began.
#[verifier::ext_equal]
pub ghost struct DeliveredRec {
    pub env: SpecEnvelope,
    pub enabled: Seq<bool>,
}

/// The deliveries of one envelope to the plugins at positions `< i` that are
/// enabled, in registry order.
pub open spec fn block_upto(env: SpecEnvelope, enabled: Seq<bool>, i: int) -> Seq<DeliveryRec>
    decreases i,
{
    if i <= 0 {
        Seq::empty()
    } else {
        block_upto(env, enabled, i - 1) + if 0 <= i - 1 < enabled.len() && enabled[i - 1] {
            seq![DeliveryRec { env, plugin: i - 1 }]
        } else {
            Seq::empty()
        }
    }
}

/// The full delivery trace of a sequence of dispatched envelopes: for each
/// envelope in dispatch order, one delivery per plugin enabled at that
/// moment, in registry order.
pub open spec fn trace_of(delivered: Seq<DeliveredRec>) -> Seq<DeliveryRec>
    decreases delivered.len(),
{
    if delivered.len() == 0 {
        Seq::empty()
    } else {
        trace_of(delivered.drop_last()) + block_upto(
            delivered.last().env,
            delivered.last().enabled,
            delivered.last().enabled.len() as int,
        )
    }
}

/// The models of the queued envelopes, head first.
pub open spec fn queue_view(q: Seq<Envelope>) -> Seq<SpecEnvelope> {
    Seq::new(q.len(), |i: int| q[i]@)
}

/// The envelopes of a dispatch history, in dispatch order.
pub open spec fn envs_of(delivered: Seq<DeliveredRec>) -> Seq<SpecEnvelope> {
    Seq::new(delivered.len(), |i: int| delivered[i].env)
}

/// The coordinator's dispatch state.
pub struct Dispatcher {
    pub(crate) queue: VecDeque<Envelope>,
    pub(crate) busy: bool,
    pub(crate) notify_pending: bool,
    pub(crate) host_requests: Vec<HostRequest>,
    pub(crate) published: Ghost<Seq<SpecEnvelope>>,
    pub(crate) delivered: Ghost<Seq<DeliveredRec>>,
    pub(crate) trace: Ghost<Seq<DeliveryRec>>,
}

impl Dispatcher {
    /// Every envelope ever accepted for dispatch, in publish order,
    /// including ones published from inside a handler.
    pub closed spec fn published(&self) -> Seq<SpecEnvelope> {
        self.published@
    }

    /// The dispatch history: envelopes whose delivery has begun, in order.
    pub closed spec fn delivered(&self) -> Seq<DeliveredRec> {
        self.delivered@
    }

    /// The individual deliveries made so far.
    pub closed spec fn trace(&self) -> Seq<DeliveryRec> {
        self.trace@
    }

    /// The pending envelopes, head first.
    pub closed spec fn queue_model(&self) -> Seq<SpecEnvelope> {
        queue_view(self.queue@)
    }

    /// The re-entrancy guard: true exactly while a drain loop is running.
    pub closed spec fn busy(&self) -> bool {
        self.busy
    }

    /// Whether a host redraw has been requested and not yet delivered.
    pub closed spec fn notify_pending(&self) -> bool {
        self.notify_pending
    }

    /// The host requests collected and not yet taken.
    pub closed spec fn requests_model(&self) -> Seq<HostRequestV> {
        Seq::new(self.host_requests@.len(), |i: int| self.host_requests@[i]@)
    }

    /// The dispatch invariant: the queue holds exactly the published
    /// envelopes whose delivery has not begun, in publish order (first in,
    /// first out), and the queue is empty whenever no drain loop is
    /// running.  The coordinator additionally keeps the trace equal to the
    /// deliveries of the dispatch history; that part is restored each time
    /// an envelope finishes delivery.
    pub open spec fn inv(&self) -> bool {
        &&& self.published() == envs_of(self.delivered()) + self.queue_model()
        &&& !self.busy() ==> self.queue_model().len() == 0
    }

    /// An idle dispatcher with nothing published and nothing pending.
    pub fn new() -> (r: Self)
        ensures
            r.inv(),
            !r.busy(),
            !r.notify_pending(),
            r.published() == Seq::<SpecEnvelope>::empty(),
            r.delivered() == Seq::<DeliveredRec>::empty(),
            r.trace() == Seq::<DeliveryRec>::empty(),
            r.queue_model() == Seq::<SpecEnvelope>::empty(),
            r.requests_model() == Seq::<HostRequestV>::empty(),
    {
        let r = Dispatcher {
            queue: VecDeque::new(),
            busy: false,
            notify_pending: false,
            host_requests: Vec::new(),
            published: Ghost(Seq::empty()),
            delivered: Ghost(Seq::empty()),
            trace: Ghost(Seq::empty()),
        };
        proof {
            assert(r.queue_model() =~= Seq::<SpecEnvelope>::empty());
            assert(r.requests_model() =~= Seq::<HostRequestV>::empty());
            assert(envs_of(r.delivered()) =~= Seq::<SpecEnvelope>::empty());
            assert(r.published() =~= envs_of(r.delivered()) + r.queue_model());
        }
        r
    }

    /// Publishes from inside a running dispatch: the envelope joins the tail
    /// of the queue being drained; no nested drain starts, nothing is
    /// delivered here, and the queue grows by exactly this envelope.
    pub fn publish<M: ICommand>(&mut self, sender: &str, message: &M)
        requires
            old(self).inv(),
            old(self).busy(),
        ensures
            final(self).inv(),
            bus_effect(
                *old(self),
                *final(self),
                seq![
                    SpecEnvelope {
                        sender: sender@,
                        action: message.spec_action(),
                        payload: message.spec_args(),
                    },
                ],
                Seq::<HostRequestV>::empty(),
                false,
            ),
    {
        let env = Envelope {
            sender: sender.to_owned(),
            action: message.action(),
            payload: message.args(),
        };
        let ghost e = env@;
        self.push_envelope(env);
        proof {
            assert(self.queue_model() =~= old(self).queue_model() + seq![e]);
            assert(self.published() =~= old(self).published() + seq![e]);
            assert(self.requests_model() =~= old(self).requests_model() + Seq::<
                HostRequestV,
            >::empty());
        }
    }

    /// Appends one envelope to the queue tail and records it as published.
    /// Only runs under the guard: the active drain loop will deliver it.
    pub(crate) fn push_envelope(&mut self, env: Envelope)
        requires
            old(self).inv(),
            old(self).busy(),
        ensures
            final(self).inv(),
            final(self).busy() == old(self).busy(),
            final(self).notify_pending() == old(self).notify_pending(),
            final(self).requests_model() == old(self).requests_model(),
            final(self).delivered() == old(self).delivered(),
            final(self).trace() == old(self).trace(),
            final(self).queue_model() == old(self).queue_model().push(env@),
            final(self).published() == old(self).published().push(env@),
    {
        let ghost e = env@;
        self.queue.push_back(env);
        proof {
            self.published@ = self.published@.push(e);
            assert(self.queue_model() =~= old(self).queue_model().push(e));
            assert(self.published() =~= envs_of(self.delivered()) + self.queue_model());
        }
    }

    /// Records work for the host to perform once dispatch returns to it.
    pub fn request(&mut self, r: HostRequest)
        requires
            old(self).inv(),
        ensures
            final(self).inv(),
            bus_effect(
                *old(self),
                *final(self),
                Seq::<SpecEnvelope>::empty(),
                seq![r@],
                false,
            ),
    {
        let ghost rv = r@;
        self.host_requests.push(r);
        proof {
            assert(self.requests_model() =~= old(self).requests_model().push(rv));
            assert(self.requests_model() =~= old(self).requests_model() + seq![rv]);
            assert(self.queue_model() =~= old(self).queue_model());
            assert(old(self).queue_model() =~= old(self).queue_model() + Seq::<
                SpecEnvelope,
            >::empty());
            assert(self.published() =~= old(self).published() + Seq::<SpecEnvelope>::empty());
        }
    }

    /// Asks the coordinator to signal the host once the current dispatch is
    /// over; the signal is one-way and never fails.
    pub fn notify_ui(&mut self)
        requires
            old(self).inv(),
        ensures
            final(self).inv(),
            bus_effect(
                *old(self),
                *final(self),
                Seq::<SpecEnvelope>::empty(),
                Seq::<HostRequestV>::empty(),
                true,
            ),
    {
        self.notify_pending = true;
        proof {
            assert(self.queue_model() =~= old(self).queue_model() + Seq::<SpecEnvelope>::empty());
            assert(self.published() =~= old(self).published() + Seq::<SpecEnvelope>::empty());
            assert(self.requests_model() =~= old(self).requests_model() + Seq::<
                HostRequestV,
            >::empty());
        }
    }
}

impl Dispatcher {
    /// Whether a drain loop is currently running.
    pub fn is_busy(&self) -> (r: bool)
        ensures
            r == self.busy(),
    {
        self.busy
    }

    /// Raises the re-entrancy guard: a drain loop is about to run.
    pub(crate) fn begin_drain(&mut self)
        requires
            old(self).inv(),
            !old(self).busy(),
        ensures
            final(self).inv(),
            final(self).busy(),
            final(self).queue_model() == old(self).queue_model(),
            final(self).published() == old(self).published(),
            final(self).delivered() == old(self).delivered(),
            final(self).trace() == old(self).trace(),
            final(self).requests_model() == old(self).requests_model(),
            final(self).notify_pending() == old(self).notify_pending(),
    {
        self.busy = true;
    }

    /// Clears the re-entrancy guard once the queue has been drained.
    pub(crate) fn end_drain(&mut self)
        requires
            old(self).inv(),
            old(self).busy(),
            old(self).queue_model().len() == 0,
        ensures
            final(self).inv(),
            !final(self).busy(),
            final(self).queue_model() == old(self).queue_model(),
            final(self).published() == old(self).published(),
            final(self).delivered() == old(self).delivered(),
            final(self).trace() == old(self).trace(),
            final(self).requests_model() == old(self).requests_model(),
            final(self).notify_pending() == old(self).notify_pending(),
    {
        self.busy = false;
    }

    /// Takes the pending host-notification flag, clearing it.
    pub(crate) fn take_notify(&mut self) -> (r: bool)
        requires
            old(self).inv(),
        ensures
            final(self).inv(),
            r == old(self).notify_pending(),
            !final(self).notify_pending(),
            final(self).busy() == old(self).busy(),
            final(self).queue_model() == old(self).queue_model(),
            final(self).published() == old(self).published(),
            final(self).delivered() == old(self).delivered(),
            final(self).trace() == old(self).trace(),
            final(self).requests_model() == old(self).requests_model(),
    {
        let r = self.notify_pending;
        self.notify_pending = false;
        r
    }

    /// Pops the queue head, if any, recording it in the dispatch history
    /// together with the given enabled-flags snapshot.
    pub(crate) fn begin_envelope(&mut self, Ghost(enabled): Ghost<Seq<bool>>) -> (r: Option<
        Envelope,
    >)
        requires
            old(self).inv(),
            old(self).busy(),
        ensures
            final(self).inv(),
            final(self).busy(),
            final(self).published() == old(self).published(),
            final(self).trace() == old(self).trace(),
            final(self).requests_model() == old(self).requests_model(),
            final(self).notify_pending() == old(self).notify_pending(),
            match r {
                Option::Some(env) => {
                    &&& old(self).queue_model().len() > 0
                    &&& env@ == old(self).queue_model()[0]
                    &&& final(self).queue_model() == old(self).queue_model().drop_first()
                    &&& final(self).delivered() == old(self).delivered().push(
                        DeliveredRec { env: env@, enabled },
                    )
                },
                Option::None => {
                    &&& old(self).queue_model().len() == 0
                    &&& final(self).queue_model() == old(self).queue_model()
                    &&& final(self).delivered() == old(self).delivered()
                },
            },
    {
        match self.queue.pop_front() {
            Option::Some(env) => {
                let ghost e = env@;
                proof {
                    self.delivered@ = self.delivered@.push(DeliveredRec { env: e, enabled });
                    assert(self.queue_model() =~= old(self).queue_model().drop_first());
                    assert(envs_of(self.delivered()) =~= envs_of(old(self).delivered()).push(e));
                    assert(self.published() =~= envs_of(self.delivered()) + self.queue_model());
                }
                Option::Some(env)
            },
            Option::None => Option::None,
        }
    }

    /// Records one delivery in the trace.
    pub(crate) fn note_delivery(&mut self, Ghost(rec): Ghost<DeliveryRec>)
        requires
            old(self).inv(),
        ensures
            final(self).inv(),
            final(self).busy() == old(self).busy(),
            final(self).queue_model() == old(self).queue_model(),
            final(self).published() == old(self).published(),
            final(self).delivered() == old(self).delivered(),
            final(self).trace() == old(self).trace().push(rec),
            final(self).requests_model() == old(self).requests_model(),
            final(self).notify_pending() == old(self).notify_pending(),
    {
        proof {
            self.trace@ = self.trace@.push(rec);
        }
    }

    /// Hands out the collected host requests, leaving none behind.
    pub(crate) fn take_requests(&mut self) -> (r: Vec<HostRequest>)
        requires
            old(self).inv(),
        ensures
            final(self).inv(),
            final(self).busy() == old(self).busy(),
            final(self).queue_model() == old(self).queue_model(),
            final(self).published() == old(self).published(),
            final(self).delivered() == old(self).delivered(),
            final(self).trace() == old(self).trace(),
            final(self).notify_pending() == old(self).notify_pending(),
            final(self).requests_model() == Seq::<HostRequestV>::empty(),
            r@.len() == old(self).requests_model().len(),
            forall|k: int|
                0 <= k < r@.len() ==> #[trigger] r@[k]@ == old(self).requests_model()[k],
    {
        let mut out: Vec<HostRequest> = Vec::new();
        std::mem::swap(&mut out, &mut self.host_requests);
        proof {
            assert(self.requests_model() =~= Seq::<HostRequestV>::empty());
        }
        out
    }
}

/// Law: while the dispatch invariant holds, the envelopes whose delivery
/// has begun are exactly the first published envelopes, in publish order:
/// global delivery order is first-in, first-out.
pub proof fn lemma_fifo(d: Dispatcher)
    requires
        d.inv(),
    ensures
        envs_of(d.delivered()) == d.published().take(d.delivered().len() as int),
{
    assert(envs_of(d.delivered()) =~= d.published().take(d.delivered().len() as int));
}

/// Law: one more dispatched envelope extends the trace by exactly its own
/// delivery block: the new envelope's deliveries come after every delivery
/// of the envelopes dispatched before it.
pub proof fn lemma_trace_of_push(delivered: Seq<DeliveredRec>, rec: DeliveredRec)
    ensures
        trace_of(delivered.push(rec)) == trace_of(delivered) + block_upto(
            rec.env,
            rec.enabled,
            rec.enabled.len() as int,
        ),
{
    let pushed = delivered.push(rec);
    assert(pushed.drop_last() =~= delivered);
    assert(pushed.last() == rec);
}

/// How a handler may change the dispatch context: it appends `publishes` to
/// the queue tail (and to the publish history), appends `requests` for the
/// host, may raise the notification flag, and touches nothing else.
pub open spec fn bus_effect(
    pre: Dispatcher,
    post: Dispatcher,
    publishes: Seq<SpecEnvelope>,
    requests: Seq<HostRequestV>,
    notify: bool,
) -> bool {
    &&& post.queue_model() == pre.queue_model() + publishes
    &&& post.published() == pre.published() + publishes
    &&& post.requests_model() == pre.requests_model() + requests
    &&& post.notify_pending() == (pre.notify_pending() || notify)
    &&& post.delivered() == pre.delivered()
    &&& post.trace() == pre.trace()
    &&& post.busy() == pre.busy()
}

/// A handler that returns without touching the dispatch context has the
/// empty effect.
pub proof fn lemma_bus_unchanged(d: Dispatcher)
    ensures
        bus_effect(d, d, Seq::<SpecEnvelope>::empty(), Seq::<HostRequestV>::empty(), false),
{
    assert(d.queue_model() =~= d.queue_model() + Seq::<SpecEnvelope>::empty());
    assert(d.published() =~= d.published() + Seq::<SpecEnvelope>::empty());
    assert(d.requests_model() =~= d.requests_model() + Seq::<HostRequestV>::empty());
}

/// A step of one plugin handling one envelope: the plugin's next state and
/// what it asked of the dispatch context.
#[verifier::ext_equal]
pub ghost struct StepV<M> {
    pub state: M,
    pub publishes: Seq<SpecEnvelope>,
    pub requests: Seq<HostRequestV>,
    pub notify: bool,
}

/// A step that changes nothing and asks for nothing.
pub open spec fn quiet_step<M>(state: M) -> StepV<M> {
    StepV { state, publishes: Seq::empty(), requests: Seq::empty(), notify: false }
}

} // verus!
