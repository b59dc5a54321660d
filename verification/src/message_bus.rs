//! A general-purpose, reusable subscription list: synchronous fan-out to
//! registered observers, keyed by auto-incrementing handler ids.  It performs
//! no queuing and no re-entrancy protection, and is deliberately independent
//! of the plugin system; the coordinator keeps its own FIFO queue.

use vstd::prelude::*;

use crate::commands::CoreError;

verus! {

/// An observer registered with a `MessageBus`.  Its model is the sequence of
/// messages it has observed, oldest first.
pub trait ISubscriber<T, OWNER> {
    /// The messages this subscriber has observed so far.
    spec fn observed(&self) -> Seq<T>;

    /// Observes one message, in the presence of a read-only owner context.
    fn on_message(&mut self, owner: &OWNER, message: &T)
        ensures
            final(self).observed() == old(self).observed().push(*message),
    ;
}

/// A subscriber that keeps every message it observes, in order: the
/// reference observer, usable by hosts and exercised by the tests.
pub struct RecordingSubscriber {
    pub seen: Vec<i64>,
}

impl RecordingSubscriber {
    /// A subscriber that has observed nothing yet.
    pub fn new() -> (r: Self)
        ensures
            r.observed() == Seq::<i64>::empty(),
    {
        RecordingSubscriber { seen: Vec::new() }
    }
}

impl ISubscriber<i64, ()> for RecordingSubscriber {
    open spec fn observed(&self) -> Seq<i64> {
        self.seen@
    }

    fn on_message(&mut self, owner: &(), message: &i64) {
        self.seen.push(*message);
    }
}

/// A subscription list for messages of type `T`: handlers are invoked in
/// subscription order, and ids are assigned by a strictly increasing counter
/// starting at zero, never reused even after removal.
pub struct MessageBus<T, H> {
    id: usize,
    handlers: Vec<(usize, H)>,
    deliveries: Ghost<Seq<(usize, T)>>,
}

/// First position in `hs` whose stored id is `id`, if any.
pub open spec fn spec_find<H>(hs: Seq<(usize, H)>, id: usize) -> Option<int>
    decreases hs.len(),
{
    if hs.len() == 0 {
        Option::None
    } else if hs[0].0 == id {
        Option::Some(0)
    } else {
        match spec_find(hs.skip(1), id) {
            Option::Some(j) => Option::Some(j + 1),
            Option::None => Option::None,
        }
    }
}

/// The invocations one `publish` of `message` makes: one per registered
/// handler, paired with its id, in list order.
pub open spec fn deliveries_of<T, H>(hs: Seq<(usize, H)>, message: T) -> Seq<(usize, T)> {
    Seq::new(hs.len(), |k: int| (hs[k].0, message))
}

impl<T, H> MessageBus<T, H> {
    /// The registered handlers with their ids, in subscription order.
    pub closed spec fn handlers_model(&self) -> Seq<(usize, H)> {
        self.handlers@
    }

    /// The id the next subscription will receive.
    pub closed spec fn next_id(&self) -> usize {
        self.id
    }

    /// Every handler invocation this bus has ever made, in invocation
    /// order: the id of the handler invoked and the message it was handed.
    pub closed spec fn delivery_log(&self) -> Seq<(usize, T)> {
        self.deliveries@
    }

    /// Well-formed: stored ids are strictly increasing and below `next_id`,
    /// so every id is assigned at most once and never reused.
    pub closed spec fn wf(&self) -> bool {
        &&& forall|k: int|
            0 <= k < self.handlers@.len() ==> #[trigger] self.handlers@[k].0 < self.id
        &&& forall|j: int, k: int|
            0 <= j < k < self.handlers@.len() ==> #[trigger] self.handlers@[j].0
                < #[trigger] self.handlers@[k].0
    }

    /// An empty bus; the first subscription will get id zero.
    pub fn new() -> (r: Self)
        ensures
            r.wf(),
            r.handlers_model() == Seq::<(usize, H)>::empty(),
            r.next_id() == 0,
            r.delivery_log() == Seq::<(usize, T)>::empty(),
    {
        Self { handlers: Vec::new(), id: 0, deliveries: Ghost(Seq::empty()) }
    }

    /// Registers a handler and returns its id, which is the current counter
    /// value; the counter then advances and is never reused.
    pub fn subscribe(&mut self, handler: H) -> (id: usize)
        requires
            old(self).wf(),
            old(self).next_id() < usize::MAX,
        ensures
            final(self).wf(),
            id == old(self).next_id(),
            final(self).next_id() == id + 1,
            final(self).handlers_model() == old(self).handlers_model().push((id, handler)),
            final(self).delivery_log() == old(self).delivery_log(),
    {
        let id = self.id;
        self.id = self.id + 1;
        self.handlers.push((id, handler));
        id
    }

    /// Invokes every currently registered handler once, in subscription
    /// order, passing the owner context and the message: the delivery log
    /// grows by exactly the registered ids in list order, each paired with
    /// this message.  Registrations and their order are unchanged.
    pub fn publish<OWNER>(&mut self, owner: &OWNER, message: &T) where H: ISubscriber<T, OWNER>
        requires
            old(self).wf(),
        ensures
            final(self).wf(),
            final(self).next_id() == old(self).next_id(),
            final(self).handlers_model().len() == old(self).handlers_model().len(),
            forall|k: int|
                0 <= k < old(self).handlers_model().len() ==> {
                    let before = old(self).handlers_model()[k];
                    let after = #[trigger] final(self).handlers_model()[k];
                    after.0 == before.0 && after.1.observed() == before.1.observed().push(*message)
                },
            final(self).delivery_log() == old(self).delivery_log() + deliveries_of(
                old(self).handlers_model(),
                *message,
            ),
    {
        let n = self.handlers.len();
        let mut i: usize = 0;
        while i < n
            invariant
                n == self.handlers@.len(),
                i <= n,
                self.id == old(self).id,
                forall|k: int|
                    0 <= k < i ==> {
                        let before = old(self).handlers@[k];
                        let after = #[trigger] self.handlers@[k];
                        after.0 == before.0 && after.1.observed() == before.1.observed().push(
                            *message,
                        )
                    },
                forall|k: int|
                    i <= k < n ==> #[trigger] self.handlers@[k] == old(self).handlers@[k],
                old(self).wf(),
                self.deliveries@ == old(self).deliveries@ + Seq::new(
                    i as nat,
                    |k: int| (old(self).handlers@[k].0, *message),
                ),
            decreases n - i,
        {
            let mut entry = self.handlers.remove(i);
            entry.1.on_message(owner, message);
            let ghost hid = entry.0;
            self.handlers.insert(i, entry);
            proof {
                self.deliveries@ = self.deliveries@.push((hid, *message));
                assert(self.deliveries@ =~= old(self).deliveries@ + Seq::new(
                    i as nat + 1,
                    |k: int| (old(self).handlers@[k].0, *message),
                ));
            }
            i = i + 1;
        }
        proof {
            assert forall|j: int, k: int|
                0 <= j < k < self.handlers@.len() implies (#[trigger] self.handlers@[j].0)
                < (#[trigger] self.handlers@[k].0) by {
                assert(self.handlers@[j].0 == old(self).handlers@[j].0);
                assert(self.handlers@[k].0 == old(self).handlers@[k].0);
            }
            assert(self.deliveries@ =~= old(self).deliveries@ + deliveries_of(
                old(self).handlers_model(),
                *message,
            ));
        }
    }

    /// Removes exactly the handler registered under `id` and hands it back,
    /// leaving no handler under that id; if no handler has that id, reports
    /// `HandlerNotFound` and leaves every registration intact.  Ids are
    /// never reused, so a second `unsubscribe` of the same id always
    /// reports `HandlerNotFound`.
    pub fn unsubscribe(&mut self, id: usize) -> (r: Result<H, CoreError>)
        requires
            old(self).wf(),
        ensures
            final(self).wf(),
            final(self).next_id() == old(self).next_id(),
            final(self).delivery_log() == old(self).delivery_log(),
            match spec_find(old(self).handlers_model(), id) {
                Option::Some(j) => {
                    &&& r is Ok
                    &&& r->Ok_0 == old(self).handlers_model()[j].1
                    &&& final(self).handlers_model() == old(self).handlers_model().remove(j)
                    &&& spec_find(final(self).handlers_model(), id) is None
                },
                Option::None => {
                    &&& r is Err
                    &&& r->Err_0 == CoreError::HandlerNotFound
                    &&& final(self).handlers_model() == old(self).handlers_model()
                },
            },
    {
        let n = self.handlers.len();
        let mut i: usize = 0;
        while i < n
            invariant
                n == self.handlers@.len(),
                i <= n,
                *self == *old(self),
                old(self).wf(),
                forall|k: int| 0 <= k < i ==> #[trigger] self.handlers@[k].0 != id,
            decreases n - i,
        {
            if self.handlers[i].0 == id {
                proof {
                    lemma_find_found(self.handlers@, id, i as int);
                }
                let entry = self.handlers.remove(i);
                proof {
                    old(self).handlers@.remove_ensures(i as int);
                    assert forall|k: int|
                        0 <= k < self.handlers@.len() implies #[trigger] self.handlers@[k].0
                        < self.id by {
                        if k < i {
                            assert(self.handlers@[k] == old(self).handlers@[k]);
                        } else {
                            assert(self.handlers@[k] == old(self).handlers@[k + 1]);
                        }
                    }
                    assert forall|j: int, k: int|
                        0 <= j < k < self.handlers@.len() implies (
                    #[trigger] self.handlers@[j].0) < (#[trigger] self.handlers@[k].0) by {
                        if k < i {
                        } else if j < i {
                            assert(self.handlers@[k] == old(self).handlers@[k + 1]);
                        } else {
                            assert(self.handlers@[j] == old(self).handlers@[j + 1]);
                            assert(self.handlers@[k] == old(self).handlers@[k + 1]);
                        }
                    }
                    lemma_removed_id_absent(old(self).handlers@, i as int);
                }
                return Result::Ok(entry.1);
            }
            i = i + 1;
        }
        proof {
            lemma_find_missing(self.handlers@, id);
        }
        Result::Err(CoreError::HandlerNotFound)
    }
}

/// If `hs[i]` is the first entry with `id`, the search returns its position.
proof fn lemma_find_found<H>(hs: Seq<(usize, H)>, id: usize, i: int)
    requires
        0 <= i < hs.len(),
        hs[i].0 == id,
        forall|k: int| 0 <= k < i ==> #[trigger] hs[k].0 != id,
    ensures
        spec_find(hs, id) == Option::Some(i),
    decreases i,
{
    if i > 0 {
        lemma_find_found(hs.skip(1), id, i - 1);
    }
}

/// If no entry has `id`, the search returns nothing.
proof fn lemma_find_missing<H>(hs: Seq<(usize, H)>, id: usize)
    requires
        forall|k: int| 0 <= k < hs.len() ==> #[trigger] hs[k].0 != id,
    ensures
        spec_find(hs, id) is None,
    decreases hs.len(),
{
    if hs.len() > 0 {
        lemma_find_missing(hs.skip(1), id);
    }
}

/// If the search finds nothing, no entry has `id`.
proof fn lemma_find_none_absent<H>(hs: Seq<(usize, H)>, id: usize)
    requires
        spec_find(hs, id) is None,
    ensures
        forall|k: int| 0 <= k < hs.len() ==> #[trigger] hs[k].0 != id,
    decreases hs.len(),
{
    if hs.len() > 0 {
        lemma_find_none_absent(hs.skip(1), id);
        assert forall|k: int| 0 <= k < hs.len() implies #[trigger] hs[k].0 != id by {
            if k > 0 {
                assert(hs.skip(1)[k - 1] == hs[k]);
            }
        }
    }
}

/// Law: after a `subscribe` that returned `id`, an `unsubscribe(id)` finds
/// exactly the newly added handler, and removing it restores the previous
/// handler list.
pub proof fn lemma_unsubscribe_after_subscribe<H>(hs: Seq<(usize, H)>, next: usize, h: H)
    requires
        forall|k: int| 0 <= k < hs.len() ==> #[trigger] hs[k].0 < next,
    ensures
        spec_find(hs.push((next, h)), next) == Option::Some(hs.len() as int),
        hs.push((next, h)).remove(hs.len() as int) == hs,
{
    let pushed = hs.push((next, h));
    lemma_find_found(pushed, next, hs.len() as int);
    assert(pushed.remove(hs.len() as int) =~= hs);
}

/// Law: once the entry at position `j` is removed, its id is no longer
/// registered, so a later `unsubscribe` of the same id reports
/// `HandlerNotFound`.
pub proof fn lemma_removed_id_absent<H>(hs: Seq<(usize, H)>, j: int)
    requires
        0 <= j < hs.len(),
        forall|p: int, q: int|
            0 <= p < q < hs.len() ==> #[trigger] hs[p].0 < #[trigger] hs[q].0,
    ensures
        spec_find(hs.remove(j), hs[j].0) is None,
{
    let removed = hs.remove(j);
    assert forall|k: int| 0 <= k < removed.len() implies #[trigger] removed[k].0 != hs[j].0 by {
        if k < j {
            assert(removed[k] == hs[k]);
        } else {
            assert(removed[k] == hs[k + 1]);
        }
    }
    lemma_find_missing(removed, hs[j].0);
}

/// Law: a `publish` on a bus whose registrations do not include `id` makes
/// no invocation of that id: once a handler is unsubscribed, later
/// publishes never invoke it.
pub proof fn lemma_unsubscribed_not_invoked<T, H>(hs: Seq<(usize, H)>, id: usize, message: T)
    requires
        spec_find(hs, id) is None,
    ensures
        forall|t: int|
            0 <= t < deliveries_of(hs, message).len() ==> (#[trigger] deliveries_of(
                hs,
                message,
            )[t]).0 != id,
{
    lemma_find_none_absent(hs, id);
}

} // verus!
