//! Where each subscriber of the runtime's event stream stands: events are
//! only ever appended, and each subscriber collects what was published
//! since its last collection.
use vstd::prelude::*;

use std::collections::BTreeMap;

use crate::runtime_error::RuntimeError;
use crate::text::{decimal, owned, padded_decimal, push_padded_decimal};

verus! {

/// The read positions of the subscribers of an append-only event stream.
#[derive(Debug)]
pub struct EventSubscribers {
    published: usize,
    next_subscriber_id: u64,
    cursors: BTreeMap<u64, usize>,
}

/// The state of the subscribers as plain values: how many events were
/// published, the id the next subscriber gets, and each subscriber's
/// position.
pub struct SubscribersView {
    pub published: nat,
    pub next_subscriber_id: nat,
    pub cursors: Map<u64, nat>,
}

/// Every subscriber stands within the stream and has an id below the next one.
pub open spec fn view_wf(s: SubscribersView) -> bool {
    &&& s.next_subscriber_id <= u64::MAX
    &&& forall|id: u64| #[trigger]
        s.cursors.contains_key(id) ==> s.cursors[id] <= s.published && id < s.next_subscriber_id
}

/// The state after one more event is published.
pub open spec fn after_publish(s: SubscribersView) -> SubscribersView {
    SubscribersView { published: s.published + 1, ..s }
}

/// The state after a new subscriber joins; it starts at the end of the stream.
pub open spec fn after_subscribe(s: SubscribersView) -> SubscribersView {
    SubscribersView {
        next_subscriber_id: s.next_subscriber_id + 1,
        cursors: s.cursors.insert(s.next_subscriber_id as u64, s.published),
        ..s
    }
}

/// The state after subscriber `id` collects; unknown subscribers change nothing.
pub open spec fn after_collect(s: SubscribersView, id: u64) -> SubscribersView {
    if s.cursors.contains_key(id) {
        SubscribersView { cursors: s.cursors.insert(id, s.published), ..s }
    } else {
        s
    }
}

/// One operation on the subscribers.
pub enum SubscriberOp {
    Publish,
    Subscribe,
    Collect(u64),
}

/// The state after one operation; a subscription is refused once the ids
/// run out.
pub open spec fn apply_op(s: SubscribersView, op: SubscriberOp) -> SubscribersView {
    match op {
        SubscriberOp::Publish => after_publish(s),
        SubscriberOp::Subscribe => if s.next_subscriber_id < u64::MAX {
            after_subscribe(s)
        } else {
            s
        },
        SubscriberOp::Collect(id) => after_collect(s, id),
    }
}

/// The state after a sequence of operations.
pub open spec fn apply_ops(s: SubscribersView, ops: Seq<SubscriberOp>) -> SubscribersView
    decreases ops.len(),
{
    if ops.len() == 0 {
        s
    } else {
        apply_op(apply_ops(s, ops.drop_last()), ops.last())
    }
}

/// How many events a sequence of operations publishes.
pub open spec fn published_by(ops: Seq<SubscriberOp>) -> nat
    decreases ops.len(),
{
    if ops.len() == 0 {
        0
    } else {
        published_by(ops.drop_last()) + if ops.last() is Publish {
            1nat
        } else {
            0nat
        }
    }
}

impl EventSubscribers {
    /// The state as plain values.
    pub closed spec fn view(&self) -> SubscribersView {
        SubscribersView {
            published: self.published as nat,
            next_subscriber_id: self.next_subscriber_id as nat,
            cursors: self.cursors@.map_values(|c: usize| c as nat),
        }
    }

    /// No subscriber stands past the end of the stream, and every
    /// subscriber id was handed out already.
    pub closed spec fn wf(&self) -> bool {
        &&& forall|id: u64| #[trigger]
            self.cursors@.contains_key(id) ==> self.cursors@[id] <= self.published && id
                < self.next_subscriber_id
        &&& self.next_subscriber_id >= 1
    }

    /// No events and no subscribers; the first subscriber gets id 1.
    pub fn new() -> (r: Self)
        ensures
            r.wf(),
            r.view().published == 0,
            r.view().next_subscriber_id == 1,
            r.view().cursors == Map::<u64, nat>::empty(),
    {
        let r = EventSubscribers { published: 0, next_subscriber_id: 1, cursors: BTreeMap::new() };
        assert(r.view().cursors =~= Map::<u64, nat>::empty());
        r
    }

    /// How many events were published.
    pub fn published(&self) -> (r: usize)
        ensures
            r == self.view().published,
    {
        self.published
    }

    /// The id the next subscriber will get.
    pub fn next_subscriber_id(&self) -> (r: u64)
        ensures
            r == self.view().next_subscriber_id,
    {
        self.next_subscriber_id
    }

    /// Records that one more event was published.
    pub fn publish(&mut self)
        requires
            old(self).wf(),
            old(self).view().published < usize::MAX,
        ensures
            final(self).wf(),
            final(self).view() == after_publish(old(self).view()),
    {
        self.published = self.published + 1;
    }

    /// Adds a subscriber that will see only the events published from now on.
    pub fn subscribe(&mut self) -> (id: u64)
        requires
            old(self).wf(),
            old(self).view().next_subscriber_id < u64::MAX,
        ensures
            final(self).wf(),
            id == old(self).view().next_subscriber_id,
            !old(self).view().cursors.contains_key(id),
            final(self).view() == after_subscribe(old(self).view()),
    {
        let id = self.next_subscriber_id;
        self.next_subscriber_id = self.next_subscriber_id + 1;
        self.cursors.insert(id, self.published);
        assert(self.view().cursors =~= old(self).view().cursors.insert(id, old(self).view().published));
        id
    }

    /// The events a subscriber has not collected yet, as the range
    /// `start..end` of the stream; the subscriber then stands at the end.
    /// An unknown subscriber is refused.
    pub fn collect_events(&mut self, subscriber_id: u64) -> (r: Result<(usize, usize), RuntimeError>)
        requires
            old(self).wf(),
        ensures
            final(self).wf(),
            final(self).view() == after_collect(old(self).view(), subscriber_id),
            match r {
                Ok((start, end)) => old(self).view().cursors.contains_key(subscriber_id)
                    && start == old(self).view().cursors[subscriber_id] && end
                    == old(self).view().published,
                Err(e) => !old(self).view().cursors.contains_key(subscriber_id) && e@ == (
                    "订阅者不存在："@ + decimal(subscriber_id as nat),
                    false,
                ),
            },
    {
        let start = match self.cursors.get(&subscriber_id) {
            Some(cursor) => *cursor,
            None => {
                let mut message = owned("订阅者不存在：");
                push_padded_decimal(&mut message, subscriber_id, 0);
                assert(padded_decimal(subscriber_id as nat, 0) == decimal(subscriber_id as nat));
                return Err(RuntimeError::subscription(message.as_str()));
            },
        };
        let end = self.published;
        self.cursors.insert(subscriber_id, end);
        assert(self.view().cursors =~= old(self).view().cursors.insert(
            subscriber_id,
            old(self).view().published,
        ));
        Ok((start, end))
    }
}

proof fn lemma_ops_keep_subscriber(s: SubscribersView, ops: Seq<SubscriberOp>, id: u64)
    requires
        view_wf(s),
        s.cursors.contains_key(id),
        forall|i: int| 0 <= i < ops.len() ==> ops[i] != SubscriberOp::Collect(id),
    ensures
        view_wf(apply_ops(s, ops)),
        apply_ops(s, ops).cursors.contains_key(id),
        apply_ops(s, ops).cursors[id] == s.cursors[id],
        apply_ops(s, ops).published == s.published + published_by(ops),
    decreases ops.len(),
{
    if ops.len() > 0 {
        let prefix = ops.drop_last();
        assert forall|i: int| 0 <= i < prefix.len() implies prefix[i] != SubscriberOp::Collect(id) by {
            assert(prefix[i] == ops[i]);
        }
        lemma_ops_keep_subscriber(s, prefix, id);
        let t = apply_ops(s, prefix);
        assert(ops[ops.len() - 1] != SubscriberOp::Collect(id));
        match ops.last() {
            SubscriberOp::Publish => {},
            SubscriberOp::Subscribe => {
                assert(!t.cursors.contains_key(t.next_subscriber_id as u64));
            },
            SubscriberOp::Collect(other) => {},
        }
    }
}

/// Law: a subscriber's collections tile the stream. After it collects up
/// to the end, whatever else happens (events published, subscribers added,
/// other subscribers collecting), its next collection starts exactly where
/// the last one ended and hands out exactly the events published in
/// between: no event twice, none skipped, nothing when nothing was
/// published.
pub proof fn law_collections_tile_the_stream(
    s: SubscribersView,
    id: u64,
    ops: Seq<SubscriberOp>,
)
    requires
        view_wf(s),
        s.cursors.contains_key(id),
        forall|i: int| 0 <= i < ops.len() ==> ops[i] != SubscriberOp::Collect(id),
    ensures
        ({
            let collected = after_collect(s, id);
            let later = apply_ops(collected, ops);
            &&& later.cursors.contains_key(id)
            &&& later.cursors[id] == s.published
            &&& later.published == s.published + published_by(ops)
        }),
{
    let collected = after_collect(s, id);
    assert(view_wf(collected));
    lemma_ops_keep_subscriber(collected, ops, id);
}

/// Law: two subscribers that joined one after the other, with nothing
/// published in between, stand at the same place in the stream after any
/// later operations that do not collect for them: each would collect the
/// same events, in the same order.
pub proof fn law_subscribers_joined_together_agree(s: SubscribersView, ops: Seq<SubscriberOp>)
    requires
        view_wf(s),
        s.next_subscriber_id + 2 <= u64::MAX,
        forall|i: int|
            0 <= i < ops.len() ==> ops[i] != SubscriberOp::Collect(s.next_subscriber_id as u64)
                && ops[i] != SubscriberOp::Collect((s.next_subscriber_id + 1) as u64),
    ensures
        ({
            let first = s.next_subscriber_id as u64;
            let second = (s.next_subscriber_id + 1) as u64;
            let later = apply_ops(after_subscribe(after_subscribe(s)), ops);
            &&& first != second
            &&& later.cursors.contains_key(first)
            &&& later.cursors.contains_key(second)
            &&& later.cursors[first] == later.cursors[second]
            &&& later.cursors[first] == s.published
        }),
{
    let first = s.next_subscriber_id as u64;
    let second = (s.next_subscriber_id + 1) as u64;
    let one = after_subscribe(s);
    assert(view_wf(one));
    let two = after_subscribe(one);
    assert(view_wf(two));
    assert(two.cursors.contains_key(first) && two.cursors[first] == s.published);
    assert(two.cursors.contains_key(second) && two.cursors[second] == s.published);
    assert forall|i: int| 0 <= i < ops.len() implies ops[i] != SubscriberOp::Collect(first) by {}
    lemma_ops_keep_subscriber(two, ops, first);
    assert forall|i: int| 0 <= i < ops.len() implies ops[i] != SubscriberOp::Collect(second) by {}
    lemma_ops_keep_subscriber(two, ops, second);
}

} // verus!
