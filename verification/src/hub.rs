//! The broadcast registry: the single fan-out point all paths flow through.
//!
//! The hub owns the live set of session handles and one mailbox per handle.
//! `subscribe` and `unsubscribe` are idempotent membership operations;
//! `broadcast` enqueues one copy of a message into every open mailbox, and a
//! closed mailbox (a recipient torn down mid-race) is skipped silently without
//! disturbing delivery to the others.
//!
//! The hub's abstract value is a map from session handle to mailbox model;
//! every operation's contract is one equation on that map.

use vstd::prelude::*;
use crate::message::{MessageModel, ServerMessage};

verus! {

/// Model of one subscriber's mailbox: whether its receiving end is still
/// open, and the messages queued for it, oldest first.
#[verifier::ext_equal]
pub struct MailboxModel {
    pub open: bool,
    pub queue: Seq<MessageModel>,
}

/// The mailbox a fresh subscriber starts with.
pub open spec fn empty_mailbox() -> MailboxModel {
    MailboxModel { open: true, queue: Seq::empty() }
}

/// The messages a queue of concrete messages stands for.
pub open spec fn msgs_view(q: Seq<ServerMessage>) -> Seq<MessageModel> {
    q.map_values(|m: ServerMessage| m@)
}

/// A per-subscriber delivery queue, decoupling fan-out from consumption speed.
pub struct Mailbox {
    open: bool,
    queue: Vec<ServerMessage>,
}

impl View for Mailbox {
    type V = MailboxModel;

    closed spec fn view(&self) -> MailboxModel {
        MailboxModel { open: self.open, queue: msgs_view(self.queue@) }
    }
}

struct Slot {
    id: u64,
    mailbox: Mailbox,
}

/// Broadcast hub that fans out messages to subscribed sessions (or any
/// recipient registered under a handle).
pub struct Hub {
    slots: Vec<Slot>,
}

/// Control operations on the hub's live set, keyed by session handle.
pub enum HubCommand {
    Subscribe(u64),
    Unsubscribe(u64),
}

/// A request to deliver one message to every live session.
pub struct Broadcast(pub ServerMessage);

/// What `subscribe` does to the hub's map: a new handle gets a fresh open
/// mailbox, a handle already present is left untouched.
pub open spec fn subscribe_effect(m: Map<u64, MailboxModel>, id: u64) -> Map<u64, MailboxModel> {
    if m.contains_key(id) {
        m
    } else {
        m.insert(id, empty_mailbox())
    }
}

/// What delivery does to one mailbox: an open mailbox receives exactly one
/// copy of the message; a closed mailbox is left as it is.
pub open spec fn deliver(mb: MailboxModel, msg: MessageModel) -> MailboxModel {
    if mb.open {
        MailboxModel { open: true, queue: mb.queue.push(msg) }
    } else {
        mb
    }
}

/// What `broadcast` does to the hub's map: every subscriber's mailbox is
/// delivered to independently; membership is unchanged.
pub open spec fn fanout(m: Map<u64, MailboxModel>, msg: MessageModel) -> Map<u64, MailboxModel> {
    Map::new(|id: u64| m.contains_key(id), |id: u64| deliver(m[id], msg))
}

spec fn slots_map(s: Seq<Slot>) -> Map<u64, MailboxModel>
    decreases s.len(),
{
    if s.len() == 0 {
        Map::empty()
    } else {
        slots_map(s.drop_last()).insert(s.last().id, s.last().mailbox@)
    }
}

spec fn ids_distinct(s: Seq<Slot>) -> bool {
    forall|i: int, j: int| 0 <= i < j < s.len() ==> s[i].id != s[j].id
}

proof fn lemma_slots_map_dom(s: Seq<Slot>, id: u64)
    ensures
        slots_map(s).contains_key(id) <==> exists|i: int| 0 <= i < s.len() && s[i].id == id,
    decreases s.len(),
{
    if s.len() > 0 {
        lemma_slots_map_dom(s.drop_last(), id);
        if slots_map(s).contains_key(id) {
            if s.last().id == id {
                assert(s[s.len() - 1].id == id);
            } else {
                let i = choose|i: int| 0 <= i < s.drop_last().len() && s.drop_last()[i].id == id;
                assert(s[i].id == id);
            }
        }
        if exists|i: int| 0 <= i < s.len() && s[i].id == id {
            let i = choose|i: int| 0 <= i < s.len() && s[i].id == id;
            if i < s.len() - 1 {
                assert(s.drop_last()[i].id == id);
            }
        }
    }
}

proof fn lemma_slots_map_index(s: Seq<Slot>, i: int)
    requires
        ids_distinct(s),
        0 <= i < s.len(),
    ensures
        slots_map(s).contains_key(s[i].id),
        slots_map(s)[s[i].id] == s[i].mailbox@,
    decreases s.len(),
{
    if i < s.len() - 1 {
        lemma_slots_map_index(s.drop_last(), i);
        assert(s.drop_last()[i] == s[i]);
        assert(s.last().id != s[i].id);
    }
}

proof fn lemma_slots_map_remove(s: Seq<Slot>, k: int)
    requires
        ids_distinct(s),
        0 <= k < s.len(),
    ensures
        slots_map(s.remove(k)) =~= slots_map(s).remove(s[k].id),
    decreases s.len(),
{
    lemma_slots_map_dom(s.drop_last(), s.last().id);
    if k == s.len() - 1 {
        assert(s.remove(k) =~= s.drop_last());
        assert(!slots_map(s.drop_last()).contains_key(s.last().id));
        assert(slots_map(s.remove(k)) =~= slots_map(s).remove(s[k].id));
    } else {
        assert(s.remove(k).drop_last() =~= s.drop_last().remove(k));
        assert(s.remove(k).last() == s.last());
        lemma_slots_map_remove(s.drop_last(), k);
        assert(s.drop_last()[k].id == s[k].id);
        assert(s.last().id != s[k].id);
        assert(slots_map(s.remove(k)) =~= slots_map(s).remove(s[k].id));
    }
}

proof fn lemma_slots_map_update(s: Seq<Slot>, k: int, slot: Slot)
    requires
        ids_distinct(s),
        0 <= k < s.len(),
        slot.id == s[k].id,
    ensures
        slots_map(s.update(k, slot)) =~= slots_map(s).insert(slot.id, slot.mailbox@),
    decreases s.len(),
{
    if k == s.len() - 1 {
        assert(s.update(k, slot).drop_last() =~= s.drop_last());
        assert(s.update(k, slot).last() == slot);
        assert(slots_map(s.update(k, slot)) =~= slots_map(s).insert(slot.id, slot.mailbox@));
    } else {
        assert(s.update(k, slot).drop_last() =~= s.drop_last().update(k, slot));
        assert(s.update(k, slot).last() == s.last());
        lemma_slots_map_update(s.drop_last(), k, slot);
        assert(s.last().id != slot.id);
        assert(slots_map(s.update(k, slot)) =~= slots_map(s).insert(slot.id, slot.mailbox@));
    }
}

proof fn lemma_slots_map_fanout(s1: Seq<Slot>, s2: Seq<Slot>, msg: MessageModel)
    requires
        ids_distinct(s1),
        s2.len() == s1.len(),
        forall|i: int| 0 <= i < s1.len() ==> s2[i].id == s1[i].id,
        forall|i: int| 0 <= i < s1.len() ==> s2[i].mailbox@ == deliver(s1[i].mailbox@, msg),
    ensures
        slots_map(s2) =~= fanout(slots_map(s1), msg),
{
    assert forall|id: u64|
        slots_map(s2).contains_key(id) == fanout(slots_map(s1), msg).contains_key(id) by {
        lemma_slots_map_dom(s1, id);
        lemma_slots_map_dom(s2, id);
    }
    assert forall|id: u64| slots_map(s2).contains_key(id) implies slots_map(s2)[id] == fanout(
        slots_map(s1),
        msg,
    )[id] by {
        lemma_slots_map_dom(s2, id);
        let i = choose|i: int| 0 <= i < s2.len() && s2[i].id == id;
        lemma_slots_map_index(s2, i);
        lemma_slots_map_index(s1, i);
        lemma_slots_map_dom(s1, id);
    }
}

proof fn lemma_slots_map_card(s: Seq<Slot>)
    requires
        ids_distinct(s),
    ensures
        slots_map(s).dom().finite(),
        slots_map(s).dom().len() == s.len(),
    decreases s.len(),
{
    if s.len() == 0 {
        assert(slots_map(s).dom() =~= Set::<u64>::empty());
    } else {
        lemma_slots_map_card(s.drop_last());
        lemma_slots_map_dom(s.drop_last(), s.last().id);
        assert(!slots_map(s.drop_last()).dom().contains(s.last().id));
        assert(slots_map(s).dom() =~= slots_map(s.drop_last()).dom().insert(s.last().id));
    }
}

proof fn lemma_msgs_view_push(q: Seq<ServerMessage>, m: ServerMessage)
    ensures
        msgs_view(q.push(m)) =~= msgs_view(q).push(m@),
{
    assert forall|i: int| 0 <= i < q.len() + 1 implies msgs_view(q.push(m))[i] == msgs_view(
        q,
    ).push(m@)[i] by {
        if i < q.len() {
            assert(q.push(m)[i] == q[i]);
        }
    }
}

impl View for Hub {
    type V = Map<u64, MailboxModel>;

    closed spec fn view(&self) -> Map<u64, MailboxModel> {
        slots_map(self.slots@)
    }
}

impl Default for Hub {
    /// A hub with no subscribers.
    fn default() -> (h: Hub)
        ensures
            h.wf(),
            h@ == Map::<u64, MailboxModel>::empty(),
    {
        Hub { slots: Vec::new() }
    }
}

impl Hub {
    /// Internal well-formedness: each handle owns at most one mailbox.
    pub closed spec fn wf(self) -> bool {
        ids_distinct(self.slots@)
    }

    fn find(&self, id: u64) -> (r: Option<usize>)
        ensures
            match r {
                Some(i) => i < self.slots@.len() && self.slots@[i as int].id == id,
                None => forall|i: int| 0 <= i < self.slots@.len() ==> self.slots@[i].id != id,
            },
    {
        let n = self.slots.len();
        let mut i: usize = 0;
        while i < n
            invariant
                n == self.slots@.len(),
                i <= n,
                forall|j: int| 0 <= j < i ==> self.slots@[j].id != id,
            decreases n - i,
        {
            if self.slots[i].id == id {
                return Some(i);
            }
            i += 1;
        }
        None
    }

    /// Insert `id` into the live set with a fresh open mailbox. Idempotent:
    /// a second subscribe of the same handle changes nothing.
    pub fn subscribe(&mut self, id: u64)
        requires
            old(self).wf(),
        ensures
            final(self).wf(),
            final(self)@ == subscribe_effect(old(self)@, id),
    {
        proof {
            lemma_slots_map_dom(self.slots@, id);
        }
        match self.find(id) {
            Some(_) => {
            },
            None => {
                self.slots.push(
                    Slot { id, mailbox: Mailbox { open: true, queue: Vec::new() } },
                );
                proof {
                    let s = old(self).slots@;
                    assert(self.slots@.drop_last() =~= s);
                    assert(self.slots@.last().mailbox@ =~= empty_mailbox());
                    assert(self.slots@.last().mailbox@ == empty_mailbox());
                    assert(!old(self)@.contains_key(id));
                    assert(final(self)@ == subscribe_effect(old(self)@, id));
                }
            },
        }
    }

    /// Remove `id` from the live set. Idempotent: an unknown handle is
    /// silently ignored, never an error, because a session may race its own
    /// teardown against an external unsubscribe.
    pub fn unsubscribe(&mut self, id: u64)
        requires
            old(self).wf(),
        ensures
            final(self).wf(),
            final(self)@ == old(self)@.remove(id),
    {
        proof {
            lemma_slots_map_dom(self.slots@, id);
        }
        match self.find(id) {
            Some(i) => {
                proof {
                    lemma_slots_map_remove(self.slots@, i as int);
                }
                let _ = self.slots.remove(i);
                proof {
                    let s = old(self).slots@;
                    assert forall|a: int, b: int|
                        0 <= a < b < self.slots@.len() implies self.slots@[a].id
                        != self.slots@[b].id by {
                        assert(self.slots@[a] == if a < i as int { s[a] } else { s[a + 1] });
                        assert(self.slots@[b] == if b < i as int { s[b] } else { s[b + 1] });
                    }
                }
            },
            None => {
                proof {
                    assert(old(self)@.remove(id) =~= old(self)@);
                }
            },
        }
    }

    /// Apply one control command to the live set.
    pub fn handle(&mut self, cmd: HubCommand)
        requires
            old(self).wf(),
        ensures
            final(self).wf(),
            (cmd matches HubCommand::Subscribe(id) ==> final(self)@ == subscribe_effect(
                old(self)@,
                id,
            )),
            (cmd matches HubCommand::Unsubscribe(id) ==> final(self)@ == old(self)@.remove(id)),
    {
        match cmd {
            HubCommand::Subscribe(id) => self.subscribe(id),
            HubCommand::Unsubscribe(id) => self.unsubscribe(id),
        }
    }

    /// Deliver one logical copy of `msg` to every subscriber with an open
    /// mailbox. A closed mailbox is skipped without error, and delivery to one
    /// recipient never disturbs delivery to the rest; the whole operation
    /// never fails.
    pub fn broadcast(&mut self, msg: &ServerMessage)
        requires
            old(self).wf(),
        ensures
            final(self).wf(),
            final(self)@ == fanout(old(self)@, msg@),
    {
        let n = self.slots.len();
        let mut i: usize = 0;
        while i < n
            invariant
                n == self.slots@.len(),
                self.slots@.len() == old(self).slots@.len(),
                i <= n,
                ids_distinct(old(self).slots@),
                forall|j: int| 0 <= j < n ==> self.slots@[j].id == old(self).slots@[j].id,
                forall|j: int| 0 <= j < i ==> self.slots@[j].mailbox@ == deliver(
                    old(self).slots@[j].mailbox@,
                    msg@,
                ),
                forall|j: int| i <= j < n ==> self.slots@[j] == old(self).slots@[j],
            decreases n - i,
        {
            let ghost pre = self.slots@;
            if self.slots[i].mailbox.open {
                let m = msg.clone();
                let slot = &mut self.slots[i];
                slot.mailbox.queue.push(m);
                proof {
                    lemma_msgs_view_push(pre[i as int].mailbox.queue@, m);
                    assert(self.slots@[i as int].mailbox@ =~= deliver(
                        old(self).slots@[i as int].mailbox@,
                        msg@,
                    ));
                }
            } else {
                proof {
                    assert(self.slots@[i as int].mailbox@ == deliver(
                        old(self).slots@[i as int].mailbox@,
                        msg@,
                    ));
                }
            }
            i += 1;
        }
        proof {
            lemma_slots_map_fanout(old(self).slots@, self.slots@, msg@);
        }
    }

    /// Deliver a wrapped broadcast request.
    pub fn handle_broadcast(&mut self, msg: Broadcast)
        requires
            old(self).wf(),
        ensures
            final(self).wf(),
            final(self)@ == fanout(old(self)@, msg.0@),
    {
        self.broadcast(&msg.0);
    }

    /// Drain the messages queued for `id`, oldest first. An unknown handle
    /// yields nothing and changes nothing.
    pub fn take_messages(&mut self, id: u64) -> (r: Vec<ServerMessage>)
        requires
            old(self).wf(),
        ensures
            final(self).wf(),
            old(self)@.contains_key(id) ==> (msgs_view(r@) == old(self)@[id].queue && final(self)@
                == old(self)@.insert(
                id,
                (MailboxModel { open: old(self)@[id].open, queue: Seq::empty() }),
            )),
            !old(self)@.contains_key(id) ==> (r@ == Seq::<ServerMessage>::empty() && final(self)@
                == old(self)@),
    {
        proof {
            lemma_slots_map_dom(self.slots@, id);
        }
        match self.find(id) {
            Some(i) => {
                proof {
                    lemma_slots_map_index(self.slots@, i as int);
                }
                let mut taken: Vec<ServerMessage> = Vec::new();
                let slot = &mut self.slots[i];
                core::mem::swap(&mut slot.mailbox.queue, &mut taken);
                proof {
                    lemma_slots_map_update(old(self).slots@, i as int, self.slots@[i as int]);
                    assert(self.slots@[i as int].mailbox@ =~= (MailboxModel {
                        open: old(self)@[id].open,
                        queue: Seq::empty(),
                    }));
                    assert forall|a: int, b: int|
                        0 <= a < b < self.slots@.len() implies self.slots@[a].id
                        != self.slots@[b].id by {
                        assert(self.slots@[a].id == old(self).slots@[a].id);
                        assert(self.slots@[b].id == old(self).slots@[b].id);
                    }
                }
                taken
            },
            None => {
                Vec::new()
            },
        }
    }

    /// Mark `id`'s mailbox as closed, as happens when its receiving end is
    /// dropped before the session has unsubscribed; later broadcasts then
    /// skip it.
    pub fn close_mailbox(&mut self, id: u64)
        requires
            old(self).wf(),
        ensures
            final(self).wf(),
            old(self)@.contains_key(id) ==> final(self)@ == old(self)@.insert(
                id,
                (MailboxModel { open: false, queue: old(self)@[id].queue }),
            ),
            !old(self)@.contains_key(id) ==> final(self)@ == old(self)@,
    {
        proof {
            lemma_slots_map_dom(self.slots@, id);
        }
        match self.find(id) {
            Some(i) => {
                proof {
                    lemma_slots_map_index(self.slots@, i as int);
                }
                let slot = &mut self.slots[i];
                slot.mailbox.open = false;
                proof {
                    lemma_slots_map_update(old(self).slots@, i as int, self.slots@[i as int]);
                    assert(self.slots@[i as int].mailbox@ =~= (MailboxModel {
                        open: false,
                        queue: old(self)@[id].queue,
                    }));
                    assert forall|a: int, b: int|
                        0 <= a < b < self.slots@.len() implies self.slots@[a].id
                        != self.slots@[b].id by {
                        assert(self.slots@[a].id == old(self).slots@[a].id);
                        assert(self.slots@[b].id == old(self).slots@[b].id);
                    }
                }
            },
            None => {
            },
        }
    }

    /// Whether `id` is in the live set.
    pub fn is_subscribed(&self, id: u64) -> (b: bool)
        ensures
            b == self@.contains_key(id),
    {
        proof {
            lemma_slots_map_dom(self.slots@, id);
        }
        self.find(id).is_some()
    }

    /// How many sessions are currently subscribed.
    pub fn subscriber_count(&self) -> (n: usize)
        requires
            self.wf(),
        ensures
            n == self@.dom().len(),
    {
        proof {
            lemma_slots_map_card(self.slots@);
        }
        self.slots.len()
    }
}

/// Fan-out completeness: every handle subscribed with an open mailbox at the
/// instant of a broadcast receives exactly one copy of the message — no
/// omission and no duplication — and membership is unchanged.
pub proof fn lemma_fanout_completeness(m: Map<u64, MailboxModel>, msg: MessageModel, id: u64)
    requires
        m.contains_key(id),
        m[id].open,
    ensures
        fanout(m, msg).dom() == m.dom(),
        fanout(m, msg)[id].open,
        fanout(m, msg)[id].queue == m[id].queue.push(msg),
{
    assert(fanout(m, msg).dom() =~= m.dom());
}

/// Isolation under partial failure: a broadcast that finds one mailbox
/// already closed still delivers exactly one copy to every other open
/// mailbox, and leaves the closed mailbox exactly as it was.
pub proof fn lemma_broadcast_isolation(
    m: Map<u64, MailboxModel>,
    msg: MessageModel,
    failed: u64,
    other: u64,
)
    requires
        m.contains_key(failed),
        !m[failed].open,
        m.contains_key(other),
        m[other].open,
    ensures
        fanout(m, msg)[failed] == m[failed],
        fanout(m, msg)[other].queue == m[other].queue.push(msg),
{
}

/// Idempotent membership: subscribing a handle twice in a row leaves the
/// live set exactly as one subscribe does, with the handle present.
pub proof fn lemma_subscribe_idempotent(m: Map<u64, MailboxModel>, id: u64)
    ensures
        subscribe_effect(subscribe_effect(m, id), id) == subscribe_effect(m, id),
        subscribe_effect(m, id).contains_key(id),
{
}

/// Per-sender ordering: two messages broadcast one after the other arrive
/// in every open mailbox in the order they were sent.
pub proof fn lemma_per_sender_order(
    m: Map<u64, MailboxModel>,
    first: MessageModel,
    second: MessageModel,
    id: u64,
)
    requires
        m.contains_key(id),
        m[id].open,
    ensures
        fanout(fanout(m, first), second)[id].queue == m[id].queue.push(first).push(second),
{
}

/// Idempotent membership, removal half: unsubscribing a handle that is not
/// present changes nothing.
pub proof fn lemma_unsubscribe_unknown(m: Map<u64, MailboxModel>, id: u64)
    requires
        !m.contains_key(id),
    ensures
        m.remove(id) == m,
{
    assert(m.remove(id) =~= m);
}

} // verus!
