//! The registry of live subscriptions: which listeners want which topic,
//! and which wire frames adding or removing one of them calls for.
//!
//! Listeners of one topic share a single subscription on the wire: it is
//! requested when the first listener arrives and cancelled when the last
//! one leaves. The user-events topic admits a single listener.
use crate::error::Error;
use crate::message::Message;
use crate::topic::{
    is_fixed_key, make_subscribe_frame, make_unsubscribe_frame, subscribe_frame, unsubscribe_frame,
    Subscription,
};
use vstd::prelude::*;

verus! {

/// What the registry records of one subscription: its id, its topic key,
/// and the request that was made for it.
pub type Entry = (u32, Seq<u8>, Seq<u8>);

pub open spec fn has_key(v: Seq<Entry>, k: Seq<u8>) -> bool {
    exists|i: int| 0 <= i < v.len() && (#[trigger] v[i]).1 == k
}

pub open spec fn has_id(v: Seq<Entry>, id: u32) -> bool {
    exists|i: int| 0 <= i < v.len() && (#[trigger] v[i]).0 == id
}

/// The ids of the subscriptions to topic `k`, oldest first.
pub open spec fn ids_with_key(v: Seq<Entry>, k: Seq<u8>) -> Seq<u32>
    decreases v.len(),
{
    if v.len() == 0 {
        Seq::empty()
    } else if v.last().1 == k {
        ids_with_key(v.drop_last(), k).push(v.last().0)
    } else {
        ids_with_key(v.drop_last(), k)
    }
}

/// The subscribe frames that restore every live topic after a reconnect:
/// one per topic, with its request, except under the two fixed keys, where
/// each subscriber's own request is sent.
pub open spec fn resubscribe_frames(v: Seq<Entry>) -> Seq<Seq<u8>>
    decreases v.len(),
{
    if v.len() == 0 {
        Seq::empty()
    } else if is_fixed_key(v.last().1) {
        resubscribe_frames(v.drop_last()).push(subscribe_frame(v.last().2))
    } else if has_key(v.drop_last(), v.last().1) {
        resubscribe_frames(v.drop_last())
    } else {
        resubscribe_frames(v.drop_last()).push(subscribe_frame(v.last().1))
    }
}

/// The unsubscribe frame due when the `i`-th subscription is removed after
/// all earlier ones: one exactly when no later subscription shares its topic.
pub open spec fn drain_frame(v: Seq<Entry>, i: int) -> Seq<Seq<u8>> {
    if has_key(v.subrange(i + 1, v.len() as int), v[i].1) {
        Seq::empty()
    } else {
        seq![unsubscribe_frame(v[i].2)]
    }
}

/// The unsubscribe frames of removing the first `n` subscriptions in order.
pub open spec fn drain_frames(v: Seq<Entry>, n: nat) -> Seq<Seq<u8>>
    decreases n,
{
    if n == 0 {
        Seq::empty()
    } else {
        drain_frames(v, (n - 1) as nat) + drain_frame(v, n - 1)
    }
}

pub open spec fn frames_view(fs: Seq<Vec<u8>>) -> Seq<Seq<u8>> {
    fs.map_values(|f: Vec<u8>| f@)
}

/// One live subscription.
#[derive(Debug)]
pub struct SubscriptionData<L> {
    pub subscription_id: u32,
    pub key: Vec<u8>,
    pub request: Vec<u8>,
    pub listener: L,
}

/// The live subscriptions, oldest first, and the next id to hand out.
#[derive(Debug)]
pub struct Registry<L> {
    entries: Vec<SubscriptionData<L>>,
    next_id: u32,
}

fn bytes_eq(a: &Vec<u8>, b: &Vec<u8>) -> (r: bool)
    ensures
        r == (a@ == b@),
{
    if a.len() != b.len() {
        return false;
    }
    let mut i: usize = 0;
    while i < a.len()
        invariant
            i <= a@.len(),
            a@.len() == b@.len(),
            a@.subrange(0, i as int) == b@.subrange(0, i as int),
        decreases a@.len() - i,
    {
        if a[i] != b[i] {
            assert(a@[i as int] == a@.subrange(0, i + 1)[i as int]);
            assert(b@[i as int] == b@.subrange(0, i + 1)[i as int]);
            return false;
        }
        i = i + 1;
        assert(a@.subrange(0, i as int) =~= a@.subrange(0, i - 1).push(a@[i - 1]));
        assert(b@.subrange(0, i as int) =~= b@.subrange(0, i - 1).push(b@[i - 1]));
    }
    assert(a@ =~= a@.subrange(0, i as int));
    assert(b@ =~= b@.subrange(0, i as int));
    true
}

impl<L> View for Registry<L> {
    type V = Seq<Entry>;

    closed spec fn view(&self) -> Seq<Entry> {
        self.entries@.map_values(
            |e: SubscriptionData<L>| (e.subscription_id, e.key@, e.request@),
        )
    }
}

impl<L> Registry<L> {
    /// The listeners, in the order of [`View::view`].
    pub closed spec fn listeners(&self) -> Seq<L> {
        self.entries@.map_values(|e: SubscriptionData<L>| e.listener)
    }

    pub closed spec fn next_id(&self) -> u32 {
        self.next_id
    }

    /// Ids are unique and below the next id.
    pub closed spec fn wf(&self) -> bool {
        &&& forall|i: int, j: int|
            0 <= i < j < self.entries@.len() ==> (#[trigger] self.entries@[i]).subscription_id
                != (#[trigger] self.entries@[j]).subscription_id
        &&& forall|i: int|
            0 <= i < self.entries@.len() ==> (#[trigger] self.entries@[i]).subscription_id
                < self.next_id
    }

    pub fn new() -> (r: Registry<L>)
        ensures
            r.wf(),
            r@ == Seq::<Entry>::empty(),
            r.next_id() == 0,
    {
        let r = Registry { entries: Vec::new(), next_id: 0 };
        assert(r@ =~= Seq::<Entry>::empty());
        r
    }

    proof fn lemma_view_len(&self)
        ensures
            self@.len() == self.entries@.len(),
            self.listeners().len() == self.entries@.len(),
    {
    }

    /// Whether another id can be handed out.
    pub fn next_id_below_max(&self) -> (r: bool)
        ensures
            r == (self.next_id() < u32::MAX),
    {
        self.next_id < u32::MAX
    }

    /// Ids of live subscriptions are unique.
    pub proof fn lemma_ids_unique(&self)
        requires
            self.wf(),
        ensures
            forall|i: int, j: int|
                0 <= i < j < self@.len() ==> (#[trigger] self@[i]).0 != (#[trigger] self@[j]).0,
    {
        assert forall|i: int, j: int| 0 <= i < j < self@.len() implies (#[trigger] self@[i]).0
            != (#[trigger] self@[j]).0 by {
            assert(self.entries@[i].subscription_id != self.entries@[j].subscription_id);
        }
    }

    /// There is one listener per subscription.
    pub proof fn lemma_listeners_len(&self)
        ensures
            self.listeners().len() == self@.len(),
    {
    }

    /// The number of live subscriptions.
    pub fn get_subscription_count(&self) -> (r: usize)
        ensures
            r == self@.len(),
    {
        self.entries.len()
    }

    fn position_of_key(&self, key: &Vec<u8>) -> (r: Option<usize>)
        ensures
            self@.len() == self.entries@.len(),
            r is Some <==> has_key(self@, key@),
            r matches Some(i) ==> i < self@.len() && self@[i as int].1 == key@,
    {
        let mut i: usize = 0;
        while i < self.entries.len()
            invariant
                i <= self.entries@.len(),
                self@.len() == self.entries@.len(),
                forall|j: int| 0 <= j < i ==> (#[trigger] self@[j]).1 != key@,
            decreases self.entries@.len() - i,
        {
            if bytes_eq(&self.entries[i].key, key) {
                assert(self@[i as int].1 == key@);
                return Some(i);
            }
            i = i + 1;
        }
        None
    }

    fn position_of_id(&self, id: u32) -> (r: Option<usize>)
        ensures
            r is Some <==> has_id(self@, id),
            r matches Some(i) ==> i < self@.len() && self@[i as int].0 == id,
    {
        let mut i: usize = 0;
        while i < self.entries.len()
            invariant
                i <= self.entries@.len(),
                self@.len() == self.entries@.len(),
                forall|j: int| 0 <= j < i ==> (#[trigger] self@[j]).0 != id,
            decreases self.entries@.len() - i,
        {
            if self.entries[i].subscription_id == id {
                assert(self@[i as int].0 == id);
                return Some(i);
            }
            i = i + 1;
        }
        None
    }

    /// Adds a listener for the topic of `sub` and returns its id, with the
    /// subscribe frame to send when the topic had no listener yet. A second
    /// listener for the user-events topic is refused and nothing changes.
    pub fn add_subscription(&mut self, sub: &Subscription, listener: L) -> (r: Result<
        (u32, Option<Vec<u8>>),
        Error,
    >)
        requires
            old(self).wf(),
            old(self).next_id() < u32::MAX,
        ensures
            final(self).wf(),
            r is Err <==> (sub.is_user_events() && has_key(old(self)@, sub.topic_key())),
            r is Err ==> r->Err_0 == Error::UserEvents && final(self)@ == old(self)@
                && final(self).listeners() == old(self).listeners() && final(self).next_id()
                == old(self).next_id(),
            r matches Ok((id, frame)) ==> {
                &&& id == old(self).next_id()
                &&& !has_id(old(self)@, id)
                &&& final(self).next_id() == id + 1
                &&& final(self)@ == old(self)@.push((id, sub.topic_key(), sub.json()))
                &&& final(self).listeners() == old(self).listeners().push(listener)
                &&& (frame is None <==> has_key(old(self)@, sub.topic_key()))
                &&& (frame matches Some(f) ==> f@ == subscribe_frame(sub.json()))
            },
    {
        let key = sub.get_topic_key();
        let existing = self.position_of_key(&key);
        let is_user_events = match sub {
            Subscription::UserEvents { .. } => true,
            _ => false,
        };
        if is_user_events && existing.is_some() {
            return Err(Error::UserEvents);
        }
        let request = sub.to_json();
        let frame = if existing.is_none() {
            Some(make_subscribe_frame(&request))
        } else {
            None
        };
        let id = self.next_id;
        proof {
            self.lemma_view_len();
            assert forall|i: int| 0 <= i < self@.len() implies (#[trigger] self@[i]).0 != id by {
                assert(self.entries@[i].subscription_id < self.next_id);
            }
        }
        self.entries.push(SubscriptionData { subscription_id: id, key, request, listener });
        self.next_id = id + 1;
        proof {
            self.lemma_view_len();
        }
        assert(self@ =~= old(self)@.push((id, sub.topic_key(), sub.json())));
        assert(self.listeners() =~= old(self).listeners().push(listener));
        Ok((id, frame))
    }

    /// Removes the subscription with the given id and returns the
    /// unsubscribe frame to send when it was the last of its topic.
    pub fn remove_subscription(&mut self, subscription_id: u32) -> (r: Result<
        Option<Vec<u8>>,
        Error,
    >)
        requires
            old(self).wf(),
        ensures
            final(self).wf(),
            final(self).next_id() == old(self).next_id(),
            r is Err <==> !has_id(old(self)@, subscription_id),
            r is Err ==> r->Err_0 == Error::SubscriptionNotFound && final(self)@ == old(self)@
                && final(self).listeners() == old(self).listeners(),
            r matches Ok(frame) ==> exists|i: int|
                {
                    &&& 0 <= i < old(self)@.len()
                    &&& (#[trigger] old(self)@[i]).0 == subscription_id
                    &&& final(self)@ == old(self)@.remove(i)
                    &&& final(self).listeners() == old(self).listeners().remove(i)
                    &&& (frame is None <==> has_key(final(self)@, old(self)@[i].1))
                    &&& (frame matches Some(f) ==> f@ == unsubscribe_frame(old(self)@[i].2))
                },
    {
        let i = match self.position_of_id(subscription_id) {
            Some(i) => i,
            None => {
                return Err(Error::SubscriptionNotFound);
            },
        };
        proof {
            self.lemma_view_len();
        }
        let removed = self.entries.remove(i);
        proof {
            self.lemma_view_len();
        }
        assert(self@ =~= old(self)@.remove(i as int));
        assert(self.listeners() =~= old(self).listeners().remove(i as int));
        assert(forall|j: int|
            0 <= j < self.entries@.len() ==> #[trigger] self.entries@[j] == old(self).entries@[if j
                < i {
                j
            } else {
                j + 1
            }]);
        let frame = if self.position_of_key(&removed.key).is_some() {
            None
        } else {
            Some(make_unsubscribe_frame(&removed.request))
        };
        Ok(frame)
    }

    /// The ids of the listeners of `key`, oldest first.
    pub fn listeners_of(&self, key: &Vec<u8>) -> (r: Vec<u32>)
        ensures
            r@ == ids_with_key(self@, key@),
    {
        let mut r: Vec<u32> = Vec::new();
        let mut i: usize = 0;
        while i < self.entries.len()
            invariant
                i <= self.entries@.len(),
                self@.len() == self.entries@.len(),
                r@ == ids_with_key(self@.subrange(0, i as int), key@),
            decreases self.entries@.len() - i,
        {
            if bytes_eq(&self.entries[i].key, key) {
                r.push(self.entries[i].subscription_id);
            }
            i = i + 1;
            assert(self@.subrange(0, i as int).drop_last() =~= self@.subrange(0, i - 1));
        }
        assert(self@.subrange(0, i as int) =~= self@);
        r
    }

    /// The ids of the listeners a message is delivered to, oldest first;
    /// none when the message has no topic.
    pub fn route(&self, message: &Message) -> (r: Vec<u32>)
        ensures
            r@ == match message.topic() {
                Some(k) => ids_with_key(self@, k),
                None => Seq::empty(),
            },
    {
        match message.get_identifier() {
            Some(k) => self.listeners_of(&k),
            None => Vec::new(),
        }
    }

    /// The ids of all live subscriptions, oldest first.
    pub fn subscription_ids(&self) -> (r: Vec<u32>)
        ensures
            r@ == self@.map_values(|e: Entry| e.0),
    {
        let mut r: Vec<u32> = Vec::new();
        let mut i: usize = 0;
        while i < self.entries.len()
            invariant
                i <= self.entries@.len(),
                self@.len() == self.entries@.len(),
                r@ == self@.subrange(0, i as int).map_values(|e: Entry| e.0),
            decreases self.entries@.len() - i,
        {
            r.push(self.entries[i].subscription_id);
            i = i + 1;
            assert(r@ =~= self@.subrange(0, i as int).map_values(|e: Entry| e.0));
        }
        assert(self@.subrange(0, i as int) =~= self@);
        r
    }

    /// The listener of a subscription.
    pub fn listener(&self, subscription_id: u32) -> (r: Option<&L>)
        ensures
            r is Some <==> has_id(self@, subscription_id),
            r matches Some(l) ==> exists|i: int|
                0 <= i < self@.len() && (#[trigger] self@[i]).0 == subscription_id && *l
                    == self.listeners()[i],
    {
        match self.position_of_id(subscription_id) {
            Some(i) => Some(&self.entries[i].listener),
            None => None,
        }
    }

    /// The subscribe frames that restore every live topic on a new
    /// connection.
    pub fn resubscribe(&self) -> (r: Vec<Vec<u8>>)
        ensures
            frames_view(r@) == resubscribe_frames(self@),
    {
        let mut r: Vec<Vec<u8>> = Vec::new();
        let mut i: usize = 0;
        while i < self.entries.len()
            invariant
                i <= self.entries@.len(),
                self@.len() == self.entries@.len(),
                frames_view(r@) == resubscribe_frames(self@.subrange(0, i as int)),
            decreases self.entries@.len() - i,
        {
            let ghost prefix = self@.subrange(0, i as int);
            let e = &self.entries[i];
            let ghost ev = self@[i as int];
            assert(self@.subrange(0, i + 1).drop_last() =~= prefix);
            assert(self@.subrange(0, i + 1).last() == ev);
            if is_fixed(&e.key) {
                r.push(make_subscribe_frame(&e.request));
            } else if !self.key_in_prefix(&e.key, i) {
                r.push(make_subscribe_frame(&e.key));
            }
            i = i + 1;
            assert(frames_view(r@) =~= resubscribe_frames(self@.subrange(0, i as int)));
        }
        assert(self@.subrange(0, i as int) =~= self@);
        r
    }

    fn key_in_prefix(&self, key: &Vec<u8>, n: usize) -> (r: bool)
        requires
            n <= self@.len(),
        ensures
            r == has_key(self@.subrange(0, n as int), key@),
    {
        let mut i: usize = 0;
        while i < n
            invariant
                i <= n <= self@.len(),
                self@.len() == self.entries@.len(),
                forall|j: int| 0 <= j < i ==> (#[trigger] self@[j]).1 != key@,
            decreases n - i,
        {
            if bytes_eq(&self.entries[i].key, key) {
                assert(self@.subrange(0, n as int)[i as int] == self@[i as int]);
                return true;
            }
            i = i + 1;
        }
        false
    }

    fn key_in_suffix(&self, key: &Vec<u8>, n: usize) -> (r: bool)
        requires
            n <= self@.len(),
        ensures
            r == has_key(self@.subrange(n as int, self@.len() as int), key@),
    {
        let mut i: usize = n;
        while i < self.entries.len()
            invariant
                n <= i <= self@.len(),
                self@.len() == self.entries@.len(),
                forall|j: int| n <= j < i ==> (#[trigger] self@[j]).1 != key@,
            decreases self@.len() - i,
        {
            if bytes_eq(&self.entries[i].key, key) {
                assert(self@.subrange(n as int, self@.len() as int)[i - n] == self@[i as int]);
                return true;
            }
            i = i + 1;
        }
        assert forall|j: int| 0 <= j < self@.len() - n implies #[trigger] self@.subrange(
            n as int,
            self@.len() as int,
        )[j].1 != key@ by {
            assert(self@.subrange(n as int, self@.len() as int)[j] == self@[n + j]);
        }
        false
    }

    /// Removes every subscription, oldest first, and returns the
    /// unsubscribe frame of each topic whose last listener left.
    pub fn drain(&mut self) -> (r: Vec<Vec<u8>>)
        requires
            old(self).wf(),
        ensures
            final(self).wf(),
            final(self)@ == Seq::<Entry>::empty(),
            final(self).next_id() == old(self).next_id(),
            frames_view(r@) == drain_frames(old(self)@, old(self)@.len()),
    {
        let mut r: Vec<Vec<u8>> = Vec::new();
        let mut i: usize = 0;
        while i < self.entries.len()
            invariant
                i <= self.entries@.len(),
                self@.len() == self.entries@.len(),
                frames_view(r@) == drain_frames(self@, i as nat),
            decreases self.entries@.len() - i,
        {
            if !self.key_in_suffix(&self.entries[i].key, i + 1) {
                r.push(make_unsubscribe_frame(&self.entries[i].request));
            }
            i = i + 1;
            assert(frames_view(r@) =~= drain_frames(self@, i as nat));
        }
        self.entries.clear();
        assert(self@ =~= Seq::<Entry>::empty());
        r
    }
}

fn is_fixed(key: &Vec<u8>) -> (r: bool)
    ensures
        r == is_fixed_key(key@),
{
    let mut a: Vec<u8> = Vec::new();
    crate::msgpack::push_all(&mut a, "userEvents".as_bytes());
    let mut b: Vec<u8> = Vec::new();
    crate::msgpack::push_all(&mut b, "orderUpdates".as_bytes());
    bytes_eq(key, &a) || bytes_eq(key, &b)
}

/// After a reconnect, with no subscription under a fixed key, every live
/// topic is requested again exactly once: the frames hold no repeat, and a
/// frame is among them exactly when it subscribes to the key of a live
/// subscription.
pub proof fn lemma_resubscribe_each_topic_once(v: Seq<Entry>)
    requires
        forall|i: int| 0 <= i < v.len() ==> !is_fixed_key((#[trigger] v[i]).1),
    ensures
        resubscribe_frames(v).no_duplicates(),
        forall|f: Seq<u8>|
            resubscribe_frames(v).contains(f) <==> exists|i: int|
                0 <= i < v.len() && f == subscribe_frame((#[trigger] v[i]).1),
    decreases v.len(),
{
    if v.len() > 0 {
        let w = v.drop_last();
        let e = v.last();
        assert forall|i: int| 0 <= i < w.len() implies !is_fixed_key((#[trigger] w[i]).1) by {
            assert(w[i] == v[i]);
        }
        lemma_resubscribe_each_topic_once(w);
        let fw = resubscribe_frames(w);
        assert(!is_fixed_key(v[v.len() - 1].1));
        if has_key(w, e.1) {
            let j = choose|j: int| 0 <= j < w.len() && (#[trigger] w[j]).1 == e.1;
            assert forall|f: Seq<u8>|
                resubscribe_frames(v).contains(f) <==> exists|i: int|
                    0 <= i < v.len() && f == subscribe_frame((#[trigger] v[i]).1) by {
                if resubscribe_frames(v).contains(f) {
                    let i = choose|i: int| 0 <= i < w.len() && f == subscribe_frame((#[trigger] w[i]).1);
                    assert(v[i] == w[i]);
                }
                if exists|i: int| 0 <= i < v.len() && f == subscribe_frame((#[trigger] v[i]).1) {
                    let i = choose|i: int| 0 <= i < v.len() && f == subscribe_frame((#[trigger] v[i]).1);
                    if i == v.len() - 1 {
                        assert(w[j] == v[j]);
                        assert(f == subscribe_frame(w[j].1));
                    } else {
                        assert(w[i] == v[i]);
                    }
                }
            }
        } else {
            let g = subscribe_frame(e.1);
            assert(resubscribe_frames(v) == fw.push(g));
            assert(!fw.contains(g)) by {
                if fw.contains(g) {
                    let i = choose|i: int| 0 <= i < w.len() && g == subscribe_frame((#[trigger] w[i]).1);
                    crate::topic::lemma_subscribe_frame_injective(e.1, w[i].1);
                }
            }
            assert forall|a: int, b: int|
                0 <= a < fw.push(g).len() && 0 <= b < fw.push(g).len() && a != b implies fw.push(
                g,
            )[a] != fw.push(g)[b] by {
                if a < fw.len() && b < fw.len() {
                    assert(fw[a] != fw[b]);
                } else if a < fw.len() {
                    assert(fw.contains(fw[a]));
                } else {
                    assert(fw.contains(fw[b]));
                }
            }
            assert forall|f: Seq<u8>|
                resubscribe_frames(v).contains(f) <==> exists|i: int|
                    0 <= i < v.len() && f == subscribe_frame((#[trigger] v[i]).1) by {
                if resubscribe_frames(v).contains(f) {
                    if f == g {
                        assert(f == subscribe_frame(v[v.len() - 1].1));
                    } else {
                        assert(fw.contains(f));
                        let i = choose|i: int|
                            0 <= i < w.len() && f == subscribe_frame((#[trigger] w[i]).1);
                        assert(v[i] == w[i]);
                    }
                }
                if exists|i: int| 0 <= i < v.len() && f == subscribe_frame((#[trigger] v[i]).1) {
                    let i = choose|i: int| 0 <= i < v.len() && f == subscribe_frame((#[trigger] v[i]).1);
                    if i == v.len() - 1 {
                        assert(fw.push(g)[fw.len() as int] == f);
                    } else {
                        assert(w[i] == v[i]);
                        assert(fw.contains(f));
                        let k = choose|k: int| 0 <= k < fw.len() && fw[k] == f;
                        assert(fw.push(g)[k] == f);
                    }
                }
            }
        }
    }
}

/// With live subscribers on exactly two ordinary topics `x` and `y`, a
/// reconnect sends exactly two subscribe frames, one for each.
pub proof fn lemma_resubscribe_two_topics(v: Seq<Entry>, x: Seq<u8>, y: Seq<u8>)
    requires
        x != y,
        !is_fixed_key(x),
        !is_fixed_key(y),
        has_key(v, x),
        has_key(v, y),
        forall|i: int| 0 <= i < v.len() ==> (#[trigger] v[i]).1 == x || v[i].1 == y,
    ensures
        resubscribe_frames(v).len() == 2,
        resubscribe_frames(v).contains(subscribe_frame(x)),
        resubscribe_frames(v).contains(subscribe_frame(y)),
{
    assert forall|i: int| 0 <= i < v.len() implies !is_fixed_key((#[trigger] v[i]).1) by {
        assert(v[i].1 == x || v[i].1 == y);
    }
    lemma_resubscribe_each_topic_once(v);
    let fs = resubscribe_frames(v);
    let ix = choose|i: int| 0 <= i < v.len() && (#[trigger] v[i]).1 == x;
    let iy = choose|i: int| 0 <= i < v.len() && (#[trigger] v[i]).1 == y;
    assert(fs.contains(subscribe_frame(v[ix].1)));
    assert(fs.contains(subscribe_frame(v[iy].1)));
    assert(subscribe_frame(x) != subscribe_frame(y)) by {
        if subscribe_frame(x) == subscribe_frame(y) {
            crate::topic::lemma_subscribe_frame_injective(x, y);
        }
    }
    assert(fs.to_set() =~= set![subscribe_frame(x), subscribe_frame(y)]) by {
        assert forall|f: Seq<u8>| fs.to_set().contains(f) implies f == subscribe_frame(x) || f
            == subscribe_frame(y) by {
            assert(fs.contains(f));
            let i = choose|i: int| 0 <= i < v.len() && f == subscribe_frame((#[trigger] v[i]).1);
            assert(v[i].1 == x || v[i].1 == y);
        }
    }
    fs.unique_seq_to_set();
    assert(set![subscribe_frame(x), subscribe_frame(y)].len() == 2);
}

/// Two listeners of one topic share one wire subscription: the first add
/// finds no listener (so a subscribe frame goes out), the second finds one
/// (so none does); removing either of the two leaves the topic live (no
/// unsubscribe), and removing the last one leaves it empty (one
/// unsubscribe).
pub proof fn lemma_shared_topic_frames(v: Seq<Entry>, a: Entry, b: Entry)
    requires
        !has_key(v, a.1),
        a.1 == b.1,
    ensures
        !has_key(v, a.1),
        has_key(v.push(a), b.1),
        has_key(v.push(a).push(b).remove(v.len() as int), a.1),
        has_key(v.push(a).push(b).remove(v.len() as int + 1), a.1),
        !has_key(v.push(a).remove(v.len() as int), a.1),
{
    let w = v.push(a);
    assert(w[v.len() as int] == a);
    let u = v.push(a).push(b);
    assert(u.remove(v.len() as int)[v.len() as int] == b);
    assert(u.remove(v.len() as int + 1)[v.len() as int] == a);
    assert(w.remove(v.len() as int) =~= v);
}

} // verus!
