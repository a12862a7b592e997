use vstd::prelude::*;

verus! {

/// Opaque token for one subscription to a [`ThemeChannel`].
#[derive(Clone, Copy, Debug, PartialEq, Eq, Hash, Structural)]
pub struct SubscriptionHandle {
    pub id: u64,
}

/// Abstract state of a channel: the live subscriptions in notification
/// order, and the id the next subscription will receive.
pub struct ChannelView {
    pub subscribers: Seq<SubscriptionHandle>,
    pub next_id: nat,
}

/// `s` with every occurrence of `h` taken out, the rest kept in order.
pub open spec fn without(s: Seq<SubscriptionHandle>, h: SubscriptionHandle) -> Seq<SubscriptionHandle>
    decreases s.len(),
{
    if s.len() == 0 {
        s
    } else {
        let rest = without(s.drop_last(), h);
        if s.last() == h {
            rest
        } else {
            rest.push(s.last())
        }
    }
}

impl ChannelView {
    /// Ids strictly increase along the list (so the list holds no duplicate
    /// and follows subscription order), and every id was already issued.
    pub open spec fn wf(self) -> bool {
        &&& forall|i: int, j: int|
            0 <= i < j < self.subscribers.len() ==> (#[trigger] self.subscribers[i]).id
                < (#[trigger] self.subscribers[j]).id
        &&& forall|i: int| 0 <= i < self.subscribers.len() ==> (#[trigger] self.subscribers[i]).id < self.next_id
    }

    /// The handle that the next `subscribe` hands out.
    pub open spec fn fresh_handle(self) -> SubscriptionHandle {
        SubscriptionHandle { id: self.next_id as u64 }
    }

    pub open spec fn subscribed(self) -> ChannelView {
        ChannelView { subscribers: self.subscribers.push(self.fresh_handle()), next_id: self.next_id + 1 }
    }

    pub open spec fn unsubscribed(self, h: SubscriptionHandle) -> ChannelView {
        ChannelView { subscribers: without(self.subscribers, h), next_id: self.next_id }
    }

    /// Who an event published in this state reaches, in delivery order.
    pub open spec fn recipients(self) -> Seq<SubscriptionHandle> {
        self.subscribers
    }
}

/// Publish/subscribe hub that broadcasts theme changes to its subscribers.
///
/// The channel decides who is notified and in which order; running the
/// callbacks belongs to whoever owns the channel, which walks the snapshot
/// returned by [`ThemeChannel::publish`].
pub struct ThemeChannel {
    subscribers: Vec<SubscriptionHandle>,
    next_id: u64,
}

impl View for ThemeChannel {
    type V = ChannelView;

    closed spec fn view(&self) -> ChannelView {
        ChannelView { subscribers: self.subscribers@, next_id: self.next_id as nat }
    }
}

impl ThemeChannel {
    pub open spec fn wf(&self) -> bool {
        self@.wf()
    }

    /// A channel with no subscriber.
    pub fn new() -> (r: ThemeChannel)
        ensures
            r.wf(),
            r@.subscribers.len() == 0,
            r@.next_id == 0,
    {
        ThemeChannel { subscribers: Vec::new(), next_id: 0 }
    }

    /// Whether another subscription can still be given a fresh id.
    pub fn can_subscribe(&self) -> (r: bool)
        ensures
            r == (self@.next_id < u64::MAX),
    {
        self.next_id < u64::MAX
    }

    /// Registers a new subscriber at the end of the notification order.
    pub fn subscribe(&mut self) -> (h: SubscriptionHandle)
        requires
            old(self).wf(),
            old(self)@.next_id < u64::MAX,
        ensures
            final(self).wf(),
            h == old(self)@.fresh_handle(),
            final(self)@ == old(self)@.subscribed(),
    {
        let h = SubscriptionHandle { id: self.next_id };
        let ghost s = self.subscribers@;
        self.subscribers.push(h);
        self.next_id = self.next_id + 1;
        proof {
            let n = self.subscribers@;
            assert forall|i: int| 0 <= i < s.len() implies n[i] == s[i] by {}
            assert forall|i: int, j: int| 0 <= i < j < n.len() implies (#[trigger] n[i]).id < (#[trigger] n[j]).id by {
                if j == s.len() {
                    assert(n[i] == s[i]);
                    assert(n[j] == h);
                    assert(old(self)@.subscribers[i] == s[i]);
                    assert(s[i].id < old(self)@.next_id);
                } else {
                    assert(n[i] == s[i] && n[j] == s[j]);
                    assert(old(self)@.subscribers[i] == s[i] && old(self)@.subscribers[j] == s[j]);
                }
            }
            assert forall|i: int| 0 <= i < n.len() implies (#[trigger] n[i]).id < self.next_id by {
                if i < s.len() {
                    assert(n[i] == s[i]);
                    assert(old(self)@.subscribers[i] == s[i]);
                } else {
                    assert(n[i] == h);
                }
            }
        }
        h
    }

    /// Removes the subscription `h`; unknown or already removed handles are
    /// left alone.
    pub fn unsubscribe(&mut self, h: SubscriptionHandle)
        requires
            old(self).wf(),
        ensures
            final(self).wf(),
            final(self)@ == old(self)@.unsubscribed(h),
            !final(self)@.subscribers.contains(h),
            forall|x: SubscriptionHandle| #[trigger] final(self)@.subscribers.contains(x)
                <==> (old(self)@.subscribers.contains(x) && x != h),
    {
        let ghost s = self.subscribers@;
        let mut kept: Vec<SubscriptionHandle> = Vec::new();
        let mut i: usize = 0;
        while i < self.subscribers.len()
            invariant
                self.subscribers@ == s,
                i <= s.len(),
                kept@ == without(s.subrange(0, i as int), h),
            decreases s.len() - i,
        {
            let x = self.subscribers[i];
            proof {
                assert(s.subrange(0, i + 1).drop_last() == s.subrange(0, i as int));
            }
            if x != h {
                kept.push(x);
            }
            i = i + 1;
        }
        proof {
            assert(s.subrange(0, s.len() as int) == s);
            lemma_without_sub(s, h);
            lemma_without_keeps_wf(self@, h);
        }
        self.subscribers = kept;
    }

    /// The snapshot of subscribers that an event published now reaches, in
    /// subscription order. Later changes to the channel leave it as it is.
    pub fn publish(&self) -> (r: Vec<SubscriptionHandle>)
        requires
            self.wf(),
        ensures
            r@ == self@.recipients(),
    {
        self.subscribers.clone()
    }

    /// Number of live subscriptions.
    pub fn len(&self) -> (r: usize)
        ensures
            r == self@.subscribers.len(),
    {
        self.subscribers.len()
    }

    /// Whether `h` is a live subscription.
    pub fn is_subscribed(&self, h: SubscriptionHandle) -> (r: bool)
        ensures
            r == self@.subscribers.contains(h),
    {
        let mut i: usize = 0;
        while i < self.subscribers.len()
            invariant
                i <= self.subscribers@.len(),
                forall|k: int| 0 <= k < i ==> self.subscribers@[k] != h,
            decreases self.subscribers@.len() - i,
        {
            if self.subscribers[i] == h {
                return true;
            }
            i = i + 1;
        }
        false
    }
}

/// Everything left after removing `h` was in the list, and `h` is gone.
pub proof fn lemma_without_sub(s: Seq<SubscriptionHandle>, h: SubscriptionHandle)
    ensures
        !without(s, h).contains(h),
        forall|x: SubscriptionHandle| #[trigger] without(s, h).contains(x) <==> (s.contains(x) && x != h),
        without(s, h).len() <= s.len(),
    decreases s.len(),
{
    if s.len() > 0 {
        lemma_without_sub(s.drop_last(), h);
        assert forall|x: SubscriptionHandle| s.contains(x) <==> (s.drop_last().contains(x) || x == s.last()) by {
            if s.contains(x) {
                let k = choose|k: int| 0 <= k < s.len() && s[k] == x;
                if k < s.len() - 1 {
                    assert(s.drop_last()[k] == x);
                }
            }
            if s.drop_last().contains(x) {
                let k = choose|k: int| 0 <= k < s.drop_last().len() && s.drop_last()[k] == x;
                assert(s[k] == x);
            }
            if x == s.last() {
                assert(s[s.len() - 1] == x);
            }
        }
        let rest = without(s.drop_last(), h);
        if s.last() != h {
            assert forall|x: SubscriptionHandle| rest.push(s.last()).contains(x) <==> (rest.contains(x) || x == s.last()) by {
                if rest.push(s.last()).contains(x) {
                    let k = choose|k: int| 0 <= k < rest.len() + 1 && rest.push(s.last())[k] == x;
                    if k < rest.len() {
                        assert(rest[k] == x);
                    }
                }
                if rest.contains(x) {
                    let k = choose|k: int| 0 <= k < rest.len() && rest[k] == x;
                    assert(rest.push(s.last())[k] == x);
                }
                if x == s.last() {
                    assert(rest.push(s.last())[rest.len() as int] == x);
                }
            }
        }
        assert forall|x: SubscriptionHandle| #[trigger] without(s, h).contains(x) <==> (s.contains(x) && x != h) by {
            assert(rest.contains(x) <==> (s.drop_last().contains(x) && x != h));
        }
    }
}

/// Removing a handle keeps the ids increasing and issued.
pub proof fn lemma_without_keeps_wf(v: ChannelView, h: SubscriptionHandle)
    requires
        v.wf(),
    ensures
        v.unsubscribed(h).wf(),
    decreases v.subscribers.len(),
{
    let s = v.subscribers;
    if s.len() > 0 {
        let w = ChannelView { subscribers: s.drop_last(), next_id: v.next_id };
        assert(w.wf()) by {
            assert forall|i: int, j: int| 0 <= i < j < w.subscribers.len() implies
                (#[trigger] w.subscribers[i]).id < (#[trigger] w.subscribers[j]).id by {
                assert(s[i] == w.subscribers[i] && s[j] == w.subscribers[j]);
            }
            assert forall|i: int| 0 <= i < w.subscribers.len() implies
                (#[trigger] w.subscribers[i]).id < w.next_id by {
                assert(s[i] == w.subscribers[i]);
            }
        }
        lemma_without_keeps_wf(w, h);
        lemma_without_sub(s.drop_last(), h);
        let rest = without(s.drop_last(), h);
        if s.last() != h {
            assert forall|i: int| 0 <= i < rest.len() implies (#[trigger] rest[i]).id < s.last().id by {
                assert(rest.contains(rest[i]));
                let k = choose|k: int| 0 <= k < s.drop_last().len() && s.drop_last()[k] == rest[i];
                assert(s[k] == rest[i]);
            }
            let r2 = rest.push(s.last());
            assert forall|i: int, j: int| 0 <= i < j < r2.len() implies
                (#[trigger] r2[i]).id < (#[trigger] r2[j]).id by {
                if j == r2.len() - 1 {
                    assert(r2[i] == rest[i] && r2[j] == s.last());
                    assert(rest[i].id < s.last().id);
                } else {
                    assert(r2[i] == rest[i] && r2[j] == rest[j]);
                    assert(w.unsubscribed(h).subscribers == rest);
                    assert(rest[i].id < rest[j].id);
                }
            }
            assert forall|i: int| 0 <= i < r2.len() implies (#[trigger] r2[i]).id < v.next_id by {
                if i < rest.len() {
                    assert(r2[i] == rest[i]);
                } else {
                    assert(r2[i] == s[s.len() - 1]);
                }
            }
        }
    }
}

/// Removing a handle that is not in the list leaves the list unchanged.
pub proof fn lemma_without_absent(s: Seq<SubscriptionHandle>, h: SubscriptionHandle)
    requires
        !s.contains(h),
    ensures
        without(s, h) == s,
    decreases s.len(),
{
    if s.len() > 0 {
        assert(!s.drop_last().contains(h)) by {
            if s.drop_last().contains(h) {
                let k = choose|k: int| 0 <= k < s.drop_last().len() && s.drop_last()[k] == h;
                assert(s[k] == h);
            }
        }
        lemma_without_absent(s.drop_last(), h);
        assert(s[s.len() - 1] != h);
        assert(s.drop_last().push(s.last()) == s);
    }
}

/// Subscribers are notified in the order in which they subscribed: after
/// three subscriptions `a`, `b`, `c` in turn, a publish reaches `a`, then
/// `b`, then `c`, after everyone who subscribed before them.
pub proof fn lemma_delivery_in_subscription_order(v: ChannelView)
    requires
        v.wf(),
        v.next_id + 3 <= u64::MAX,
    ensures
        ({
            let a = v.fresh_handle();
            let b = v.subscribed().fresh_handle();
            let c = v.subscribed().subscribed().fresh_handle();
            let r = v.subscribed().subscribed().subscribed().recipients();
            let n = v.recipients().len() as int;
            &&& r == v.recipients() + seq![a, b, c]
            &&& r[n] == a && r[n + 1] == b && r[n + 2] == c
            &&& a.id < b.id && b.id < c.id
        }),
{
    let a = v.fresh_handle();
    let b = v.subscribed().fresh_handle();
    let c = v.subscribed().subscribed().fresh_handle();
    let r = v.subscribed().subscribed().subscribed().recipients();
    assert(r == v.recipients() + seq![a, b, c]);
}

/// Every publish reaches its recipients in the order of their ids, which
/// is the order in which they subscribed.
pub proof fn lemma_recipients_in_id_order(v: ChannelView, i: int, j: int)
    requires
        v.wf(),
        0 <= i < j < v.recipients().len(),
    ensures
        v.recipients()[i].id < v.recipients()[j].id,
{
}

/// Unsubscribing twice has the same effect as unsubscribing once.
pub proof fn lemma_unsubscribe_idempotent(v: ChannelView, h: SubscriptionHandle)
    requires
        v.wf(),
    ensures
        v.unsubscribed(h).unsubscribed(h) == v.unsubscribed(h),
{
    lemma_without_sub(v.subscribers, h);
    lemma_without_absent(without(v.subscribers, h), h);
}

/// Unsubscribing a handle that is not live changes nothing.
pub proof fn lemma_unsubscribe_unknown(v: ChannelView, h: SubscriptionHandle)
    requires
        v.wf(),
        !v.recipients().contains(h),
    ensures
        v.unsubscribed(h) == v,
{
    lemma_without_absent(v.subscribers, h);
}

/// No replay: no event published in an earlier state of the channel, whose
/// id counter had not gone past the present one, reaches the handle that
/// the next subscription receives.
pub proof fn lemma_no_replay(earlier: ChannelView, now: ChannelView)
    requires
        earlier.wf(),
        earlier.next_id <= now.next_id,
        now.next_id < u64::MAX,
    ensures
        !earlier.recipients().contains(now.fresh_handle()),
{
    if earlier.recipients().contains(now.fresh_handle()) {
        let k = choose|k: int| 0 <= k < earlier.subscribers.len() && earlier.subscribers[k] == now.fresh_handle();
        assert(earlier.subscribers[k].id < earlier.next_id);
    }
}

/// A subscriber that unsubscribes itself while a publish is delivered to
/// it leaves the channel well formed, drops out of it, and keeps every
/// other subscriber; the snapshot being delivered is a separate value.
pub proof fn lemma_self_unsubscribe(v: ChannelView, i: int)
    requires
        v.wf(),
        0 <= i < v.recipients().len(),
    ensures
        v.unsubscribed(v.recipients()[i]).wf(),
        !v.unsubscribed(v.recipients()[i]).recipients().contains(v.recipients()[i]),
        v.recipients()[i].id < v.unsubscribed(v.recipients()[i]).next_id,
        forall|x: SubscriptionHandle|
            #[trigger] v.recipients().contains(x) && x != v.recipients()[i]
                ==> v.unsubscribed(v.recipients()[i]).recipients().contains(x),
{
    let h = v.recipients()[i];
    lemma_without_keeps_wf(v, h);
    lemma_without_sub(v.subscribers, h);
}

/// A handle that was removed stays out: no later subscription or
/// unsubscription brings it back, so it receives no future event.
pub proof fn lemma_removed_stays_out(v: ChannelView, h: SubscriptionHandle, g: SubscriptionHandle)
    requires
        v.wf(),
        !v.recipients().contains(h),
        h.id < v.next_id,
        v.next_id < u64::MAX,
    ensures
        !v.subscribed().recipients().contains(h),
        h.id < v.subscribed().next_id,
        !v.unsubscribed(g).recipients().contains(h),
        h.id < v.unsubscribed(g).next_id,
{
    let s = v.subscribers;
    let f = v.fresh_handle();
    if s.push(f).contains(h) {
        let k = choose|k: int| 0 <= k < s.len() + 1 && s.push(f)[k] == h;
        if k < s.len() {
            assert(s[k] == h);
        } else {
            assert(f.id == v.next_id);
        }
    }
    lemma_without_sub(s, g);
}

} // verus!
