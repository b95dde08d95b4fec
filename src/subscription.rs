use vstd::prelude::*;

use crate::snapshot::{extrapolate_elapsed, read_at, NowPlayingInfo};

verus! {

/// Identifies a subscribed listener. Tokens are handed out in increasing
/// order and never reused within a registry.
#[derive(Debug, Clone, Copy, PartialEq, Eq, Hash, Structural)]
pub struct ListenerToken(u64);

impl ListenerToken {
    pub closed spec fn id(self) -> u64 {
        self.0
    }
}

/// The registry as a mathematical value: the next token to hand out and the
/// stored listeners, each under the identifier of its token, in the order
/// they subscribed.
pub struct ListenersView<L> {
    pub next: u64,
    pub entries: Seq<(u64, L)>,
}

impl<L> ListenersView<L> {
    /// Whether a listener is stored under `id`.
    pub open spec fn holds(self, id: u64) -> bool {
        exists|i: int| 0 <= i < self.entries.len() && #[trigger] self.entries[i].0 == id
    }

    /// Every stored identifier was handed out before, and none twice.
    pub open spec fn wf(self) -> bool {
        &&& forall|i: int| 0 <= i < self.entries.len() ==> #[trigger] self.entries[i].0 < self.next
        &&& forall|i: int, j: int|
            0 <= i < j < self.entries.len() ==> #[trigger] self.entries[i].0
                != #[trigger] self.entries[j].0
    }

    /// The registry after `listener` subscribes.
    pub open spec fn subscribed(self, listener: L) -> ListenersView<L> {
        ListenersView { next: (self.next + 1) as u64, entries: self.entries.push((self.next, listener)) }
    }

    /// The registry after the listener under `id`, if any, unsubscribes.
    pub open spec fn unsubscribed(self, id: u64) -> ListenersView<L> {
        match position_from(self.entries, id, 0) {
            Some(i) => ListenersView { next: self.next, entries: self.entries.remove(i) },
            None => self,
        }
    }
}

/// The index of the first entry under `id`, from index `i` on.
pub open spec fn position_from<L>(entries: Seq<(u64, L)>, id: u64, i: int) -> Option<int>
    decreases entries.len() - i,
{
    if i < 0 || i >= entries.len() {
        None
    } else if entries[i].0 == id {
        Some(i)
    } else {
        position_from(entries, id, i + 1)
    }
}

proof fn lemma_position_from<L>(entries: Seq<(u64, L)>, id: u64, i: int)
    requires
        0 <= i,
    ensures
        position_from(entries, id, i) matches Some(k) ==> i <= k < entries.len() && entries[k].0
            == id,
        position_from(entries, id, i) is None ==> forall|k: int|
            i <= k < entries.len() ==> entries[k].0 != id,
    decreases entries.len() - i,
{
    if i < entries.len() && entries[i].0 != id {
        lemma_position_from(entries, id, i + 1);
    }
}

/// Listeners may be called with any snapshot view.
pub open spec fn accepts_any<L: Fn(&Option<NowPlayingInfo>)>(listener: L) -> bool {
    forall|v: &Option<NowPlayingInfo>| #[trigger] listener.requires((v,))
}

/// The listeners subscribed to snapshot changes.
pub struct Listeners<L> {
    next: u64,
    entries: Vec<(ListenerToken, L)>,
}

impl<L> View for Listeners<L> {
    type V = ListenersView<L>;

    closed spec fn view(&self) -> ListenersView<L> {
        ListenersView {
            next: self.next,
            entries: self.entries@.map_values(|e: (ListenerToken, L)| (e.0.0, e.1)),
        }
    }
}

impl<L: Fn(&Option<NowPlayingInfo>)> Listeners<L> {
    /// Every stored listener may be called with any snapshot view.
    pub closed spec fn callable(&self) -> bool {
        forall|i: int| 0 <= i < self.entries@.len() ==> accepts_any(#[trigger] self.entries@[i].1)
    }

    /// An empty registry, whose first token is 0.
    pub fn new() -> (r: Self)
        ensures
            r@.next == 0,
            r@.entries.len() == 0,
            r@.wf(),
            r.callable(),
    {
        Listeners { next: 0, entries: Vec::new() }
    }

    /// Calls `listener` with the `current` view before returning, so that a
    /// new subscriber need not wait for the next change, then stores it under
    /// a fresh token, which is returned. Only once every token has been
    /// handed out is the listener, though called, not stored, and `None`
    /// returned.
    pub fn subscribe(&mut self, current: &Option<NowPlayingInfo>, listener: L) -> (t: Option<
        ListenerToken,
    >)
        requires
            old(self)@.wf(),
            old(self).callable(),
            accepts_any(listener),
        ensures
            call_ensures(listener, (current,), ()),
            old(self)@.next < u64::MAX ==> (t matches Some(t) && t.id() == old(self)@.next),
            old(self)@.next < u64::MAX ==> final(self)@ == old(self)@.subscribed(listener),
            old(self)@.next == u64::MAX ==> t is None && final(self)@ == old(self)@,
            final(self)@.wf(),
            final(self).callable(),
    {
        listener(current);
        if self.next == u64::MAX {
            return None;
        }
        let t = ListenerToken(self.next);
        self.entries.push((t, listener));
        self.next = self.next + 1;
        assert(self@.entries =~= old(self)@.entries.push((t.0, listener)));
        Some(t)
    }

    /// Subscribes `listener` with the stored snapshot as a read at `now`
    /// sees it: the slot is first brought up to `now`, and the listener is
    /// called with what it then holds.
    pub fn subscribe_at(&mut self, slot: &mut Option<NowPlayingInfo>, now: u64, listener: L) -> (t:
        Option<ListenerToken>)
        requires
            old(self)@.wf(),
            old(self).callable(),
            accepts_any(listener),
        ensures
            *final(slot) == read_at(*old(slot), now),
            call_ensures(listener, (&read_at(*old(slot), now),), ()),
            old(self)@.next < u64::MAX ==> (t matches Some(t) && t.id() == old(self)@.next),
            old(self)@.next < u64::MAX ==> final(self)@ == old(self)@.subscribed(listener),
            old(self)@.next == u64::MAX ==> t is None && final(self)@ == old(self)@,
            final(self)@.wf(),
            final(self).callable(),
    {
        extrapolate_elapsed(slot, now);
        self.subscribe(slot, listener)
    }

    /// Removes the listener stored under `token`; a token that is not stored
    /// changes nothing.
    pub fn unsubscribe(&mut self, token: ListenerToken)
        requires
            old(self)@.wf(),
            old(self).callable(),
        ensures
            final(self)@ == old(self)@.unsubscribed(token.id()),
            !final(self)@.holds(token.id()),
            final(self)@.wf(),
            final(self).callable(),
    {
        let ghost before = self@;
        let mut i: usize = 0;
        while i < self.entries.len()
            invariant
                0 <= i <= self.entries@.len(),
                self@ == before,
                before == old(self)@,
                before.wf(),
                self.callable(),
                position_from(before.entries, token.0, 0) == position_from(
                    before.entries,
                    token.0,
                    i as int,
                ),
            decreases self.entries@.len() - i,
        {
            if self.entries[i].0 == token {
                assert(self.entries@[i as int].0.0 == before.entries[i as int].0);
                let ghost pre = self.entries@;
                let _removed = self.entries.remove(i);
                assert(self@.entries =~= before.entries.remove(i as int));
                assert(position_from(before.entries, token.0, i as int) == Some(i as int));
                assert forall|k: int| 0 <= k < self.entries@.len() implies accepts_any(
                    #[trigger] self.entries@[k].1,
                ) by {
                    if k < i {
                        assert(self.entries@[k] == pre[k]);
                    } else {
                        assert(self.entries@[k] == pre[k + 1]);
                    }
                }
                proof {
                    lemma_removed_unique(before, i as int);
                }
                assert(self@ == before.unsubscribed(token.id()));
                return;
            }
            assert(self.entries@[i as int].0.0 == before.entries[i as int].0);
            i = i + 1;
        }
        proof {
            lemma_position_from(before.entries, token.0, 0);
        }
    }

    /// Calls every stored listener once with the same `current` view, in the
    /// order they subscribed.
    pub fn notify(&self, current: &Option<NowPlayingInfo>)
        requires
            self.callable(),
        ensures
            forall|i: int|
                0 <= i < self@.entries.len() ==> call_ensures(
                    #[trigger] self@.entries[i].1,
                    (current,),
                    (),
                ),
    {
        let mut i: usize = 0;
        while i < self.entries.len()
            invariant
                0 <= i <= self.entries@.len(),
                self.callable(),
                forall|j: int|
                    0 <= j < i ==> call_ensures(#[trigger] self.entries@[j].1, (current,), ()),
            decreases self.entries@.len() - i,
        {
            let listener = &self.entries[i].1;
            listener(current);
            i = i + 1;
        }
        assert forall|i: int| 0 <= i < self@.entries.len() implies call_ensures(
            #[trigger] self@.entries[i].1,
            (current,),
            (),
        ) by {
            assert(self@.entries[i].1 == self.entries@[i].1);
        }
    }
}

/// One call of `subscribe` or `unsubscribe` leads from `a` to `b`.
pub open spec fn registry_step<L>(a: ListenersView<L>, b: ListenersView<L>) -> bool {
    ||| (a.next < u64::MAX && exists|l: L| b == a.subscribed(l))
    ||| exists|id: u64| b == a.unsubscribed(id)
}

/// A registry step keeps the registry well formed, never lowers the next
/// token, and stores nothing under an identifier below the old next token
/// that was not stored before.
proof fn lemma_step<L>(a: ListenersView<L>, b: ListenersView<L>, x: u64)
    requires
        a.wf(),
        registry_step(a, b),
        x < a.next,
        !a.holds(x),
    ensures
        b.wf(),
        a.next <= b.next,
        !b.holds(x),
{
    if a.next < u64::MAX && exists|l: L| b == a.subscribed(l) {
        let l = choose|l: L| b == a.subscribed(l);
        assert forall|i: int| 0 <= i < b.entries.len() implies #[trigger] b.entries[i].0 < b.next by {
            if i < a.entries.len() {
                assert(b.entries[i] == a.entries[i]);
            }
        }
        assert forall|i: int| 0 <= i < b.entries.len() implies #[trigger] b.entries[i].0 != x by {
            if i < a.entries.len() {
                assert(b.entries[i] == a.entries[i]);
            }
        }
        assert forall|i: int, j: int| 0 <= i < j < b.entries.len() implies #[trigger] b.entries[i].0
            != #[trigger] b.entries[j].0 by {
            assert(b.entries[i] == a.entries[i]);
            if j < a.entries.len() {
                assert(b.entries[j] == a.entries[j]);
            }
        }
    } else {
        let id = choose|id: u64| b == a.unsubscribed(id);
        lemma_position_from(a.entries, id, 0);
        match position_from(a.entries, id, 0) {
            Some(k) => {
                lemma_removed_unique(a, k);
                assert forall|i: int| 0 <= i < b.entries.len() implies #[trigger] b.entries[i].0
                    != x by {
                    if i < k {
                        assert(b.entries[i] == a.entries[i]);
                    } else {
                        assert(b.entries[i] == a.entries[i + 1]);
                    }
                }
            },
            None => {},
        }
    }
}

/// An unsubscribed listener is never called again: from a registry that
/// holds nothing under a token it handed out, every registry reached by
/// further subscribes and unsubscribes holds nothing under that token
/// either, and `notify` calls only the listeners a registry holds.
pub proof fn lemma_unsubscribed_stays_out<L>(views: Seq<ListenersView<L>>, id: u64)
    requires
        views.len() > 0,
        views[0].wf(),
        id < views[0].next,
        !views[0].holds(id),
        forall|i: int| 0 <= i < views.len() - 1 ==> registry_step(#[trigger] views[i], views[i + 1]),
    ensures
        forall|i: int| 0 <= i < views.len() ==> !(#[trigger] views[i]).holds(id),
    decreases views.len(),
{
    if views.len() > 1 {
        let n = views.len() - 1;
        let front = views.drop_last();
        assert forall|i: int| 0 <= i < front.len() - 1 implies registry_step(
            #[trigger] front[i],
            front[i + 1],
        ) by {
            assert(registry_step(views[i], views[i + 1]));
        }
        lemma_unsubscribed_stays_out(front, id);
        lemma_chain_invariant(front, id);
        assert(registry_step(views[n - 1], views[n]));
        lemma_step(views[n - 1], views[n], id);
        assert forall|i: int| 0 <= i < views.len() implies !(#[trigger] views[i]).holds(id) by {
            if i < n {
                assert(views[i] == front[i]);
            }
        }
    }
}

proof fn lemma_chain_invariant<L>(views: Seq<ListenersView<L>>, id: u64)
    requires
        views.len() > 0,
        views[0].wf(),
        id < views[0].next,
        !views[0].holds(id),
        forall|i: int| 0 <= i < views.len() - 1 ==> registry_step(#[trigger] views[i], views[i + 1]),
    ensures
        views.last().wf(),
        id < views.last().next,
        !views.last().holds(id),
    decreases views.len(),
{
    if views.len() > 1 {
        let n = views.len() - 1;
        let front = views.drop_last();
        assert forall|i: int| 0 <= i < front.len() - 1 implies registry_step(
            #[trigger] front[i],
            front[i + 1],
        ) by {
            assert(registry_step(views[i], views[i + 1]));
        }
        lemma_chain_invariant(front, id);
        assert(registry_step(views[n - 1], views[n]));
        lemma_step(views[n - 1], views[n], id);
    }
}

proof fn lemma_removed_unique<L>(before: ListenersView<L>, i: int)
    requires
        before.wf(),
        0 <= i < before.entries.len(),
    ensures
        !(ListenersView { next: before.next, entries: before.entries.remove(i) }).holds(
            before.entries[i].0,
        ),
        (ListenersView { next: before.next, entries: before.entries.remove(i) }).wf(),
{
    let after = ListenersView { next: before.next, entries: before.entries.remove(i) };
    assert forall|k: int| 0 <= k < after.entries.len() implies after.entries[k].0
        != before.entries[i].0 by {
        if k < i {
            assert(after.entries[k] == before.entries[k]);
        } else {
            assert(after.entries[k] == before.entries[k + 1]);
        }
    }
    assert forall|a: int, b: int| 0 <= a < b < after.entries.len() implies after.entries[a].0
        != after.entries[b].0 by {
        let a2 = if a < i { a } else { a + 1 };
        let b2 = if b < i { b } else { b + 1 };
        assert(after.entries[a] == before.entries[a2]);
        assert(after.entries[b] == before.entries[b2]);
    }
    assert forall|k: int| 0 <= k < after.entries.len() implies after.entries[k].0 < after.next by {
        if k < i {
            assert(after.entries[k] == before.entries[k]);
        } else {
            assert(after.entries[k] == before.entries[k + 1]);
        }
    }
}

} // verus!
