//! The listener registry: for each event name, the channels that the
//! front-end registered to be told of that event. A broadcast reaches every
//! channel registered under its event name; the host does the sending.
use vstd::prelude::*;
use crate::error::Result;

verus! {

/// serde_json's JSON value, carried through unopened to the channels.
#[verifier::external_type_specification]
#[verifier::external_body]
pub struct ExJsonValue(serde_json::Value);

/// serde_json's parse error, which a broadcast turns into `InvalidData`.
#[verifier::external_type_specification]
#[verifier::external_body]
pub struct ExJsonError(serde_json::Error);

/// Whether serde_json reads `s` as one JSON value.
pub uninterp spec fn parses_as_json(s: Seq<char>) -> bool;

/// Relies on serde_json::from_str::<serde_json::Value>: it reads the text as one
/// JSON value, and fails exactly when the text is not one.
#[verifier::external_body]
fn parse_json(s: &str) -> (r: core::result::Result<serde_json::Value, serde_json::Error>)
    ensures
        r is Ok <==> parses_as_json(s@),
{
    serde_json::from_str::<serde_json::Value>(s)
}

/// Whether the channel `id` is registered under `event`.
pub open spec fn receives(l: Seq<(Seq<char>, u32)>, event: Seq<char>, id: u32) -> bool {
    l.contains((event, id))
}

/// Whether any channel is registered under `event`.
pub open spec fn has_listeners(l: Seq<(Seq<char>, u32)>, event: Seq<char>) -> bool {
    exists|id: u32| receives(l, event, id)
}

/// `after` is `before` with a channel newly registered under `event` as `id`.
pub open spec fn registered_as(
    before: Seq<(Seq<char>, u32)>,
    after: Seq<(Seq<char>, u32)>,
    event: Seq<char>,
    id: u32,
) -> bool {
    &&& !receives(before, event, id)
    &&& after == before.push((event, id))
}

/// `after` is `before` without the channel `id` of `event`, if it was there.
pub open spec fn removed_from(
    before: Seq<(Seq<char>, u32)>,
    after: Seq<(Seq<char>, u32)>,
    event: Seq<char>,
    id: u32,
) -> bool {
    forall|e: Seq<char>, i: u32|
        #[trigger] receives(after, e, i) <==> (receives(before, e, i) && !(e == event && i == id))
}

/// `ids` are the channels registered under `event`, each once.
pub open spec fn recipients_of(ids: Seq<u32>, l: Seq<(Seq<char>, u32)>, event: Seq<char>) -> bool {
    &&& ids.no_duplicates()
    &&& forall|id: u32| #[trigger] ids.contains(id) <==> receives(l, event, id)
}

/// Whether a broadcast of `payload` under `event` fails: only when someone
/// listens and the payload is not JSON.
pub open spec fn broadcast_fails(l: Seq<(Seq<char>, u32)>, event: Seq<char>, payload: Seq<char>) -> bool {
    has_listeners(l, event) && !parses_as_json(payload)
}

/// One registered channel.
pub struct Listener<C> {
    event: String,
    id: u32,
    channel: C,
}

/// The registry. Each registration gets an id that no other registration of
/// this registry has had.
pub struct ListenerRegistry<C> {
    entries: Vec<Listener<C>>,
    next_id: u32,
}

/// What a broadcast hands to the host: the payload, read once, and the
/// channels to send it to.
#[derive(Debug)]
pub struct Broadcast {
    /// The payload; absent when nobody listens.
    pub value: Option<serde_json::Value>,
    /// The ids of the channels to send it to.
    pub recipients: Vec<u32>,
}

impl<C> View for ListenerRegistry<C> {
    type V = Seq<(Seq<char>, u32)>;

    closed spec fn view(&self) -> Seq<(Seq<char>, u32)> {
        self.entries@.map_values(|e: Listener<C>| (e.event@, e.id))
    }
}

/// An empty registry.
pub fn init<C>() -> (r: ListenerRegistry<C>)
    ensures
        r.wf(),
        r@ == Seq::<(Seq<char>, u32)>::empty(),
{
    let r = ListenerRegistry { entries: Vec::new(), next_id: 0 };
    assert(r@ =~= Seq::<(Seq<char>, u32)>::empty());
    r
}

impl<C> ListenerRegistry<C> {
    /// Every id is below the next one to hand out, and no two entries share an id.
    pub closed spec fn wf(&self) -> bool {
        &&& forall|i: int| 0 <= i < self.entries@.len() ==> #[trigger] self.entries@[i].id < self.next_id
        &&& forall|i: int, j: int|
            0 <= i < self.entries@.len() && 0 <= j < self.entries@.len() && i != j
                ==> #[trigger] self.entries@[i].id != #[trigger] self.entries@[j].id
    }

    /// Whether the ids are used up; no registration succeeds after that.
    pub closed spec fn exhausted(&self) -> bool {
        self.next_id == u32::MAX
    }

    /// The channel registered under `event` as `id`; meaningful where one is.
    pub closed spec fn channel_for(&self, event: Seq<char>, id: u32) -> C {
        let k = choose|k: int|
            0 <= k < self.entries@.len() && self.entries@[k].event@ == event
                && self.entries@[k].id == id;
        self.entries@[k].channel
    }

    proof fn lemma_channel_at(&self, k: int)
        requires
            self.wf(),
            0 <= k < self.entries@.len(),
        ensures
            self.channel_for(self.entries@[k].event@, self.entries@[k].id) == self.entries@[k].channel,
    {
        let e = self.entries@[k].event@;
        let n = self.entries@[k].id;
        let j = choose|j: int|
            0 <= j < self.entries@.len() && self.entries@[j].event@ == e && self.entries@[j].id == n;
        assert(self.entries@[j].id == self.entries@[k].id);
    }

    proof fn lemma_view_index(&self, i: int)
        requires
            0 <= i < self.entries@.len(),
        ensures
            self@.len() == self.entries@.len(),
            self@[i] == (self.entries@[i].event@, self.entries@[i].id),
    {
    }

    /// Registers `channel` under `event` and returns its fresh id; `None`,
    /// with nothing changed, once the ids are used up.
    pub fn register_listener(&mut self, event: String, channel: C) -> (r: Option<u32>)
        requires
            old(self).wf(),
        ensures
            final(self).wf(),
            r is None <==> old(self).exhausted(),
            r is None ==> final(self)@ == old(self)@,
            r is Some ==> registered_as(old(self)@, final(self)@, event@, r->0),
            r is Some ==> final(self).channel_for(event@, r->0) == channel,
            forall|e: Seq<char>, n: u32|
                #[trigger] receives(old(self)@, e, n) ==> final(self).channel_for(e, n)
                    == old(self).channel_for(e, n),
    {
        if self.next_id == u32::MAX {
            return None;
        }
        let id = self.next_id;
        let ghost ev = event@;
        proof {
            if self@.contains((ev, id)) {
                let k = choose|k: int| 0 <= k < self@.len() && self@[k] == (ev, id);
                self.lemma_view_index(k);
            }
        }
        self.entries.push(Listener { event, id, channel });
        self.next_id = id + 1;
        assert(self@ =~= old(self)@.push((ev, id)));
        proof {
            let last = self.entries@.len() - 1;
            self.lemma_channel_at(last);
            assert forall|e: Seq<char>, n: u32|
                #[trigger] receives(old(self)@, e, n) implies self.channel_for(e, n)
                    == old(self).channel_for(e, n) by {
                let k = choose|k: int| 0 <= k < old(self)@.len() && old(self)@[k] == (e, n);
                old(self).lemma_view_index(k);
                old(self).lemma_channel_at(k);
                self.lemma_channel_at(k);
            }
        }
        Some(id)
    }

    /// Removes the channel `id` of `event`; nothing happens if it is not there.
    pub fn remove_listener(&mut self, event: String, id: u32)
        requires
            old(self).wf(),
        ensures
            final(self).wf(),
            removed_from(old(self)@, final(self)@, event@, id),
            forall|e: Seq<char>, n: u32|
                #[trigger] receives(final(self)@, e, n) ==> final(self).channel_for(e, n)
                    == old(self).channel_for(e, n),
    {
        let mut i: usize = 0;
        let mut found = false;
        while i < self.entries.len() && !found
            invariant
                i <= self.entries@.len(),
                found ==> i < self.entries@.len() && self.entries@[i as int].event@ == event@
                    && self.entries@[i as int].id == id,
                forall|k: int|
                    0 <= k < i ==> !(#[trigger] self.entries@[k].event@ == event@
                        && self.entries@[k].id == id),
            decreases self.entries@.len() - i + (if found { 0int } else { 1int }),
        {
            if self.entries[i].event == event && self.entries[i].id == id {
                found = true;
            } else {
                i = i + 1;
            }
        }
        if found {
            let ghost before = self.entries@;
            let _gone = self.entries.remove(i);
            assert(self.entries@ =~= before.remove(i as int));
            assert forall|e: Seq<char>, n: u32|
                #[trigger] receives(self@, e, n) <==> (receives(old(self)@, e, n) && !(e == event@
                    && n == id)) by {
                if receives(self@, e, n) {
                    let k = choose|k: int| 0 <= k < self@.len() && self@[k] == (e, n);
                    self.lemma_view_index(k);
                    let kk = if k < i { k } else { k + 1 };
                    old(self).lemma_view_index(kk);
                    old(self).lemma_view_index(i as int);
                    assert(old(self)@[kk] == (e, n));
                    assert(kk != i);
                }
                if receives(old(self)@, e, n) && !(e == event@ && n == id) {
                    let k = choose|k: int| 0 <= k < old(self)@.len() && old(self)@[k] == (e, n);
                    old(self).lemma_view_index(k);
                    assert(k != i);
                    let kk = if k < i { k } else { k - 1 };
                    self.lemma_view_index(kk);
                    assert(self@[kk] == (e, n));
                }
            }
            assert forall|e: Seq<char>, n: u32|
                #[trigger] receives(self@, e, n) implies self.channel_for(e, n)
                    == old(self).channel_for(e, n) by {
                let k = choose|k: int| 0 <= k < self@.len() && self@[k] == (e, n);
                self.lemma_view_index(k);
                let kk = if k < i { k } else { k + 1 };
                old(self).lemma_view_index(kk);
                self.lemma_channel_at(k);
                old(self).lemma_channel_at(kk);
            }
        } else {
            assert forall|e: Seq<char>, n: u32|
                #[trigger] receives(self@, e, n) <==> (receives(old(self)@, e, n) && !(e == event@
                    && n == id)) by {
                if receives(self@, e, n) && e == event@ && n == id {
                    let k = choose|k: int| 0 <= k < self@.len() && self@[k] == (e, n);
                    self.lemma_view_index(k);
                    assert(self.entries@[k].event@ == event@);
                }
            }
        }
    }

    /// The ids of the channels registered under `event`, each once, in the
    /// order of registration.
    pub fn recipients(&self, event: &str) -> (r: Vec<u32>)
        requires
            self.wf(),
        ensures
            recipients_of(r@, self@, event@),
    {
        let ev = String::from_str(event);
        let mut r: Vec<u32> = Vec::new();
        let ghost mut idx: Seq<int> = Seq::empty();
        let mut i: usize = 0;
        while i < self.entries.len()
            invariant
                i <= self.entries@.len(),
                self.wf(),
                ev@ == event@,
                idx.len() == r@.len(),
                forall|j: int|
                    0 <= j < idx.len() ==> 0 <= #[trigger] idx[j] < i && self.entries@[idx[j]].id
                        == r@[j] && self.entries@[idx[j]].event@ == event@,
                forall|j1: int, j2: int| 0 <= j1 < j2 < idx.len() ==> #[trigger] idx[j1] < #[trigger] idx[j2],
                forall|k: int|
                    0 <= k < i && #[trigger] self.entries@[k].event@ == event@ ==> r@.contains(
                        self.entries@[k].id,
                    ),
            decreases self.entries@.len() - i,
        {
            if self.entries[i].event == ev {
                let n = self.entries[i].id;
                let ghost r0 = r@;
                r.push(n);
                proof {
                    idx = idx.push(i as int);
                    assert forall|k: int|
                        0 <= k <= i && #[trigger] self.entries@[k].event@ == event@ implies r@.contains(
                            self.entries@[k].id,
                        ) by {
                        if k < i {
                            let j = choose|j: int| 0 <= j < r0.len() && r0[j] == self.entries@[k].id;
                            assert(r@[j] == r0[j]);
                        } else {
                            assert(r@[r@.len() - 1] == n);
                        }
                    }
                }
            }
            i = i + 1;
        }
        assert(r@.no_duplicates()) by {
            assert forall|j1: int, j2: int| 0 <= j1 < r@.len() && 0 <= j2 < r@.len() && j1 != j2 implies r@[j1] != r@[j2] by {
                assert(idx[j1] != idx[j2]) by {
                    if j1 < j2 {
                        assert(idx[j1] < idx[j2]);
                    } else {
                        assert(idx[j2] < idx[j1]);
                    }
                }
            }
        }
        assert forall|n: u32| #[trigger] r@.contains(n) <==> receives(self@, event@, n) by {
            if r@.contains(n) {
                let j = choose|j: int| 0 <= j < r@.len() && r@[j] == n;
                let k = idx[j];
                self.lemma_view_index(k);
                assert(self@[k] == (event@, n));
            }
            if receives(self@, event@, n) {
                let k = choose|k: int| 0 <= k < self@.len() && self@[k] == (event@, n);
                self.lemma_view_index(k);
                assert(self.entries@[k].event@ == event@);
            }
        }
        r
    }

    /// The channel `id` of `event`, if it is registered.
    pub fn channel(&self, event: &str, id: u32) -> (r: Option<&C>)
        requires
            self.wf(),
        ensures
            r is Some <==> receives(self@, event@, id),
            r is Some ==> *r->0 == self.channel_for(event@, id),
    {
        let ev = String::from_str(event);
        let mut i: usize = 0;
        while i < self.entries.len()
            invariant
                i <= self.entries@.len(),
                self.wf(),
                ev@ == event@,
                forall|k: int|
                    0 <= k < i ==> !(#[trigger] self.entries@[k].event@ == event@
                        && self.entries@[k].id == id),
            decreases self.entries@.len() - i,
        {
            if self.entries[i].event == ev && self.entries[i].id == id {
                proof {
                    self.lemma_view_index(i as int);
                    assert(self@[i as int] == (event@, id));
                    self.lemma_channel_at(i as int);
                }
                return Some(&self.entries[i].channel);
            }
            i = i + 1;
        }
        proof {
            if receives(self@, event@, id) {
                let k = choose|k: int| 0 <= k < self@.len() && self@[k] == (event@, id);
                self.lemma_view_index(k);
                assert(self.entries@[k].event@ == event@);
            }
        }
        None
    }

    /// Reads `payload` once and names the channels registered under `event`.
    /// With nobody listening it succeeds with nothing to send, whatever the
    /// payload; else a payload that is not JSON is refused.
    pub fn trigger(&self, event: &str, payload: &str) -> (r: Result<Broadcast>)
        requires
            self.wf(),
        ensures
            r is Err <==> broadcast_fails(self@, event@, payload@),
            r is Err ==> r->Err_0 == crate::error::ShareError::InvalidData,
            r is Ok ==> recipients_of(r->Ok_0.recipients@, self@, event@),
            r is Ok ==> (r->Ok_0.value is Some <==> has_listeners(self@, event@)),
    {
        let recipients = self.recipients(event);
        if recipients.len() == 0 {
            assert(!has_listeners(self@, event@)) by {
                if has_listeners(self@, event@) {
                    let id = choose|id: u32| receives(self@, event@, id);
                    assert(recipients@.contains(id));
                }
            }
            return Ok(Broadcast { value: None, recipients });
        }
        assert(has_listeners(self@, event@)) by {
            assert(recipients@.contains(recipients@[0]));
        }
        match parse_json(payload) {
            Ok(value) => Ok(Broadcast { value: Some(value), recipients }),
            Err(_) => Err(crate::error::ShareError::InvalidData),
        }
    }
}

/// A broadcast under an event that nobody listens to succeeds and sends nothing.
pub proof fn broadcast_without_listeners_is_silent(
    l: Seq<(Seq<char>, u32)>,
    event: Seq<char>,
    payload: Seq<char>,
    ids: Seq<u32>,
)
    requires
        forall|id: u32| !receives(l, event, id),
        recipients_of(ids, l, event),
    ensures
        !broadcast_fails(l, event, payload),
        ids.len() == 0,
{
    if ids.len() > 0 {
        assert(ids.contains(ids[0]));
    }
}

/// Two channels registered under one event both receive its broadcasts; once
/// the first is removed, the second still receives them and the first does not.
pub proof fn removing_one_listener_keeps_the_other(
    l0: Seq<(Seq<char>, u32)>,
    l1: Seq<(Seq<char>, u32)>,
    l2: Seq<(Seq<char>, u32)>,
    l3: Seq<(Seq<char>, u32)>,
    event: Seq<char>,
    a: u32,
    b: u32,
)
    requires
        registered_as(l0, l1, event, a),
        registered_as(l1, l2, event, b),
        removed_from(l2, l3, event, a),
    ensures
        receives(l2, event, a),
        receives(l2, event, b),
        receives(l3, event, b),
        !receives(l3, event, a),
{
    assert(l1[l1.len() - 1] == (event, a));
    assert(l2[l2.len() - 1] == (event, b));
    assert(l2[l1.len() - 1] == (event, a));
    assert(receives(l2, event, a));
    assert(receives(l2, event, b));
    assert(receives(l3, event, b) <==> (receives(l2, event, b) && !(event == event && b == a)));
    assert(receives(l3, event, a) <==> (receives(l2, event, a) && !(event == event && a == a)));
}

} // verus!
