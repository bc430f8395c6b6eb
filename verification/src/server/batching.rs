//! The queue of waiting requests and how batches are gathered from it.

use crate::buffer;
use crate::proto::{BatchItem, BatchItemView, TtsRequest, TtsRequestView};
use bytes::Bytes;
use std::collections::VecDeque;
use vstd::prelude::*;

verus! {

/// Items only batch together if they share these generation parameters: a
/// batched forward pass takes a single set of options.
#[derive(Debug, Clone, Copy, PartialEq, Eq, Structural)]
pub struct BatchKey {
    pub cfg_bits: u32,
    pub steps: u32,
}

impl BatchKey {
    /// The key of a request.
    pub open spec fn of(req: TtsRequestView) -> BatchKey {
        BatchKey { cfg_bits: req.cfg_bits, steps: req.steps }
    }

    /// The key of a request.
    pub fn from_request(req: &TtsRequest) -> (key: BatchKey)
        ensures
            key == BatchKey::of(req@),
    {
        BatchKey { cfg_bits: req.cfg_bits, steps: req.steps }
    }
}

/// One waiting request. `handle` is how its client is answered.
#[derive(Debug)]
pub struct PendingItem<T> {
    pub json: Bytes,
    pub audio: Option<Bytes>,
    pub key: BatchKey,
    pub handle: T,
}

impl<T> PendingItem<T> {
    /// What the worker gets of the request.
    pub open spec fn payload(self) -> BatchItemView {
        BatchItemView { json: buffer::bytes_of(self.json), audio: buffer::opt_bytes(self.audio) }
    }

    pub(crate) fn to_batch_item(&self) -> (item: BatchItem)
        ensures
            item@ == self.payload(),
    {
        let audio = match &self.audio {
            Some(a) => Some(a.clone()),
            None => None,
        };
        BatchItem { json: self.json.clone(), audio }
    }
}

/// The first `room` items of `q` with the given key, in their order.
pub open spec fn picked<T>(q: Seq<PendingItem<T>>, key: BatchKey, room: nat) -> Seq<PendingItem<T>>
    decreases q.len(),
{
    if q.len() == 0 || room == 0 {
        Seq::empty()
    } else if q[0].key == key {
        seq![q[0]] + picked(q.skip(1), key, (room - 1) as nat)
    } else {
        picked(q.skip(1), key, room)
    }
}

/// `q` without the first `room` items with the given key.
pub open spec fn left<T>(q: Seq<PendingItem<T>>, key: BatchKey, room: nat) -> Seq<PendingItem<T>>
    decreases q.len(),
{
    if q.len() == 0 || room == 0 {
        q
    } else if q[0].key == key {
        left(q.skip(1), key, (room - 1) as nat)
    } else {
        seq![q[0]] + left(q.skip(1), key, room)
    }
}

/// How many more items a batch of `len` takes.
pub open spec fn room(len: nat, max: nat) -> nat {
    if len < max {
        (max - len) as nat
    } else {
        0
    }
}

/// Moves up to `max - batch.len()` items with the given key from the queue to
/// the end of the batch. Items with another key keep their place.
pub fn drain_matching<T>(
    queue: &mut VecDeque<PendingItem<T>>,
    batch: &mut Vec<PendingItem<T>>,
    key: BatchKey,
    max: usize,
)
    ensures
        final(batch)@ == old(batch)@ + picked(
            old(queue)@,
            key,
            room(old(batch)@.len(), max as nat),
        ),
        final(queue)@ == left(old(queue)@, key, room(old(batch)@.len(), max as nat)),
{
    let ghost q0 = queue@;
    let ghost b0 = batch@;
    let ghost room0 = room(b0.len(), max as nat);
    let ghost mut taken = Seq::<PendingItem<T>>::empty();
    let ghost mut passed = Seq::<PendingItem<T>>::empty();
    let ghost mut rest = q0;
    let mut i: usize = 0;
    assert(b0 + taken =~= b0);
    assert(passed + rest =~= q0);
    assert(taken + picked(rest, key, room0) =~= picked(q0, key, room0));
    assert(passed + left(rest, key, room0) =~= left(q0, key, room0));
    while batch.len() < max && i < queue.len()
        invariant
            room0 == room(b0.len(), max as nat),
            taken.len() <= room0,
            batch@ == b0 + taken,
            queue@ == passed + rest,
            passed.len() == i,
            taken + picked(rest, key, (room0 - taken.len()) as nat) == picked(q0, key, room0),
            passed + left(rest, key, (room0 - taken.len()) as nat) == left(q0, key, room0),
        decreases rest.len(),
    {
        proof {
            assert(queue@[i as int] == rest[0]);
            assert(room0 - taken.len() > 0);
        }
        let ghost head = rest[0];
        let ghost tail = rest.skip(1);
        let ghost more = (room0 - taken.len()) as nat;
        if queue[i].key == key {
            let ghost before = queue@;
            if let Some(item) = queue.remove(i) {
                batch.push(item);
            }
            proof {
                assert(before.remove(i as int) =~= passed + tail);
                assert((taken + seq![head]) + picked(tail, key, (more - 1) as nat) =~= taken
                    + picked(rest, key, more));
                assert(b0 + (taken + seq![head]) =~= (b0 + taken).push(head));
                taken = taken + seq![head];
                rest = tail;
            }
        } else {
            i += 1;
            proof {
                assert(passed + rest =~= (passed + seq![head]) + tail);
                assert((passed + seq![head]) + left(tail, key, more) =~= passed + left(
                    rest,
                    key,
                    more,
                ));
                passed = passed + seq![head];
                rest = tail;
            }
        }
    }
    proof {
        let more = (room0 - taken.len()) as nat;
        assert(picked(rest, key, more) =~= Seq::<PendingItem<T>>::empty());
        assert(left(rest, key, more) == rest);
        assert(taken + Seq::<PendingItem<T>>::empty() =~= taken);
    }
}

/// Puts a batch back at the front of the queue, in its order.
pub fn requeue_front<T>(queue: &mut VecDeque<PendingItem<T>>, batch: Vec<PendingItem<T>>)
    ensures
        final(queue)@ == batch@ + old(queue)@,
{
    let ghost all = batch@;
    let mut batch = batch;
    assert(all.skip(all.len() as int) + queue@ =~= queue@);
    while batch.len() > 0
        invariant
            batch@ == all.take(batch@.len() as int),
            batch@.len() <= all.len(),
            queue@ == all.skip(batch@.len() as int) + old(queue)@,
        decreases batch@.len(),
    {
        let ghost n = batch@.len();
        if let Some(item) = batch.pop() {
            queue.push_front(item);
            proof {
                assert(all.take(n as int).drop_last() =~= all.take(n - 1));
                assert(seq![all[n - 1]] + (all.skip(n as int) + old(queue)@) =~= all.skip(n - 1)
                    + old(queue)@);
            }
        }
    }
    assert(all.skip(0) =~= all);
}

/// The items of a queue with the given key, in their order.
pub open spec fn with_key<T>(q: Seq<PendingItem<T>>, key: BatchKey) -> Seq<PendingItem<T>>
    decreases q.len(),
{
    if q.len() == 0 {
        q
    } else if q[0].key == key {
        seq![q[0]] + with_key(q.skip(1), key)
    } else {
        with_key(q.skip(1), key)
    }
}

/// The items of a queue with another key, in their order.
pub open spec fn without_key<T>(q: Seq<PendingItem<T>>, key: BatchKey) -> Seq<PendingItem<T>>
    decreases q.len(),
{
    if q.len() == 0 {
        q
    } else if q[0].key == key {
        without_key(q.skip(1), key)
    } else {
        seq![q[0]] + without_key(q.skip(1), key)
    }
}

/// Draining takes items with the key only and no more than there is room for,
/// and stops early only when none is left; it takes them in the order in which
/// they came; and all other items keep theirs.
pub proof fn draining_is_fair<T>(q: Seq<PendingItem<T>>, key: BatchKey, room: nat)
    ensures
        forall|i: int|
            0 <= i < picked(q, key, room).len() ==> (#[trigger] picked(q, key, room)[i]).key == key,
        picked(q, key, room).len() <= room,
        picked(q, key, room).len() < room ==> with_key(left(q, key, room), key).len() == 0,
        picked(q, key, room) + with_key(left(q, key, room), key) == with_key(q, key),
        without_key(left(q, key, room), key) == without_key(q, key),
    decreases q.len(),
{
    let p = picked(q, key, room);
    let l = left(q, key, room);
    if q.len() == 0 || room == 0 {
        assert(p + with_key(l, key) =~= with_key(q, key));
    } else if q[0].key == key {
        let p1 = picked(q.skip(1), key, (room - 1) as nat);
        draining_is_fair(q.skip(1), key, (room - 1) as nat);
        assert forall|i: int| 0 <= i < p.len() implies (#[trigger] p[i]).key == key by {
            if i > 0 {
                assert(p[i] == p1[i - 1]);
            }
        }
        assert(p + with_key(l, key) =~= seq![q[0]] + (p1 + with_key(l, key)));
    } else {
        let l1 = left(q.skip(1), key, room);
        draining_is_fair(q.skip(1), key, room);
        assert(l.skip(1) =~= l1);
        assert(l[0] == q[0]);
    }
}

/// Draining neither loses nor doubles an item.
pub proof fn draining_keeps_items<T>(q: Seq<PendingItem<T>>, key: BatchKey, room: nat)
    ensures
        picked(q, key, room).to_multiset().add(left(q, key, room).to_multiset())
            == q.to_multiset(),
        picked(q, key, room).len() + left(q, key, room).len() == q.len(),
    decreases q.len(),
{
    broadcast use vstd::seq_lib::group_to_multiset_ensures;

    let p = picked(q, key, room);
    let l = left(q, key, room);
    if q.len() == 0 || room == 0 {
        assert(p.to_multiset().add(l.to_multiset()) =~= q.to_multiset());
    } else {
        let head = seq![q[0]];
        let tail = q.skip(1);
        let less: nat = if q[0].key == key {
            (room - 1) as nat
        } else {
            room
        };
        let p1 = picked(tail, key, less);
        let l1 = left(tail, key, less);
        draining_keeps_items(tail, key, less);
        assert(q =~= head + tail);
        vstd::seq_lib::lemma_multiset_commutative(head, tail);
        if q[0].key == key {
            vstd::seq_lib::lemma_multiset_commutative(head, p1);
        } else {
            vstd::seq_lib::lemma_multiset_commutative(head, l1);
        }
        assert(p.to_multiset().add(l.to_multiset()) =~= q.to_multiset());
    }
}

/// Two requests may run in one batch if and only if their guidance and their
/// steps are the same, whatever else they say.
pub proof fn keys_compare_options(a: TtsRequestView, b: TtsRequestView)
    ensures
        BatchKey::of(a) == BatchKey::of(b) <==> a.cfg_bits == b.cfg_bits && a.steps == b.steps,
{
}

/// What the worker gets of a waiting request is its JSON and its audio, as they
/// came.
pub proof fn payload_is_what_came<T>(item: PendingItem<T>)
    ensures
        item.payload().json == buffer::bytes_of(item.json),
        match item.audio {
            Some(a) => item.payload().audio == Some(buffer::bytes_of(a)),
            None => item.payload().audio is None,
        },
{
}

/// A batch has room for as many more as it may have, and for none once it has
/// them all.
pub proof fn room_is_what_is_left(len: nat, max: nat)
    ensures
        len <= max ==> len + room(len, max) == max,
        len >= max ==> room(len, max) == 0,
{
}

/// Draining looks at the queue from its front, up to some place: all requests
/// with the key up to there are taken, in their order, all others stay, in
/// theirs, and what lies behind is left as it is. It stops where there is no
/// more room, or at the end.
pub proof fn draining_goes_from_the_front<T>(
    q: Seq<PendingItem<T>>,
    key: BatchKey,
    room: nat,
) -> (n: int)
    ensures
        0 <= n <= q.len(),
        picked(q, key, room) == q.take(n).filter(|p: PendingItem<T>| p.key == key),
        left(q, key, room) == q.take(n).filter(|p: PendingItem<T>| p.key != key) + q.skip(n),
        picked(q, key, room).len() <= room,
        n < q.len() ==> picked(q, key, room).len() == room,
    decreases q.len(),
{
    let same = |p: PendingItem<T>| p.key == key;
    let other = |p: PendingItem<T>| p.key != key;
    reveal(Seq::filter);
    if q.len() == 0 || room == 0 {
        assert(q.take(0) =~= Seq::<PendingItem<T>>::empty());
        assert(q.skip(0) =~= q);
        assert(q.take(0).filter(other) + q.skip(0) =~= q);
        0
    } else {
        let head = seq![q[0]];
        let tail = q.skip(1);
        let less: nat = if q[0].key == key {
            (room - 1) as nat
        } else {
            room
        };
        let n = draining_goes_from_the_front(tail, key, less);
        assert(q.take(n + 1) =~= head + tail.take(n));
        assert(q.skip(n + 1) =~= tail.skip(n));
        Seq::filter_distributes_over_add(head, tail.take(n), same);
        Seq::filter_distributes_over_add(head, tail.take(n), other);
        reveal_with_fuel(Seq::filter, 2);
        assert(head.drop_last() =~= Seq::<PendingItem<T>>::empty());
        assert(head.last() == q[0]);
        assert(head.filter(same) =~= if q[0].key == key {
            head
        } else {
            Seq::empty()
        });
        assert(head.filter(other) =~= if q[0].key == key {
            Seq::empty()
        } else {
            head
        });
        assert(picked(q, key, room) =~= head.filter(same) + picked(tail, key, less));
        assert(left(q, key, room) =~= head.filter(other) + left(tail, key, less));
        assert(left(q, key, room) =~= q.take(n + 1).filter(other) + q.skip(n + 1));
        n + 1
    }
}

} // verus!
