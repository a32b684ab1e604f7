//! Fence-delayed retirement of texture resources.
//!
//! A retirement queue hands out monotonically increasing batches. A resource enters the queue
//! under a key together with the batch that was current when it stopped being referenced by new
//! work. Once the application proves that the GPU completed a batch, every resource whose batch is
//! not later than that one may be destroyed.

use std::collections::HashMap;
use vstd::laws_eq::obeys_concrete_eq;
use vstd::prelude::*;
use vstd::std_specs::cmp::PartialEqSpec;
use vstd::std_specs::hash::{builds_valid_hashers, obeys_key_model};

verus! {

broadcast use vstd::std_specs::hash::group_hash_axioms;

/// Monotonic batch containing managed texture resources waiting for GPU-safe destruction.
///
/// A batch names the queue that issued it and its position in that queue's sequence. Both are
/// nonzero.
#[derive(Clone, Copy, Debug, PartialEq, Eq, Structural, Hash, PartialOrd, Ord)]
pub struct TextureRetirementBatch {
    queue: u64,
    sequence: u64,
}

impl View for TextureRetirementBatch {
    type V = (u64, u64);

    /// The issuing queue and the sequence number.
    closed spec fn view(&self) -> (u64, u64) {
        (self.queue, self.sequence)
    }
}

/// Two batches are equal exactly when their queue and sequence agree.
pub broadcast proof fn lemma_batch_view_injective(a: TextureRetirementBatch, b: TextureRetirementBatch)
    ensures
        (#[trigger] a@ == #[trigger] b@) <==> a == b,
{
}

impl TextureRetirementBatch {
    /// Monotonic renderer-local batch sequence.
    pub fn sequence(self) -> (r: u64)
        ensures
            r == self@.1,
    {
        self.sequence
    }

    /// Rebuilds a batch from its queue identity and sequence; both must be nonzero.
    pub fn from_parts(queue: u64, sequence: u64) -> (r: Option<TextureRetirementBatch>)
        ensures
            r is Some <==> (queue != 0 && sequence != 0),
            r matches Some(b) ==> b@ == (queue, sequence),
    {
        if queue == 0 || sequence == 0 {
            None
        } else {
            Some(TextureRetirementBatch { queue, sequence })
        }
    }

    /// The identity of the queue that issued this batch.
    pub fn queue_identity(self) -> (r: u64)
        ensures
            r == self@.0,
    {
        self.queue
    }
}

/// A batch number reserved ahead of the resource that will be retired under it.
#[derive(Debug)]
pub struct RetirementReservation {
    batch: TextureRetirementBatch,
}

impl View for RetirementReservation {
    type V = (u64, u64);

    closed spec fn view(&self) -> (u64, u64) {
        self.batch@
    }
}

impl RetirementReservation {
    /// The batch that this reservation stands for.
    pub fn batch(&self) -> (r: TextureRetirementBatch)
        ensures
            r@ == self@,
    {
        self.batch
    }
}

/// Outcome of asking for the retirement of an active resource.
#[derive(Clone, Copy, Debug, PartialEq, Eq, Structural)]
pub enum RetirementRequest {
    /// The resource entered the queue under this batch.
    Queued(TextureRetirementBatch),
    /// The resource is already waiting in the queue.
    Pending,
    /// The resource is neither active nor waiting: its retirement is complete.
    Retired,
}

/// Entries of `s` whose batch is not later than `seq`, as key and value.
pub open spec fn retired_through<K, T>(s: Seq<(K, TextureRetirementBatch, T)>, seq: u64) -> Seq<
    (K, T),
>
    decreases s.len(),
{
    if s.len() == 0 {
        Seq::empty()
    } else {
        let rest = retired_through(s.drop_last(), seq);
        if s.last().1@.1 <= seq {
            rest.push((s.last().0, s.last().2))
        } else {
            rest
        }
    }
}

/// Entries of `s` whose batch is later than `seq`, in their order.
pub open spec fn retained_after<K, T>(s: Seq<(K, TextureRetirementBatch, T)>, seq: u64) -> Seq<
    (K, TextureRetirementBatch, T),
>
    decreases s.len(),
{
    if s.len() == 0 {
        Seq::empty()
    } else {
        let rest = retained_after(s.drop_last(), seq);
        if s.last().1@.1 <= seq {
            rest
        } else {
            rest.push(s.last())
        }
    }
}

/// Whether some entry of `s` is stored under `key`.
pub open spec fn has_key<K, T>(s: Seq<(K, TextureRetirementBatch, T)>, key: K) -> bool {
    exists|i: int| 0 <= i < s.len() && #[trigger] s[i].0 == key
}

/// No two entries of `s` share a key.
pub open spec fn keys_distinct<K, T>(s: Seq<(K, TextureRetirementBatch, T)>) -> bool {
    forall|i: int, j: int| 0 <= i < j < s.len() ==> #[trigger] s[i].0 != #[trigger] s[j].0
}

/// The value stored under `key` in `s` (meaningful when `key` occurs, and unique when keys are
/// distinct).
pub open spec fn value_for_key<K, T>(s: Seq<(K, TextureRetirementBatch, T)>, key: K) -> T {
    s[choose|i: int| 0 <= i < s.len() && #[trigger] s[i].0 == key].2
}

/// Key and value of every entry, in order.
pub open spec fn key_values<K, T>(s: Seq<(K, TextureRetirementBatch, T)>) -> Seq<(K, T)> {
    s.map_values(|e: (K, TextureRetirementBatch, T)| (e.0, e.2))
}

/// The largest sequence among the entries of `s` (zero for none).
pub open spec fn max_sequence<K, T>(s: Seq<(K, TextureRetirementBatch, T)>) -> u64
    decreases s.len(),
{
    if s.len() == 0 {
        0
    } else {
        let rest = max_sequence(s.drop_last());
        if s.last().1@.1 > rest {
            s.last().1@.1
        } else {
            rest
        }
    }
}

/// The identity that a queue drawn from a source whose next identity is `next` receives: `next`
/// itself, or none (zero) once the identity space is exhausted.
pub open spec fn drawn_queue_id(next: u64) -> u64 {
    if next < u64::MAX {
        next
    } else {
        0
    }
}

/// The next identity of a source after a queue was drawn from it at `next`.
pub open spec fn next_after_draw(next: u64) -> u64 {
    if next < u64::MAX {
        (next + 1) as u64
    } else {
        next
    }
}

/// Hands out the identities of retirement queues: 1, 2, 3, ... up to `u64::MAX - 1`, then none.
///
/// Every queue that shares batches with others must draw its identity from one source, so that
/// no queue ever accepts a batch that another one issued.
#[derive(Debug)]
pub struct QueueIdSource {
    issued: u64,
}

impl QueueIdSource {
    /// Identities are handed out only below `u64::MAX`, so the count of those handed out stays
    /// below it.
    #[verifier::type_invariant]
    closed spec fn issued_in_range(&self) -> bool {
        self.issued < u64::MAX
    }

    /// The identity that the next queue drawn from this source receives, if the space allows.
    pub closed spec fn next(&self) -> u64 {
        (self.issued + 1) as u64
    }

    /// A source whose first identity is 1.
    pub fn new() -> (r: Self)
        ensures
            r.next() == 1,
    {
        QueueIdSource { issued: 0 }
    }

    /// Draws the next identity; `None` once every identity below `u64::MAX` was handed out.
    pub fn draw(&mut self) -> (r: Option<u64>)
        ensures
            1 <= old(self).next(),
            r == (if old(self).next() < u64::MAX {
                Some(old(self).next())
            } else {
                None::<u64>
            }),
            final(self).next() == next_after_draw(old(self).next()),
    {
        proof {
            use_type_invariant(&*self);
        }
        if self.issued >= u64::MAX - 1 {
            None
        } else {
            self.issued = self.issued + 1;
            Some(self.issued)
        }
    }
}

/// Queues drawn one after another from one source never share an identity.
///
/// A source only moves forward, so when the second queue is drawn at `second_at` (any point at
/// or after the source's state following the first draw at `first_at`), its identity differs
/// from the first queue's identity whenever the first queue got one. Since a queue completes only
/// batches carrying its own identity, neither queue accepts a batch that the other issued.
pub proof fn law_queues_from_one_source_are_distinct(first_at: u64, second_at: u64)
    requires
        next_after_draw(first_at) <= second_at,
    ensures
        first_at <= next_after_draw(first_at),
        drawn_queue_id(first_at) != 0 ==> drawn_queue_id(first_at) != drawn_queue_id(second_at),
{
}

/// Resources waiting for the GPU to finish a batch, keyed by `K`.
#[derive(Debug)]
pub struct RetirementQueue<K, T> {
    entries: Vec<(K, TextureRetirementBatch, T)>,
    queue_id: u64,
    last_issued: u64,
}

impl<K: Copy + Eq + std::hash::Hash, T> RetirementQueue<K, T> {
    /// Waiting entries in the order they entered the queue.
    pub closed spec fn pending(&self) -> Seq<(K, TextureRetirementBatch, T)> {
        self.entries@
    }

    /// Identity of this queue, carried by every batch that it issues.
    pub closed spec fn queue_id(&self) -> u64 {
        self.queue_id
    }

    /// Sequence of the most recently issued batch (zero before the first).
    pub closed spec fn last_issued(&self) -> u64 {
        self.last_issued
    }

    /// Whether this queue can still issue a batch: it has an identity and sequence space left.
    pub open spec fn can_issue(&self) -> bool {
        self.queue_id() != 0 && self.last_issued() < u64::MAX
    }

    /// Internal consistency: distinct keys, every waiting batch was issued by this queue, and a
    /// queue without an identity never issued a batch.
    pub closed spec fn wf(&self) -> bool {
        &&& (self.queue_id == 0 ==> self.last_issued == 0)
        &&& keys_distinct(self.entries@)
        &&& forall|i: int|
            0 <= i < self.entries@.len() ==> {
                &&& (#[trigger] self.entries@[i]).1@.0 == self.queue_id
                &&& 1 <= self.entries@[i].1@.1 <= self.last_issued
            }
    }

    /// Creates an empty queue whose identity is drawn from `ids`. When `ids` is exhausted the
    /// queue has no identity (zero) and never issues a batch.
    pub fn new(ids: &mut QueueIdSource) -> (r: Self)
        ensures
            r.wf(),
            r.pending().len() == 0,
            r.last_issued() == 0,
            r.queue_id() == drawn_queue_id(old(ids).next()),
            final(ids).next() == next_after_draw(old(ids).next()),
    {
        let queue_id = match ids.draw() {
            Some(id) => id,
            None => 0,
        };
        RetirementQueue { entries: Vec::new(), queue_id, last_issued: 0 }
    }

    /// Reserves the next batch; `None` for a queue without an identity or once the sequence space
    /// is exhausted.
    pub fn reserve(&mut self) -> (r: Option<RetirementReservation>)
        requires
            old(self).wf(),
        ensures
            final(self).wf(),
            final(self).pending() == old(self).pending(),
            final(self).queue_id() == old(self).queue_id(),
            r is Some <==> old(self).can_issue(),
            r matches Some(res) ==> {
                &&& res@ == (old(self).queue_id(), (old(self).last_issued() + 1) as u64)
                &&& final(self).last_issued() == old(self).last_issued() + 1
            },
            r is None ==> final(self).last_issued() == old(self).last_issued(),
    {
        if self.queue_id == 0 || self.last_issued == u64::MAX {
            return None;
        }
        let sequence = self.last_issued + 1;
        self.last_issued = sequence;
        Some(RetirementReservation { batch: TextureRetirementBatch { queue: self.queue_id, sequence } })
    }

    /// Stores `value` under `key` in the reserved batch and returns that batch.
    pub fn commit(&mut self, reservation: RetirementReservation, key: K, value: T) -> (r:
        TextureRetirementBatch)
        requires
            old(self).wf(),
            reservation@.0 == old(self).queue_id(),
            1 <= reservation@.1 <= old(self).last_issued(),
            !has_key(old(self).pending(), key),
        ensures
            final(self).wf(),
            r@ == reservation@,
            final(self).pending() == old(self).pending().push((key, r, value)),
            final(self).queue_id() == old(self).queue_id(),
            final(self).last_issued() == old(self).last_issued(),
    {
        let batch = reservation.batch;
        self.entries.push((key, batch, value));
        batch
    }

    /// Whether `key` is waiting in the queue.
    pub fn contains_key(&self, key: &K) -> (r: bool)
        requires
            obeys_concrete_eq::<K>(),
        ensures
            r == has_key(self.pending(), *key),
    {
        proof {
            reveal(obeys_concrete_eq);
        }
        let mut i: usize = 0;
        while i < self.entries.len()
            invariant
                obeys_concrete_eq::<K>(),
                K::obeys_eq_spec(),
                forall|x: K, y: K| x.eq_spec(&y) <==> (x == y),
                i <= self.entries@.len(),
                forall|j: int| 0 <= j < i ==> self.entries@[j].0 != *key,
            decreases self.entries@.len() - i,
        {
            if self.entries[i].0 == *key {
                return true;
            }
            i = i + 1;
        }
        false
    }

    /// The value waiting under `key`, if any.
    pub fn get(&self, key: &K) -> (r: Option<&T>)
        requires
            obeys_concrete_eq::<K>(),
        ensures
            r is None <==> !has_key(self.pending(), *key),
            r matches Some(v) ==> exists|i: int|
                0 <= i < self.pending().len() && #[trigger] self.pending()[i].0 == *key
                    && self.pending()[i].2 == *v,
            self.wf() ==> (r matches Some(v) ==> *v == value_for_key(self.pending(), *key)),
    {
        proof {
            reveal(obeys_concrete_eq);
        }
        let mut i: usize = 0;
        while i < self.entries.len()
            invariant
                obeys_concrete_eq::<K>(),
                K::obeys_eq_spec(),
                forall|x: K, y: K| x.eq_spec(&y) <==> (x == y),
                i <= self.entries@.len(),
                forall|j: int| 0 <= j < i ==> self.entries@[j].0 != *key,
            decreases self.entries@.len() - i,
        {
            if self.entries[i].0 == *key {
                proof {
                    if self.wf() {
                        let c = choose|c: int|
                            0 <= c < self.entries@.len() && #[trigger] self.entries@[c].0 == *key;
                        assert(0 <= c < self.entries@.len() && self.entries@[c].0 == *key);
                        if c != i {
                            if c < i {
                                assert(self.entries@[c].0 != self.entries@[i as int].0);
                            } else {
                                assert(self.entries@[i as int].0 != self.entries@[c].0);
                            }
                        }
                    }
                    assert(self.pending()[i as int].0 == *key);
                }
                return Some(&self.entries[i].2);
            }
            i = i + 1;
        }
        None
    }

    /// Queues `value` under `key` in a freshly reserved batch.
    ///
    /// The value comes back unchanged when `key` is already waiting or the queue cannot issue a
    /// batch.
    pub fn enqueue(&mut self, key: K, value: T) -> (r: Result<TextureRetirementBatch, T>)
        requires
            old(self).wf(),
            obeys_concrete_eq::<K>(),
        ensures
            final(self).wf(),
            final(self).queue_id() == old(self).queue_id(),
            r is Ok <==> (!has_key(old(self).pending(), key) && old(self).can_issue()),
            r matches Err(v) ==> {
                &&& v == value
                &&& final(self).pending() == old(self).pending()
                &&& final(self).last_issued() == old(self).last_issued()
            },
            r matches Ok(b) ==> {
                &&& b@ == (old(self).queue_id(), (old(self).last_issued() + 1) as u64)
                &&& final(self).last_issued() == old(self).last_issued() + 1
                &&& final(self).pending() == old(self).pending().push((key, b, value))
            },
    {
        if self.contains_key(&key) {
            return Err(value);
        }
        match self.reserve() {
            None => Err(value),
            Some(reservation) => Ok(self.commit(reservation, key, value)),
        }
    }

    /// Moves the resource under `key` from `active` into the queue.
    ///
    /// A key already waiting is `Pending`; a key neither waiting nor active is `Retired`. When the
    /// queue cannot issue a batch the resource stays in `active` and `Err(())` is returned.
    pub fn request_retirement(&mut self, active: &mut HashMap<K, T>, key: K) -> (r: Result<
        RetirementRequest,
        (),
    >)
        requires
            old(self).wf(),
            obeys_concrete_eq::<K>(),
            obeys_key_model::<K>(),
        ensures
            final(self).wf(),
            final(self).queue_id() == old(self).queue_id(),
            has_key(old(self).pending(), key) ==> {
                &&& r == Ok::<RetirementRequest, ()>(RetirementRequest::Pending)
                &&& final(active)@ == old(active)@
                &&& final(self).pending() == old(self).pending()
                &&& final(self).last_issued() == old(self).last_issued()
            },
            (!has_key(old(self).pending(), key) && !old(active)@.contains_key(key)) ==> {
                &&& r == Ok::<RetirementRequest, ()>(RetirementRequest::Retired)
                &&& final(active)@ == old(active)@
                &&& final(self).pending() == old(self).pending()
                &&& final(self).last_issued() == old(self).last_issued()
            },
            (!has_key(old(self).pending(), key) && old(active)@.contains_key(key)
                && old(self).can_issue()) ==> {
                &&& r matches Ok(RetirementRequest::Queued(b))
                &&& b@ == (old(self).queue_id(), (old(self).last_issued() + 1) as u64)
                &&& final(active)@ == old(active)@.remove(key)
                &&& final(self).last_issued() == old(self).last_issued() + 1
                &&& final(self).pending() == old(self).pending().push((key, b, old(active)@[key]))
            },
            (!has_key(old(self).pending(), key) && old(active)@.contains_key(key)
                && !old(self).can_issue()) ==> {
                &&& r == Err::<RetirementRequest, ()>(())
                &&& final(active)@ == old(active)@
                &&& final(self).pending() == old(self).pending()
                &&& final(self).last_issued() == old(self).last_issued()
            },
    {
        if self.contains_key(&key) {
            return Ok(RetirementRequest::Pending);
        }
        let removed = active.remove(&key);
        match removed {
            None => Ok(RetirementRequest::Retired),
            Some(value) => {
                let ghost value_spec = value;
                match self.enqueue(key, value) {
                    Ok(batch) => Ok(RetirementRequest::Queued(batch)),
                    Err(value) => {
                        active.insert(key, value);
                        proof {
                            assert(final(active)@ =~= old(active)@);
                        }
                        Err(())
                    },
                }
            },
        }
    }

    /// The latest batch still waiting, if any entry waits.
    pub fn pending_batch(&self) -> (r: Option<TextureRetirementBatch>)
        requires
            self.wf(),
        ensures
            r is None <==> self.pending().len() == 0,
            r matches Some(b) ==> {
                &&& b@ == (self.queue_id(), max_sequence(self.pending()))
                &&& exists|i: int| 0 <= i < self.pending().len() && #[trigger] self.pending()[i].1 == b
            },
    {
        let mut best: Option<TextureRetirementBatch> = None;
        let mut i: usize = 0;
        while i < self.entries.len()
            invariant
                self.wf(),
                i <= self.entries@.len(),
                i == 0 <==> best is None,
                best matches Some(b) ==> {
                    &&& b@ == (self.queue_id, max_sequence(self.entries@.take(i as int)))
                    &&& exists|j: int| 0 <= j < i && #[trigger] self.entries@[j].1 == b
                },
            decreases self.entries@.len() - i,
        {
            let candidate = self.entries[i].1;
            proof {
                assert(self.entries@.take(i + 1).drop_last() =~= self.entries@.take(i as int));
                lemma_max_sequence_positive(self.entries@.take(i as int));
            }
            match best {
                None => {
                    best = Some(candidate);
                },
                Some(b) => {
                    if candidate.sequence > b.sequence {
                        best = Some(candidate);
                    }
                },
            }
            i = i + 1;
        }
        proof {
            assert(self.entries@.take(self.entries@.len() as int) =~= self.entries@);
        }
        best
    }

    /// Removes and returns every entry whose batch is not later than `batch`.
    ///
    /// `None` when `batch` was not issued by this queue; the queue is then unchanged. Completing a
    /// batch twice, or an earlier batch after a later one, returns nothing the second time.
    pub fn complete_through(&mut self, batch: TextureRetirementBatch) -> (r: Option<Vec<(K, T)>>)
        requires
            old(self).wf(),
        ensures
            final(self).wf(),
            final(self).queue_id() == old(self).queue_id(),
            final(self).last_issued() == old(self).last_issued(),
            r is None <==> (old(self).queue_id() == 0 || batch@.0 != old(self).queue_id() || batch@.1
                > old(self).last_issued()),
            r is None ==> final(self).pending() == old(self).pending(),
            r matches Some(done) ==> {
                &&& done@ == retired_through(old(self).pending(), batch@.1)
                &&& final(self).pending() == retained_after(old(self).pending(), batch@.1)
            },
    {
        if self.queue_id == 0 || batch.queue != self.queue_id || batch.sequence > self.last_issued {
            return None;
        }
        let mut rest: Vec<(K, TextureRetirementBatch, T)> = Vec::new();
        std::mem::swap(&mut rest, &mut self.entries);
        let ghost orig = rest@;
        let total = rest.len();
        let mut kept: Vec<(K, TextureRetirementBatch, T)> = Vec::new();
        let mut done: Vec<(K, T)> = Vec::new();
        let mut i: usize = 0;
        while rest.len() > 0
            invariant
                i <= orig.len(),
                orig.len() == total,
                rest@ == orig.subrange(i as int, orig.len() as int),
                done@ == retired_through(orig.take(i as int), batch.sequence),
                kept@ == retained_after(orig.take(i as int), batch.sequence),
            decreases rest.len(),
        {
            let e = rest.remove(0);
            proof {
                assert(orig.take(i + 1).drop_last() =~= orig.take(i as int));
                assert(orig.take(i + 1).last() == e);
            }
            if e.1.sequence <= batch.sequence {
                done.push((e.0, e.2));
            } else {
                kept.push(e);
            }
            i = i + 1;
        }
        proof {
            assert(orig.take(orig.len() as int) =~= orig);
            lemma_retained_after_keeps(orig, batch.sequence, self.queue_id, self.last_issued);
        }
        self.entries = kept;
        Some(done)
    }

    /// Removes every waiting entry, in order, regardless of completion.
    pub fn drain(&mut self) -> (r: Vec<(K, T)>)
        requires
            old(self).wf(),
        ensures
            final(self).wf(),
            final(self).pending().len() == 0,
            final(self).queue_id() == old(self).queue_id(),
            final(self).last_issued() == old(self).last_issued(),
            r@ == key_values(old(self).pending()),
    {
        let mut rest: Vec<(K, TextureRetirementBatch, T)> = Vec::new();
        std::mem::swap(&mut rest, &mut self.entries);
        let ghost orig = rest@;
        let total = rest.len();
        let mut out: Vec<(K, T)> = Vec::new();
        let mut i: usize = 0;
        while rest.len() > 0
            invariant
                i <= orig.len(),
                orig.len() == total,
                rest@ == orig.subrange(i as int, orig.len() as int),
                out@ == key_values(orig.take(i as int)),
            decreases rest.len(),
        {
            let e = rest.remove(0);
            out.push((e.0, e.2));
            proof {
                assert(out@ =~= key_values(orig.take(i + 1)));
            }
            i = i + 1;
        }
        proof {
            assert(orig.take(orig.len() as int) =~= orig);
        }
        out
    }
}

/// A nonempty sequence has a positive maximum once every sequence is positive.
proof fn lemma_max_sequence_positive<K, T>(s: Seq<(K, TextureRetirementBatch, T)>)
    ensures
        forall|j: int| 0 <= j < s.len() ==> (#[trigger] s[j]).1@.1 <= max_sequence(s),
        s.len() > 0 ==> exists|j: int| 0 <= j < s.len() && (#[trigger] s[j]).1@.1 == max_sequence(s),
    decreases s.len(),
{
    if s.len() > 0 {
        lemma_max_sequence_positive(s.drop_last());
        assert forall|j: int| 0 <= j < s.len() implies (#[trigger] s[j]).1@.1 <= max_sequence(s) by {
            if j < s.len() - 1 {
                assert(s[j] == s.drop_last()[j]);
            }
        }
        if s.drop_last().len() > 0 && s.last().1@.1 <= max_sequence(s.drop_last()) {
            let j = choose|j: int| 0 <= j < s.drop_last().len() && (#[trigger] s.drop_last()[j]).1@.1
                == max_sequence(s.drop_last());
            assert(s[j] == s.drop_last()[j]);
            assert(s[j].1@.1 == max_sequence(s));
        } else {
            if s.drop_last().len() == 0 {
                assert(max_sequence(s.drop_last()) == 0);
            }
            assert(s[s.len() - 1] == s.last());
            assert(s[s.len() - 1].1@.1 == max_sequence(s));
        }
    }
}

/// Entries kept after a completion come from the queue before it, and keys stay distinct.
proof fn lemma_retained_after_keeps<K, T>(
    s: Seq<(K, TextureRetirementBatch, T)>,
    seq: u64,
    queue_id: u64,
    last_issued: u64,
)
    ensures
        forall|e| #[trigger] retained_after(s, seq).contains(e) ==> s.contains(e),
        keys_distinct(s) ==> keys_distinct(retained_after(s, seq)),
        (forall|i: int|
            0 <= i < s.len() ==> {
                &&& (#[trigger] s[i]).1@.0 == queue_id
                &&& 1 <= s[i].1@.1 <= last_issued
            }) ==> (forall|i: int|
            0 <= i < retained_after(s, seq).len() ==> {
                &&& (#[trigger] retained_after(s, seq)[i]).1@.0 == queue_id
                &&& 1 <= retained_after(s, seq)[i].1@.1 <= last_issued
            }),
    decreases s.len(),
{
    if s.len() > 0 {
        let d = s.drop_last();
        lemma_retained_after_keeps(d, seq, queue_id, last_issued);
        let r = retained_after(s, seq);
        let rd = retained_after(d, seq);
        assert forall|e| r.contains(e) implies s.contains(e) by {
            let k = choose|k: int| 0 <= k < r.len() && r[k] == e;
            if k < rd.len() {
                assert(r[k] == rd[k]);
                assert(rd.contains(e));
                assert(d.contains(e));
                let m = choose|m: int| 0 <= m < d.len() && d[m] == e;
                assert(s[m] == e);
            } else {
                assert(s[s.len() - 1] == e);
            }
        }
        if keys_distinct(s) {
            assert(keys_distinct(d)) by {
                assert forall|i: int, j: int| 0 <= i < j < d.len() implies #[trigger] d[i].0
                    != #[trigger] d[j].0 by {
                    assert(d[i] == s[i] && d[j] == s[j]);
                }
            }
            if s.last().1@.1 > seq {
                assert forall|i: int, j: int| 0 <= i < j < r.len() implies #[trigger] r[i].0
                    != #[trigger] r[j].0 by {
                    if j == r.len() - 1 {
                        assert(rd.contains(r[i]));
                        let m = choose|m: int| 0 <= m < d.len() && d[m] == r[i];
                        assert(s[m] == d[m]);
                        assert(r[j] == s[s.len() - 1]);
                    } else {
                        assert(r[i] == rd[i] && r[j] == rd[j]);
                    }
                }
            }
        }
        if forall|i: int|
            0 <= i < s.len() ==> {
                &&& (#[trigger] s[i]).1@.0 == queue_id
                &&& 1 <= s[i].1@.1 <= last_issued
            } {
            assert forall|i: int| 0 <= i < d.len() implies {
                &&& (#[trigger] d[i]).1@.0 == queue_id
                &&& 1 <= d[i].1@.1 <= last_issued
            } by {
                assert(d[i] == s[i]);
            }
            assert forall|i: int| 0 <= i < r.len() implies {
                &&& (#[trigger] r[i]).1@.0 == queue_id
                &&& 1 <= r[i].1@.1 <= last_issued
            } by {
                if i < rd.len() {
                    assert(r[i] == rd[i]);
                } else {
                    assert(r[i] == s[s.len() - 1]);
                }
            }
        }
    }
}

/// After a completion through `later`, completing through any batch not later than it
/// releases nothing and keeps the queue as it is; in particular, completing the same batch twice
/// releases its resources once.
pub proof fn law_later_completion_covers_earlier<K, T>(
    s: Seq<(K, TextureRetirementBatch, T)>,
    earlier: u64,
    later: u64,
)
    requires
        earlier <= later,
    ensures
        retired_through(retained_after(s, later), earlier) == Seq::<(K, T)>::empty(),
        retained_after(retained_after(s, later), earlier) == retained_after(s, later),
    decreases s.len(),
{
    if s.len() > 0 {
        law_later_completion_covers_earlier(s.drop_last(), earlier, later);
        let rd = retained_after(s.drop_last(), later);
        if s.last().1@.1 > later {
            let r = rd.push(s.last());
            assert(r.drop_last() =~= rd);
            assert(r.last() == s.last());
        }
    }
}

/// A completion loses nothing: each waiting resource is either released or kept, and the
/// released ones are exactly those whose batch is not later than the completed one.
pub proof fn law_completion_partitions<K, T>(s: Seq<(K, TextureRetirementBatch, T)>, seq: u64)
    ensures
        retired_through(s, seq).len() + retained_after(s, seq).len() == s.len(),
        forall|i: int|
            0 <= i < retained_after(s, seq).len() ==> (#[trigger] retained_after(s, seq)[i]).1@.1
                > seq,
    decreases s.len(),
{
    if s.len() > 0 {
        law_completion_partitions(s.drop_last(), seq);
        let rd = retained_after(s.drop_last(), seq);
        let r = retained_after(s, seq);
        assert forall|i: int| 0 <= i < r.len() implies (#[trigger] r[i]).1@.1 > seq by {
            if i < rd.len() {
                assert(r[i] == rd[i]);
            }
        }
    }
}

/// After the queue was drained at teardown, every completion releases nothing.
pub proof fn law_drained_completion_is_noop<K, T>(seq: u64)
    ensures
        retired_through(Seq::<(K, TextureRetirementBatch, T)>::empty(), seq) == Seq::<
            (K, T),
        >::empty(),
        retained_after(Seq::<(K, TextureRetirementBatch, T)>::empty(), seq) == Seq::<
            (K, TextureRetirementBatch, T),
        >::empty(),
{
}

} // verus!
