use vstd::prelude::*;
use std::collections::HashMap;
use crate::request::{Request, RequestModel, with_dirty};

verus! {

/// Index reached by one step forward over `n` entries, wrapping to the start.
pub open spec fn next_index(i: nat, n: nat) -> nat {
    if i + 1 < n { i + 1 } else { 0 }
}

/// Index reached by one step backward over `n` entries, wrapping to the end.
pub open spec fn prev_index(i: nat, n: nat) -> nat {
    if i >= 1 && i - 1 < n { (i - 1) as nat } else { (n - 1) as nat }
}

/// `next_index` applied `k` times.
pub open spec fn next_index_times(i: nat, n: nat, k: nat) -> nat
    decreases k,
{
    if k == 0 { i } else { next_index(next_index_times(i, n, (k - 1) as nat), n) }
}

/// `prev_index` applied `k` times.
pub open spec fn prev_index_times(i: nat, n: nat, k: nat) -> nat
    decreases k,
{
    if k == 0 { i } else { prev_index(prev_index_times(i, n, (k - 1) as nat), n) }
}

proof fn lemma_next_index_times_split(i: nat, n: nat, a: nat, b: nat)
    ensures
        next_index_times(i, n, a + b) == next_index_times(next_index_times(i, n, a), n, b),
    decreases b,
{
    if b > 0 {
        lemma_next_index_times_split(i, n, a, (b - 1) as nat);
        assert((a + b - 1) as nat == a + (b - 1) as nat);
    }
}

proof fn lemma_next_index_times_below(i: nat, n: nat, k: nat)
    requires
        i + k < n,
    ensures
        next_index_times(i, n, k) == i + k,
    decreases k,
{
    if k > 0 {
        lemma_next_index_times_below(i, n, (k - 1) as nat);
    }
}

/// Stepping forward `n` times over `n` entries comes back to where it started.
pub proof fn lemma_next_cycle(i: nat, n: nat)
    requires
        i < n,
    ensures
        next_index_times(i, n, n) == i,
{
    let a = (n - 1 - i) as nat;
    lemma_next_index_times_below(i, n, a);
    lemma_next_index_times_split(i, n, a, i + 1);
    assert(a + (i + 1) == n);
    lemma_next_index_times_split((n - 1) as nat, n, 1, i);
    assert(next_index_times((n - 1) as nat, n, 1) == 0) by {
        reveal_with_fuel(next_index_times, 2);
    }
    lemma_next_index_times_below(0, n, i);
    assert(1 + i == i + 1);
}

proof fn lemma_prev_index_times_split(i: nat, n: nat, a: nat, b: nat)
    ensures
        prev_index_times(i, n, a + b) == prev_index_times(prev_index_times(i, n, a), n, b),
    decreases b,
{
    if b > 0 {
        lemma_prev_index_times_split(i, n, a, (b - 1) as nat);
        assert((a + b - 1) as nat == a + (b - 1) as nat);
    }
}

proof fn lemma_prev_index_times_above(i: nat, n: nat, k: nat)
    requires
        k <= i < n,
    ensures
        prev_index_times(i, n, k) == i - k,
    decreases k,
{
    if k > 0 {
        lemma_prev_index_times_above(i, n, (k - 1) as nat);
    }
}

/// Stepping backward `n` times over `n` entries comes back to where it started.
pub proof fn lemma_prev_cycle(i: nat, n: nat)
    requires
        i < n,
    ensures
        prev_index_times(i, n, n) == i,
{
    lemma_prev_index_times_above(i, n, i);
    lemma_prev_index_times_split(i, n, i, (n - i) as nat);
    assert(i + (n - i) as nat == n);
    lemma_prev_index_times_split(0, n, 1, (n - 1 - i) as nat);
    assert(prev_index_times(0, n, 1) == n - 1) by {
        reveal_with_fuel(prev_index_times, 2);
    }
    lemma_prev_index_times_above((n - 1) as nat, n, (n - 1 - i) as nat);
    assert(1 + (n - 1 - i) as nat == (n - i) as nat);
}

/// Identifiers of a persisted snapshot, in the order the snapshot lists them.
pub open spec fn keys_of(saved: Seq<(u64, Request)>) -> Seq<u64> {
    saved.map_values(|p: (u64, Request)| p.0)
}

/// Request definitions keyed by identifier, an ordered list of identifiers
/// that fixes the navigation sequence, and a cursor over that list.
pub struct RequestStore {
    request_in_memory: HashMap<u64, Request>,
    requests: Vec<u64>,
    current_uuid: u64,
    current_ind: usize,
    next_uuid: u64,
}

impl RequestStore {
    /// Navigation order.
    pub closed spec fn order(&self) -> Seq<u64> {
        self.requests@
    }

    /// Identifier to request.
    pub closed spec fn entities(&self) -> Map<u64, Request> {
        self.request_in_memory@
    }

    /// Cursor position in `order()`.
    pub closed spec fn cursor(&self) -> nat {
        self.current_ind as nat
    }

    /// Every identifier handed out so far is below this bound.
    pub closed spec fn fresh_bound(&self) -> nat {
        self.next_uuid as nat
    }

    /// Identifier under the cursor.
    pub open spec fn current_id(&self) -> u64 {
        self.order()[self.cursor() as int]
    }

    /// Value of the request under the cursor.
    pub open spec fn current(&self) -> RequestModel {
        self.entities()[self.current_id()]@
    }

    /// Values of all requests, in navigation order.
    pub open spec fn all(&self) -> Seq<RequestModel> {
        self.order().map_values(|k: u64| self.entities()[k]@)
    }

    pub closed spec fn wf(&self) -> bool {
        &&& self.requests@.len() > 0
        &&& self.requests@.no_duplicates()
        &&& forall|k: u64| #[trigger] self.request_in_memory@.contains_key(k) <==> self.requests@.contains(k)
        &&& forall|i: int| 0 <= i < self.requests@.len() ==> #[trigger] self.requests@[i] < self.next_uuid
        &&& self.current_ind < self.requests@.len()
        &&& self.requests@[self.current_ind as int] == self.current_uuid
    }

    /// What the store invariant tells a caller: a non-empty order without
    /// duplicates, exactly one entity per identifier in it, the cursor in
    /// range, and every identifier below the fresh bound.
    pub proof fn lemma_wf(&self)
        requires
            self.wf(),
        ensures
            self.order().len() > 0,
            self.order().no_duplicates(),
            self.cursor() < self.order().len(),
            forall|k: u64| #[trigger] self.entities().contains_key(k) <==> self.order().contains(k),
            forall|i: int| 0 <= i < self.order().len() ==> #[trigger] self.order()[i] < self.fresh_bound(),
    {
    }

    /// What `add_request` guarantees of the store before and after it.
    pub open spec fn is_add_step(before: RequestStore, after: RequestStore) -> bool {
        &&& after.order() == before.order().push(after.current_id())
        &&& after.cursor() == before.order().len()
    }

    /// After any run of `add_request` calls, the store holds one more request
    /// per call, keeps the earlier ones in order, and the cursor is on the
    /// most recently added one.
    pub proof fn lemma_add_sequence(chain: Seq<RequestStore>)
        requires
            chain.len() >= 1,
            forall|i: int| 0 <= i < chain.len() - 1 ==> #[trigger] Self::is_add_step(chain[i], chain[i + 1]),
        ensures
            chain.last().order().len() == chain[0].order().len() + chain.len() - 1,
            chain.last().order().subrange(0, chain[0].order().len() as int) == chain[0].order(),
            chain.len() > 1 ==> chain.last().cursor() == chain.last().order().len() - 1,
        decreases chain.len(),
    {
        if chain.len() > 1 {
            let rest = chain.drop_last();
            assert forall|i: int| 0 <= i < rest.len() - 1 implies #[trigger] Self::is_add_step(rest[i], rest[i + 1]) by {
                assert(Self::is_add_step(chain[i], chain[i + 1]));
            }
            Self::lemma_add_sequence(rest);
            let n = chain.len() - 1;
            let j = n - 1;
            assert(Self::is_add_step(chain[j], chain[j + 1]));
            assert(rest.last() == chain[j]);
            assert(rest[0] == chain[0]);
            let k = chain[0].order().len() as int;
            assert(chain.last().order().subrange(0, k) =~= rest.last().order().subrange(0, k));
        }
    }

    /// Builds the store from a persisted snapshot (identifier, request) with
    /// distinct identifiers. The navigation order is the snapshot's order and
    /// the cursor starts on its first entry. An empty snapshot yields a store
    /// holding one fresh default request.
    pub fn init(saved: Vec<(u64, Request)>) -> (r: Self)
        requires
            keys_of(saved@).no_duplicates(),
            forall|i: int| 0 <= i < saved@.len() ==> #[trigger] saved@[i].0 < u64::MAX,
        ensures
            r.wf(),
            r.cursor() == 0,
            r.current() == r.entities()[r.order()[0]]@,
            r.order().len() > 0,
            r.order().no_duplicates(),
            forall|k: u64| #[trigger] r.entities().contains_key(k) <==> r.order().contains(k),
            saved@.len() > 0 ==> r.order() == keys_of(saved@),
            saved@.len() > 0 ==> forall|i: int| 0 <= i < saved@.len() ==>
                #[trigger] r.entities()[saved@[i].0]@ == saved@[i].1@,
            saved@.len() == 0 ==> r.order().len() == 1,
            saved@.len() == 0 ==> r.fresh_bound() == 1,
            saved@.len() > 0 ==> exists|i: int| 0 <= i < saved@.len() && r.fresh_bound() == #[trigger] saved@[i].0 + 1,
            saved@.len() == 0 ==> r.current() == crate::request::default_model(),
    {
        let mut request_in_memory: HashMap<u64, Request> = HashMap::new();
        let mut requests: Vec<u64> = Vec::new();
        let mut next_uuid: u64 = 0;
        let mut i: usize = 0;
        while i < saved.len()
            invariant
                i <= saved@.len(),
                keys_of(saved@).no_duplicates(),
                forall|j: int| 0 <= j < saved@.len() ==> #[trigger] saved@[j].0 < u64::MAX,
                requests@ == keys_of(saved@).subrange(0, i as int),
                forall|k: u64| #[trigger] request_in_memory@.contains_key(k) <==> requests@.contains(k),
                forall|j: int| 0 <= j < i ==> #[trigger] request_in_memory@[saved@[j].0]@ == saved@[j].1@,
                forall|j: int| 0 <= j < i ==> #[trigger] saved@[j].0 < next_uuid,
                i == 0 ==> next_uuid == 0,
                i > 0 ==> exists|j: int| 0 <= j < i && next_uuid == #[trigger] saved@[j].0 + 1,
            decreases saved@.len() - i,
        {
            let key = saved[i].0;
            let req = saved[i].1.duplicate();
            proof {
                assert(keys_of(saved@)[i as int] == key);
                assert forall|j: int| 0 <= j < i implies #[trigger] saved@[j].0 != key by {
                    assert(keys_of(saved@)[j] == saved@[j].0);
                }
            }
            let ghost prev = requests@;
            request_in_memory.insert(key, req);
            requests.push(key);
            proof {
                assert forall|k: u64| #[trigger] request_in_memory@.contains_key(k) <==> requests@.contains(k) by {
                    if k == key {
                        assert(requests@[requests@.len() - 1] == key);
                    } else {
                        if requests@.contains(k) {
                            let t = choose|t: int| 0 <= t < requests@.len() && requests@[t] == k;
                            assert(prev[t] == k);
                        }
                        if prev.contains(k) {
                            let t = choose|t: int| 0 <= t < prev.len() && prev[t] == k;
                            assert(requests@[t] == k);
                        }
                    }
                }
            }
            if key >= next_uuid {
                next_uuid = key + 1;
            }
            i = i + 1;
            proof {
                assert(requests@ =~= keys_of(saved@).subrange(0, i as int));
            }
        }
        proof {
            assert(requests@ =~= keys_of(saved@));
        }
        if requests.len() == 0 {
            let uuid: u64 = 0;
            request_in_memory.insert(uuid, Request::default());
            requests.push(uuid);
            next_uuid = 1;
            proof {
                assert(requests@ =~= seq![uuid]);
            }
        }
        proof {
            assert forall|j: int| 0 <= j < requests@.len() implies #[trigger] requests@[j] < next_uuid by {
                if saved@.len() > 0 {
                    assert(keys_of(saved@)[j] == saved@[j].0);
                }
            }
        }
        let current_uuid = requests[0];
        RequestStore { request_in_memory, requests, current_uuid, current_ind: 0, next_uuid }
    }

    /// Appends a fresh default request under a new identifier and moves the
    /// cursor onto it. Returns its index.
    pub fn add_request(&mut self) -> (r: usize)
        requires
            old(self).wf(),
            old(self).fresh_bound() < u64::MAX,
        ensures
            final(self).wf(),
            !old(self).entities().contains_key(final(self).current_id()),
            final(self).order() == old(self).order().push(final(self).current_id()),
            final(self).entities() == old(self).entities().insert(
                final(self).current_id(),
                final(self).entities()[final(self).current_id()],
            ),
            final(self).current() == crate::request::default_model(),
            r == old(self).order().len(),
            final(self).cursor() == r,
            Self::is_add_step(*old(self), *final(self)),
            final(self).current_id() == old(self).fresh_bound(),
            final(self).fresh_bound() == old(self).fresh_bound() + 1,
    {
        let uuid = self.next_uuid;
        let ghost prev = self.requests@;
        self.request_in_memory.insert(uuid, Request::default());
        self.requests.push(uuid);
        self.next_uuid = uuid + 1;
        proof {
            assert(self.requests@[self.requests@.len() - 1] == uuid);
            assert forall|k: u64| #[trigger] self.request_in_memory@.contains_key(k) <==> self.requests@.contains(k) by {
                if k != uuid {
                    if self.requests@.contains(k) {
                        let t = choose|t: int| 0 <= t < self.requests@.len() && self.requests@[t] == k;
                        assert(prev[t] == k);
                    }
                    if prev.contains(k) {
                        let t = choose|t: int| 0 <= t < prev.len() && prev[t] == k;
                        assert(self.requests@[t] == k);
                    }
                }
            }
            assert forall|i: int| 0 <= i < self.requests@.len() implies #[trigger] self.requests@[i] < self.next_uuid by {
                if i < prev.len() {
                    assert(prev[i] == self.requests@[i]);
                }
            }
        }
        let i = self.requests.len() - 1;
        let _ = self.goto_request(i);
        i
    }

    /// Whether a fresh identifier is still available for `add_request`.
    pub fn can_add(&self) -> (r: bool)
        ensures
            r == (self.fresh_bound() < u64::MAX),
    {
        self.next_uuid < u64::MAX
    }

    /// Moves the cursor to `index` when it is in range; otherwise reports
    /// failure and leaves the cursor where it was.
    pub fn goto_request(&mut self, index: usize) -> (r: Option<()>)
        requires
            old(self).wf(),
        ensures
            final(self).wf(),
            final(self).order() == old(self).order(),
            final(self).entities() == old(self).entities(),
            final(self).fresh_bound() == old(self).fresh_bound(),
            index < old(self).order().len() ==> r == Some(()) && final(self).cursor() == index,
            index >= old(self).order().len() ==> r is None && final(self).cursor() == old(self).cursor(),
    {
        if index < self.requests.len() {
            let key = self.requests[index];
            self.current_uuid = key;
            self.current_ind = index;
            Some(())
        } else {
            None
        }
    }

    /// Moves the cursor one step forward, wrapping from the last entry to the first.
    pub fn goto_next_request(&mut self)
        requires
            old(self).wf(),
        ensures
            final(self).wf(),
            final(self).order() == old(self).order(),
            final(self).entities() == old(self).entities(),
            final(self).fresh_bound() == old(self).fresh_bound(),
            final(self).cursor() == next_index(old(self).cursor(), old(self).order().len()),
    {
        let total = self.requests.len();
        assert(self.current_ind < total);
        let next_ind = self.current_ind + 1;
        if let None = self.goto_request(next_ind) {
            let _ = self.goto_request(0);
        }
    }

    /// Moves the cursor one step backward, wrapping from the first entry to the last.
    pub fn goto_prev_request(&mut self)
        requires
            old(self).wf(),
        ensures
            final(self).wf(),
            final(self).order() == old(self).order(),
            final(self).entities() == old(self).entities(),
            final(self).fresh_bound() == old(self).fresh_bound(),
            final(self).cursor() == prev_index(old(self).cursor(), old(self).order().len()),
    {
        let moved = if self.current_ind >= 1 {
            self.goto_request(self.current_ind - 1)
        } else {
            None
        };
        if let None = moved {
            let last = self.get_total_requests() - 1;
            let _ = self.goto_request(last);
        }
    }

    /// Copy of the request under the cursor.
    pub fn get_request(&self) -> (r: Request)
        requires
            self.wf(),
        ensures
            r@ == self.current(),
    {
        let key = self.requests[self.current_ind];
        proof {
            assert(self.requests@.contains(key));
        }
        self.request_in_memory.get(&key).unwrap().duplicate()
    }

    /// All requests, in navigation order.
    pub fn get_requests(&self) -> (r: Vec<&Request>)
        requires
            self.wf(),
        ensures
            r@.len() == self.order().len(),
            forall|i: int| 0 <= i < r@.len() ==> (#[trigger] r@[i])@ == self.all()[i],
    {
        let mut out: Vec<&Request> = Vec::new();
        let mut i: usize = 0;
        while i < self.requests.len()
            invariant
                self.wf(),
                i <= self.requests@.len(),
                out@.len() == i,
                forall|j: int| 0 <= j < i ==> (#[trigger] out@[j])@ == self.all()[j],
            decreases self.requests@.len() - i,
        {
            let key = self.requests[i];
            proof {
                assert(self.requests@.contains(key));
            }
            out.push(self.request_in_memory.get(&key).unwrap());
            i = i + 1;
        }
        out
    }

    /// Cursor position.
    pub fn request_ind(&self) -> (r: usize)
        ensures
            r == self.cursor(),
    {
        self.current_ind
    }

    /// Number of stored requests.
    pub fn get_total_requests(&self) -> (r: usize)
        requires
            self.wf(),
        ensures
            r == self.order().len(),
    {
        proof {
            self.requests@.unique_seq_to_set();
            assert(self.request_in_memory@.dom() =~= self.requests@.to_set());
        }
        self.request_in_memory.len()
    }

    /// Replaces the request under the cursor; the stored copy is always
    /// marked as changed, whatever flag `request` carries.
    pub fn update_request(&mut self, request: Request)
        requires
            old(self).wf(),
        ensures
            final(self).wf(),
            final(self).order() == old(self).order(),
            final(self).cursor() == old(self).cursor(),
            final(self).fresh_bound() == old(self).fresh_bound(),
            final(self).entities() == old(self).entities().insert(
                old(self).current_id(),
                final(self).entities()[old(self).current_id()],
            ),
            final(self).current() == with_dirty(request@, true),
    {
        let mut request = request;
        let key = self.requests[self.current_ind];
        request.has_changed = true;
        self.request_in_memory.insert(key, request);
    }

    /// Identifier and copy of the request under the cursor: what a save
    /// writes to the persistence layer.
    pub fn current_entry(&self) -> (r: (u64, Request))
        requires
            self.wf(),
        ensures
            r.0 == self.current_id(),
            r.1@ == self.current(),
    {
        (self.current_uuid, self.get_request())
    }

    /// Completes a save of `current_entry()` given the persistence layer's
    /// answer `written`. On success the request under the cursor is marked as
    /// unchanged; a failure is handed back and the store is left as it was.
    pub fn save_current_request(&mut self, written: Result<(), String>) -> (r: Result<(), String>)
        requires
            old(self).wf(),
        ensures
            final(self).wf(),
            r == written,
            final(self).order() == old(self).order(),
            final(self).cursor() == old(self).cursor(),
            final(self).fresh_bound() == old(self).fresh_bound(),
            written is Ok ==> final(self).entities() == old(self).entities().insert(
                old(self).current_id(),
                final(self).entities()[old(self).current_id()],
            ),
            written is Ok ==> final(self).current() == with_dirty(old(self).current(), false),
            written is Err ==> final(self).entities() == old(self).entities(),
    {
        if written.is_ok() {
            let mut req = self.get_request();
            req.has_changed = false;
            let key = self.current_uuid;
            self.request_in_memory.insert(key, req);
        }
        written
    }
}

} // verus!
