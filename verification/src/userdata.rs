//! Userdata: what the application attaches to engine objects, and what
//! travels with an object through the engine.
//!
//! The payloads of the application live in a side-table, keyed by the
//! identifier of the object, which counts the handles to each object and
//! reclaims the entries of dead ones in batches. The engine's own userdata
//! pointer of an object carries a box instead, which keeps alive what the
//! object reads from; the boxes that are lent to the engine sit in an
//! arena, under the tokens that the engine holds as pointers.
use vstd::prelude::*;
use std::collections::HashMap;
use crate::cstring::{is_c_string, is_c_text};
use crate::errors::{Error, STATUS_LOCAL};
use crate::handle::{call_owed, net_ref_delta, EngineCall, Handle, HandleOp, ToSyzHandle};

verus! {

broadcast use vstd::std_specs::hash::group_hash_axioms;

/// The number of entries above which an `unregister` that brings a count to
/// zero asks for a garbage collection.
pub const DEFAULT_GC_THRESHOLD: usize = 1024;

/// What the table keeps for one identifier.
pub struct UserdataEntry<P> {
    /// How many handles currently alias the identifier.
    pub refcount: u64,
    /// The payload that the application attached, if any.
    pub payload: Option<P>,
}

/// The table `m` after one more handle for `id` was registered.
pub open spec fn registered<P>(m: Map<u64, UserdataEntry<P>>, id: u64) -> Map<
    u64,
    UserdataEntry<P>,
> {
    if m.contains_key(id) {
        m.insert(
            id,
            UserdataEntry { refcount: (m[id].refcount + 1) as u64, payload: m[id].payload },
        )
    } else {
        m.insert(id, UserdataEntry { refcount: 1, payload: None })
    }
}

/// The table `m` after one handle for `id` was unregistered: the count is
/// one less, and the payload is gone once the count is zero.
pub open spec fn unregistered<P>(m: Map<u64, UserdataEntry<P>>, id: u64) -> Map<
    u64,
    UserdataEntry<P>,
> {
    m.insert(
        id,
        UserdataEntry {
            refcount: (m[id].refcount - 1) as u64,
            payload: if m[id].refcount == 1 {
                None
            } else {
                m[id].payload
            },
        },
    )
}

/// The table `m` with the payload of `id` replaced.
pub open spec fn with_payload<P>(
    m: Map<u64, UserdataEntry<P>>,
    id: u64,
    payload: Option<P>,
) -> Map<u64, UserdataEntry<P>> {
    m.insert(id, UserdataEntry { refcount: m[id].refcount, payload })
}

/// Whether some handle for `id` is alive in `m`: the entry exists and its
/// count is not zero.
pub open spec fn live<P>(m: Map<u64, UserdataEntry<P>>, id: u64) -> bool {
    m.contains_key(id) && m[id].refcount > 0
}

/// The table `m` after a reference-count call was followed.
pub open spec fn recorded<P>(m: Map<u64, UserdataEntry<P>>, call: EngineCall) -> Map<
    u64,
    UserdataEntry<P>,
> {
    match call {
        EngineCall::IncRef(id) => registered(m, id),
        EngineCall::DecRef(id) => unregistered(m, id),
    }
}

/// Whether the table `m` can follow a call: a count to decrement is not zero,
/// and one to increment is not at its limit.
pub open spec fn can_record<P>(m: Map<u64, UserdataEntry<P>>, call: EngineCall) -> bool {
    match call {
        EngineCall::IncRef(id) => m.contains_key(id) ==> m[id].refcount < u64::MAX,
        EngineCall::DecRef(id) => live(m, id),
    }
}

/// The table `m` after a sequence of calls was followed, in order.
pub open spec fn recorded_all<P>(m: Map<u64, UserdataEntry<P>>, calls: Seq<EngineCall>) -> Map<
    u64,
    UserdataEntry<P>,
>
    decreases calls.len(),
{
    if calls.len() == 0 {
        m
    } else {
        recorded(recorded_all(m, calls.drop_last()), calls.last())
    }
}

/// Whether the table `m` can follow a sequence of calls, one after the other.
pub open spec fn can_record_all<P>(m: Map<u64, UserdataEntry<P>>, calls: Seq<EngineCall>) -> bool
    decreases calls.len(),
{
    calls.len() > 0 ==> can_record_all(m, calls.drop_last()) && can_record(
        recorded_all(m, calls.drop_last()),
        calls.last(),
    )
}

/// The count that `m` holds for `id`: zero where it has no entry.
pub open spec fn count_of<P>(m: Map<u64, UserdataEntry<P>>, id: u64) -> int {
    if m.contains_key(id) {
        m[id].refcount as int
    } else {
        0
    }
}

/// The entries of `m` whose count is not zero.
pub open spec fn live_entries<P>(m: Map<u64, UserdataEntry<P>>) -> Map<u64, UserdataEntry<P>> {
    m.restrict(Set::new(|id: u64| live(m, id)))
}

/// A table from the identifiers of engine objects to their userdata.
///
/// An entry counts the handles that alias its identifier. It is created by
/// the first `register`, and when `unregister` brings its count to zero the
/// payload is dropped, while the slot stays until `gc` reclaims it.
pub struct UserdataTable<P> {
    entries: HashMap<u64, UserdataEntry<P>>,
    /// Identifiers whose count has reached zero since the last collection.
    idle: Vec<u64>,
    gc_threshold: usize,
}

impl<P> View for UserdataTable<P> {
    type V = Map<u64, UserdataEntry<P>>;

    closed spec fn view(&self) -> Map<u64, UserdataEntry<P>> {
        self.entries@
    }
}

impl<P> UserdataTable<P> {
    /// The entry count above which a collection is asked for.
    pub closed spec fn threshold(&self) -> usize {
        self.gc_threshold
    }

    /// The invariant of the table: an entry whose count is zero holds no
    /// payload and is known to the collector.
    pub closed spec fn wf(&self) -> bool {
        &&& self.entries@.dom().finite()
        &&& forall|id: u64| #[trigger]
            self.entries@.contains_key(id) && self.entries@[id].refcount == 0 ==> {
                &&& self.entries@[id].payload is None
                &&& self.idle@.contains(id)
            }
    }

    /// Whether some handle for `id` is alive.
    pub open spec fn is_live(&self, id: u64) -> bool {
        live(self@, id)
    }

    /// An empty table with the default threshold.
    pub fn new() -> (r: Self)
        ensures
            r.wf(),
            r@ == Map::<u64, UserdataEntry<P>>::empty(),
            r.threshold() == DEFAULT_GC_THRESHOLD,
    {
        UserdataTable {
            entries: HashMap::new(),
            idle: Vec::new(),
            gc_threshold: DEFAULT_GC_THRESHOLD,
        }
    }

    /// An empty table that asks for a collection above `threshold` entries.
    pub fn with_gc_threshold(threshold: usize) -> (r: Self)
        ensures
            r.wf(),
            r@ == Map::<u64, UserdataEntry<P>>::empty(),
            r.threshold() == threshold,
    {
        UserdataTable { entries: HashMap::new(), idle: Vec::new(), gc_threshold: threshold }
    }

    /// The number of entries, dead ones included.
    pub fn len(&self) -> (r: usize)
        ensures
            r == self@.len(),
    {
        self.entries.len()
    }

    /// The count of the entry for `id`, or `None` where there is no entry.
    pub fn refcount(&self, id: u64) -> (r: Option<u64>)
        ensures
            r == if self@.contains_key(id) {
                Some(self@[id].refcount)
            } else {
                None
            },
    {
        match self.entries.get(&id) {
            Some(e) => Some(e.refcount),
            None => None,
        }
    }

    /// Whether some handle for `id` is alive.
    pub fn contains_live(&self, id: u64) -> (r: bool)
        ensures
            r == self.is_live(id),
    {
        match self.entries.get(&id) {
            Some(e) => e.refcount > 0,
            None => false,
        }
    }

    /// Registers one more handle for `id`: a new entry with count one and no
    /// payload, or one more on the count of the entry that is there.
    pub fn register(&mut self, id: u64)
        requires
            old(self).wf(),
            old(self)@.contains_key(id) ==> old(self)@[id].refcount < u64::MAX,
        ensures
            final(self).wf(),
            final(self).threshold() == old(self).threshold(),
            final(self)@ == registered(old(self)@, id),
    {
        let entry = match self.entries.remove(&id) {
            Some(e) => UserdataEntry { refcount: e.refcount + 1, payload: e.payload },
            None => UserdataEntry { refcount: 1, payload: None },
        };
        self.entries.insert(id, entry);
        proof {
            assert(self@ =~= old(self)@.insert(id, entry));
        }
    }

    /// Takes one handle for `id` off the count. When the count reaches zero
    /// the payload is dropped and the slot is kept for `gc`.
    ///
    /// The result says whether a collection is due: the count reached zero
    /// and the table holds more entries than its threshold.
    pub fn unregister(&mut self, id: u64) -> (should_gc: bool)
        requires
            old(self).wf(),
            old(self).is_live(id),
        ensures
            final(self).wf(),
            final(self).threshold() == old(self).threshold(),
            final(self)@ == unregistered(old(self)@, id),
            should_gc == (old(self)@[id].refcount == 1 && old(self)@.len() > old(
                self,
            ).threshold()),
    {
        let found = self.entries.remove(&id);
        assert(found is Some);
        let e = found.unwrap();
        let left: u64 = e.refcount - 1;
        let entry = if left == 0 {
            UserdataEntry { refcount: left, payload: None }
        } else {
            UserdataEntry { refcount: left, payload: e.payload }
        };
        self.entries.insert(id, entry);
        if left == 0 {
            self.idle.push(id);
        }
        proof {
            assert(self@ =~= old(self)@.insert(id, entry));
            assert(self@.dom() =~= old(self)@.dom());
            assert forall|k: u64| #[trigger]
                self.entries@.contains_key(k) && self.entries@[k].refcount
                    == 0 implies self.entries@[k].payload is None && self.idle@.contains(k) by {
                if k == id {
                    assert(self.idle@.last() == id);
                } else {
                    assert(old(self).idle@.contains(k));
                    let j = choose|j: int|
                        0 <= j < old(self).idle@.len() && old(self).idle@[j] == k;
                    assert(self.idle@[j] == k);
                }
            }
        }
        left == 0 && self.entries.len() > self.gc_threshold
    }

    /// The payload attached to `id`, if one is set.
    pub fn get(&self, id: u64) -> (r: Option<&P>)
        requires
            self.is_live(id),
        ensures
            match r {
                Some(p) => self@[id].payload == Some(*p),
                None => self@[id].payload is None,
            },
    {
        let found = self.entries.get(&id);
        assert(found is Some);
        found.unwrap().payload.as_ref()
    }

    /// Whether `id` has an entry with a payload.
    pub fn has_userdata(&self, id: u64) -> (r: bool)
        ensures
            r == (self@.contains_key(id) && self@[id].payload is Some),
    {
        match self.entries.get(&id) {
            Some(e) => e.payload.is_some(),
            None => false,
        }
    }

    /// Replaces the payload attached to `id`; `None` clears it. The payload
    /// that was there is dropped.
    pub fn set(&mut self, id: u64, payload: Option<P>)
        requires
            old(self).wf(),
            old(self).is_live(id),
        ensures
            final(self).wf(),
            final(self).threshold() == old(self).threshold(),
            final(self)@ == with_payload(old(self)@, id, payload),
    {
        let found = self.entries.remove(&id);
        assert(found is Some);
        let entry = UserdataEntry { refcount: found.unwrap().refcount, payload };
        self.entries.insert(id, entry);
        proof {
            assert(self@ =~= old(self)@.insert(id, entry));
        }
    }

    /// Drops every entry and payload. The table itself stays, for whoever
    /// still holds it while the engine shuts down.
    pub fn clear(&mut self)
        ensures
            final(self).wf(),
            final(self).threshold() == old(self).threshold(),
            final(self)@ == Map::<u64, UserdataEntry<P>>::empty(),
    {
        self.entries.clear();
        self.idle = Vec::new();
    }

    /// Follows a reference-count call that was made to the engine: an
    /// increment registers one more handle for the object, a decrement
    /// unregisters one. The result says whether a collection is due.
    pub fn record(&mut self, call: EngineCall) -> (should_gc: bool)
        requires
            old(self).wf(),
            can_record(old(self)@, call),
        ensures
            final(self).wf(),
            final(self).threshold() == old(self).threshold(),
            final(self)@ == recorded(old(self)@, call),
            should_gc == match call {
                EngineCall::IncRef(_) => false,
                EngineCall::DecRef(id) => old(self)@[id].refcount == 1 && old(self)@.len() > old(
                    self,
                ).threshold(),
            },
    {
        match call {
            EngineCall::IncRef(id) => {
                self.register(id);
                false
            },
            EngineCall::DecRef(id) => self.unregister(id),
        }
    }

    /// Takes over an identifier fresh from a constructor call of the
    /// engine: registers it and wraps it in the handle that owns its one
    /// unit of the reference count.
    pub fn adopt(&mut self, id: u64) -> (r: Handle)
        requires
            old(self).wf(),
            old(self)@.contains_key(id) ==> old(self)@[id].refcount < u64::MAX,
        ensures
            final(self).wf(),
            final(self).threshold() == old(self).threshold(),
            final(self)@ == registered(old(self)@, id),
            r.id() == id,
    {
        self.register(id);
        Handle::new(id)
    }

    /// Clones a handle and registers the clone. The increment owed to the
    /// engine is returned.
    pub fn clone_handle(&mut self, h: &Handle) -> (r: (Handle, EngineCall))
        requires
            old(self).wf(),
            old(self)@.contains_key(h.id()) ==> old(self)@[h.id()].refcount < u64::MAX,
        ensures
            final(self).wf(),
            final(self).threshold() == old(self).threshold(),
            final(self)@ == registered(old(self)@, h.id()),
            r.0.id() == h.id(),
            r.1 == call_owed(HandleOp::Clone, h.id()),
    {
        let r = h.clone_ref();
        let id = h.to_syz_handle();
        self.register(id);
        r
    }

    /// Gives a handle up and unregisters it. The decrement owed to the
    /// engine is returned, and whether a collection is due.
    pub fn drop_handle(&mut self, h: Handle) -> (r: (EngineCall, bool))
        requires
            old(self).wf(),
            old(self).is_live(h.id()),
        ensures
            final(self).wf(),
            final(self).threshold() == old(self).threshold(),
            final(self)@ == unregistered(old(self)@, h.id()),
            r.0 == call_owed(HandleOp::Drop, h.id()),
            r.1 == (old(self)@[h.id()].refcount == 1 && old(self)@.len() > old(self).threshold()),
    {
        let id = h.to_syz_handle();
        let call = h.release();
        let should_gc = self.unregister(id);
        (call, should_gc)
    }

    /// Reclaims every entry whose count is zero. The other entries stay as
    /// they are.
    pub fn gc(&mut self)
        requires
            old(self).wf(),
        ensures
            final(self).wf(),
            final(self).threshold() == old(self).threshold(),
            final(self)@ == live_entries(old(self)@),
    {
        let mut i: usize = 0;
        while i < self.idle.len()
            invariant
                i <= self.idle.len(),
                self.idle == old(self).idle,
                self.gc_threshold == old(self).gc_threshold,
                old(self).wf(),
                forall|id: u64| #[trigger]
                    self.entries@.contains_key(id) <==> old(self).entries@.contains_key(id) && !(
                    old(self).entries@[id].refcount == 0 && exists|j: int|
                        0 <= j < i && self.idle@[j] == id),
                forall|id: u64| #[trigger]
                    self.entries@.contains_key(id) ==> self.entries@[id] == old(
                        self,
                    ).entries@[id],
            decreases self.idle.len() - i,
        {
            let id = self.idle[i];
            let dead = match self.entries.get(&id) {
                Some(e) => e.refcount == 0,
                None => false,
            };
            if dead {
                self.entries.remove(&id);
            }
            proof {
                let idle = self.idle@;
                let before = i as int;
                assert forall|k: u64| #[trigger]
                    self.entries@.contains_key(k) <==> old(self).entries@.contains_key(k) && !(
                    old(self).entries@[k].refcount == 0 && exists|j: int|
                        0 <= j < before + 1 && idle[j] == k) by {
                    if exists|j: int| 0 <= j < before + 1 && idle[j] == k {
                        let j = choose|j: int| 0 <= j < before + 1 && idle[j] == k;
                        assert(j < before ==> 0 <= j < before && idle[j] == k);
                    } else if k == id {
                        assert(0 <= before < before + 1 && idle[before] == k);
                    }
                }
            }
            i += 1;
        }
        self.idle = Vec::new();
        proof {
            assert forall|k: u64|
                old(self).entries@.contains_key(k) && old(self).entries@[k].refcount
                    == 0 implies !self.entries@.contains_key(k) by {
                assert(old(self).idle@.contains(k));
                let j = choose|j: int| 0 <= j < old(self).idle@.len() && old(self).idle@[j] == k;
                assert(0 <= j < i && old(self).idle@[j] == k);
            }
            assert(self@ =~= live_entries(old(self)@));
        }
    }
}

/// The box that travels with an engine object as its userdata pointer: a
/// slot for the application's payload, and the bytes of a memory stream
/// where the object reads from one. The engine frees it through the free
/// callback when the object dies.
pub struct UserdataBox<P> {
    pub userdata: Option<P>,
    /// The buffer that a memory stream reads from, kept alive with the
    /// object.
    pub streaming_userdata: Option<Vec<u8>>,
}

impl<P> UserdataBox<P> {
    /// A box with nothing in it.
    pub fn new() -> (r: UserdataBox<P>)
        ensures
            r.userdata is None,
            r.streaming_userdata is None,
    {
        UserdataBox { userdata: None, streaming_userdata: None }
    }

    /// A box that keeps the bytes of a memory stream, with an empty
    /// payload slot.
    pub fn from_streaming_userdata(bytes: Vec<u8>) -> (r: UserdataBox<P>)
        ensures
            r.userdata is None,
            r.streaming_userdata == Some(bytes),
    {
        UserdataBox { userdata: None, streaming_userdata: Some(bytes) }
    }

    /// Replaces the payload; the one that was there is dropped.
    pub fn set_userdata(&mut self, ud: Option<P>)
        ensures
            final(self).userdata == ud,
            final(self).streaming_userdata == old(self).streaming_userdata,
    {
        self.userdata = ud;
    }

    /// The payload, if one is set.
    pub fn get_userdata(&self) -> (r: Option<&P>)
        ensures
            match r {
                Some(p) => self.userdata == Some(*p),
                None => self.userdata is None,
            },
    {
        self.userdata.as_ref()
    }

    /// Hands this box to a constructor of the engine.
    ///
    /// The box is put into the arena and the closure, which makes the
    /// constructor call, gets its token to pass as the userdata pointer.
    /// If the closure succeeds the box stays in the arena: it belongs to
    /// the new object, and the free callback takes it out. If the closure
    /// fails the box is taken out again and dropped before this returns:
    /// the engine will never call the free callback for an object that it
    /// did not create.
    pub fn consume<T, F: FnOnce(u64) -> Result<T, Error>>(
        self,
        arena: &mut BoxArena<P>,
        closure: F,
    ) -> (r: Result<T, Error>)
        requires
            old(arena).wf(),
            old(arena).can_allocate(),
            closure.requires((old(arena).next_token(),)),
        ensures
            final(arena).wf(),
            closure.ensures((old(arena).next_token(),), r),
            r is Err ==> final(arena)@ == old(arena)@,
            r is Ok ==> final(arena)@ == old(arena)@.insert(old(arena).next_token(), self),
            !old(arena)@.contains_key(old(arena).next_token()),
            final(arena).next_token() == old(arena).next_token() + 1,
    {
        let token = arena.allocate(self);
        let res = closure(token);
        if res.is_err() {
            arena.free(token);
        }
        res
    }
}

/// The boxes that are lent to the engine, each under the token that the
/// engine holds as its userdata pointer.
pub struct BoxArena<P> {
    boxes: HashMap<u64, UserdataBox<P>>,
    next: u64,
}

impl<P> View for BoxArena<P> {
    type V = Map<u64, UserdataBox<P>>;

    closed spec fn view(&self) -> Map<u64, UserdataBox<P>> {
        self.boxes@
    }
}

impl<P> BoxArena<P> {
    /// The token that the next allocation gives.
    pub closed spec fn next_token(&self) -> u64 {
        self.next
    }

    /// The invariant of the arena: the next token is not in use.
    pub closed spec fn wf(&self) -> bool {
        forall|token: u64| #[trigger] self.boxes@.contains_key(token) ==> token < self.next
    }

    /// Whether a token is left to allocate under.
    pub open spec fn can_allocate(&self) -> bool {
        self.next_token() < u64::MAX
    }

    /// The next token is not in use.
    pub proof fn lemma_next_token_is_free(&self)
        requires
            self.wf(),
        ensures
            !self@.contains_key(self.next_token()),
    {
    }

    /// An arena that holds no box.
    pub fn new() -> (r: BoxArena<P>)
        ensures
            r.wf(),
            r.can_allocate(),
            r@ == Map::<u64, UserdataBox<P>>::empty(),
    {
        BoxArena { boxes: HashMap::new(), next: 1 }
    }

    /// Whether a token is left to allocate under.
    pub fn has_room(&self) -> (r: bool)
        ensures
            r == self.can_allocate(),
    {
        self.next < u64::MAX
    }

    /// The number of boxes that are lent out.
    pub fn len(&self) -> (r: usize)
        ensures
            r == self@.len(),
    {
        self.boxes.len()
    }

    /// Whether a box is lent out under `token`.
    pub fn contains(&self, token: u64) -> (r: bool)
        ensures
            r == self@.contains_key(token),
    {
        self.boxes.contains_key(&token)
    }

    /// Puts a box into the arena and returns its token, which no other box
    /// has.
    pub fn allocate(&mut self, b: UserdataBox<P>) -> (token: u64)
        requires
            old(self).wf(),
            old(self).can_allocate(),
        ensures
            final(self).wf(),
            token == old(self).next_token(),
            !old(self)@.contains_key(token),
            final(self)@ == old(self)@.insert(token, b),
            final(self).next_token() == token + 1,
    {
        let token = self.next;
        self.boxes.insert(token, b);
        self.next = token + 1;
        token
    }

    /// Takes the box under `token` out of the arena and drops it. Without
    /// such a box nothing changes.
    pub fn free(&mut self, token: u64)
        requires
            old(self).wf(),
        ensures
            final(self).wf(),
            final(self)@ == old(self)@.remove(token),
            final(self).next_token() == old(self).next_token(),
    {
        let _ = self.boxes.remove(&token);
    }
}

/// The free callback: the engine calls it with the token of a box when the
/// object that the box belongs to dies.
pub fn drop_userdata_cb<P>(arena: &mut BoxArena<P>, token: u64)
    requires
        old(arena).wf(),
    ensures
        final(arena).wf(),
        final(arena)@ == old(arena)@.remove(token),
        final(arena).next_token() == old(arena).next_token(),
{
    arena.free(token);
}

/// Runs a constructor call with a fresh, empty userdata box.
///
/// The closure gets the token of the box to pass as the userdata pointer.
/// If it fails the box is freed again before this returns and the arena
/// holds what it held; if it succeeds the box stays, under that token,
/// until the free callback takes it out. Either way the token is used up.
pub fn wrap_constructor<P, T, F: FnOnce(u64) -> Result<T, Error>>(
    arena: &mut BoxArena<P>,
    closure: F,
) -> (r: Result<T, Error>)
    requires
        old(arena).wf(),
        old(arena).can_allocate(),
        closure.requires((old(arena).next_token(),)),
    ensures
        final(arena).wf(),
        closure.ensures((old(arena).next_token(),), r),
        r is Err ==> final(arena)@ == old(arena)@,
        r is Ok ==> final(arena)@ == old(arena)@.insert(
            old(arena).next_token(),
            UserdataBox { userdata: None, streaming_userdata: None },
        ),
        !old(arena)@.contains_key(old(arena).next_token()),
        final(arena).next_token() == old(arena).next_token() + 1,
{
    UserdataBox::new().consume(arena, closure)
}

/// The table mirrors the engine: over any sequence of calls that it can
/// follow, the count that it holds for an object changes by exactly as
/// much as the calls change the engine's reference count of that object.
pub proof fn lemma_table_mirrors_refcount<P>(
    m: Map<u64, UserdataEntry<P>>,
    calls: Seq<EngineCall>,
    id: u64,
)
    requires
        can_record_all(m, calls),
    ensures
        count_of(recorded_all(m, calls), id) == count_of(m, id) + net_ref_delta(calls, id),
    decreases calls.len(),
{
    if calls.len() > 0 {
        lemma_table_mirrors_refcount(m, calls.drop_last(), id);
    }
}

/// The message of the error for a path that holds a NUL.
pub const PATH_HAS_NUL: &'static str = "Path contains a NULL byte";

/// Runs a constructor call that takes the path of a file, with a fresh,
/// empty userdata box.
///
/// A path that cannot be a C string gives a local error: the closure is
/// not run and no box is made. Otherwise this is `wrap_constructor`.
pub fn wrap_file_constructor<P, T, F: FnOnce(u64) -> Result<T, Error>>(
    path: &str,
    arena: &mut BoxArena<P>,
    closure: F,
) -> (r: Result<T, Error>)
    requires
        old(arena).wf(),
        old(arena).can_allocate(),
        is_c_text(path@) ==> closure.requires((old(arena).next_token(),)),
    ensures
        final(arena).wf(),
        !is_c_text(path@) ==> (r matches Err(e) && e.is_error(STATUS_LOCAL, PATH_HAS_NUL@)),
        is_c_text(path@) ==> closure.ensures((old(arena).next_token(),), r),
        r is Err ==> final(arena)@ == old(arena)@,
        r is Ok ==> final(arena)@ == old(arena)@.insert(
            old(arena).next_token(),
            UserdataBox { userdata: None, streaming_userdata: None },
        ),
        !old(arena)@.contains_key(old(arena).next_token()),
        final(arena).next_token() == if is_c_text(path@) {
            old(arena).next_token() + 1
        } else {
            old(arena).next_token() as int
        },
{
    if !is_c_string(path) {
        proof {
            arena.lemma_next_token_is_free();
        }
        return Err(Error::rust_error(PATH_HAS_NUL));
    }
    wrap_constructor(arena, closure)
}

/// Round trip: once `id` is registered, a payload that is set is the one
/// read back, and setting `None` afterwards clears it. The count is not
/// touched.
pub proof fn lemma_userdata_round_trip<P>(
    m: Map<u64, UserdataEntry<P>>,
    id: u64,
    payload: Option<P>,
)
    requires
        m.contains_key(id) ==> m[id].refcount < u64::MAX,
    ensures
        live(registered(m, id), id),
        with_payload(registered(m, id), id, payload)[id].payload == payload,
        with_payload(registered(m, id), id, payload)[id].refcount == registered(
            m,
            id,
        )[id].refcount,
        with_payload(with_payload(registered(m, id), id, payload), id, None)[id].payload is None,
{
}

/// Unregistering undoes a registration: where `id` is alive, one more
/// handle registered and then unregistered leaves the table as it was.
pub proof fn lemma_unregister_undoes_register<P>(m: Map<u64, UserdataEntry<P>>, id: u64)
    requires
        live(m, id),
        m[id].refcount < u64::MAX,
    ensures
        unregistered(registered(m, id), id) == m,
{
    assert(unregistered(registered(m, id), id) =~= m);
}

/// Counting: after two registrations of an identifier that had no live
/// handle, a payload set and one handle unregistered, the entry is alive
/// with count one and keeps its payload; after the second handle is
/// unregistered the count is zero and the payload is cleared.
pub proof fn lemma_userdata_refcounting<P>(
    m: Map<u64, UserdataEntry<P>>,
    id: u64,
    payload: Option<P>,
)
    requires
        !live(m, id),
    ensures
        ({
            let twice = with_payload(registered(registered(m, id), id), id, payload);
            let once = unregistered(twice, id);
            let none = unregistered(once, id);
            &&& live(once, id)
            &&& once[id].refcount == 1
            &&& once[id].payload == payload
            &&& none.contains_key(id)
            &&& none[id].refcount == 0
            &&& none[id].payload is None
            &&& !live_entries(none).contains_key(id)
        }),
{
}

/// Collection removes exactly the dead: an identifier has an entry after a
/// collection if and only if it was alive before, and that entry is
/// unchanged.
pub proof fn lemma_gc_keeps_live<P>(m: Map<u64, UserdataEntry<P>>, id: u64)
    ensures
        live_entries(m).contains_key(id) <==> live(m, id),
        live(m, id) ==> live_entries(m)[id] == m[id],
        live_entries(live_entries(m)) == live_entries(m),
{
    assert(live_entries(live_entries(m)) =~= live_entries(m));
}

} // verus!
