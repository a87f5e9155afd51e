//! Handle registry: native objects live in an arena and are named to the host
//! by opaque integer handles. A handle is never reused, so a destroyed handle
//! stays detectably dead for the lifetime of the registry.
use vstd::prelude::*;

verus! {

/// Opaque token handed to the host; `0` is never issued and stands for "null".
pub type Handle = i64;

/// A misuse of a handle, detected instead of dereferencing a dangling slot.
#[derive(Debug, Clone, Copy, PartialEq, Eq, Structural)]
pub enum HandleError {
    /// The handle was never issued by this registry.
    UnknownHandle,
    /// The handle was issued but its object has been destroyed already.
    AlreadyDestroyed,
    /// The handle is live but names an object of another kind.
    WrongType,
}

/// Slot of handle `h` in the arena.
pub open spec fn slot_index(h: Handle) -> int {
    h - 1
}

/// Whether `h` was ever issued by a registry whose arena is `v`.
pub open spec fn was_issued<T>(v: Seq<Option<T>>, h: Handle) -> bool {
    1 <= h && h <= v.len()
}

/// The object currently behind `h`, if `h` is live.
pub open spec fn lookup<T>(v: Seq<Option<T>>, h: Handle) -> Option<T> {
    if was_issued(v, h) {
        v[slot_index(h)]
    } else {
        None
    }
}

pub open spec fn is_live<T>(v: Seq<Option<T>>, h: Handle) -> bool {
    lookup(v, h) is Some
}

/// The set of handles whose objects are alive.
pub open spec fn live_handles<T>(v: Seq<Option<T>>) -> Set<Handle> {
    Set::new(|h: Handle| is_live(v, h))
}

/// The handle that the next `create` issues.
pub open spec fn next_handle<T>(v: Seq<Option<T>>) -> Handle {
    (v.len() + 1) as Handle
}

/// Arena after `create(obj)`.
pub open spec fn spec_create<T>(v: Seq<Option<T>>, obj: T) -> Seq<Option<T>> {
    v.push(Some(obj))
}

/// Arena after `destroy(h)`; unchanged when `h` is not live.
pub open spec fn spec_destroy<T>(v: Seq<Option<T>>, h: Handle) -> Seq<Option<T>> {
    if is_live(v, h) {
        v.update(slot_index(h), None)
    } else {
        v
    }
}

/// The error that a lookup of a non-live handle reports.
pub open spec fn misuse_of<T>(v: Seq<Option<T>>, h: Handle) -> HandleError {
    if was_issued(v, h) {
        HandleError::AlreadyDestroyed
    } else {
        HandleError::UnknownHandle
    }
}

/// A handle created for `obj` resolves to `obj` right away; once destroyed,
/// resolving it or destroying it again reports `AlreadyDestroyed`, and no
/// other live handle is disturbed.
pub proof fn lemma_create_cast_destroy<T>(v: Seq<Option<T>>, obj: T)
    requires
        v.len() < i64::MAX,
    ensures
        ({
            let h = next_handle(v);
            let created = spec_create(v, obj);
            let destroyed = spec_destroy(created, h);
            &&& lookup(created, h) == Some(obj)
            &&& !is_live(destroyed, h)
            &&& misuse_of(destroyed, h) == HandleError::AlreadyDestroyed
            &&& spec_destroy(destroyed, h) == destroyed
            &&& forall|g: Handle| g != h ==> lookup(destroyed, g) == lookup(v, g)
        }),
{
    let h = next_handle(v);
    let created = spec_create(v, obj);
    let destroyed = spec_destroy(created, h);
    assert(created[slot_index(h)] == Some(obj));
    assert forall|g: Handle| g != h implies lookup(destroyed, g) == lookup(v, g) by {
        if was_issued(v, g) {
            assert(destroyed[slot_index(g)] == v[slot_index(g)]);
        }
    }
}

/// The live set follows the operations one by one: `create` adds exactly the
/// handle it issues, and `destroy` removes exactly the handle it is given.
/// So in whatever order creates and destroys interleave, the live set is the
/// handles created and not yet destroyed.
pub proof fn lemma_live_set_tracks_operations<T>(v: Seq<Option<T>>, obj: T, h: Handle)
    requires
        v.len() < i64::MAX,
    ensures
        live_handles(spec_create(v, obj)) == live_handles(v).insert(next_handle(v)),
        live_handles(spec_destroy(v, h)) == live_handles(v).remove(h),
{
    let c = spec_create(v, obj);
    assert forall|g: Handle| #[trigger] live_handles(c).contains(g) == live_handles(v).insert(
        next_handle(v),
    ).contains(g) by {
        if was_issued(v, g) {
            assert(c[slot_index(g)] == v[slot_index(g)]);
        }
    }
    assert(live_handles(c) =~= live_handles(v).insert(next_handle(v)));
    lemma_live_after_destroy(v, h);
}

/// `destroy` removes exactly the handle it is given from the live set.
pub proof fn lemma_live_after_destroy<T>(v: Seq<Option<T>>, h: Handle)
    ensures
        live_handles(spec_destroy(v, h)) == live_handles(v).remove(h),
{
    let d = spec_destroy(v, h);
    assert forall|g: Handle| #[trigger] live_handles(d).contains(g) == live_handles(v).remove(
        h,
    ).contains(g) by {
        if was_issued(v, g) && g != h {
            assert(d[slot_index(g)] == v[slot_index(g)]);
        }
    }
    assert(live_handles(d) =~= live_handles(v).remove(h));
}

/// Arena after destroying each of `hs` in turn.
pub open spec fn spec_destroy_all<T>(v: Seq<Option<T>>, hs: Seq<Handle>) -> Seq<Option<T>>
    decreases hs.len(),
{
    if hs.len() == 0 {
        v
    } else {
        spec_destroy_all(spec_destroy(v, hs[0]), hs.drop_first())
    }
}

/// Destroying every live handle, in any order, leaves no handle live.
pub proof fn lemma_destroy_all_live<T>(v: Seq<Option<T>>, hs: Seq<Handle>)
    requires
        live_handles(v).subset_of(hs.to_set()),
    ensures
        live_handles(spec_destroy_all(v, hs)) == Set::<Handle>::empty(),
    decreases hs.len(),
{
    if hs.len() == 0 {
        assert(live_handles(v) =~= Set::<Handle>::empty());
    } else {
        let d = spec_destroy(v, hs[0]);
        lemma_live_after_destroy(v, hs[0]);
        assert forall|g: Handle| live_handles(d).contains(g) implies hs.drop_first().to_set().contains(g) by {
            assert(hs.to_set().contains(g));
            let k = choose|k: int| 0 <= k < hs.len() && hs[k] == g;
            assert(k != 0);
            assert(hs.drop_first()[k - 1] == g);
        }
        lemma_destroy_all_live(d, hs.drop_first());
    }
}

/// Registry of native objects, addressed by handles from one space.
pub struct Registry<T> {
    slots: Vec<Option<T>>,
}

impl<T> View for Registry<T> {
    type V = Seq<Option<T>>;

    closed spec fn view(&self) -> Seq<Option<T>> {
        self.slots@
    }
}

impl<T> Registry<T> {
    pub fn new() -> (r: Self)
        ensures
            r@ == Seq::<Option<T>>::empty(),
            r.wf(),
    {
        Registry { slots: Vec::new() }
    }

    /// Every issued handle fits in a `Handle`.
    pub open spec fn wf(&self) -> bool {
        self@.len() <= i64::MAX
    }

    /// Whether another handle can still be issued.
    pub open spec fn has_room(&self) -> bool {
        self@.len() < i64::MAX
    }

    /// Whether another handle can still be issued.
    pub fn can_create(&self) -> (r: bool)
        ensures
            r == self.has_room(),
    {
        (self.slots.len() as u64) < (i64::MAX as u64)
    }

    /// Boxes `obj` and returns a fresh handle for it.
    pub fn create(&mut self, obj: T) -> (h: Handle)
        requires
            old(self).has_room(),
        ensures
            h == next_handle(old(self)@),
            h > 0,
            !was_issued(old(self)@, h),
            final(self)@ == spec_create(old(self)@, obj),
            final(self).wf(),
    {
        self.slots.push(Some(obj));
        self.slots.len() as Handle
    }

    /// Resolves `h` to its object, or reports the misuse.
    pub fn cast(&self, h: Handle) -> (r: Result<&T, HandleError>)
        ensures
            match r {
                Ok(obj) => lookup(self@, h) == Some(*obj),
                Err(e) => !is_live(self@, h) && e == misuse_of(self@, h),
            },
    {
        if h < 1 || h as u64 > self.slots.len() as u64 {
            return Err(HandleError::UnknownHandle);
        }
        let i: usize = (h - 1) as usize;
        match &self.slots[i] {
            Some(obj) => Ok(obj),
            None => Err(HandleError::AlreadyDestroyed),
        }
    }

    /// Whether `h` names a live object.
    pub fn contains(&self, h: Handle) -> (r: bool)
        ensures
            r == is_live(self@, h),
    {
        self.cast(h).is_ok()
    }

    /// Destroys the object behind `h` and hands it back; a second destroy of
    /// the same handle is reported, never accepted.
    pub fn destroy(&mut self, h: Handle) -> (r: Result<T, HandleError>)
        ensures
            final(self)@ == spec_destroy(old(self)@, h),
            old(self).wf() ==> final(self).wf(),
            match r {
                Ok(obj) => lookup(old(self)@, h) == Some(obj),
                Err(e) => !is_live(old(self)@, h) && e == misuse_of(old(self)@, h),
            },
    {
        if h < 1 || h as u64 > self.slots.len() as u64 {
            return Err(HandleError::UnknownHandle);
        }
        let i: usize = (h - 1) as usize;
        let mut taken: Option<T> = None;
        std::mem::swap(&mut taken, &mut self.slots[i]);
        match taken {
            Some(obj) => Ok(obj),
            None => Err(HandleError::AlreadyDestroyed),
        }
    }

    /// The handles that are currently live, in increasing order.
    pub fn known_handles(&self) -> (r: Vec<Handle>)
        requires
            self.wf(),
        ensures
            r@.to_set() == live_handles(self@),
            r@.no_duplicates(),
            forall|i: int, j: int| 0 <= i < j < r@.len() ==> r@[i] < r@[j],
    {
        let mut out: Vec<Handle> = Vec::new();
        let mut i: usize = 0;
        while i < self.slots.len()
            invariant
                i <= self.slots@.len(),
                self.slots@.len() <= i64::MAX,
                forall|k: int| 0 <= k < out@.len() ==> 1 <= #[trigger] out@[k] <= i,
                forall|k: int, l: int| 0 <= k < l < out@.len() ==> out@[k] < out@[l],
                forall|h: Handle|
                    1 <= h <= i ==> (is_live(self@, h) <==> out@.contains(h)),
                forall|k: int| 0 <= k < out@.len() ==> is_live(self@, #[trigger] out@[k]),
            decreases self.slots@.len() - i,
        {
            let ghost before = out@;
            if self.slots[i].is_some() {
                out.push((i + 1) as Handle);
            }
            proof {
                assert forall|h: Handle| 1 <= h <= i + 1 implies (is_live(self@, h)
                    <==> out@.contains(h)) by {
                    if h <= i {
                        if before.contains(h) {
                            let k = choose|k: int| 0 <= k < before.len() && before[k] == h;
                            assert(out@[k] == h);
                        }
                        if out@.contains(h) {
                            let k = choose|k: int| 0 <= k < out@.len() && out@[k] == h;
                            if k < before.len() {
                                assert(before[k] == h);
                            }
                        }
                    } else if is_live(self@, h) {
                        assert(out@[out@.len() - 1] == h);
                    }
                }
            }
            i = i + 1;
        }
        proof {
            assert forall|h: Handle| #[trigger] out@.to_set().contains(h) == live_handles(self@).contains(h) by {
                if out@.contains(h) {
                    let k = choose|k: int| 0 <= k < out@.len() && out@[k] == h;
                    assert(is_live(self@, out@[k]));
                }
            }
            assert(out@.to_set() =~= live_handles(self@));
            assert forall|k: int, l: int| 0 <= k < out@.len() && 0 <= l < out@.len() && k != l implies out@[k] != out@[l] by {
                if k < l {} else {}
            }
        }
        out
    }
}

} // verus!
