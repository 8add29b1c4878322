use vstd::prelude::*;

verus! {

/// The closed set of tag families.
#[derive(Clone, Copy, Debug, PartialEq, Eq, Structural)]
pub enum TagFamily {
    Tag16h5,
    Tag25h9,
    Tag36h10,
    Tag36h11,
    TagCircle21h7,
    TagCircle49h12,
    TagCustom48h12,
    TagStandard41h12,
    TagStandard52h13,
}

/// Number of tag families, and of slots in a [`FamilyRegistry`].
pub const FAMILY_COUNT: usize = 9;

impl TagFamily {
    /// The registry slot that belongs to this family.
    pub open spec fn slot(self) -> int {
        match self {
            TagFamily::Tag16h5 => 0,
            TagFamily::Tag25h9 => 1,
            TagFamily::Tag36h10 => 2,
            TagFamily::Tag36h11 => 3,
            TagFamily::TagCircle21h7 => 4,
            TagFamily::TagCircle49h12 => 5,
            TagFamily::TagCustom48h12 => 6,
            TagFamily::TagStandard41h12 => 7,
            TagFamily::TagStandard52h13 => 8,
        }
    }

    fn slot_index(&self) -> (r: usize)
        ensures
            r == self.slot(),
            r < FAMILY_COUNT,
    {
        match self {
            TagFamily::Tag16h5 => 0,
            TagFamily::Tag25h9 => 1,
            TagFamily::Tag36h10 => 2,
            TagFamily::Tag36h11 => 3,
            TagFamily::TagCircle21h7 => 4,
            TagFamily::TagCircle49h12 => 5,
            TagFamily::TagCustom48h12 => 6,
            TagFamily::TagStandard41h12 => 7,
            TagFamily::TagStandard52h13 => 8,
        }
    }
}

/// A shared handle to the definition of one tag family.
///
/// A [`FamilyRegistry`] numbers the handles it makes in the order it made them:
/// two handles it gave out are the same one exactly when they compare equal.
#[derive(Clone, Copy, Debug, PartialEq, Eq, Structural)]
pub struct Family {
    /// The family this handle defines.
    pub tag_family: TagFamily,
    /// How many handles the registry had made before this one.
    pub serial: u64,
}

/// The state of a registry: one slot per family, filled once that family's handle
/// has been made, and the number of handles made so far.
pub struct RegistryState {
    pub slots: Seq<Option<Family>>,
    pub made: nat,
}

/// Number of filled slots.
pub open spec fn filled(slots: Seq<Option<Family>>) -> nat
    decreases slots.len(),
{
    if slots.len() == 0 {
        0
    } else {
        filled(slots.drop_last()) + if slots.last() is Some { 1nat } else { 0nat }
    }
}

impl RegistryState {
    /// The shape every registry keeps: one slot per family, each holding only a
    /// handle of its own family, and one handle made per filled slot.
    pub open spec fn wf(self) -> bool {
        &&& self.slots.len() == FAMILY_COUNT
        &&& self.made == filled(self.slots)
        &&& forall|i: int|
            0 <= i < self.slots.len() && #[trigger] self.slots[i] is Some ==> self.slots[i]->Some_0.tag_family.slot() == i
                && self.slots[i]->Some_0.serial < self.made
    }

    /// The state and the handle after a request for `kind`: the handle already in
    /// its slot, or else a new one, numbered by how many were made before it.
    pub open spec fn request(self, kind: TagFamily) -> (RegistryState, Family) {
        match self.slots[kind.slot()] {
            Some(f) => (self, f),
            None => {
                let f = Family { tag_family: kind, serial: self.made as u64 };
                (RegistryState { slots: self.slots.update(kind.slot(), Some(f)), made: self.made + 1 }, f)
            },
        }
    }
}

/// Hands out one shared handle per tag family, made on the first request for that
/// family and returned again on every later one.
pub struct FamilyRegistry {
    slots: Vec<Option<Family>>,
    made: u64,
}

impl View for FamilyRegistry {
    type V = RegistryState;

    closed spec fn view(&self) -> RegistryState {
        RegistryState { slots: self.slots@, made: self.made as nat }
    }
}

proof fn lemma_filled_bounded(slots: Seq<Option<Family>>)
    ensures
        filled(slots) <= slots.len(),
    decreases slots.len(),
{
    if slots.len() > 0 {
        lemma_filled_bounded(slots.drop_last());
    }
}

proof fn lemma_filled_update(slots: Seq<Option<Family>>, i: int, f: Family)
    requires
        0 <= i < slots.len(),
        slots[i] is None,
    ensures
        filled(slots.update(i, Some(f))) == filled(slots) + 1,
    decreases slots.len(),
{
    let u = slots.update(i, Some(f));
    if i == slots.len() - 1 {
        assert(u.drop_last() =~= slots.drop_last());
    } else {
        lemma_filled_update(slots.drop_last(), i, f);
        assert(u.drop_last() =~= slots.drop_last().update(i, Some(f)));
    }
}

impl FamilyRegistry {
    /// A registry in which no handle has been made yet.
    pub fn new() -> (r: FamilyRegistry)
        ensures
            r@.wf(),
            r@.made == 0,
            forall|i: int| 0 <= i < FAMILY_COUNT ==> #[trigger] r@.slots[i] is None,
    {
        let mut slots: Vec<Option<Family>> = Vec::new();
        let mut i: usize = 0;
        while i < FAMILY_COUNT
            invariant
                i <= FAMILY_COUNT,
                slots@.len() == i,
                forall|j: int| 0 <= j < i ==> #[trigger] slots@[j] is None,
                filled(slots@) == 0,
            decreases FAMILY_COUNT - i,
        {
            let ghost before = slots@;
            slots.push(None);
            assert(slots@.drop_last() =~= before);
            i = i + 1;
        }
        FamilyRegistry { slots, made: 0 }
    }

    /// How many handles have been made.
    pub fn made(&self) -> (r: u64)
        ensures
            r == self@.made,
    {
        self.made
    }
}

impl TagFamily {
    /// The shared handle of this family, made on the first request.
    pub fn family(&self, registry: &mut FamilyRegistry) -> (r: Family)
        requires
            old(registry)@.wf(),
        ensures
            (final(registry)@, r) == old(registry)@.request(*self),
            final(registry)@.wf(),
    {
        let i = self.slot_index();
        match registry.slots[i] {
            Some(f) => f,
            None => {
                proof {
                    lemma_filled_update(registry@.slots, i as int, Family { tag_family: *self, serial: registry.made });
                    lemma_filled_bounded(registry@.slots);
                }
                let f = Family { tag_family: *self, serial: registry.made };
                registry.slots.set(i, Some(f));
                registry.made = registry.made + 1;
                f
            },
        }
    }
}

/// Two requests in a row for one family, on a well-formed registry, are answered
/// with the same handle, and the second changes nothing. The first makes a handle,
/// exactly one, only when the family had none yet.
pub proof fn lemma_family_made_once(state: RegistryState, kind: TagFamily)
    requires
        state.wf(),
    ensures
        ({
            let (s1, f1) = state.request(kind);
            let (s2, f2) = s1.request(kind);
            &&& f1 == f2
            &&& s2 == s1
            &&& f1.tag_family == kind
            &&& s1.made == if state.slots[kind.slot()] is Some { state.made } else { state.made + 1 }
        }),
{
}

/// The registry state after `n` requests for `kind`, one after another.
pub open spec fn after_requests(state: RegistryState, kind: TagFamily, n: nat) -> RegistryState
    decreases n,
{
    if n == 0 {
        state
    } else {
        after_requests(state, kind, (n - 1) as nat).request(kind).0
    }
}

/// However many requests for one family follow each other, together they make at
/// most one handle, and the next request is answered with the handle the first one got.
pub proof fn lemma_many_requests_one_handle(state: RegistryState, kind: TagFamily, n: nat)
    requires
        state.wf(),
        n >= 1,
    ensures
        after_requests(state, kind, n) == state.request(kind).0,
        after_requests(state, kind, n).request(kind).1 == state.request(kind).1,
        after_requests(state, kind, n).made <= state.made + 1,
    decreases n,
{
    lemma_family_made_once(state, kind);
    let s1 = state.request(kind).0;
    assert(s1.request(kind) == state.request(kind));
    assert(after_requests(state, kind, 0) == state);
    if n > 1 {
        lemma_many_requests_one_handle(state, kind, (n - 1) as nat);
    }
}

} // verus!
