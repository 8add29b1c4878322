use vstd::prelude::*;
use crate::family::TagFamily;

verus! {

/// One decoded tag: its id within its family and the number of bits that were
/// corrected to decode it.
pub struct Detection {
    id: u32,
    hamming: u32,
}

impl Detection {
    /// The id of the decoded tag.
    pub closed spec fn spec_id(&self) -> u32 {
        self.id
    }

    /// The number of corrected bits.
    pub closed spec fn spec_hamming(&self) -> u32 {
        self.hamming
    }

    /// Takes over a result that the decoder handed back.
    pub fn from_raw(id: u32, hamming: u32) -> (r: Detection)
        ensures
            r.spec_id() == id,
            r.spec_hamming() == hamming,
    {
        Detection { id, hamming }
    }

    /// The id of the decoded tag.
    pub fn id(&self) -> (r: u32)
        ensures
            r == self.spec_id(),
    {
        self.id
    }

    /// The number of corrected bits.
    pub fn hamming(&self) -> (r: u32)
        ensures
            r == self.spec_hamming(),
    {
        self.hamming
    }
}

/// The settings of a detector that decide which tags it looks for: the number of
/// worker threads, and each registered family with the number of bit errors it may correct.
pub struct DetectorState {
    pub threads: int,
    pub families: Seq<(TagFamily, u8)>,
}

/// A tag detector, exclusively owned, with the families it has been asked to look for.
pub struct Detector {
    nthreads: i32,
    families: Vec<(TagFamily, u8)>,
}

/// Number of bit errors corrected when a family is registered without saying.
pub const DEFAULT_CORRECTED_BITS: u8 = 2;

impl View for Detector {
    type V = DetectorState;

    closed spec fn view(&self) -> DetectorState {
        DetectorState { threads: self.nthreads as int, families: self.families@ }
    }
}

impl Detector {
    /// A detector with one thread and no families.
    pub fn new() -> (r: Detector)
        ensures
            r@.threads == 1,
            r@.families == Seq::<(TagFamily, u8)>::empty(),
    {
        Detector { nthreads: 1, families: Vec::new() }
    }

    /// A detector with `n` threads and no families.
    pub fn new_with_threads(n: i32) -> (r: Detector)
        ensures
            r@.threads == n,
            r@.families == Seq::<(TagFamily, u8)>::empty(),
    {
        Detector { nthreads: n, families: Vec::new() }
    }

    /// Registers `fam`, correcting up to `bits` bit errors.
    pub fn add_with_bits(&mut self, fam: TagFamily, bits: u8)
        ensures
            final(self)@.threads == old(self)@.threads,
            final(self)@.families == old(self)@.families.push((fam, bits)),
    {
        self.families.push((fam, bits));
    }

    /// Registers `fam` with the default number of corrected bits.
    pub fn add(&mut self, fam: TagFamily)
        ensures
            final(self)@.threads == old(self)@.threads,
            final(self)@.families == old(self)@.families.push((fam, DEFAULT_CORRECTED_BITS)),
    {
        self.add_with_bits(fam, DEFAULT_CORRECTED_BITS);
    }

    /// Forgets every registered family.
    pub fn clear(&mut self)
        ensures
            final(self)@.threads == old(self)@.threads,
            final(self)@.families == Seq::<(TagFamily, u8)>::empty(),
    {
        self.families.clear();
    }

    /// The number of worker threads.
    pub fn threads(&self) -> (r: i32)
        ensures
            r == self@.threads,
    {
        self.nthreads
    }

    /// The registered families, in the order they were registered.
    pub fn families(&self) -> (r: &[(TagFamily, u8)])
        ensures
            r@ == self@.families,
    {
        self.families.as_slice()
    }
}

} // verus!
