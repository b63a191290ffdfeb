//! Capability bit-sets. Each of the three flag vocabularies (device, tracking,
//! distortion) has its own mask type, so a mask of one cannot be handed where
//! another is expected. Masks are values: setting a flag makes a new mask.
use core::marker::PhantomData;
use libc::c_uint;
use vstd::prelude::*;

verus! {

/// Marks masks of device capabilities.
#[derive(Clone, Copy, Debug, PartialEq, Eq)]
pub struct HmdCapBits;

/// Marks masks of tracking capabilities.
#[derive(Clone, Copy, Debug, PartialEq, Eq)]
pub struct TrackingCapBits;

/// Marks masks of distortion capabilities.
#[derive(Clone, Copy, Debug, PartialEq, Eq)]
pub struct DistortionCapBits;

/// Whether every bit of `flag` is set in `mask`.
pub open spec fn flag_is_set(mask: c_uint, flag: c_uint) -> bool {
    mask & flag == flag
}

/// `mask` with the bits of `flag` set or cleared.
pub open spec fn with_flag(mask: c_uint, flag: c_uint, state: bool) -> c_uint {
    if state {
        mask | flag
    } else {
        mask & !flag
    }
}

/// A mask of flags of one vocabulary, as the native layer encodes it.
#[derive(Debug)]
pub struct BitMask<D> {
    pub mask: c_uint,
    pub domain: PhantomData<D>,
}

pub type HmdCaps = BitMask<HmdCapBits>;

pub type TrackingCaps = BitMask<TrackingCapBits>;

pub type DistortionCaps = BitMask<DistortionCapBits>;

impl<D> BitMask<D> {
    pub fn new(mask: c_uint) -> (r: BitMask<D>)
        ensures
            r.mask == mask,
    {
        BitMask { mask, domain: PhantomData }
    }

    pub fn check_flag(&self, flag: c_uint) -> (r: bool)
        ensures
            r == flag_is_set(self.mask, flag),
    {
        self.mask & flag == flag
    }

    pub fn set_flag(&self, flag: c_uint, new_state: bool) -> (r: BitMask<D>)
        ensures
            r.mask == with_flag(self.mask, flag, new_state),
    {
        let mask = if new_state {
            self.mask | flag
        } else {
            self.mask & !flag
        };
        BitMask { mask, domain: PhantomData }
    }
}

/// Setting a flag makes it read as set; clearing a non-empty flag makes it
/// read as clear; and setting then clearing a flag that was clear gives the
/// mask back unchanged.
pub proof fn lemma_flag_set_clear(m: c_uint, f: c_uint)
    ensures
        flag_is_set(with_flag(m, f, true), f),
        f != 0 ==> !flag_is_set(with_flag(m, f, false), f),
        m & f == 0 ==> with_flag(with_flag(m, f, true), f, false) == m,
{
    assert((m | f) & f == f) by (bit_vector);
    assert(f != 0 ==> (m & !f) & f != f) by (bit_vector);
    assert(m & f == 0 ==> (m | f) & !f == m) by (bit_vector);
}

/// Setting or clearing a flag leaves every bit outside it as it was.
pub proof fn lemma_flag_other_bits(m: c_uint, f: c_uint, g: c_uint, state: bool)
    requires
        f & g == 0,
    ensures
        flag_is_set(with_flag(m, f, state), g) == flag_is_set(m, g),
{
    assert(f & g == 0 ==> (((m | f) & g == g) == (m & g == g))) by (bit_vector);
    assert(f & g == 0 ==> (((m & !f) & g == g) == (m & g == g))) by (bit_vector);
}

} // verus!
