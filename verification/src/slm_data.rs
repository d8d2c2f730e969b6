//! The records that are edited and persisted: one phase pattern, and one
//! container of patterns with its display region.

use std::collections::HashMap;
use vstd::prelude::*;

verus! {

broadcast use vstd::std_specs::hash::group_hash_axioms;

/// A double-precision IEEE-754 number, held as its 64 bits.
///
/// The editor only stores and hands on such numbers, so the bits are all it
/// needs: two values are the same exactly when their bits are, and an
/// infinity or a NaN is kept as it came.
#[derive(Clone, Copy, Debug, PartialEq, Eq, Hash, Structural)]
pub struct Double {
    pub bits: u64,
}

impl Double {
    /// Positive zero, whose bits are all clear.
    pub open spec fn zero() -> Double {
        Double { bits: 0 }
    }

    /// The number with the given bit pattern.
    pub fn from_bits(bits: u64) -> (r: Double)
        ensures
            r.bits == bits,
    {
        Double { bits }
    }

    /// The bit pattern of this number.
    pub fn to_bits(self) -> (bits: u64)
        ensures
            bits == self.bits,
    {
        self.bits
    }
}

impl Default for Double {
    fn default() -> (r: Double)
        ensures
            r == Double::zero(),
    {
        Double { bits: 0 }
    }
}

/// The parameters of one phase pattern.
#[derive(Clone, Copy, Debug, PartialEq, Eq)]
pub struct PatternData {
    /// Topological charge.
    pub l: i32,
    /// Amplitude.
    pub a: Double,
    /// Wavevector, x and y.
    pub k: (Double, Double),
    /// Centre offset, x and y.
    pub c: (Double, Double),
    /// Phase offset.
    pub phase: Double,
}

impl PatternData {
    /// The pattern a user starts from: every parameter zero.
    pub open spec fn zeroed() -> PatternData {
        PatternData {
            l: 0,
            a: Double::zero(),
            k: (Double::zero(), Double::zero()),
            c: (Double::zero(), Double::zero()),
            phase: Double::zero(),
        }
    }
}

impl Default for PatternData {
    fn default() -> (r: PatternData)
        ensures
            r == PatternData::zeroed(),
    {
        let zero = Double { bits: 0 };
        PatternData { l: 0, a: zero, k: (zero, zero), c: (zero, zero), phase: zero }
    }
}

/// What a container is in contracts: its region and its patterns by id.
#[verifier::ext_equal]
pub struct PatternContainerView {
    pub top_left: (Double, Double),
    pub bottom_right: (Double, Double),
    pub pos: (Double, Double),
    pub scale: (Double, Double),
    pub patterns: Map<usize, PatternData>,
}

impl PatternContainerView {
    /// A container with a zero region and no pattern.
    pub open spec fn zeroed() -> PatternContainerView {
        PatternContainerView {
            top_left: (Double::zero(), Double::zero()),
            bottom_right: (Double::zero(), Double::zero()),
            pos: (Double::zero(), Double::zero()),
            scale: (Double::zero(), Double::zero()),
            patterns: Map::empty(),
        }
    }

    /// The same region, without the patterns.
    pub open spec fn cleared(self) -> PatternContainerView {
        PatternContainerView { patterns: Map::empty(), ..self }
    }
}

/// The parameters of one container and the patterns it owns.
#[derive(Debug, PartialEq, Eq)]
pub struct PatternContainerData {
    /// Top left corner of the display region.
    pub top_left: (Double, Double),
    /// Bottom right corner of the display region.
    pub bottom_right: (Double, Double),
    /// Where the container is placed.
    pub pos: (Double, Double),
    /// Scale factors, x and y.
    pub scale: (Double, Double),
    /// The patterns of this container, by id.
    pub patterns: HashMap<usize, PatternData>,
}

impl View for PatternContainerData {
    type V = PatternContainerView;

    open spec fn view(&self) -> PatternContainerView {
        PatternContainerView {
            top_left: self.top_left,
            bottom_right: self.bottom_right,
            pos: self.pos,
            scale: self.scale,
            patterns: self.patterns@,
        }
    }
}

impl Default for PatternContainerData {
    fn default() -> (r: PatternContainerData)
        ensures
            r@ == PatternContainerView::zeroed(),
    {
        let zero = Double { bits: 0 };
        PatternContainerData {
            top_left: (zero, zero),
            bottom_right: (zero, zero),
            pos: (zero, zero),
            scale: (zero, zero),
            patterns: HashMap::new(),
        }
    }
}

impl Clone for PatternContainerData {
    fn clone(&self) -> (r: PatternContainerData)
        ensures
            r@ == self@,
    {
        PatternContainerData {
            top_left: self.top_left,
            bottom_right: self.bottom_right,
            pos: self.pos,
            scale: self.scale,
            patterns: self.patterns.clone(),
        }
    }
}

} // verus!
