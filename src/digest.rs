use vstd::prelude::*;

verus! {

/// Bit pattern of the IEEE-754 double `0.0`.
pub const POS_ZERO_BITS: u64 = 0;

/// Bit pattern of the IEEE-754 double `-0.0`.
pub const NEG_ZERO_BITS: u64 = 0x8000_0000_0000_0000;

/// Bit pattern of the IEEE-754 double `1.0`.
pub const ONE_BITS: u64 = 0x3FF0_0000_0000_0000;

/// Bit pattern of the canonical quiet NaN, the aggregate of an empty digest.
pub const NAN_BITS: u64 = 0x7FF8_0000_0000_0000;

/// Compression given to a digest created by a merge request.
pub const DEFAULT_COMPRESSION: u64 = 100;

/// A cluster of observations: its mean and its weight, each held as the bit
/// pattern of an IEEE-754 double.
#[derive(Clone, Copy, Debug, PartialEq, Eq, Structural)]
pub struct Centroid {
    pub mean: u64,
    pub weight: u64,
}

/// A digest: its compression parameter, the aggregates `min`, `max`, `sum`
/// and `count`, and its centroids in ascending order of mean. Every float is
/// held as its IEEE-754 bit pattern, so that a value survives storage exactly.
#[derive(Clone, Debug)]
pub struct Digest {
    pub compression: u64,
    pub min: u64,
    pub max: u64,
    pub sum: u64,
    pub count: u64,
    pub centroids: Vec<Centroid>,
}

/// What a digest is, mathematically.
pub ghost struct DigestModel {
    pub compression: u64,
    pub min: u64,
    pub max: u64,
    pub sum: u64,
    pub count: u64,
    pub centroids: Seq<Centroid>,
}

impl View for Digest {
    type V = DigestModel;

    open spec fn view(&self) -> DigestModel {
        DigestModel {
            compression: self.compression,
            min: self.min,
            max: self.max,
            sum: self.sum,
            count: self.count,
            centroids: self.centroids@,
        }
    }
}

/// The digest that holds no observation yet.
pub open spec fn empty_model(compression: u64) -> DigestModel {
    DigestModel {
        compression,
        min: NAN_BITS,
        max: NAN_BITS,
        sum: POS_ZERO_BITS,
        count: POS_ZERO_BITS,
        centroids: Seq::empty(),
    }
}

impl Digest {
    /// A digest with no observation: no centroid, zero sum and count, and no
    /// minimum or maximum (both NaN).
    pub fn new(compression: u64) -> (r: Digest)
        ensures
            r@ == empty_model(compression),
    {
        Digest {
            compression,
            min: NAN_BITS,
            max: NAN_BITS,
            sum: POS_ZERO_BITS,
            count: POS_ZERO_BITS,
            centroids: Vec::new(),
        }
    }

    /// Whether the digest holds no centroid, and so no observation.
    pub fn is_empty(&self) -> (r: bool)
        ensures
            r == (self@.centroids.len() == 0),
    {
        self.centroids.len() == 0
    }
}

} // verus!
