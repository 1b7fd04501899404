use percentile::codec::{DecodeError, HEADER_BYTES};
use percentile::digest::{Centroid, Digest, NAN_BITS};
use tdigest_rs::TDigest;

fn to_digest(t: &TDigest) -> Digest {
    Digest {
        compression: t.max_size() as u64,
        min: t.min().to_bits(),
        max: t.max().to_bits(),
        sum: t.sum().to_bits(),
        count: t.count().to_bits(),
        centroids: t
            .centroids()
            .iter()
            .map(|c| Centroid { mean: c.mean().to_bits(), weight: c.weight().to_bits() })
            .collect(),
    }
}

fn to_tdigest(d: &Digest) -> TDigest {
    let centroids = d
        .centroids
        .iter()
        .map(|c| tdigest_rs::Centroid::new(f64::from_bits(c.mean), f64::from_bits(c.weight)))
        .collect();
    TDigest::new(
        centroids,
        f64::from_bits(d.sum),
        f64::from_bits(d.count),
        f64::from_bits(d.max),
        f64::from_bits(d.min),
        d.compression as usize,
    )
}

fn same(a: &Digest, b: &Digest) -> bool {
    a.compression == b.compression
        && a.min == b.min
        && a.max == b.max
        && a.sum == b.sum
        && a.count == b.count
        && a.centroids == b.centroids
}

#[test]
fn encode_empty_digest_layout() {
    let d = Digest::new(100);
    let bytes = d.encode();
    assert_eq!(bytes.len(), HEADER_BYTES);
    assert_eq!(&bytes[0..8], &[100, 0, 0, 0, 0, 0, 0, 0]);
    assert_eq!(&bytes[8..16], &NAN_BITS.to_le_bytes());
    assert_eq!(&bytes[16..24], &NAN_BITS.to_le_bytes());
    assert_eq!(&bytes[24..48], &[0u8; 24]);
}

#[test]
fn encode_centroids_layout() {
    let d = Digest {
        compression: 7,
        min: 1.5f64.to_bits(),
        max: 2.5f64.to_bits(),
        sum: 4.0f64.to_bits(),
        count: 2.0f64.to_bits(),
        centroids: vec![
            Centroid { mean: 1.5f64.to_bits(), weight: 1.0f64.to_bits() },
            Centroid { mean: 2.5f64.to_bits(), weight: 1.0f64.to_bits() },
        ],
    };
    let bytes = d.encode();
    assert_eq!(bytes.len(), 48 + 32);
    assert_eq!(&bytes[0..8], &7u64.to_le_bytes());
    assert_eq!(&bytes[8..16], &1.5f64.to_bits().to_le_bytes());
    assert_eq!(&bytes[32..40], &2.0f64.to_bits().to_le_bytes());
    assert_eq!(&bytes[40..48], &2u64.to_le_bytes());
    assert_eq!(&bytes[48..56], &1.5f64.to_bits().to_le_bytes());
    assert_eq!(&bytes[56..64], &1.0f64.to_bits().to_le_bytes());
    assert_eq!(&bytes[64..72], &2.5f64.to_bits().to_le_bytes());
}

#[test]
fn round_trip_of_merged_digest() {
    let t = TDigest::new_with_size(100).merge_unsorted((1..=1000).rev().map(|i| i as f64).collect());
    let d = to_digest(&t);
    assert!(d.centroids.len() < 1000);
    let back = Digest::decode(&d.encode(), 0).unwrap();
    assert!(same(&d, &back));
}

#[test]
fn round_trip_of_empty_digest() {
    let d = Digest::new(25);
    let back = Digest::decode(&d.encode(), 0).unwrap();
    assert!(same(&d, &back));
}

#[test]
fn decode_rejects_other_versions() {
    let bytes = Digest::new(100).encode();
    assert_eq!(Digest::decode(&bytes, 1).unwrap_err(), DecodeError::UnsupportedVersion(1));
    assert_eq!(Digest::decode(&bytes, -3).unwrap_err(), DecodeError::UnsupportedVersion(-3));
}

#[test]
fn decode_rejects_short_header() {
    let bytes = Digest::new(100).encode();
    assert_eq!(Digest::decode(&bytes[..47], 0).unwrap_err(), DecodeError::Malformed);
    assert_eq!(Digest::decode(&[], 0).unwrap_err(), DecodeError::Malformed);
}

#[test]
fn decode_rejects_wrong_centroid_count() {
    let t = TDigest::new_with_size(100).merge_sorted(vec![1.0, 2.0, 3.0]);
    let mut bytes = to_digest(&t).encode();
    bytes.truncate(bytes.len() - 16);
    assert_eq!(Digest::decode(&bytes, 0).unwrap_err(), DecodeError::Malformed);
    bytes.push(0);
    assert_eq!(Digest::decode(&bytes, 0).unwrap_err(), DecodeError::Malformed);
}

#[test]
fn decoded_copy_estimates_the_same_median() {
    let t = TDigest::new_with_size(100).merge_unsorted(vec![10.0, 20.0, 30.0, 40.0, 50.0]);
    let before = t.estimate_quantile(0.5);
    let bytes = to_digest(&t).encode();
    let back = to_tdigest(&Digest::decode(&bytes, 0).unwrap());
    assert_eq!(back.estimate_quantile(0.5).to_bits(), before.to_bits());
}
