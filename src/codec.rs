//! Byte layout of a digest, every word eight bytes little-endian:
//! compression, min, max, sum, count, the number of centroids, then each
//! centroid's mean and weight.
use vstd::prelude::*;
use crate::digest::{Centroid, Digest, DigestModel};

verus! {

/// Number of header words before the centroids.
pub const HEADER_WORDS: usize = 6;

/// Number of header bytes before the centroids.
pub const HEADER_BYTES: usize = 48;

/// The only encoding version that `decode` accepts.
pub const ENCODING_VERSION: i32 = 0;

/// Why a byte sequence could not be turned back into a digest.
#[derive(Clone, Copy, Debug, PartialEq, Eq, Structural)]
pub enum DecodeError {
    /// The bytes were written under an encoding version other than 0.
    UnsupportedVersion(i32),
    /// The bytes are not a header followed by exactly the centroids it announces.
    Malformed,
}

/// The eight little-endian bytes of `x`.
pub open spec fn u64_le(x: u64) -> Seq<u8> {
    seq![
        x as u8,
        (x >> 8u64) as u8,
        (x >> 16u64) as u8,
        (x >> 24u64) as u8,
        (x >> 32u64) as u8,
        (x >> 40u64) as u8,
        (x >> 48u64) as u8,
        (x >> 56u64) as u8,
    ]
}

/// The word that eight little-endian bytes hold.
pub open spec fn le_u64(b: Seq<u8>) -> u64 {
    (b[0] as u64) | ((b[1] as u64) << 8u64) | ((b[2] as u64) << 16u64) | ((b[3] as u64) << 24u64)
        | ((b[4] as u64) << 32u64) | ((b[5] as u64) << 40u64) | ((b[6] as u64) << 48u64)
        | ((b[7] as u64) << 56u64)
}

/// The bytes of a sequence of words, each little-endian, one after another.
pub open spec fn bytes_of_words(w: Seq<u64>) -> Seq<u8> {
    Seq::new(8 * w.len(), |i: int| u64_le(w[i / 8])[i % 8])
}

/// The `k`-th word of a byte sequence.
pub open spec fn word_at(b: Seq<u8>, k: int) -> u64 {
    le_u64(b.subrange(8 * k, 8 * k + 8))
}

/// The words that a digest is written as.
pub open spec fn words_of(m: DigestModel) -> Seq<u64> {
    seq![m.compression, m.min, m.max, m.sum, m.count, m.centroids.len() as u64]
        + Seq::new(
        2 * m.centroids.len(),
        |k: int|
            if k % 2 == 0 {
                m.centroids[k / 2].mean
            } else {
                m.centroids[k / 2].weight
            },
    )
}

/// The bytes that a digest is written as.
pub open spec fn encoding(m: DigestModel) -> Seq<u8> {
    bytes_of_words(words_of(m))
}

/// Whether a digest's encoding has a length that `usize` and its count word hold.
pub open spec fn encodable(m: DigestModel) -> bool {
    HEADER_BYTES + 16 * m.centroids.len() <= usize::MAX
}

/// The number of centroids that a header announces.
pub open spec fn announced(b: Seq<u8>) -> int {
    word_at(b, 5) as int
}

/// Whether `b` is a header followed by exactly the centroids it announces.
pub open spec fn well_framed(b: Seq<u8>) -> bool {
    b.len() >= HEADER_BYTES && b.len() == HEADER_BYTES + 16 * announced(b)
}

/// The digest that well-framed bytes hold.
pub open spec fn parse(b: Seq<u8>) -> DigestModel {
    DigestModel {
        compression: word_at(b, 0),
        min: word_at(b, 1),
        max: word_at(b, 2),
        sum: word_at(b, 3),
        count: word_at(b, 4),
        centroids: Seq::new(
            announced(b) as nat,
            |j: int| Centroid { mean: word_at(b, 6 + 2 * j), weight: word_at(b, 7 + 2 * j) },
        ),
    }
}

/// What `decode` gives for the bytes `b` under version `version`.
pub open spec fn decoded(b: Seq<u8>, version: i32) -> Result<DigestModel, DecodeError> {
    if version != ENCODING_VERSION {
        Err(DecodeError::UnsupportedVersion(version))
    } else if !well_framed(b) {
        Err(DecodeError::Malformed)
    } else {
        Ok(parse(b))
    }
}

proof fn lemma_le_u64_of_u64_le(x: u64)
    ensures
        le_u64(u64_le(x)) == x,
{
    let b = u64_le(x);
    assert(le_u64(b) == (((x as u8) as u64) | ((((x >> 8u64) as u8) as u64) << 8u64) | ((((x
        >> 16u64) as u8) as u64) << 16u64) | ((((x >> 24u64) as u8) as u64) << 24u64) | ((((x
        >> 32u64) as u8) as u64) << 32u64) | ((((x >> 40u64) as u8) as u64) << 40u64) | ((((x
        >> 48u64) as u8) as u64) << 48u64) | ((((x >> 56u64) as u8) as u64) << 56u64)));
    assert((((x as u8) as u64) | ((((x >> 8u64) as u8) as u64) << 8u64) | ((((x >> 16u64) as u8)
        as u64) << 16u64) | ((((x >> 24u64) as u8) as u64) << 24u64) | ((((x >> 32u64) as u8)
        as u64) << 32u64) | ((((x >> 40u64) as u8) as u64) << 40u64) | ((((x >> 48u64) as u8)
        as u64) << 48u64) | ((((x >> 56u64) as u8) as u64) << 56u64)) == x) by (bit_vector);
}

proof fn lemma_word_at_bytes_of_words(w: Seq<u64>, k: int)
    requires
        0 <= k < w.len(),
    ensures
        word_at(bytes_of_words(w), k) == w[k],
{
    let b = bytes_of_words(w);
    assert(8 * k + 8 <= 8 * w.len()) by (nonlinear_arith)
        requires
            k < w.len(),
    ;
    assert forall|i: int| 0 <= i < 8 implies #[trigger] b.subrange(8 * k, 8 * k + 8)[i] == u64_le(
        w[k],
    )[i] by {
        assert((8 * k + i) / 8 == k && (8 * k + i) % 8 == i) by (nonlinear_arith)
            requires
                0 <= i < 8,
        ;
    }
    assert(b.subrange(8 * k, 8 * k + 8) =~= u64_le(w[k]));
    lemma_le_u64_of_u64_le(w[k]);
}

/// Decoding an encoded digest gives the digest back: its compression,
/// its aggregates, and each centroid's mean and weight.
pub proof fn lemma_round_trip(m: DigestModel)
    requires
        encodable(m),
    ensures
        well_framed(encoding(m)),
        parse(encoding(m)) == m,
        decoded(encoding(m), ENCODING_VERSION) == Ok::<DigestModel, DecodeError>(m),
{
    let w = words_of(m);
    let b = encoding(m);
    let n = m.centroids.len();
    assert(w.len() == 6 + 2 * n);
    lemma_word_at_bytes_of_words(w, 5);
    assert(announced(b) == n);
    assert(b.len() == HEADER_BYTES + 16 * n);
    assert forall|j: int| 0 <= j < n implies word_at(b, 6 + 2 * j) == m.centroids[j].mean
        && word_at(b, 7 + 2 * j) == m.centroids[j].weight by {
        lemma_word_at_bytes_of_words(w, 6 + 2 * j);
        lemma_word_at_bytes_of_words(w, 7 + 2 * j);
        assert(w[6 + 2 * j] == m.centroids[j].mean);
        assert(w[7 + 2 * j] == m.centroids[j].weight);
    }
    lemma_word_at_bytes_of_words(w, 0);
    lemma_word_at_bytes_of_words(w, 1);
    lemma_word_at_bytes_of_words(w, 2);
    lemma_word_at_bytes_of_words(w, 3);
    lemma_word_at_bytes_of_words(w, 4);
    assert(parse(b).centroids =~= m.centroids);
}

fn push_word(out: &mut Vec<u8>, x: u64)
    ensures
        final(out)@ == old(out)@ + u64_le(x),
{
    out.push(x as u8);
    out.push((x >> 8u64) as u8);
    out.push((x >> 16u64) as u8);
    out.push((x >> 24u64) as u8);
    out.push((x >> 32u64) as u8);
    out.push((x >> 40u64) as u8);
    out.push((x >> 48u64) as u8);
    out.push((x >> 56u64) as u8);
    assert(final(out)@ =~= old(out)@ + u64_le(x));
}

/// The bytes of `words`, each little-endian, one after another.
pub fn words_to_bytes(words: &Vec<u64>) -> (r: Vec<u8>)
    requires
        8 * words@.len() <= usize::MAX,
    ensures
        r@ == bytes_of_words(words@),
{
    let mut out: Vec<u8> = Vec::new();
    let mut k: usize = 0;
    while k < words.len()
        invariant
            k <= words@.len(),
            8 * words@.len() <= usize::MAX,
            out@ == bytes_of_words(words@.subrange(0, k as int)),
        decreases words@.len() - k,
    {
        let ghost before = out@;
        push_word(&mut out, words[k]);
        proof {
            let p = words@.subrange(0, k as int);
            let q = words@.subrange(0, k + 1);
            assert forall|i: int| 0 <= i < 8 * q.len() implies #[trigger] out@[i] == u64_le(
                q[i / 8],
            )[i % 8] by {
                if i < 8 * p.len() {
                    assert(out@[i] == before[i]);
                } else {
                    assert(i / 8 == k && i - 8 * k == i % 8) by (nonlinear_arith)
                        requires
                            8 * k <= i < 8 * k + 8,
                    ;
                }
            }
            assert(8 * q.len() == 8 * p.len() + 8);
            assert(out@ =~= bytes_of_words(q));
        }
        k = k + 1;
    }
    assert(words@.subrange(0, k as int) =~= words@);
    out
}

/// The little-endian word at `pos` in `b`.
fn read_word(b: &[u8], pos: usize) -> (r: u64)
    requires
        pos + 8 <= b@.len(),
    ensures
        r == le_u64(b@.subrange(pos as int, pos + 8)),
{
    let s = Ghost(b@.subrange(pos as int, pos + 8));
    assert(s@[0] == b@[pos as int] && s@[1] == b@[pos + 1] && s@[2] == b@[pos + 2] && s@[3]
        == b@[pos + 3] && s@[4] == b@[pos + 4] && s@[5] == b@[pos + 5] && s@[6] == b@[pos + 6]
        && s@[7] == b@[pos + 7]);
    (b[pos] as u64) | ((b[pos + 1] as u64) << 8u64) | ((b[pos + 2] as u64) << 16u64) | ((b[pos
        + 3] as u64) << 24u64) | ((b[pos + 4] as u64) << 32u64) | ((b[pos + 5] as u64) << 40u64)
        | ((b[pos + 6] as u64) << 48u64) | ((b[pos + 7] as u64) << 56u64)
}

impl Digest {
    /// Whether this digest's encoding is short enough for `usize` to measure.
    pub fn fits_encoding(&self) -> (r: bool)
        ensures
            r == encodable(self@),
    {
        self.centroids.len() <= (usize::MAX - HEADER_BYTES) / 16
    }

    /// The words that this digest is written as.
    fn words(&self) -> (r: Vec<u64>)
        requires
            encodable(self@),
        ensures
            r@ == words_of(self@),
    {
        let n = self.centroids.len();
        let mut w: Vec<u64> = Vec::new();
        w.push(self.compression);
        w.push(self.min);
        w.push(self.max);
        w.push(self.sum);
        w.push(self.count);
        w.push(n as u64);
        let mut j: usize = 0;
        while j < n
            invariant
                n == self.centroids@.len(),
                encodable(self@),
                j <= n,
                w@ == words_of(self@).subrange(0, 6 + 2 * j),
            decreases n - j,
        {
            let c = self.centroids[j];
            w.push(c.mean);
            w.push(c.weight);
            proof {
                let full = words_of(self@);
                assert(full[6 + 2 * j] == c.mean);
                assert(full[7 + 2 * j] == c.weight);
                assert(w@ =~= full.subrange(0, 6 + 2 * (j + 1)));
            }
            j = j + 1;
        }
        assert(w@ =~= words_of(self@));
        w
    }

    /// The bytes of this digest: compression, min, max, sum, count and the
    /// number of centroids, then each centroid's mean and weight, every word
    /// eight bytes little-endian.
    pub fn encode(&self) -> (r: Vec<u8>)
        requires
            encodable(self@),
        ensures
            r@ == encoding(self@),
    {
        let w = self.words();
        words_to_bytes(&w)
    }

    /// The digest held in `bytes`, written under encoding version `version`.
    /// Fails on any version but 0, and on bytes that are not a header followed
    /// by exactly the centroids it announces.
    pub fn decode(bytes: &[u8], version: i32) -> (r: Result<Digest, DecodeError>)
        ensures
            match r {
                Ok(d) => decoded(bytes@, version) == Ok::<DigestModel, DecodeError>(d@),
                Err(e) => decoded(bytes@, version) == Err::<DigestModel, DecodeError>(e),
            },
    {
        if version != ENCODING_VERSION {
            return Err(DecodeError::UnsupportedVersion(version));
        }
        let len = bytes.len();
        if len < HEADER_BYTES {
            return Err(DecodeError::Malformed);
        }
        let n = read_word(bytes, 40);
        if (len - HEADER_BYTES) % 16 != 0 || ((len - HEADER_BYTES) / 16) as u64 != n {
            return Err(DecodeError::Malformed);
        }
        let n = n as usize;
        let mut centroids: Vec<Centroid> = Vec::new();
        let mut j: usize = 0;
        while j < n
            invariant
                len == bytes@.len(),
                len == HEADER_BYTES + 16 * n,
                n == announced(bytes@),
                j <= n,
                centroids@ == parse(bytes@).centroids.subrange(0, j as int),
            decreases n - j,
        {
            let pos = HEADER_BYTES + 16 * j;
            let mean = read_word(bytes, pos);
            let weight = read_word(bytes, pos + 8);
            centroids.push(Centroid { mean, weight });
            proof {
                assert(pos == 8 * (6 + 2 * j));
                assert(pos + 8 == 8 * (7 + 2 * j));
                assert(centroids@ =~= parse(bytes@).centroids.subrange(0, j + 1));
            }
            j = j + 1;
        }
        let d = Digest {
            compression: read_word(bytes, 0),
            min: read_word(bytes, 8),
            max: read_word(bytes, 16),
            sum: read_word(bytes, 24),
            count: read_word(bytes, 32),
            centroids,
        };
        assert(centroids@ =~= parse(bytes@).centroids);
        assert(d@ == parse(bytes@));
        Ok(d)
    }
}

} // verus!
